//! The AI sites shown as tabs, the conversation export formats and the
//! stages of the proxy start-up.
use vstd::prelude::*;

use crate::settings::ProxyMode;
use crate::text::str_eq;

verus! {

#[derive(Debug, Clone, Copy, PartialEq, Eq, Hash, Structural)]
pub enum AiSite {
    ChatGpt,
    Gemini,
    NotebookLm,
    AiStudio,
}

pub open spec fn all_sites() -> Seq<AiSite> {
    seq![AiSite::ChatGpt, AiSite::Gemini, AiSite::NotebookLm, AiSite::AiStudio]
}

pub open spec fn site_key(site: AiSite) -> Seq<char> {
    match site {
        AiSite::ChatGpt => "chatgpt"@,
        AiSite::Gemini => "gemini"@,
        AiSite::NotebookLm => "notebooklm"@,
        AiSite::AiStudio => "aistudio"@,
    }
}

pub open spec fn site_title(site: AiSite) -> Seq<char> {
    match site {
        AiSite::ChatGpt => "ChatGPT"@,
        AiSite::Gemini => "Gemini"@,
        AiSite::NotebookLm => "NotebookLM"@,
        AiSite::AiStudio => "Google AI Studio"@,
    }
}

pub open spec fn site_url(site: AiSite) -> Seq<char> {
    match site {
        AiSite::ChatGpt => crate::CHATGPT_URL@,
        AiSite::Gemini => "https://gemini.google.com"@,
        AiSite::NotebookLm => "https://notebooklm.google.com"@,
        AiSite::AiStudio => "https://aistudio.google.com"@,
    }
}

/// The site whose key is `key`.
pub open spec fn site_from_key(key: Seq<char>) -> Option<AiSite> {
    if key == "chatgpt"@ {
        Some(AiSite::ChatGpt)
    } else if key == "gemini"@ {
        Some(AiSite::Gemini)
    } else if key == "notebooklm"@ {
        Some(AiSite::NotebookLm)
    } else if key == "aistudio"@ {
        Some(AiSite::AiStudio)
    } else {
        None
    }
}

impl AiSite {
    /// The tabs, in display order.
    pub fn all() -> (r: Vec<AiSite>)
        ensures
            r@ == all_sites(),
    {
        let mut r: Vec<AiSite> = Vec::new();
        r.push(AiSite::ChatGpt);
        r.push(AiSite::Gemini);
        r.push(AiSite::NotebookLm);
        r.push(AiSite::AiStudio);
        assert(r@ =~= all_sites());
        r
    }

    pub fn key(self) -> (r: &'static str)
        ensures
            r@ == site_key(self),
    {
        match self {
            AiSite::ChatGpt => "chatgpt",
            AiSite::Gemini => "gemini",
            AiSite::NotebookLm => "notebooklm",
            AiSite::AiStudio => "aistudio",
        }
    }

    pub fn title(self) -> (r: &'static str)
        ensures
            r@ == site_title(self),
    {
        match self {
            AiSite::ChatGpt => "ChatGPT",
            AiSite::Gemini => "Gemini",
            AiSite::NotebookLm => "NotebookLM",
            AiSite::AiStudio => "Google AI Studio",
        }
    }

    pub fn url(self) -> (r: &'static str)
        ensures
            r@ == site_url(self),
    {
        match self {
            AiSite::ChatGpt => crate::CHATGPT_URL,
            AiSite::Gemini => "https://gemini.google.com",
            AiSite::NotebookLm => "https://notebooklm.google.com",
            AiSite::AiStudio => "https://aistudio.google.com",
        }
    }

    /// The site with the given key.
    pub fn from_key(key: &str) -> (r: Option<AiSite>)
        ensures
            r == site_from_key(key@),
    {
        if str_eq(key, "chatgpt") {
            Some(AiSite::ChatGpt)
        } else if str_eq(key, "gemini") {
            Some(AiSite::Gemini)
        } else if str_eq(key, "notebooklm") {
            Some(AiSite::NotebookLm)
        } else if str_eq(key, "aistudio") {
            Some(AiSite::AiStudio)
        } else {
            None
        }
    }
}

/// Looking a site up by its key gives the site back.
pub proof fn law_site_key_round_trip(site: AiSite)
    ensures
        site_from_key(site_key(site)) == Some(site),
{
    reveal_strlit("chatgpt");
    reveal_strlit("gemini");
    reveal_strlit("notebooklm");
    reveal_strlit("aistudio");
    assert("chatgpt"@.len() == 7 && "gemini"@.len() == 6);
    assert("notebooklm"@.len() == 10 && "aistudio"@.len() == 8);
}

/// The URL opened first for latency checks of a site.
pub open spec fn spec_latency_url(site: AiSite) -> Seq<char> {
    match site {
        AiSite::ChatGpt => "https://chatgpt.com/cdn-cgi/trace"@,
        _ => site_url(site),
    }
}

/// The URL probed to measure a site's latency.
pub fn latency_url_for_site(site: AiSite) -> (r: &'static str)
    ensures
        r@ == spec_latency_url(site),
{
    match site {
        AiSite::ChatGpt => crate::DELAY_TEST_URL,
        _ => site.url(),
    }
}

/// The start of the internal runtime is spawned once, and only in internal mode.
pub fn should_spawn_initial_runtime_start(mode: ProxyMode, already_spawned: bool) -> (r: bool)
    ensures
        r == (mode == ProxyMode::InternalClash && !already_spawned),
{
    mode == ProxyMode::InternalClash && !already_spawned
}

/// The sites that can be released to save memory: every loaded site except
/// ChatGPT and the active one, in order.
pub open spec fn spec_releasable(active: AiSite, loaded: Seq<AiSite>) -> Seq<AiSite>
    decreases loaded.len(),
{
    if loaded.len() == 0 {
        loaded
    } else {
        let rest = spec_releasable(active, loaded.drop_last());
        let s = loaded.last();
        if s != AiSite::ChatGpt && s != active {
            rest.push(s)
        } else {
            rest
        }
    }
}

pub fn releasable_sites_for_memory(active_site: AiSite, loaded_sites: &Vec<AiSite>) -> (r: Vec<
    AiSite,
>)
    ensures
        r@ == spec_releasable(active_site, loaded_sites@),
{
    let mut r: Vec<AiSite> = Vec::new();
    let mut i: usize = 0;
    while i < loaded_sites.len()
        invariant
            i <= loaded_sites.len(),
            r@ == spec_releasable(active_site, loaded_sites@.take(i as int)),
        decreases loaded_sites.len() - i,
    {
        assert(loaded_sites@.take(i + 1).drop_last() == loaded_sites@.take(i as int));
        let s = loaded_sites[i];
        if s != AiSite::ChatGpt && s != active_site {
            r.push(s);
        }
        i = i + 1;
    }
    assert(loaded_sites@.take(loaded_sites@.len() as int) == loaded_sites@);
    r
}

/// Releasing memory never closes ChatGPT or the active site, and keeps every
/// other loaded site in the list.
pub proof fn law_releasable_sites(active: AiSite, loaded: Seq<AiSite>)
    ensures
        forall|k: int|
            0 <= k < spec_releasable(active, loaded).len() ==> #[trigger] spec_releasable(
                active,
                loaded,
            )[k] != AiSite::ChatGpt && spec_releasable(active, loaded)[k] != active
                && loaded.contains(spec_releasable(active, loaded)[k]),
        forall|s: AiSite|
            loaded.contains(s) && s != AiSite::ChatGpt && s != active ==> #[trigger] spec_releasable(
                active,
                loaded,
            ).contains(s),
    decreases loaded.len(),
{
    if loaded.len() > 0 {
        let prev = loaded.drop_last();
        law_releasable_sites(active, prev);
        let r = spec_releasable(active, loaded);
        let rp = spec_releasable(active, prev);
        assert forall|k: int| 0 <= k < r.len() implies #[trigger] r[k] != AiSite::ChatGpt && r[k]
            != active && loaded.contains(r[k]) by {
            if k < rp.len() {
                assert(r[k] == rp[k]);
                let j = choose|j: int| 0 <= j < prev.len() && prev[j] == rp[k];
                assert(loaded[j] == prev[j]);
            } else {
                assert(loaded[loaded.len() - 1] == loaded.last());
            }
        }
        assert forall|s: AiSite|
            loaded.contains(s) && s != AiSite::ChatGpt && s != active implies #[trigger] r.contains(
            s,
        ) by {
            let j = choose|j: int| 0 <= j < loaded.len() && loaded[j] == s;
            if j < loaded.len() - 1 {
                assert(prev[j] == s);
                assert(prev.contains(s));
                assert(rp.contains(s));
                let m = choose|m: int| 0 <= m < rp.len() && rp[m] == s;
                assert(r[m] == s);
            } else {
                assert(r[r.len() - 1] == s);
            }
        }
    }
}

// ---------------------------------------------------------------------------
// Switching and closing tabs
// ---------------------------------------------------------------------------

/// Whether `site` has a loaded view.
pub fn site_is_loaded(loaded: &Vec<AiSite>, site: AiSite) -> (r: bool)
    ensures
        r == loaded@.contains(site),
{
    let mut i: usize = 0;
    while i < loaded.len()
        invariant
            i <= loaded.len(),
            forall|k: int| 0 <= k < i ==> loaded@[k] != site,
        decreases loaded.len() - i,
    {
        if loaded[i] == site {
            return true;
        }
        i = i + 1;
    }
    false
}

/// What switching to a tab does: build the site's view (hidden) when it is
/// not loaded, hide the view of the active site and show the new one when
/// the site changes, and make the site active.
#[derive(Debug, Clone, Copy, PartialEq, Eq, Structural)]
pub struct TabSwitch {
    pub build: bool,
    pub hide: Option<AiSite>,
    pub show: bool,
    pub active: AiSite,
}

pub fn switch_plan(active: AiSite, loaded: &Vec<AiSite>, site: AiSite) -> (r: TabSwitch)
    ensures
        r.build == !loaded@.contains(site),
        r.show == (active != site),
        r.hide == (if active != site && loaded@.contains(active) {
            Some(active)
        } else {
            None
        }),
        r.active == site,
{
    let hide = if active != site && site_is_loaded(loaded, active) {
        Some(active)
    } else {
        None
    };
    TabSwitch { build: !site_is_loaded(loaded, site), hide, show: active != site, active: site }
}

/// What closing a tab does. ChatGPT is never closed. Closing another site
/// drops its view (`removed` says whether it had one) and, when it was the
/// active site and ChatGPT is loaded, shows ChatGPT and makes it active.
#[derive(Debug, Clone, Copy, PartialEq, Eq, Structural)]
pub struct TabClose {
    pub close: bool,
    pub removed: bool,
    pub show_chatgpt: bool,
    pub active: AiSite,
}

pub fn close_plan(active: AiSite, loaded: &Vec<AiSite>, site: AiSite) -> (r: TabClose)
    ensures
        r.close == (site != AiSite::ChatGpt),
        r.removed == (site != AiSite::ChatGpt && loaded@.contains(site)),
        r.show_chatgpt == (site != AiSite::ChatGpt && active == site && loaded@.contains(
            AiSite::ChatGpt,
        )),
        r.active == (if r.show_chatgpt {
            AiSite::ChatGpt
        } else {
            active
        }),
{
    if site == AiSite::ChatGpt {
        return TabClose { close: false, removed: false, show_chatgpt: false, active };
    }
    let show_chatgpt = active == site && site_is_loaded(loaded, AiSite::ChatGpt);
    TabClose {
        close: true,
        removed: site_is_loaded(loaded, site),
        show_chatgpt,
        active: if show_chatgpt {
            AiSite::ChatGpt
        } else {
            active
        },
    }
}

/// The keys of the given sites.
pub fn loaded_site_keys_from_sites(sites: &Vec<AiSite>) -> (r: Vec<&'static str>)
    ensures
        r@.len() == sites@.len(),
        forall|k: int| 0 <= k < sites@.len() ==> (#[trigger] r@[k])@ == site_key(sites@[k]),
{
    let mut r: Vec<&'static str> = Vec::new();
    let mut i: usize = 0;
    while i < sites.len()
        invariant
            i <= sites.len(),
            r@.len() == i,
            forall|k: int| 0 <= k < i ==> (#[trigger] r@[k])@ == site_key(sites@[k]),
        decreases sites.len() - i,
    {
        r.push(sites[i].key());
        i = i + 1;
    }
    r
}

#[derive(Debug, Clone, Copy, PartialEq, Eq, Structural)]
pub enum ExportFormat {
    Markdown,
    Pdf,
}

pub open spec fn export_format_from_key(key: Seq<char>) -> Option<ExportFormat> {
    if key == "markdown"@ || key == "md"@ {
        Some(ExportFormat::Markdown)
    } else if key == "pdf"@ {
        Some(ExportFormat::Pdf)
    } else {
        None
    }
}

pub open spec fn export_format_key(f: ExportFormat) -> Seq<char> {
    match f {
        ExportFormat::Markdown => "markdown"@,
        ExportFormat::Pdf => "pdf"@,
    }
}

pub open spec fn export_format_extension(f: ExportFormat) -> Seq<char> {
    match f {
        ExportFormat::Markdown => "md"@,
        ExportFormat::Pdf => "pdf"@,
    }
}

impl ExportFormat {
    /// `markdown` or `md` for Markdown, `pdf` for PDF.
    pub fn from_key(key: &str) -> (r: Option<ExportFormat>)
        ensures
            r == export_format_from_key(key@),
    {
        if str_eq(key, "markdown") || str_eq(key, "md") {
            Some(ExportFormat::Markdown)
        } else if str_eq(key, "pdf") {
            Some(ExportFormat::Pdf)
        } else {
            None
        }
    }

    pub fn key(self) -> (r: &'static str)
        ensures
            r@ == export_format_key(self),
    {
        match self {
            ExportFormat::Markdown => "markdown",
            ExportFormat::Pdf => "pdf",
        }
    }

    pub fn extension(self) -> (r: &'static str)
        ensures
            r@ == export_format_extension(self),
    {
        match self {
            ExportFormat::Markdown => "md",
            ExportFormat::Pdf => "pdf",
        }
    }
}

/// A format's key and its file extension both name it again.
pub proof fn law_export_format_round_trip(f: ExportFormat)
    ensures
        export_format_from_key(export_format_key(f)) == Some(f),
        export_format_from_key(export_format_extension(f)) == Some(f),
{
    reveal_strlit("markdown");
    reveal_strlit("md");
    reveal_strlit("pdf");
    assert("markdown"@.len() == 8 && "md"@.len() == 2 && "pdf"@.len() == 3);
}

#[derive(Debug, Clone, Copy, PartialEq, Eq, Structural)]
pub enum StartupStage {
    LoadSettings,
    ResolvePorts,
    LoadSubscription,
    BuildMihomoConfig,
    StartMihomo,
    WaitController,
    RestoreNode,
    CheckConnectivity,
    Ready,
    Failed,
}

pub open spec fn all_stages() -> Seq<StartupStage> {
    seq![
        StartupStage::LoadSettings,
        StartupStage::ResolvePorts,
        StartupStage::LoadSubscription,
        StartupStage::BuildMihomoConfig,
        StartupStage::StartMihomo,
        StartupStage::WaitController,
        StartupStage::RestoreNode,
        StartupStage::CheckConnectivity,
        StartupStage::Ready,
        StartupStage::Failed,
    ]
}

pub open spec fn stage_key(s: StartupStage) -> Seq<char> {
    match s {
        StartupStage::LoadSettings => "load_settings"@,
        StartupStage::ResolvePorts => "resolve_ports"@,
        StartupStage::LoadSubscription => "load_subscription"@,
        StartupStage::BuildMihomoConfig => "build_mihomo_config"@,
        StartupStage::StartMihomo => "start_mihomo"@,
        StartupStage::WaitController => "wait_controller"@,
        StartupStage::RestoreNode => "restore_node"@,
        StartupStage::CheckConnectivity => "check_connectivity"@,
        StartupStage::Ready => "ready"@,
        StartupStage::Failed => "failed"@,
    }
}

pub open spec fn stage_label(s: StartupStage) -> Seq<char> {
    match s {
        StartupStage::LoadSettings => "读取配置"@,
        StartupStage::ResolvePorts => "检查本地端口"@,
        StartupStage::LoadSubscription => "读取或更新订阅"@,
        StartupStage::BuildMihomoConfig => "生成代理配置"@,
        StartupStage::StartMihomo => "启动 mihomo"@,
        StartupStage::WaitController => "等待控制器就绪"@,
        StartupStage::RestoreNode => "恢复上次节点"@,
        StartupStage::CheckConnectivity => "检测 ChatGPT 连通性"@,
        StartupStage::Ready => "代理已就绪"@,
        StartupStage::Failed => "代理启动失败"@,
    }
}

impl StartupStage {
    /// Every stage, in the order start-up goes through them.
    pub fn all() -> (r: Vec<StartupStage>)
        ensures
            r@ == all_stages(),
    {
        let mut r: Vec<StartupStage> = Vec::new();
        r.push(StartupStage::LoadSettings);
        r.push(StartupStage::ResolvePorts);
        r.push(StartupStage::LoadSubscription);
        r.push(StartupStage::BuildMihomoConfig);
        r.push(StartupStage::StartMihomo);
        r.push(StartupStage::WaitController);
        r.push(StartupStage::RestoreNode);
        r.push(StartupStage::CheckConnectivity);
        r.push(StartupStage::Ready);
        r.push(StartupStage::Failed);
        assert(r@ =~= all_stages());
        r
    }

    pub fn key(self) -> (r: &'static str)
        ensures
            r@ == stage_key(self),
    {
        match self {
            StartupStage::LoadSettings => "load_settings",
            StartupStage::ResolvePorts => "resolve_ports",
            StartupStage::LoadSubscription => "load_subscription",
            StartupStage::BuildMihomoConfig => "build_mihomo_config",
            StartupStage::StartMihomo => "start_mihomo",
            StartupStage::WaitController => "wait_controller",
            StartupStage::RestoreNode => "restore_node",
            StartupStage::CheckConnectivity => "check_connectivity",
            StartupStage::Ready => "ready",
            StartupStage::Failed => "failed",
        }
    }

    /// The text shown to the user for the stage.
    pub fn label(self) -> (r: &'static str)
        ensures
            r@ == stage_label(self),
    {
        match self {
            StartupStage::LoadSettings => "读取配置",
            StartupStage::ResolvePorts => "检查本地端口",
            StartupStage::LoadSubscription => "读取或更新订阅",
            StartupStage::BuildMihomoConfig => "生成代理配置",
            StartupStage::StartMihomo => "启动 mihomo",
            StartupStage::WaitController => "等待控制器就绪",
            StartupStage::RestoreNode => "恢复上次节点",
            StartupStage::CheckConnectivity => "检测 ChatGPT 连通性",
            StartupStage::Ready => "代理已就绪",
            StartupStage::Failed => "代理启动失败",
        }
    }
}

} // verus!
