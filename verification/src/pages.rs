//! The pages and scripts that the client loads into its web views, built from
//! the templates with the values of the moment inserted.
use vstd::prelude::*;
use vstd::string::StringSliceAdditionalSpecFns;
use vstd::utf8::encode_utf8;

use crate::controller::{url_encode, url_encode_bytes};
use crate::jsontext::{opt_str_view, quote_json, array_text, bool_json, bool_text, json_member, json_object, json_quote, json_str_array, member_text, object_text, opt_str_json, opt_str_text, views};
use crate::settings::{AppSettings, ProxyMode};
use crate::site::{AiSite, ExportFormat, StartupStage, all_stages, export_format_key, loaded_site_keys_from_sites, site_key, site_title, site_url, stage_key, stage_label};
use crate::templates::{CLOSE_BUTTON_0, CLOSE_BUTTON_1, CLOSE_BUTTON_2, CLOSE_BUTTON_3, EXPORT_SCRIPT_0, EXPORT_SCRIPT_1, EXPORT_SCRIPT_2, FAILED_SCRIPT_0, FAILED_SCRIPT_1, INTERCEPTOR_0, PROGRESS_SCRIPT_0, PROGRESS_SCRIPT_1, READY_SCRIPT_0, READY_SCRIPT_1, SETTINGS_SCRIPT_0, TAB_0, TAB_1, TAB_2, TAB_3, TAB_4, TAB_5, TAB_6, TOP_SHELL_0, TOP_SHELL_1, TOP_SHELL_2, TOP_SHELL_3, WAITING_PAGE_0, WAITING_PAGE_1, WAITING_PAGE_2, WAITING_PAGE_3, WAITING_PAGE_4, interceptor_1, push_interceptor_1, push_settings_script_1, settings_script_1};
use crate::text::{hex_digits, hex_string_u128, opt_string_view, owned, dec_digits, dec_string, hex_char, hex_digit, push_char, push_str};
use crate::downloads::{DownloadHistory, DownloadRecordView, history_payload_text};
use crate::templates::{DOWNLOAD_MANAGER_1, download_manager_0, push_download_manager_0};

verus! {

/// The custom protocol that serves the top shell.
pub const SHELL_PROTOCOL: &'static str = "aiclient";

/// Where the top shell is loaded from.
pub const SHELL_URL: &'static str = "aiclient://shell/index.html?v=download-manager-native-v2";

/// The title and hint shown when the internal proxy cannot start.
pub const FAILED_TITLE: &'static str = "内置代理启动失败";

pub const FAILED_HINT: &'static str = "请确认程序包里存在 resources/clash/mihomo，或重新解压完整安装包/便携包后启动。";

// ---------------------------------------------------------------------------
// Settings panel and runtime scripts
// ---------------------------------------------------------------------------

/// The settings panel script with the settings JSON in place.
pub open spec fn settings_script_text(settings_json: Seq<char>) -> Seq<char> {
    SETTINGS_SCRIPT_0@ + settings_json + settings_script_1()
}

/// The script that adds the settings panel to a site, starting from
/// `settings_json`.
pub fn settings_button_script(settings_json: &str) -> (r: String)
    ensures
        r@ == settings_script_text(settings_json@),
{
    let mut r = String::new();
    push_str(&mut r, SETTINGS_SCRIPT_0);
    push_str(&mut r, settings_json);
    push_settings_script_1(&mut r);
    r
}

pub open spec fn ready_script_text(site: AiSite) -> Seq<char> {
    READY_SCRIPT_0@ + site_url(site) + READY_SCRIPT_1@
}

/// Sent to a site's view once the proxy is ready: the waiting page goes on
/// to the site, a loaded site is told that the runtime is ready.
pub fn runtime_ready_script_for_site(site: AiSite) -> (r: String)
    ensures
        r@ == ready_script_text(site),
{
    let mut r = String::new();
    push_str(&mut r, READY_SCRIPT_0);
    push_str(&mut r, site.url());
    push_str(&mut r, READY_SCRIPT_1);
    r
}

/// The failure payload: hint, message and title, as `serde_json` orders them.
pub open spec fn failed_payload_text(message: Seq<char>) -> Seq<char> {
    object_text(
        seq![
            member_text("hint"@, json_quote(FAILED_HINT@)),
            member_text("message"@, json_quote(message)),
            member_text("title"@, json_quote(FAILED_TITLE@)),
        ],
    )
}

pub open spec fn failed_script_text(message: Seq<char>) -> Seq<char> {
    FAILED_SCRIPT_0@ + failed_payload_text(message) + FAILED_SCRIPT_1@
}

/// Replaces the waiting page with the start-up error, or reports it to a
/// loaded site.
pub fn runtime_failed_script(error_message: &str) -> (r: String)
    ensures
        r@ == failed_script_text(error_message@),
{
    let mut members: Vec<String> = Vec::new();
    members.push(json_member("hint", quote_json(FAILED_HINT).as_str()));
    members.push(json_member("message", quote_json(error_message).as_str()));
    members.push(json_member("title", quote_json(FAILED_TITLE).as_str()));
    let payload = json_object(&members);
    assert(views(members@) =~= seq![
        member_text("hint"@, json_quote(FAILED_HINT@)),
        member_text("message"@, json_quote(error_message@)),
        member_text("title"@, json_quote(FAILED_TITLE@)),
    ]);
    let mut r = String::new();
    push_str(&mut r, FAILED_SCRIPT_0);
    push_str(&mut r, payload.as_str());
    push_str(&mut r, FAILED_SCRIPT_1);
    r
}

/// Where start-up stands: its stage, the seconds since it began, and a
/// message for the user.
#[derive(Debug, Clone)]
pub struct StartupProgress {
    pub stage: StartupStage,
    pub elapsed_secs: u64,
    pub message: Option<String>,
}

pub open spec fn progress_payload_text(stage: StartupStage, elapsed: u64, message: Option<Seq<char>>) -> Seq<char> {
    object_text(
        seq![
            member_text("elapsed_secs"@, dec_digits(elapsed as nat)),
            member_text("label"@, json_quote(stage_label(stage))),
            member_text("message"@, opt_str_text(message)),
            member_text("stage"@, json_quote(stage_key(stage))),
        ],
    )
}

pub open spec fn progress_script_text(stage: StartupStage, elapsed: u64, message: Option<Seq<char>>) -> Seq<char> {
    PROGRESS_SCRIPT_0@ + progress_payload_text(stage, elapsed, message) + PROGRESS_SCRIPT_1@
}

/// Updates the waiting page with the start-up progress.
pub fn startup_progress_script(progress: &StartupProgress) -> (r: String)
    ensures
        r@ == progress_script_text(progress.stage, progress.elapsed_secs, opt_string_view(progress.message)),
{
    let message: Option<&str> = match &progress.message {
        Some(m) => Some(m.as_str()),
        None => None,
    };
    let mut members: Vec<String> = Vec::new();
    members.push(json_member("elapsed_secs", dec_string(progress.elapsed_secs).as_str()));
    members.push(json_member("label", quote_json(progress.stage.label()).as_str()));
    members.push(json_member("message", opt_str_json(message).as_str()));
    members.push(json_member("stage", quote_json(progress.stage.key()).as_str()));
    let payload = json_object(&members);
    assert(views(members@) =~= seq![
        member_text("elapsed_secs"@, dec_digits(progress.elapsed_secs as nat)),
        member_text("label"@, json_quote(stage_label(progress.stage))),
        member_text("message"@, opt_str_text(opt_string_view(progress.message))),
        member_text("stage"@, json_quote(stage_key(progress.stage))),
    ]);
    let mut r = String::new();
    push_str(&mut r, PROGRESS_SCRIPT_0);
    push_str(&mut r, payload.as_str());
    push_str(&mut r, PROGRESS_SCRIPT_1);
    r
}

// ---------------------------------------------------------------------------
// Waiting page and the first URL of a site
// ---------------------------------------------------------------------------

/// The stage keys, separated by commas.
pub open spec fn stage_keys_text() -> Seq<char> {
    "load_settings,resolve_ports,load_subscription,build_mihomo_config,start_mihomo,wait_controller,restore_node,check_connectivity,ready,failed"@
}

pub open spec fn waiting_page_text(site: AiSite) -> Seq<char> {
    WAITING_PAGE_0@ + site_title(site) + WAITING_PAGE_1@ + stage_keys_text() + WAITING_PAGE_2@
        + site_url(site) + WAITING_PAGE_3@ + site_url(site) + WAITING_PAGE_4@
}

pub open spec fn waiting_page_url_text(site: AiSite) -> Seq<char> {
    "data:text/html;charset=utf-8,"@ + url_encode_bytes(encode_utf8(waiting_page_text(site)))
}

/// The keys of every start-up stage, in order, joined by commas.
pub fn startup_stage_keys() -> (r: String)
    ensures
        r@ == stage_keys_text(),
{
    let stages = StartupStage::all();
    let mut r = String::new();
    let mut i: usize = 0;
    while i < stages.len()
        invariant
            stages@ == all_stages(),
            i <= stages.len(),
            r@ == stage_keys_prefix(i as int),
        decreases stages.len() - i,
    {
        if i > 0 {
            push_char(&mut r, ',');
        }
        push_str(&mut r, stages[i].key());
        i = i + 1;
    }
    proof {
        reveal_strlit("load_settings,resolve_ports,load_subscription,build_mihomo_config,start_mihomo,wait_controller,restore_node,check_connectivity,ready,failed");
        reveal_strlit("load_settings");
        reveal_strlit("resolve_ports");
        reveal_strlit("load_subscription");
        reveal_strlit("build_mihomo_config");
        reveal_strlit("start_mihomo");
        reveal_strlit("wait_controller");
        reveal_strlit("restore_node");
        reveal_strlit("check_connectivity");
        reveal_strlit("ready");
        reveal_strlit("failed");
        reveal_with_fuel(stage_keys_prefix, 11);
        assert(r@ =~= stage_keys_text());
    }
    r
}

/// The keys of the first `n` stages, joined by commas.
pub open spec fn stage_keys_prefix(n: int) -> Seq<char>
    decreases n,
{
    if n <= 0 {
        Seq::empty()
    } else if n == 1 {
        stage_key(all_stages()[0])
    } else {
        stage_keys_prefix(n - 1) + seq![','] + stage_key(all_stages()[n - 1])
    }
}

/// The local page shown while the internal proxy starts.
pub fn waiting_page_html(site: AiSite) -> (r: String)
    ensures
        r@ == waiting_page_text(site),
{
    let keys = startup_stage_keys();
    let mut r = String::new();
    push_str(&mut r, WAITING_PAGE_0);
    push_str(&mut r, site.title());
    push_str(&mut r, WAITING_PAGE_1);
    push_str(&mut r, keys.as_str());
    push_str(&mut r, WAITING_PAGE_2);
    push_str(&mut r, site.url());
    push_str(&mut r, WAITING_PAGE_3);
    push_str(&mut r, site.url());
    push_str(&mut r, WAITING_PAGE_4);
    r
}

/// The waiting page as a `data:` URL.
pub fn waiting_page_url(site: AiSite) -> (r: String)
    ensures
        r@ == waiting_page_url_text(site),
{
    let html = waiting_page_html(site);
    let encoded = url_encode(html.as_str());
    let mut r = String::new();
    push_str(&mut r, "data:text/html;charset=utf-8,");
    push_str(&mut r, encoded.as_str());
    r
}

/// What a site's view opens first: the waiting page while the internal proxy
/// is not ready yet, the site itself otherwise.
pub open spec fn initial_url_text(mode: ProxyMode, site: AiSite, runtime_ready: bool) -> Seq<char> {
    if mode == ProxyMode::InternalClash && !runtime_ready {
        waiting_page_url_text(site)
    } else {
        site_url(site)
    }
}

pub fn site_initial_url(settings: &AppSettings, site: AiSite, runtime_ready: bool) -> (r: String)
    ensures
        r@ == initial_url_text(settings.proxy.mode, site, runtime_ready),
{
    if settings.proxy.mode == ProxyMode::InternalClash {
        if runtime_ready {
            let mut r = String::new();
            push_str(&mut r, site.url());
            return r;
        }
        waiting_page_url(site)
    } else {
        let mut r = String::new();
        push_str(&mut r, site.url());
        r
    }
}

// ---------------------------------------------------------------------------
// Top shell
// ---------------------------------------------------------------------------

pub open spec fn close_button_text(site: AiSite) -> Seq<char> {
    if site == AiSite::ChatGpt {
        Seq::empty()
    } else {
        close_button_of(site)
    }
}

/// The tab of `site`, the `index`-th of the bar.
pub open spec fn tab_text(site: AiSite, index: nat, active: AiSite) -> Seq<char> {
    TAB_0@ + site_key(site) + TAB_1@ + bool_text(site == active) + TAB_2@ + bool_text(site == active)
        + TAB_3@ + site_title(site) + TAB_4@ + dec_digits(index + 1) + TAB_5@ + close_button_text(site)
        + TAB_6@
}

/// What stands between two tabs.
pub open spec fn tab_separator() -> Seq<char> {
    "\n        "@
}

pub open spec fn tabs_text(active: AiSite) -> Seq<char> {
    tab_text(AiSite::ChatGpt, 0, active) + tab_separator() + tab_text(AiSite::Gemini, 1, active)
        + tab_separator() + tab_text(AiSite::NotebookLm, 2, active) + tab_separator() + tab_text(
        AiSite::AiStudio,
        3,
        active,
    )
}

pub open spec fn top_shell_text(active: AiSite) -> Seq<char> {
    TOP_SHELL_0@ + tabs_text(active) + TOP_SHELL_1@ + site_key(active) + TOP_SHELL_2@ + site_key(
        active,
    ) + TOP_SHELL_3@
}

pub open spec fn close_button_of(site: AiSite) -> Seq<char> {
    CLOSE_BUTTON_0@ + site_title(site) + CLOSE_BUTTON_1@ + site_title(site) + CLOSE_BUTTON_2@
        + site_key(site) + CLOSE_BUTTON_3@
}

fn close_button_html(site: AiSite) -> (r: String)
    ensures
        r@ == close_button_text(site),
{
    if site == AiSite::ChatGpt {
        let r = String::new();
        assert(r@ =~= Seq::<char>::empty());
        r
    } else {
        let mut r = owned(CLOSE_BUTTON_0);
        push_str(&mut r, site.title());
        push_str(&mut r, CLOSE_BUTTON_1);
        push_str(&mut r, site.title());
        push_str(&mut r, CLOSE_BUTTON_2);
        push_str(&mut r, site.key());
        push_str(&mut r, CLOSE_BUTTON_3);
        r
    }
}

fn tab_html(site: AiSite, index: u64, active: AiSite) -> (r: String)
    requires
        index < 4,
    ensures
        r@ == tab_text(site, index as nat, active),
{
    let close = close_button_html(site);
    let mut r = owned(TAB_0);
    push_str(&mut r, site.key());
    push_str(&mut r, TAB_1);
    push_str(&mut r, bool_json(site == active));
    push_str(&mut r, TAB_2);
    push_str(&mut r, bool_json(site == active));
    push_str(&mut r, TAB_3);
    push_str(&mut r, site.title());
    push_str(&mut r, TAB_4);
    push_str(&mut r, dec_string(index + 1).as_str());
    push_str(&mut r, TAB_5);
    push_str(&mut r, close.as_str());
    push_str(&mut r, TAB_6);
    r
}

fn tabs_html(active: AiSite) -> (r: String)
    ensures
        r@ == tabs_text(active),
{
    let mut r = tab_html(AiSite::ChatGpt, 0, active);
    push_str(&mut r, "\n        ");
    push_str(&mut r, tab_html(AiSite::Gemini, 1, active).as_str());
    push_str(&mut r, "\n        ");
    push_str(&mut r, tab_html(AiSite::NotebookLm, 2, active).as_str());
    push_str(&mut r, "\n        ");
    push_str(&mut r, tab_html(AiSite::AiStudio, 3, active).as_str());
    r
}

/// The top bar: the four site tabs, the status pills and the tool buttons,
/// with `active_site` shown as the current tab.
pub fn top_shell_html(active_site: AiSite) -> (r: String)
    ensures
        r@ == top_shell_text(active_site),
{
    let tabs = tabs_html(active_site);
    let mut r = owned(TOP_SHELL_0);
    push_str(&mut r, tabs.as_str());
    push_str(&mut r, TOP_SHELL_1);
    push_str(&mut r, active_site.key());
    push_str(&mut r, TOP_SHELL_2);
    push_str(&mut r, active_site.key());
    push_str(&mut r, TOP_SHELL_3);
    r
}

/// The address of the top shell.
pub fn top_shell_url() -> (r: &'static str)
    ensures
        r@ == SHELL_URL@,
{
    SHELL_URL
}

// ---------------------------------------------------------------------------
// Content scripts
// ---------------------------------------------------------------------------

pub open spec fn interceptor_text(token: Seq<char>) -> Seq<char> {
    INTERCEPTOR_0@ + json_quote(token) + interceptor_1()
}

/// The download interceptor of a site's view, carrying the view's IPC token
/// as a JSON string.
pub fn download_interceptor_script(download_ipc_token: &str) -> (r: String)
    ensures
        r@ == interceptor_text(download_ipc_token@),
{
    let mut r = String::new();
    push_str(&mut r, INTERCEPTOR_0);
    push_str(&mut r, quote_json(download_ipc_token).as_str());
    push_interceptor_1(&mut r);
    r
}

pub open spec fn export_script_text(site: AiSite, format: ExportFormat) -> Seq<char> {
    EXPORT_SCRIPT_0@ + export_format_key(format) + EXPORT_SCRIPT_1@ + seq!['"'] + site_title(site)
        + seq!['"'] + EXPORT_SCRIPT_2@
}

/// The script that collects the conversation of `site` as Markdown and posts
/// it back for export in `format`.
pub fn export_conversation_script(site: AiSite, format: ExportFormat) -> (r: String)
    ensures
        r@ == export_script_text(site, format),
{
    let mut r = String::new();
    push_str(&mut r, EXPORT_SCRIPT_0);
    push_str(&mut r, format.key());
    push_str(&mut r, EXPORT_SCRIPT_1);
    push_char(&mut r, '"');
    push_str(&mut r, site.title());
    push_char(&mut r, '"');
    push_str(&mut r, EXPORT_SCRIPT_2);
    r
}

// ---------------------------------------------------------------------------
// Notifications to the top shell
// ---------------------------------------------------------------------------

pub open spec fn site_keys_json(sites: Seq<AiSite>) -> Seq<char> {
    array_text(Seq::new(sites.len(), |k: int| json_quote(site_key(sites[k]))))
}

pub open spec fn tab_sync_text(active: AiSite, loaded: Seq<AiSite>) -> Seq<char> {
    "window.__aiClientSyncTabs && window.__aiClientSyncTabs("@ + json_quote(site_key(active))
        + ", "@ + site_keys_json(loaded) + ");"@
}

/// Tells the top shell which tab is active and which sites are loaded.
pub fn shell_tab_sync_script(active_site: AiSite, loaded: &Vec<AiSite>) -> (r: String)
    ensures
        r@ == tab_sync_text(active_site, loaded@),
{
    let keys = crate::site::loaded_site_keys_from_sites(loaded);
    let arr = json_str_array(&keys);
    assert(Seq::new(keys@.len(), |k: int| json_quote(keys@[k]@)) =~= Seq::new(
        loaded@.len(),
        |k: int| json_quote(site_key(loaded@[k])),
    ));
    let mut r = String::new();
    push_str(&mut r, "window.__aiClientSyncTabs && window.__aiClientSyncTabs(");
    push_str(&mut r, quote_json(active_site.key()).as_str());
    push_str(&mut r, ", ");
    push_str(&mut r, arr.as_str());
    push_str(&mut r, ");");
    r
}

pub open spec fn memory_payload_text(released: usize, active: AiSite, loaded: Seq<AiSite>) -> Seq<char> {
    object_text(
        seq![
            member_text("active_site"@, json_quote(site_key(active))),
            member_text("loaded_pages"@, site_keys_json(loaded)),
            member_text("released_pages"@, dec_digits(released as nat)),
        ],
    )
}

/// The answer to a memory optimisation: how many pages were released, the
/// active site and the sites still loaded.
pub fn memory_optimization_payload(released: usize, active_site: AiSite, loaded: Vec<AiSite>) -> (r: String)
    ensures
        r@ == memory_payload_text(released, active_site, loaded@),
{
    let keys = crate::site::loaded_site_keys_from_sites(&loaded);
    let arr = json_str_array(&keys);
    assert(Seq::new(keys@.len(), |k: int| json_quote(keys@[k]@)) =~= Seq::new(
        loaded@.len(),
        |k: int| json_quote(site_key(loaded@[k])),
    ));
    let mut members: Vec<String> = Vec::new();
    members.push(json_member("active_site", quote_json(active_site.key()).as_str()));
    members.push(json_member("loaded_pages", arr.as_str()));
    members.push(json_member("released_pages", dec_string(released as u64).as_str()));
    let r = json_object(&members);
    assert(views(members@) =~= seq![
        member_text("active_site"@, json_quote(site_key(active_site))),
        member_text("loaded_pages"@, site_keys_json(loaded@)),
        member_text("released_pages"@, dec_digits(released as nat)),
    ]);
    r
}

pub open spec fn download_notification_text(status: Seq<char>, path: Option<Seq<char>>, success: bool) -> Seq<char> {
    "window.__aiClientNotifyDownload && window.__aiClientNotifyDownload("@ + object_text(
        seq![
            member_text("path"@, opt_str_text(path)),
            member_text("status"@, json_quote(status)),
            member_text("success"@, bool_text(success)),
        ],
    ) + ");"@
}

/// Shows a download toast in the top shell.
pub fn download_notification_script(status: &str, path: Option<&str>, success: bool) -> (r: String)
    ensures
        r@ == download_notification_text(status@, opt_str_view(path), success),
{
    let mut members: Vec<String> = Vec::new();
    members.push(json_member("path", opt_str_json(path).as_str()));
    members.push(json_member("status", quote_json(status).as_str()));
    members.push(json_member("success", bool_json(success)));
    let payload = json_object(&members);
    assert(views(members@) =~= seq![
        member_text("path"@, opt_str_text(opt_str_view(path))),
        member_text("status"@, json_quote(status@)),
        member_text("success"@, bool_text(success)),
    ]);
    let mut r = String::new();
    push_str(&mut r, "window.__aiClientNotifyDownload && window.__aiClientNotifyDownload(");
    push_str(&mut r, payload.as_str());
    push_str(&mut r, ");");
    r
}

pub open spec fn ipc_token_text(site: AiSite, timestamp_nanos: u128, sequence: u64) -> Seq<char> {
    site_key(site) + seq!['-'] + hex_digits(timestamp_nanos as nat) + seq!['-'] + hex_digits(
        sequence as nat,
    )
}

/// The IPC token of a site's view: the site's key, the time in nanoseconds
/// and a sequence number, the last two in hexadecimal.
pub fn download_ipc_token(site: AiSite, timestamp_nanos: u128, sequence: u64) -> (r: String)
    ensures
        r@ == ipc_token_text(site, timestamp_nanos, sequence),
{
    let mut r = String::new();
    push_str(&mut r, site.key());
    push_char(&mut r, '-');
    push_str(&mut r, hex_string_u128(timestamp_nanos).as_str());
    push_char(&mut r, '-');
    push_str(&mut r, hex_string_u128(sequence as u128).as_str());
    r
}

// ---------------------------------------------------------------------------
// Download manager
// ---------------------------------------------------------------------------

pub open spec fn download_manager_text(records: Seq<DownloadRecordView>) -> Seq<char> {
    download_manager_0() + history_payload_text(records) + DOWNLOAD_MANAGER_1@
}

/// The download manager window, with the history as its first payload.
pub fn download_manager_html(history: &DownloadHistory) -> (r: String)
    ensures
        r@ == download_manager_text(history@.records),
{
    let payload = history.payload();
    let mut r = String::new();
    push_download_manager_0(&mut r);
    push_str(&mut r, payload.as_str());
    push_str(&mut r, DOWNLOAD_MANAGER_1);
    r
}

} // verus!
