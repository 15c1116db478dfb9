//! The decisions of the event loop and of the settings IPC: which handler a
//! message from a page goes to, which settings command a message names, when
//! saved settings restart the proxy runtime, and which proxy or group a check
//! or a delay test is about.
use vstd::prelude::*;

use crate::controller::{GroupView, ProxyState};
use crate::downloads::{DownloadEvent, DownloadEventView};
use crate::json::JsonValue;
use crate::settings::{
    local_http_proxy, local_http_proxy_view, opt_view, spec_active_subscription_url, AppSettings,
    ProxyMode, ProxySettings, ProxyUiSettings, ProxyUiView,
};
use crate::shell::{
    diagnostic_event_of, is_download_url_request, is_export_conversation_request,
    is_request_of, is_save_download_request, latency_event_of, message_id,
    parse_download_diagnostic_event, parse_latency_event, parse_memory_optimization_request_id,
    LatencyEvent, LatencyEventView,
};
use crate::text::{is_blank, opt_string_view, owned, str_eq, str_is_blank, trim, trim_str};

verus! {

// ---------------------------------------------------------------------------
// Messages from page views
// ---------------------------------------------------------------------------

/// Where a message from a page view (not the shell) goes.
#[derive(Debug, Clone, PartialEq, Eq)]
pub enum SiteMessage {
    /// Release background views and answer the request with this id.
    OptimizeMemory(Option<String>),
    /// Show a latency measured by the page.
    Latency(LatencyEvent),
    /// Save a file sent by the page.
    SaveDownload,
    /// Fetch a URL and save it.
    DownloadUrl,
    /// Record a download diagnostic.
    Diagnostic(DownloadEvent),
    /// Save an exported conversation.
    ExportConversation,
    /// A settings command, or anything else: the settings handler answers.
    Settings,
}

pub enum SiteMessageView {
    OptimizeMemory(Option<Seq<char>>),
    Latency(LatencyEventView),
    SaveDownload,
    DownloadUrl,
    Diagnostic(DownloadEventView),
    ExportConversation,
    Settings,
}

impl View for SiteMessage {
    type V = SiteMessageView;

    open spec fn view(&self) -> SiteMessageView {
        match self {
            SiteMessage::OptimizeMemory(id) => SiteMessageView::OptimizeMemory(opt_string_view(*id)),
            SiteMessage::Latency(e) => SiteMessageView::Latency(e@),
            SiteMessage::SaveDownload => SiteMessageView::SaveDownload,
            SiteMessage::DownloadUrl => SiteMessageView::DownloadUrl,
            SiteMessage::Diagnostic(e) => SiteMessageView::Diagnostic(e@),
            SiteMessage::ExportConversation => SiteMessageView::ExportConversation,
            SiteMessage::Settings => SiteMessageView::Settings,
        }
    }
}

/// The handler of a message from a page view, tried in this order: memory
/// optimisation, a latency result, a file to save, a URL to fetch, a
/// download diagnostic, an export; anything else goes to the settings
/// handler. `message` is the parsed message, `None` when it is not JSON.
pub open spec fn site_message_of(message: Option<JsonValue>) -> SiteMessageView {
    if is_request_of(message, "optimizeMemory"@) {
        SiteMessageView::OptimizeMemory(message_id(message->0))
    } else if latency_event_of(message) is Some {
        SiteMessageView::Latency(latency_event_of(message)->0)
    } else if is_request_of(message, "saveDownload"@) {
        SiteMessageView::SaveDownload
    } else if is_request_of(message, "downloadUrl"@) {
        SiteMessageView::DownloadUrl
    } else if diagnostic_event_of(message) is Some {
        SiteMessageView::Diagnostic(diagnostic_event_of(message)->0)
    } else if is_request_of(message, "exportConversation"@) {
        SiteMessageView::ExportConversation
    } else {
        SiteMessageView::Settings
    }
}

pub fn route_site_message(message: &Option<JsonValue>) -> (r: SiteMessage)
    ensures
        r@ == site_message_of(*message),
{
    if let Some(id) = parse_memory_optimization_request_id(message) {
        return SiteMessage::OptimizeMemory(id);
    }
    if let Some(event) = parse_latency_event(message) {
        return SiteMessage::Latency(event);
    }
    if is_save_download_request(message) {
        return SiteMessage::SaveDownload;
    }
    if is_download_url_request(message) {
        return SiteMessage::DownloadUrl;
    }
    if let Some(event) = parse_download_diagnostic_event(message) {
        return SiteMessage::Diagnostic(event);
    }
    if is_export_conversation_request(message) {
        return SiteMessage::ExportConversation;
    }
    SiteMessage::Settings
}

// ---------------------------------------------------------------------------
// Settings commands
// ---------------------------------------------------------------------------

/// A command of the settings page.
#[derive(Debug, Clone, Copy, PartialEq, Eq, Structural)]
pub enum IpcRequest {
    ProxyState,
    SaveSettings,
    SelectProxy,
    TestDelay,
    TestAllDelays,
    CheckChatGpt,
    RestartRuntime,
    RepairProxy,
    ReadProxyLogs,
    RefreshSubscription,
    Unknown,
}

/// The command a message `type` names; `getProxyState` and
/// `listProxyGroups` both ask for the proxy state.
pub open spec fn ipc_request_of(command: Seq<char>) -> IpcRequest {
    if command == "getProxyState"@ || command == "listProxyGroups"@ {
        IpcRequest::ProxyState
    } else if command == "saveSettings"@ {
        IpcRequest::SaveSettings
    } else if command == "selectProxy"@ {
        IpcRequest::SelectProxy
    } else if command == "testDelay"@ {
        IpcRequest::TestDelay
    } else if command == "testAllDelays"@ {
        IpcRequest::TestAllDelays
    } else if command == "checkChatGpt"@ {
        IpcRequest::CheckChatGpt
    } else if command == "restartRuntime"@ {
        IpcRequest::RestartRuntime
    } else if command == "repairProxy"@ {
        IpcRequest::RepairProxy
    } else if command == "readProxyLogs"@ {
        IpcRequest::ReadProxyLogs
    } else if command == "refreshSubscription"@ {
        IpcRequest::RefreshSubscription
    } else {
        IpcRequest::Unknown
    }
}

pub fn ipc_request(command: &str) -> (r: IpcRequest)
    ensures
        r == ipc_request_of(command@),
{
    if str_eq(command, "getProxyState") || str_eq(command, "listProxyGroups") {
        IpcRequest::ProxyState
    } else if str_eq(command, "saveSettings") {
        IpcRequest::SaveSettings
    } else if str_eq(command, "selectProxy") {
        IpcRequest::SelectProxy
    } else if str_eq(command, "testDelay") {
        IpcRequest::TestDelay
    } else if str_eq(command, "testAllDelays") {
        IpcRequest::TestAllDelays
    } else if str_eq(command, "checkChatGpt") {
        IpcRequest::CheckChatGpt
    } else if str_eq(command, "restartRuntime") {
        IpcRequest::RestartRuntime
    } else if str_eq(command, "repairProxy") {
        IpcRequest::RepairProxy
    } else if str_eq(command, "readProxyLogs") {
        IpcRequest::ReadProxyLogs
    } else if str_eq(command, "refreshSubscription") {
        IpcRequest::RefreshSubscription
    } else {
        IpcRequest::Unknown
    }
}

/// Whether a command is answered without holding the runtime state for the
/// length of a network call: delay tests, the reachability check and the
/// log.
pub open spec fn is_concurrent_request(request: IpcRequest) -> bool {
    request == IpcRequest::TestDelay || request == IpcRequest::TestAllDelays || request
        == IpcRequest::CheckChatGpt || request == IpcRequest::ReadProxyLogs
}

pub fn is_concurrent(request: IpcRequest) -> (r: bool)
    ensures
        r == is_concurrent_request(request),
{
    match request {
        IpcRequest::TestDelay | IpcRequest::TestAllDelays | IpcRequest::CheckChatGpt
        | IpcRequest::ReadProxyLogs => true,
        _ => false,
    }
}

// ---------------------------------------------------------------------------
// Saving settings
// ---------------------------------------------------------------------------

/// Saved settings restart the proxy runtime when the mode, the active
/// subscription (its id or URL) or the auto-update switch changed.
pub open spec fn restart_required(current: ProxyUiView, saved: ProxyUiView) -> bool {
    ||| saved.mode != current.mode
    ||| spec_active_subscription_url(saved) != spec_active_subscription_url(current)
    ||| saved.active_subscription_id != current.active_subscription_id
    ||| saved.auto_update_subscription != current.auto_update_subscription
}

pub fn settings_restart_required(current: &ProxyUiSettings, saved: &ProxyUiSettings) -> (r: bool)
    ensures
        r == restart_required(current@, saved@),
{
    let saved_url = saved.active_subscription_url();
    let current_url = current.active_subscription_url();
    saved.mode != current.mode || !str_eq(saved_url.as_str(), current_url.as_str()) || !str_eq(
        saved.active_subscription_id.as_str(),
        current.active_subscription_id.as_str(),
    ) || saved.auto_update_subscription != current.auto_update_subscription
}

/// Saving the settings that are already in use never restarts the runtime,
/// and neither does a change of the selected group, proxy or ports alone.
pub proof fn law_unchanged_subscription_keeps_runtime(current: ProxyUiView, saved: ProxyUiView)
    requires
        saved.mode == current.mode,
        saved.subscription_url == current.subscription_url,
        saved.active_subscription_id == current.active_subscription_id,
        saved.subscriptions == current.subscriptions,
        saved.auto_update_subscription == current.auto_update_subscription,
    ensures
        !restart_required(current, saved),
{
}

// ---------------------------------------------------------------------------
// Checks and delay tests
// ---------------------------------------------------------------------------

/// What the reachability check tests: the selected group, else the
/// selected proxy, each trimmed, else `GLOBAL`.
pub open spec fn check_target_of(proxy: ProxyUiView) -> Seq<char> {
    if !is_blank(proxy.selected_group) {
        trim(proxy.selected_group)
    } else if !is_blank(proxy.selected_proxy) {
        trim(proxy.selected_proxy)
    } else {
        "GLOBAL"@
    }
}

pub fn chatgpt_check_target(proxy: &ProxyUiSettings) -> (r: String)
    ensures
        r@ == check_target_of(proxy@),
{
    if !str_is_blank(proxy.selected_group.as_str()) {
        trim_str(proxy.selected_group.as_str())
    } else if !str_is_blank(proxy.selected_proxy.as_str()) {
        trim_str(proxy.selected_proxy.as_str())
    } else {
        owned("GLOBAL")
    }
}

/// The group whose nodes are all tested: the requested one, else the saved
/// group unless it is blank.
pub open spec fn delay_group_of(requested: Option<Seq<char>>, saved: Seq<char>) -> Option<Seq<char>> {
    match requested {
        Some(g) => Some(g),
        None => if is_blank(saved) {
            None
        } else {
            Some(saved)
        },
    }
}

pub fn delay_test_group(requested: Option<&str>, saved: &str) -> (r: Option<String>)
    ensures
        opt_string_view(r) == delay_group_of(
            match requested {
                Some(g) => Some(g@),
                None => None,
            },
            saved@,
        ),
{
    match requested {
        Some(g) => Some(owned(g)),
        None => if str_is_blank(saved) {
            None
        } else {
            Some(owned(saved))
        },
    }
}

/// The first group named `name`.
pub open spec fn group_named(groups: Seq<GroupView>, name: Seq<char>) -> Option<int>
    decreases groups.len(),
{
    if groups.len() == 0 {
        None
    } else {
        match group_named(groups.drop_last(), name) {
            Some(i) => Some(i),
            None => if groups.last().name == name {
                Some(groups.len() - 1)
            } else {
                None
            },
        }
    }
}

proof fn lemma_group_named(groups: Seq<GroupView>, name: Seq<char>)
    ensures
        group_named(groups, name) matches Some(i) ==> 0 <= i < groups.len() && groups[i].name
            == name && forall|j: int| 0 <= j < i ==> groups[j].name != name,
        group_named(groups, name) is None ==> forall|j: int|
            0 <= j < groups.len() ==> groups[j].name != name,
    decreases groups.len(),
{
    if groups.len() > 0 {
        lemma_group_named(groups.drop_last(), name);
        assert forall|j: int| 0 <= j < groups.len() - 1 implies groups.drop_last()[j] == groups[j] by {}
    }
}

/// The index of the first group named `name`, the one whose nodes a delay
/// test of every node covers.
pub fn find_group_index(state: &ProxyState, name: &str) -> (r: Option<usize>)
    ensures
        match r {
            Some(i) => group_named(state@, name@) == Some(i as int),
            None => group_named(state@, name@) is None,
        },
        r matches Some(i) ==> i < state.groups.len() && state@[i as int].name == name@,
{
    proof {
        lemma_group_named(state@, name@);
    }
    let mut i: usize = 0;
    while i < state.groups.len()
        invariant
            0 <= i <= state.groups.len(),
            state@.len() == state.groups.len(),
            forall|j: int| 0 <= j < i ==> state@[j].name != name@,
            group_named(state@, name@) matches Some(k) ==> 0 <= k < state@.len() && state@[k].name
                == name@ && forall|j: int| 0 <= j < k ==> state@[j].name != name@,
            group_named(state@, name@) is None ==> forall|j: int|
                0 <= j < state@.len() ==> state@[j].name != name@,
        decreases state.groups.len() - i,
    {
        assert(state@[i as int] == state.groups[i as int]@);
        if str_eq(state.groups[i].name.as_str(), name) {
            return Some(i);
        }
        i = i + 1;
    }
    None
}

// ---------------------------------------------------------------------------
// Latency measurements
// ---------------------------------------------------------------------------

/// The proxy a latency measurement goes through: none in direct mode, the
/// system proxy in system mode, and in internal mode the running runtime's
/// proxy, else the local port of the settings.
pub open spec fn latency_proxy_of(
    settings: ProxyUiView,
    runtime_proxy: Option<ProxySettings>,
    system_proxy: Option<ProxySettings>,
) -> Option<crate::settings::ProxySettingsView> {
    match settings.mode {
        ProxyMode::Direct => None,
        ProxyMode::System => opt_view(system_proxy),
        ProxyMode::InternalClash => match runtime_proxy {
            Some(p) => Some(p@),
            None => Some(local_http_proxy_view(settings.mixed_port)),
        },
    }
}

pub fn latency_proxy(
    settings: &AppSettings,
    runtime_proxy: Option<ProxySettings>,
    system_proxy: Option<ProxySettings>,
) -> (r: Option<ProxySettings>)
    ensures
        opt_view(r) == latency_proxy_of(settings@, runtime_proxy, system_proxy),
{
    match settings.proxy.mode {
        ProxyMode::Direct => None,
        ProxyMode::System => system_proxy,
        ProxyMode::InternalClash => match runtime_proxy {
            Some(p) => Some(p),
            None => Some(local_http_proxy(settings.proxy.mixed_port)),
        },
    }
}

} // verus!
