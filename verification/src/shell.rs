//! The messages that the pages post to the client: which command a message
//! carries, the answer sent back, and the events reported by the views.
use vstd::prelude::*;

use crate::downloads::{DownloadEvent, DownloadEventKind, DownloadEventView};
use crate::json::{
    as_bool, as_bool_exec, as_str, as_string, as_u64, as_u64_exec, get, get_opt, get_opt_ref,
    get_ref, opt_deref, JsonValue,
};
use crate::jsontext::{
    bool_text, json_member, json_object, json_quote, member_text, object_text, opt_str_json,
    opt_str_text, opt_str_view, quote_json, views,
};
use crate::site::{
    export_format_from_key, site_from_key, site_key, AiSite, ExportFormat,
};
use crate::text::{
    chars_of, chars_starts_with, dec_digits, dec_string, is_blank, opt_string_view, owned,
    push_str, starts_with, str_eq, string_from, trim, trim_chars,
};

verus! {

/// Why a message was refused, in the words shown to the user.
#[derive(Debug, Clone, PartialEq, Eq)]
pub struct ShellError {
    pub message: String,
}

/// What the top shell asks the client to do.
#[derive(Debug, Clone, PartialEq, Eq)]
pub enum ShellCommand {
    SwitchSite(AiSite),
    CloseSite(AiSite),
    OptimizeMemory,
    NavBack,
    NavForward,
    ReloadActive,
    OpenDownloadPath(String),
    OpenDownloadFolder(String),
    OpenDownloadManager,
    CloseDownloadManager,
    ClearCompletedDownloads,
    DeleteDownloadRecord(u64),
    OpenDownloadSettings,
    MeasureLatency(AiSite),
    ExportConversation(ExportFormat),
}

pub enum ShellCommandView {
    SwitchSite(AiSite),
    CloseSite(AiSite),
    OptimizeMemory,
    NavBack,
    NavForward,
    ReloadActive,
    OpenDownloadPath(Seq<char>),
    OpenDownloadFolder(Seq<char>),
    OpenDownloadManager,
    CloseDownloadManager,
    ClearCompletedDownloads,
    DeleteDownloadRecord(u64),
    OpenDownloadSettings,
    MeasureLatency(AiSite),
    ExportConversation(ExportFormat),
}

impl View for ShellCommand {
    type V = ShellCommandView;

    open spec fn view(&self) -> ShellCommandView {
        match self {
            ShellCommand::SwitchSite(s) => ShellCommandView::SwitchSite(*s),
            ShellCommand::CloseSite(s) => ShellCommandView::CloseSite(*s),
            ShellCommand::OptimizeMemory => ShellCommandView::OptimizeMemory,
            ShellCommand::NavBack => ShellCommandView::NavBack,
            ShellCommand::NavForward => ShellCommandView::NavForward,
            ShellCommand::ReloadActive => ShellCommandView::ReloadActive,
            ShellCommand::OpenDownloadPath(p) => ShellCommandView::OpenDownloadPath(p@),
            ShellCommand::OpenDownloadFolder(p) => ShellCommandView::OpenDownloadFolder(p@),
            ShellCommand::OpenDownloadManager => ShellCommandView::OpenDownloadManager,
            ShellCommand::CloseDownloadManager => ShellCommandView::CloseDownloadManager,
            ShellCommand::ClearCompletedDownloads => ShellCommandView::ClearCompletedDownloads,
            ShellCommand::DeleteDownloadRecord(id) => ShellCommandView::DeleteDownloadRecord(*id),
            ShellCommand::OpenDownloadSettings => ShellCommandView::OpenDownloadSettings,
            ShellCommand::MeasureLatency(s) => ShellCommandView::MeasureLatency(*s),
            ShellCommand::ExportConversation(f) => ShellCommandView::ExportConversation(*f),
        }
    }
}

// ---------------------------------------------------------------------------
// Specifications
// ---------------------------------------------------------------------------

/// The text of an optional string, or the empty text.
pub open spec fn str_or_empty(s: Option<Seq<char>>) -> Seq<char> {
    match s {
        Some(t) => t,
        None => Seq::empty(),
    }
}

/// The `type` of a message, or the empty text.
pub open spec fn message_type(m: JsonValue) -> Seq<char> {
    str_or_empty(as_str(get(m, "type"@)))
}

/// The `id` of a message, when it is a string.
pub open spec fn message_id(m: JsonValue) -> Option<Seq<char>> {
    as_str(get(m, "id"@))
}

/// A member of the message's `payload`.
pub open spec fn payload_field(m: JsonValue, key: Seq<char>) -> Option<JsonValue> {
    get_opt(get(m, "payload"@), key)
}

/// A string member of the payload, or the empty text.
pub open spec fn payload_str(m: JsonValue, key: Seq<char>) -> Seq<char> {
    str_or_empty(as_str(payload_field(m, key)))
}

pub open spec fn site_command(
    site: Seq<char>,
    make: spec_fn(AiSite) -> ShellCommandView,
    err: Seq<char>,
) -> Result<ShellCommandView, Seq<char>> {
    match site_from_key(site) {
        Some(s) => Ok(make(s)),
        None => Err(err + site),
    }
}

pub open spec fn path_command(
    path: Seq<char>,
    make: spec_fn(Seq<char>) -> ShellCommandView,
) -> Result<ShellCommandView, Seq<char>> {
    if trim(path).len() == 0 {
        Err("download path is missing"@)
    } else {
        Ok(make(trim(path)))
    }
}

/// The command a message of the top shell carries; `None` for a message
/// that is not one (the settings panel's messages among them).
pub open spec fn shell_command_of(m: JsonValue) -> Option<Result<ShellCommandView, Seq<char>>> {
    let t = message_type(m);
    if t == "switchSite"@ {
        Some(
            site_command(
                payload_str(m, "site"@),
                |s: AiSite| ShellCommandView::SwitchSite(s),
                "unknown site: "@,
            ),
        )
    } else if t == "closeSite"@ {
        let site = payload_str(m, "site"@);
        Some(
            match site_from_key(site) {
                Some(s) => if s != AiSite::ChatGpt {
                    Ok(ShellCommandView::CloseSite(s))
                } else {
                    Err("unknown closable site: "@ + site)
                },
                None => Err("unknown closable site: "@ + site),
            },
        )
    } else if t == "optimizeMemory"@ {
        Some(Ok(ShellCommandView::OptimizeMemory))
    } else if t == "navBack"@ {
        Some(Ok(ShellCommandView::NavBack))
    } else if t == "navForward"@ {
        Some(Ok(ShellCommandView::NavForward))
    } else if t == "reloadActive"@ {
        Some(Ok(ShellCommandView::ReloadActive))
    } else if t == "openDownloadPath"@ {
        Some(
            path_command(
                payload_str(m, "path"@),
                |p: Seq<char>| ShellCommandView::OpenDownloadPath(p),
            ),
        )
    } else if t == "openDownloadFolder"@ {
        Some(
            path_command(
                payload_str(m, "path"@),
                |p: Seq<char>| ShellCommandView::OpenDownloadFolder(p),
            ),
        )
    } else if t == "openDownloadManager"@ {
        Some(Ok(ShellCommandView::OpenDownloadManager))
    } else if t == "closeDownloadManager"@ {
        Some(Ok(ShellCommandView::CloseDownloadManager))
    } else if t == "clearCompletedDownloads"@ {
        Some(Ok(ShellCommandView::ClearCompletedDownloads))
    } else if t == "deleteDownloadRecord"@ {
        let id = match as_u64(payload_field(m, "id"@)) {
            Some(n) => n,
            None => 0,
        };
        Some(
            if id == 0 {
                Err("download record id is missing"@)
            } else {
                Ok(ShellCommandView::DeleteDownloadRecord(id))
            },
        )
    } else if t == "openDownloadSettings"@ {
        Some(Ok(ShellCommandView::OpenDownloadSettings))
    } else if t == "measureLatency"@ {
        Some(
            site_command(
                payload_str(m, "site"@),
                |s: AiSite| ShellCommandView::MeasureLatency(s),
                "unknown latency site: "@,
            ),
        )
    } else if t == "exportConversation"@ {
        let format = payload_str(m, "format"@);
        Some(
            match export_format_from_key(format) {
                Some(f) => Ok(ShellCommandView::ExportConversation(f)),
                None => Err("unknown export format: "@ + format),
            },
        )
    } else {
        None
    }
}

/// A message that is not JSON is refused with the parser's words; a JSON
/// message goes by `shell_command_of`.
pub open spec fn parsed_shell_command(message: Result<JsonValue, Seq<char>>) -> Option<
    Result<ShellCommandView, Seq<char>>,
> {
    match message {
        Ok(m) => shell_command_of(m),
        Err(e) => Some(Err("invalid shell IPC message: "@ + e)),
    }
}

pub open spec fn shell_result_view(r: Option<Result<ShellCommand, ShellError>>) -> Option<
    Result<ShellCommandView, Seq<char>>,
> {
    match r {
        Some(Ok(c)) => Some(Ok(c@)),
        Some(Err(e)) => Some(Err(e.message@)),
        None => None,
    }
}

pub open spec fn result_error_view(r: Result<JsonValue, String>) -> Result<JsonValue, Seq<char>> {
    match r {
        Ok(m) => Ok(m),
        Err(e) => Err(e@),
    }
}

// ---------------------------------------------------------------------------
// Reading messages
// ---------------------------------------------------------------------------

/// The `type` of a message, or the empty text.
pub fn ipc_command(message: &JsonValue) -> (r: String)
    ensures
        r@ == message_type(*message),
{
    match as_string(get_ref(message, "type")) {
        Some(s) => s,
        None => String::new(),
    }
}

/// The `id` of a message, when it is a string.
pub fn ipc_message_id(message: &JsonValue) -> (r: Option<String>)
    ensures
        opt_string_view(r) == message_id(*message),
{
    as_string(get_ref(message, "id"))
}

fn payload_string(message: &JsonValue, key: &str) -> (r: String)
    ensures
        r@ == payload_str(*message, key@),
{
    match as_string(get_opt_ref(get_ref(message, "payload"), key)) {
        Some(s) => s,
        None => String::new(),
    }
}

fn error_with(prefix: &str, detail: &str) -> (e: ShellError)
    ensures
        e.message@ == prefix@ + detail@,
{
    let mut m = owned(prefix);
    push_str(&mut m, detail);
    ShellError { message: m }
}

fn error_of(text: &str) -> (e: ShellError)
    ensures
        e.message@ == text@,
{
    ShellError { message: owned(text) }
}

fn shell_command_of_message(message: &JsonValue) -> (r: Option<Result<ShellCommand, ShellError>>)
    ensures
        shell_result_view(r) == shell_command_of(*message),
{
    let t = ipc_command(message);
    let t = t.as_str();
    if str_eq(t, "switchSite") {
        let site = payload_string(message, "site");
        match AiSite::from_key(site.as_str()) {
            Some(s) => Some(Ok(ShellCommand::SwitchSite(s))),
            None => Some(Err(error_with("unknown site: ", site.as_str()))),
        }
    } else if str_eq(t, "closeSite") {
        let site = payload_string(message, "site");
        match AiSite::from_key(site.as_str()) {
            Some(s) => if s != AiSite::ChatGpt {
                Some(Ok(ShellCommand::CloseSite(s)))
            } else {
                Some(Err(error_with("unknown closable site: ", site.as_str())))
            },
            None => Some(Err(error_with("unknown closable site: ", site.as_str()))),
        }
    } else if str_eq(t, "optimizeMemory") {
        Some(Ok(ShellCommand::OptimizeMemory))
    } else if str_eq(t, "navBack") {
        Some(Ok(ShellCommand::NavBack))
    } else if str_eq(t, "navForward") {
        Some(Ok(ShellCommand::NavForward))
    } else if str_eq(t, "reloadActive") {
        Some(Ok(ShellCommand::ReloadActive))
    } else if str_eq(t, "openDownloadPath") || str_eq(t, "openDownloadFolder") {
        let path = payload_string(message, "path");
        let pv = chars_of(path.as_str());
        let trimmed = trim_chars(&pv);
        if trimmed.len() == 0 {
            Some(Err(error_of("download path is missing")))
        } else if str_eq(t, "openDownloadPath") {
            Some(Ok(ShellCommand::OpenDownloadPath(string_from(&trimmed))))
        } else {
            Some(Ok(ShellCommand::OpenDownloadFolder(string_from(&trimmed))))
        }
    } else if str_eq(t, "openDownloadManager") {
        Some(Ok(ShellCommand::OpenDownloadManager))
    } else if str_eq(t, "closeDownloadManager") {
        Some(Ok(ShellCommand::CloseDownloadManager))
    } else if str_eq(t, "clearCompletedDownloads") {
        Some(Ok(ShellCommand::ClearCompletedDownloads))
    } else if str_eq(t, "deleteDownloadRecord") {
        let id = match as_u64_exec(get_opt_ref(get_ref(message, "payload"), "id")) {
            Some(n) => n,
            None => 0,
        };
        if id == 0 {
            Some(Err(error_of("download record id is missing")))
        } else {
            Some(Ok(ShellCommand::DeleteDownloadRecord(id)))
        }
    } else if str_eq(t, "openDownloadSettings") {
        Some(Ok(ShellCommand::OpenDownloadSettings))
    } else if str_eq(t, "measureLatency") {
        let site = payload_string(message, "site");
        match AiSite::from_key(site.as_str()) {
            Some(s) => Some(Ok(ShellCommand::MeasureLatency(s))),
            None => Some(Err(error_with("unknown latency site: ", site.as_str()))),
        }
    } else if str_eq(t, "exportConversation") {
        let format = payload_string(message, "format");
        match ExportFormat::from_key(format.as_str()) {
            Some(f) => Some(Ok(ShellCommand::ExportConversation(f))),
            None => Some(Err(error_with("unknown export format: ", format.as_str()))),
        }
    } else {
        None
    }
}

/// The command of a top shell message; see `parsed_shell_command`. The
/// message comes parsed, or as the parser's error.
pub fn parse_shell_command(message: &Result<JsonValue, String>) -> (r: Option<
    Result<ShellCommand, ShellError>,
>)
    ensures
        shell_result_view(r) == parsed_shell_command(result_error_view(*message)),
{
    match message {
        Ok(m) => shell_command_of_message(m),
        Err(e) => Some(Err(error_with("invalid shell IPC message: ", e.as_str()))),
    }
}

/// The id of a memory optimisation request; `None` for any other message.
pub fn parse_memory_optimization_request_id(message: &Option<JsonValue>) -> (r: Option<
    Option<String>,
>)
    ensures
        r matches Some(id) ==> is_request_of(*message, "optimizeMemory"@) && opt_string_view(id)
            == message_id(message->0),
        r is None ==> !is_request_of(*message, "optimizeMemory"@),
{
    match message {
        Some(m) => {
            if str_eq(ipc_command(m).as_str(), "optimizeMemory") {
                Some(ipc_message_id(m))
            } else {
                None
            }
        },
        None => None,
    }
}

/// Whether a message is JSON of the given type.
pub open spec fn is_request_of(message: Option<JsonValue>, name: Seq<char>) -> bool {
    message matches Some(m) && message_type(m) == name
}

pub fn is_save_download_request(message: &Option<JsonValue>) -> (r: bool)
    ensures
        r == is_request_of(*message, "saveDownload"@),
{
    match message {
        Some(m) => str_eq(ipc_command(m).as_str(), "saveDownload"),
        None => false,
    }
}

pub fn is_download_url_request(message: &Option<JsonValue>) -> (r: bool)
    ensures
        r == is_request_of(*message, "downloadUrl"@),
{
    match message {
        Some(m) => str_eq(ipc_command(m).as_str(), "downloadUrl"),
        None => false,
    }
}

pub fn is_export_conversation_request(message: &Option<JsonValue>) -> (r: bool)
    ensures
        r == is_request_of(*message, "exportConversation"@),
{
    match message {
        Some(m) => str_eq(ipc_command(m).as_str(), "exportConversation"),
        None => false,
    }
}

// ---------------------------------------------------------------------------
// Answers
// ---------------------------------------------------------------------------

pub open spec fn ipc_ok_text(id: Option<Seq<char>>, data: Seq<char>) -> Seq<char> {
    object_text(
        seq![
            member_text("data"@, data),
            member_text("id"@, opt_str_text(id)),
            member_text("ok"@, bool_text(true)),
        ],
    )
}

pub open spec fn ipc_error_text(id: Option<Seq<char>>, error: Seq<char>) -> Seq<char> {
    object_text(
        seq![
            member_text("error"@, json_quote(error)),
            member_text("id"@, opt_str_text(id)),
            member_text("ok"@, bool_text(false)),
        ],
    )
}

/// A successful answer carrying `data`, which is JSON text.
pub fn ipc_ok(id: Option<&str>, data: &str) -> (r: String)
    ensures
        r@ == ipc_ok_text(opt_str_view(id), data@),
{
    let mut members: Vec<String> = Vec::new();
    members.push(json_member("data", data));
    members.push(json_member("id", opt_str_json(id).as_str()));
    members.push(json_member("ok", "true"));
    let r = json_object(&members);
    proof {
        reveal_strlit("true");
    }
    assert(views(members@) =~= seq![
        member_text("data"@, data@),
        member_text("id"@, opt_str_text(opt_str_view(id))),
        member_text("ok"@, bool_text(true)),
    ]);
    r
}

/// A refusal carrying `error`.
pub fn ipc_error(id: Option<&str>, error: &str) -> (r: String)
    ensures
        r@ == ipc_error_text(opt_str_view(id), error@),
{
    let mut members: Vec<String> = Vec::new();
    members.push(json_member("error", quote_json(error).as_str()));
    members.push(json_member("id", opt_str_json(id).as_str()));
    members.push(json_member("ok", "false"));
    let r = json_object(&members);
    assert(views(members@) =~= seq![
        member_text("error"@, json_quote(error@)),
        member_text("id"@, opt_str_text(opt_str_view(id))),
        member_text("ok"@, bool_text(false)),
    ]);
    r
}

// ---------------------------------------------------------------------------
// Latency reports
// ---------------------------------------------------------------------------

/// A latency measurement reported for a site.
#[derive(Debug, Clone, PartialEq, Eq)]
pub struct LatencyEvent {
    pub site: AiSite,
    pub delay_ms: Option<u64>,
    pub success: bool,
    pub error: Option<String>,
}

pub struct LatencyEventView {
    pub site: AiSite,
    pub delay_ms: Option<u64>,
    pub success: bool,
    pub error: Option<Seq<char>>,
}

impl View for LatencyEvent {
    type V = LatencyEventView;

    open spec fn view(&self) -> LatencyEventView {
        LatencyEventView {
            site: self.site,
            delay_ms: self.delay_ms,
            success: self.success,
            error: opt_string_view(self.error),
        }
    }
}

/// A `latencyResult` message with a known site; success defaults to whether
/// a delay was given.
pub open spec fn latency_event_of(message: Option<JsonValue>) -> Option<LatencyEventView> {
    match message {
        Some(m) => if message_type(m) == "latencyResult"@ && get(m, "payload"@) is Some {
            match as_str(payload_field(m, "site"@)) {
                Some(k) => match site_from_key(k) {
                    Some(site) => {
                        let delay = as_u64(payload_field(m, "delay_ms"@));
                        Some(
                            LatencyEventView {
                                site,
                                delay_ms: delay,
                                success: match as_bool(payload_field(m, "success"@)) {
                                    Some(b) => b,
                                    None => delay is Some,
                                },
                                error: as_str(payload_field(m, "error"@)),
                            },
                        )
                    },
                    None => None,
                },
                None => None,
            }
        } else {
            None
        },
        None => None,
    }
}

pub fn parse_latency_event(message: &Option<JsonValue>) -> (r: Option<LatencyEvent>)
    ensures
        r matches Some(e) ==> latency_event_of(*message) == Some(e@),
        r is None ==> latency_event_of(*message) is None,
{
    let m = match message {
        Some(m) => m,
        None => {
            return None;
        },
    };
    if !str_eq(ipc_command(m).as_str(), "latencyResult") {
        return None;
    }
    let payload = match get_ref(m, "payload") {
        Some(p) => p,
        None => {
            return None;
        },
    };
    let key = match as_string(get_ref(payload, "site")) {
        Some(k) => k,
        None => {
            return None;
        },
    };
    let site = match AiSite::from_key(key.as_str()) {
        Some(s) => s,
        None => {
            return None;
        },
    };
    let delay_ms = as_u64_exec(get_ref(payload, "delay_ms"));
    let success = match as_bool_exec(get_ref(payload, "success")) {
        Some(b) => b,
        None => delay_ms.is_some(),
    };
    let error = as_string(get_ref(payload, "error"));
    Some(LatencyEvent { site, delay_ms, success, error })
}

pub open spec fn opt_u64_json_text(n: Option<u64>) -> Seq<char> {
    match n {
        Some(v) => dec_digits(v as nat),
        None => "null"@,
    }
}

pub open spec fn latency_script_text(e: LatencyEventView) -> Seq<char> {
    "window.__aiClientUpdateLatency && window.__aiClientUpdateLatency("@ + object_text(
        seq![
            member_text("delay_ms"@, opt_u64_json_text(e.delay_ms)),
            member_text("error"@, opt_str_text(e.error)),
            member_text("site"@, json_quote(site_key(e.site))),
            member_text("success"@, bool_text(e.success)),
        ],
    ) + ");"@
}

/// Shows a latency measurement in the top shell.
pub fn latency_notification_script(event: &LatencyEvent) -> (r: String)
    ensures
        r@ == latency_script_text(event@),
{
    let delay = match event.delay_ms {
        Some(v) => dec_string(v),
        None => owned("null"),
    };
    let error: Option<&str> = match &event.error {
        Some(e) => Some(e.as_str()),
        None => None,
    };
    let mut members: Vec<String> = Vec::new();
    members.push(json_member("delay_ms", delay.as_str()));
    members.push(json_member("error", opt_str_json(error).as_str()));
    members.push(json_member("site", quote_json(event.site.key()).as_str()));
    members.push(json_member("success", crate::jsontext::bool_json(event.success)));
    let payload = json_object(&members);
    assert(views(members@) =~= seq![
        member_text("delay_ms"@, opt_u64_json_text(event.delay_ms)),
        member_text("error"@, opt_str_text(opt_string_view(event.error))),
        member_text("site"@, json_quote(site_key(event.site))),
        member_text("success"@, bool_text(event.success)),
    ]);
    let mut r = owned("window.__aiClientUpdateLatency && window.__aiClientUpdateLatency(");
    push_str(&mut r, payload.as_str());
    push_str(&mut r, ");");
    r
}

// ---------------------------------------------------------------------------
// Download diagnostics and URL downloads
// ---------------------------------------------------------------------------

pub open spec fn diagnostic_event_of(message: Option<JsonValue>) -> Option<DownloadEventView> {
    match message {
        Some(m) => if message_type(m) == "downloadDiagnostic"@ && get(m, "payload"@) is Some {
            let level = match as_str(payload_field(m, "level"@)) {
                Some(l) => l,
                None => "info"@,
            };
            let text = match as_str(payload_field(m, "message"@)) {
                Some(t) => t,
                None => "下载诊断事件"@,
            };
            Some(
                DownloadEventView {
                    kind: DownloadEventKind::Diagnostic,
                    status: "下载诊断："@ + text,
                    path: None,
                    url: None,
                    bytes: None,
                    success: level != "error"@,
                },
            )
        } else {
            None
        },
        None => None,
    }
}

/// The event of a `downloadDiagnostic` message; it counts as a failure only
/// at level `error`.
pub fn parse_download_diagnostic_event(message: &Option<JsonValue>) -> (r: Option<DownloadEvent>)
    ensures
        r matches Some(e) ==> diagnostic_event_of(*message) == Some(e@),
        r is None ==> diagnostic_event_of(*message) is None,
{
    let m = match message {
        Some(m) => m,
        None => {
            return None;
        },
    };
    if !str_eq(ipc_command(m).as_str(), "downloadDiagnostic") {
        return None;
    }
    let payload = match get_ref(m, "payload") {
        Some(p) => p,
        None => {
            return None;
        },
    };
    let level = match as_string(get_ref(payload, "level")) {
        Some(l) => l,
        None => owned("info"),
    };
    let text = match as_string(get_ref(payload, "message")) {
        Some(t) => t,
        None => owned("下载诊断事件"),
    };
    let mut status = owned("下载诊断：");
    push_str(&mut status, text.as_str());
    let success = !str_eq(level.as_str(), "error");
    Some(
        DownloadEvent {
            kind: DownloadEventKind::Diagnostic,
            status,
            path: None,
            url: None,
            bytes: None,
            success,
        },
    )
}

/// The token check of a URL download: the view must have a token, the
/// message must carry one, and they must be equal.
pub open spec fn token_check(message: JsonValue, expected: Option<Seq<char>>) -> Result<(), Seq<char>> {
    match expected {
        None => Err("download URL IPC is not allowed from this view"@),
        Some(t) => match as_str(payload_field(message, "token"@)) {
            None => Err("download URL IPC token is missing"@),
            Some(got) => if got == t {
                Ok(())
            } else {
                Err("download URL IPC token is invalid"@)
            },
        },
    }
}

pub open spec fn unit_result_view(r: Result<(), ShellError>) -> Result<(), Seq<char>> {
    match r {
        Ok(()) => Ok(()),
        Err(e) => Err(e.message@),
    }
}

pub fn verify_download_ipc_token(message: &JsonValue, expected_token: Option<&str>) -> (r: Result<
    (),
    ShellError,
>)
    ensures
        unit_result_view(r) == token_check(*message, opt_str_view(expected_token)),
{
    let expected = match expected_token {
        Some(t) => t,
        None => {
            return Err(error_of("download URL IPC is not allowed from this view"));
        },
    };
    let token = match as_string(get_opt_ref(get_ref(message, "payload"), "token")) {
        Some(t) => t,
        None => {
            return Err(error_of("download URL IPC token is missing"));
        },
    };
    if !str_eq(token.as_str(), expected) {
        return Err(error_of("download URL IPC token is invalid"));
    }
    Ok(())
}

/// The URL of a download request: present, trimmed, not blank, and http or
/// https.
pub open spec fn download_url_of(message: JsonValue) -> Result<Seq<char>, Seq<char>> {
    match as_str(payload_field(message, "url"@)) {
        None => Err("download URL is missing"@),
        Some(u) => {
            let t = trim(u);
            if t.len() == 0 {
                Err("download URL is missing"@)
            } else if !starts_with(t, "http://"@) && !starts_with(t, "https://"@) {
                Err("download URL must use http or https"@)
            } else {
                Ok(t)
            }
        },
    }
}

pub open spec fn string_result_view(r: Result<String, ShellError>) -> Result<Seq<char>, Seq<char>> {
    match r {
        Ok(s) => Ok(s@),
        Err(e) => Err(e.message@),
    }
}

pub fn download_url_from_message(message: &JsonValue) -> (r: Result<String, ShellError>)
    ensures
        string_result_view(r) == download_url_of(*message),
{
    let url = match as_string(get_opt_ref(get_ref(message, "payload"), "url")) {
        Some(u) => u,
        None => {
            return Err(error_of("download URL is missing"));
        },
    };
    let v = chars_of(url.as_str());
    let t = trim_chars(&v);
    if t.len() == 0 {
        return Err(error_of("download URL is missing"));
    }
    if !chars_starts_with(&t, "http://") && !chars_starts_with(&t, "https://") {
        return Err(error_of("download URL must use http or https"));
    }
    Ok(string_from(&t))
}

} // verus!
