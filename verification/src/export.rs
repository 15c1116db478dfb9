//! What the download and export messages ask for, the files they produce,
//! and the answers and history events that follow once a file is written.
use base64::Engine;
use vstd::prelude::*;
use vstd::string::{StrSliceExecFns, StringSliceAdditionalSpecFns};
use vstd::utf8::encode_utf8;

use crate::downloads::{DownloadEvent, DownloadEventKind, DownloadEventView};
use crate::filenames::{
    filename_from_url, sanitize_download_filename, sanitized_file_name, url_file_name,
};
use crate::json::{as_str, as_string, get, get_opt_ref, get_ref, JsonValue};
use crate::jsontext::{
    json_member, json_object, json_quote, member_text, object_text, opt_str_view, quote_json, views,
};
use crate::pdf::{export_pdf_document, pdf_document_bytes};
use crate::shell::{
    download_url_from_message, download_url_of, ipc_error, ipc_error_text, ipc_ok, ipc_ok_text,
    message_id, payload_field, token_check, verify_download_ipc_token, ShellError,
};
use crate::site::{
    export_format_extension, export_format_from_key, export_format_key, site_title, AiSite,
    ExportFormat,
};
use crate::text::{
    chars_of, dec_digits, dec_string, is_blank, opt_string_view, owned, push_str, str_is_blank,
    string_from, trim, trim_chars, trim_str,
};

verus! {

// ---------------------------------------------------------------------------
// Markdown document and file names
// ---------------------------------------------------------------------------

pub open spec fn if_empty(s: Seq<char>, fallback: Seq<char>) -> Seq<char> {
    if s.len() == 0 {
        fallback
    } else {
        s
    }
}

pub open spec fn source_line(url: Seq<char>) -> Seq<char> {
    if is_blank(url) {
        Seq::empty()
    } else {
        "来源：<"@ + trim(url) + ">\n\n"@
    }
}

/// The exported Markdown: a heading with the site's title, the source URL
/// when there is one, a rule, and the conversation.
pub open spec fn markdown_document_text(title: Seq<char>, url: Seq<char>, markdown: Seq<char>) -> Seq<char> {
    "# "@ + if_empty(trim(title), "AI Conversation"@) + "\n\n"@ + source_line(url) + "---\n\n"@
        + trim(markdown) + "\n"@
}

pub fn export_markdown_document(site_title: &str, url: &str, markdown: &str) -> (r: String)
    ensures
        r@ == markdown_document_text(site_title@, url@, markdown@),
{
    let title = trim_str(site_title);
    let source = if str_is_blank(url) {
        let s = String::new();
        assert(s@ =~= source_line(url@));
        s
    } else {
        let mut s = owned("来源：<");
        push_str(&mut s, trim_str(url).as_str());
        push_str(&mut s, ">\n\n");
        s
    };
    let mut r = owned("# ");
    if title.as_str().is_empty() {
        push_str(&mut r, "AI Conversation");
    } else {
        push_str(&mut r, title.as_str());
    }
    push_str(&mut r, "\n\n");
    push_str(&mut r, source.as_str());
    push_str(&mut r, "---\n\n");
    push_str(&mut r, trim_str(markdown).as_str());
    push_str(&mut r, "\n");
    r
}

pub open spec fn rendered_pdf_name(site: AiSite) -> Seq<char> {
    sanitized_file_name(site_title(site)) + "-page-export.pdf"@
}

/// The file name of a page printed to PDF.
pub fn rendered_pdf_filename(site: AiSite) -> (r: String)
    ensures
        r@ == rendered_pdf_name(site),
{
    let mut r = sanitize_download_filename(site.title());
    push_str(&mut r, "-page-export.pdf");
    r
}

pub open spec fn export_file_name(title: Seq<char>, format: ExportFormat) -> Seq<char> {
    sanitized_file_name(title) + "-conversation."@ + export_format_extension(format)
}

// ---------------------------------------------------------------------------
// Conversation export
// ---------------------------------------------------------------------------

/// A file to write for an export.
#[derive(Debug, Clone, PartialEq, Eq)]
pub struct ExportFile {
    pub format: ExportFormat,
    pub file_name: String,
    pub content: Vec<u8>,
}

pub struct ExportFileView {
    pub format: ExportFormat,
    pub file_name: Seq<char>,
    pub content: Seq<u8>,
}

impl View for ExportFile {
    type V = ExportFileView;

    open spec fn view(&self) -> ExportFileView {
        ExportFileView { format: self.format, file_name: self.file_name@, content: self.content@ }
    }
}

/// The export an `exportConversation` message asks for: a known format, a
/// title (a default when blank), the page URL, and conversation text that
/// is not blank. Markdown is written as the document's UTF-8 text, PDF by
/// the PDF writer.
pub open spec fn export_file_of(m: JsonValue) -> Result<ExportFileView, Seq<char>> {
    if get(m, "payload"@) is None {
        Err("exportConversation payload is missing"@)
    } else {
        match as_str(payload_field(m, "format"@)) {
            None => Err("export format is missing or invalid"@),
            Some(k) => match export_format_from_key(k) {
                None => Err("export format is missing or invalid"@),
                Some(format) => {
                    let title = match as_str(payload_field(m, "site_title"@)) {
                        Some(t) => if is_blank(t) {
                            "AI Conversation"@
                        } else {
                            t
                        },
                        None => "AI Conversation"@,
                    };
                    let url = match as_str(payload_field(m, "url"@)) {
                        Some(u) => u,
                        None => Seq::empty(),
                    };
                    match as_str(payload_field(m, "markdown"@)) {
                        None => Err("当前页面未识别到可导出的对话内容"@),
                        Some(md) => if trim(md).len() == 0 {
                            Err("当前页面未识别到可导出的对话内容"@)
                        } else {
                            let document = markdown_document_text(title, url, trim(md));
                            Ok(
                                ExportFileView {
                                    format,
                                    file_name: export_file_name(title, format),
                                    content: match format {
                                        ExportFormat::Markdown => encode_utf8(document),
                                        ExportFormat::Pdf => pdf_document_bytes(title, document),
                                    },
                                },
                            )
                        },
                    }
                },
            },
        }
    }
}

/// The title of an export: the message's `site_title`, or "AI Conversation"
/// when it is missing or blank.
pub open spec fn export_title_of(m: JsonValue) -> Seq<char> {
    match as_str(payload_field(m, "site_title"@)) {
        Some(t) => if is_blank(t) {
            "AI Conversation"@
        } else {
            t
        },
        None => "AI Conversation"@,
    }
}

/// A Markdown export holds exactly the UTF-8 text that
/// `export_markdown_document` gives for the message's title, URL and
/// conversation: a `# ` heading with the title, the source line when the URL
/// is not blank, a `---` rule, then the trimmed conversation and a newline.
/// Its file is `<title>-conversation.md`.
pub proof fn law_markdown_export_is_the_document(m: JsonValue)
    requires
        export_file_of(m) is Ok,
        export_file_of(m)->Ok_0.format == ExportFormat::Markdown,
    ensures
        ({
            let f = export_file_of(m)->Ok_0;
            let raw_title = as_str(payload_field(m, "site_title"@));
            let heading = match raw_title {
                Some(t) => if is_blank(t) {
                    "AI Conversation"@
                } else {
                    trim(t)
                },
                None => "AI Conversation"@,
            };
            let url = match as_str(payload_field(m, "url"@)) {
                Some(u) => u,
                None => Seq::<char>::empty(),
            };
            let md = as_str(payload_field(m, "markdown"@))->0;
            &&& f.content == encode_utf8(markdown_document_text(export_title_of(m), url, md))
            &&& markdown_document_text(export_title_of(m), url, md) == "# "@ + heading + "\n\n"@
                + source_line(url) + "---\n\n"@ + trim(md) + "\n"@
            &&& f.file_name == export_file_name(export_title_of(m), ExportFormat::Markdown)
        }),
{
    let md = as_str(payload_field(m, "markdown"@))->0;
    crate::text::lemma_trim_idempotent(md);
    reveal_strlit("AI Conversation");
    let a = "AI Conversation"@;
    assert(!crate::text::is_ws(a[0]) && !crate::text::is_ws(a.last()));
    assert(crate::text::trim_start(a) == a);
    assert(crate::text::trim_end(a) == a);
}

pub open spec fn export_result_view(r: Result<ExportFile, ShellError>) -> Result<ExportFileView, Seq<char>> {
    match r {
        Ok(f) => Ok(f@),
        Err(e) => Err(e.message@),
    }
}

fn error_of(text: &str) -> (e: ShellError)
    ensures
        e.message@ == text@,
{
    ShellError { message: owned(text) }
}

/// The file that an `exportConversation` message asks to write; see
/// `export_file_of`.
pub fn export_conversation_file(message: &JsonValue) -> (r: Result<ExportFile, ShellError>)
    ensures
        export_result_view(r) == export_file_of(*message),
{
    let payload = match get_ref(message, "payload") {
        Some(p) => p,
        None => {
            return Err(error_of("exportConversation payload is missing"));
        },
    };
    let key = match as_string(get_ref(payload, "format")) {
        Some(k) => k,
        None => {
            return Err(error_of("export format is missing or invalid"));
        },
    };
    let format = match ExportFormat::from_key(key.as_str()) {
        Some(f) => f,
        None => {
            return Err(error_of("export format is missing or invalid"));
        },
    };
    let title = match as_string(get_ref(payload, "site_title")) {
        Some(t) => if str_is_blank(t.as_str()) {
            owned("AI Conversation")
        } else {
            t
        },
        None => owned("AI Conversation"),
    };
    let url = match as_string(get_ref(payload, "url")) {
        Some(u) => u,
        None => String::new(),
    };
    let md = match as_string(get_ref(payload, "markdown")) {
        Some(m) => m,
        None => {
            return Err(error_of("当前页面未识别到可导出的对话内容"));
        },
    };
    let md = trim_str(md.as_str());
    if md.as_str().is_empty() {
        return Err(error_of("当前页面未识别到可导出的对话内容"));
    }
    let document = export_markdown_document(title.as_str(), url.as_str(), md.as_str());
    let content = match format {
        ExportFormat::Markdown => document.as_str().as_bytes_vec(),
        ExportFormat::Pdf => export_pdf_document(title.as_str(), document.as_str()),
    };
    let mut file_name = sanitize_download_filename(title.as_str());
    push_str(&mut file_name, "-conversation.");
    push_str(&mut file_name, format.extension());
    Ok(ExportFile { format, file_name, content })
}

// ---------------------------------------------------------------------------
// Saving a file sent by a page
// ---------------------------------------------------------------------------

/// The error that `base64` reports for input that is not Base64.
#[derive(Debug, Clone, Copy, PartialEq, Eq, Structural)]
pub enum Base64Error {
    InvalidByte(usize, u8),
    InvalidLength(usize),
    InvalidLastSymbol(usize, u8),
    InvalidPadding,
}

/// What the standard Base64 engine of `base64` decodes the bytes to.
pub uninterp spec fn base64_standard_decode(input: Seq<u8>) -> Result<Seq<u8>, Base64Error>;

pub open spec fn decoded_view(r: Result<Vec<u8>, Base64Error>) -> Result<Seq<u8>, Base64Error> {
    match r {
        Ok(v) => Ok(v@),
        Err(e) => Err(e),
    }
}

/// Decodes with `base64::engine::general_purpose::STANDARD.decode`; the
/// result is named, not described, and its error is copied field by field.
#[verifier::external_body]
fn base64_decode(input: &str) -> (r: Result<Vec<u8>, Base64Error>)
    ensures
        decoded_view(r) == base64_standard_decode(input.spec_bytes()),
{
    match base64::engine::general_purpose::STANDARD.decode(input) {
        Ok(bytes) => Ok(bytes),
        Err(base64::DecodeError::InvalidByte(i, b)) => Err(Base64Error::InvalidByte(i, b)),
        Err(base64::DecodeError::InvalidLength(n)) => Err(Base64Error::InvalidLength(n)),
        Err(base64::DecodeError::InvalidLastSymbol(i, b)) => Err(Base64Error::InvalidLastSymbol(i, b)),
        Err(base64::DecodeError::InvalidPadding) => Err(Base64Error::InvalidPadding),
    }
}

/// How `base64` words a decoding error.
pub open spec fn base64_error_text(e: Base64Error) -> Seq<char> {
    match e {
        Base64Error::InvalidByte(i, b) => "Invalid symbol "@ + dec_digits(b as nat) + ", offset "@
            + dec_digits(i as nat) + "."@,
        Base64Error::InvalidLength(n) => "Invalid input length: "@ + dec_digits(n as nat),
        Base64Error::InvalidLastSymbol(i, b) => "Invalid last symbol "@ + dec_digits(b as nat)
            + ", offset "@ + dec_digits(i as nat) + "."@,
        Base64Error::InvalidPadding => "Invalid padding"@,
    }
}

impl Base64Error {
    /// The error's message, as `base64` displays it.
    pub fn to_text(&self) -> (r: String)
        ensures
            r@ == base64_error_text(*self),
    {
        match *self {
            Base64Error::InvalidByte(i, b) => {
                let mut r = owned("Invalid symbol ");
                push_str(&mut r, dec_string(b as u64).as_str());
                push_str(&mut r, ", offset ");
                push_str(&mut r, dec_string(i as u64).as_str());
                push_str(&mut r, ".");
                r
            },
            Base64Error::InvalidLength(n) => {
                let mut r = owned("Invalid input length: ");
                push_str(&mut r, dec_string(n as u64).as_str());
                r
            },
            Base64Error::InvalidLastSymbol(i, b) => {
                let mut r = owned("Invalid last symbol ");
                push_str(&mut r, dec_string(b as u64).as_str());
                push_str(&mut r, ", offset ");
                push_str(&mut r, dec_string(i as u64).as_str());
                push_str(&mut r, ".");
                r
            },
            Base64Error::InvalidPadding => owned("Invalid padding"),
        }
    }
}

/// A file sent by a page: its name and content.
#[derive(Debug, Clone, PartialEq, Eq)]
pub struct SaveDownloadFile {
    pub filename: String,
    pub content: Vec<u8>,
}

/// The content after the comma of a `data:` URL, or all of it.
pub open spec fn base64_body(s: Seq<char>) -> Seq<char> {
    match crate::text::split_once(s, ',') {
        Some(p) => p.1,
        None => s,
    }
}

/// The name of a file sent by a page: the given one unless blank.
pub open spec fn save_file_name(m: JsonValue) -> Seq<char> {
    match as_str(payload_field(m, "filename"@)) {
        Some(n) => if is_blank(n) {
            "download"@
        } else {
            n
        },
        None => "download"@,
    }
}

/// The file once its content is decoded, or the decoding error.
pub open spec fn saved_file_of(name: Seq<char>, decoded: Result<Seq<u8>, Base64Error>) -> Result<
    (Seq<char>, Seq<u8>),
    Seq<char>,
> {
    match decoded {
        Ok(bytes) => Ok((name, bytes)),
        Err(e) => Err("download content is not valid base64: "@ + base64_error_text(e)),
    }
}

pub open spec fn save_result_view(r: Result<SaveDownloadFile, ShellError>) -> Result<
    (Seq<char>, Seq<u8>),
    Seq<char>,
> {
    match r {
        Ok(f) => Ok((f.filename@, f.content@)),
        Err(e) => Err(e.message@),
    }
}

/// The file, given what decoding its content gave.
pub fn save_download_content(filename: String, decoded: Result<Vec<u8>, Base64Error>) -> (r: Result<
    SaveDownloadFile,
    ShellError,
>)
    ensures
        save_result_view(r) == saved_file_of(filename@, decoded_view(decoded)),
{
    match decoded {
        Ok(content) => Ok(SaveDownloadFile { filename, content }),
        Err(e) => {
            let mut m = owned("download content is not valid base64: ");
            push_str(&mut m, e.to_text().as_str());
            Err(ShellError { message: m })
        },
    }
}

/// The file that a `saveDownload` message asks to write: the payload and
/// its content must be there, and the content (after a `data:` prefix) is
/// decoded as Base64.
pub open spec fn save_request_of(m: JsonValue) -> Result<(Seq<char>, Seq<u8>), Seq<char>> {
    if get(m, "payload"@) is None {
        Err("saveDownload payload is missing"@)
    } else {
        match as_str(payload_field(m, "content_base64"@)) {
            None => Err("download content is missing"@),
            Some(c) => saved_file_of(
                save_file_name(m),
                base64_standard_decode(encode_utf8(base64_body(c))),
            ),
        }
    }
}

pub fn save_download_request(message: &JsonValue) -> (r: Result<SaveDownloadFile, ShellError>)
    ensures
        save_result_view(r) == save_request_of(*message),
{
    let payload = match get_ref(message, "payload") {
        Some(p) => p,
        None => {
            return Err(error_of("saveDownload payload is missing"));
        },
    };
    let filename = match as_string(get_ref(payload, "filename")) {
        Some(n) => if str_is_blank(n.as_str()) {
            owned("download")
        } else {
            n
        },
        None => owned("download"),
    };
    let content = match as_string(get_ref(payload, "content_base64")) {
        Some(c) => c,
        None => {
            return Err(error_of("download content is missing"));
        },
    };
    let v = chars_of(content.as_str());
    let body = match crate::text::split_once_chars(&v, ',') {
        Some(p) => string_from(&p.1),
        None => string_from(&v),
    };
    let decoded = base64_decode(body.as_str());
    save_download_content(filename, decoded)
}

// ---------------------------------------------------------------------------
// Downloading a URL
// ---------------------------------------------------------------------------

/// A URL to fetch and the name to save it under, unless the response names
/// the file itself.
#[derive(Debug, Clone, PartialEq, Eq)]
pub struct DownloadUrlRequest {
    pub url: String,
    pub filename: String,
}

/// What a `downloadUrl` message asks for: its URL (see `download_url_of`) and
/// the given file name, or the one at the end of the URL.
pub open spec fn url_request_of(m: JsonValue) -> Result<(Seq<char>, Seq<char>), Seq<char>> {
    if get(m, "payload"@) is None {
        Err("downloadUrl payload is missing"@)
    } else {
        match download_url_of(m) {
            Err(e) => Err(e),
            Ok(url) => Ok(
                (
                    url,
                    match as_str(payload_field(m, "filename"@)) {
                        Some(n) => if is_blank(n) {
                            url_file_name(url)
                        } else {
                            n
                        },
                        None => url_file_name(url),
                    },
                ),
            ),
        }
    }
}

pub open spec fn url_request_view(r: Result<DownloadUrlRequest, ShellError>) -> Result<
    (Seq<char>, Seq<char>),
    Seq<char>,
> {
    match r {
        Ok(q) => Ok((q.url@, q.filename@)),
        Err(e) => Err(e.message@),
    }
}

pub fn download_url_request(message: &JsonValue) -> (r: Result<DownloadUrlRequest, ShellError>)
    ensures
        url_request_view(r) == url_request_of(*message),
{
    let payload = match get_ref(message, "payload") {
        Some(p) => p,
        None => {
            return Err(error_of("downloadUrl payload is missing"));
        },
    };
    let url = match download_url_from_message(message) {
        Ok(u) => u,
        Err(e) => {
            return Err(e);
        },
    };
    let filename = match as_string(get_ref(payload, "filename")) {
        Some(n) => if str_is_blank(n.as_str()) {
            filename_from_url(url.as_str())
        } else {
            n
        },
        None => filename_from_url(url.as_str()),
    };
    Ok(DownloadUrlRequest { url, filename })
}

/// What a `downloadUrl` message from a view leads to: the token error when
/// the view's token does not check out (the URL is then never fetched),
/// else the request of the message.
pub open spec fn url_plan_of(message: JsonValue, expected_token: Option<Seq<char>>) -> Result<
    (Seq<char>, Seq<char>),
    Seq<char>,
> {
    match token_check(message, expected_token) {
        Err(e) => Err(e),
        Ok(()) => url_request_of(message),
    }
}

/// The URL to fetch for a view, checked against the view's token first.
pub fn download_url_plan(message: &JsonValue, expected_token: Option<&str>) -> (r: Result<
    DownloadUrlRequest,
    ShellError,
>)
    ensures
        url_request_view(r) == url_plan_of(*message, opt_str_view(expected_token)),
{
    match verify_download_ipc_token(message, expected_token) {
        Err(e) => Err(e),
        Ok(()) => download_url_request(message),
    }
}

/// The name to save a fetched file under: the one in its
/// `Content-Disposition` header when that gives one, else `fallback`.
pub fn response_file_name(fallback: &str, content_disposition: Option<&str>) -> (r: String)
    ensures
        r@ == match content_disposition {
            Some(v) => match crate::filenames::first_disposition_name(
                crate::text::split_on(v@, ';'),
            ) {
                Some(n) => n,
                None => fallback@,
            },
            None => fallback@,
        },
{
    match content_disposition {
        Some(v) => match crate::filenames::filename_from_content_disposition(v) {
            Some(n) => n,
            None => owned(fallback),
        },
        None => owned(fallback),
    }
}

// ---------------------------------------------------------------------------
// Answers and history events once a file is written
// ---------------------------------------------------------------------------

/// Where a file was written and how many bytes it holds.
#[derive(Debug, Clone, PartialEq, Eq)]
pub struct SavedFile {
    pub path: String,
    pub bytes: u64,
}

pub open spec fn saved_payload_text(path: Seq<char>, bytes: u64) -> Seq<char> {
    object_text(
        seq![member_text("bytes"@, dec_digits(bytes as nat)), member_text("path"@, json_quote(path))],
    )
}

pub open spec fn export_payload_text(path: Seq<char>, bytes: u64, format: ExportFormat) -> Seq<char> {
    object_text(
        seq![
            member_text("bytes"@, dec_digits(bytes as nat)),
            member_text("format"@, json_quote(export_format_key(format))),
            member_text("path"@, json_quote(path)),
        ],
    )
}

/// The answer and event of a finished download: a completed event on
/// success, a failed one with the error otherwise.
pub open spec fn download_outcome_of(
    id: Option<Seq<char>>,
    result: Result<(Seq<char>, u64), Seq<char>>,
    url: Option<Seq<char>>,
) -> (Seq<char>, DownloadEventView) {
    match result {
        Ok((path, bytes)) => (
            ipc_ok_text(id, saved_payload_text(path, bytes)),
            DownloadEventView {
                kind: DownloadEventKind::Completed,
                status: "下载完成"@,
                path: Some(path),
                url,
                bytes: Some(bytes),
                success: true,
            },
        ),
        Err(e) => (
            ipc_error_text(id, e),
            DownloadEventView {
                kind: DownloadEventKind::Failed,
                status: "下载失败"@,
                path: None,
                url,
                bytes: None,
                success: false,
            },
        ),
    }
}

pub open spec fn saved_result_view(r: Result<SavedFile, ShellError>) -> Result<(Seq<char>, u64), Seq<char>> {
    match r {
        Ok(f) => Ok((f.path@, f.bytes)),
        Err(e) => Err(e.message@),
    }
}

/// The answer to a download request and the event for the history, once
/// the file was written (or not). `url` is the URL of a URL download.
pub fn download_outcome(
    id: Option<&str>,
    result: Result<SavedFile, ShellError>,
    url: Option<String>,
) -> (r: (String, DownloadEvent))
    ensures
        (r.0@, r.1@) == download_outcome_of(
            opt_str_view(id),
            saved_result_view(result),
            opt_string_view(url),
        ),
{
    match result {
        Ok(f) => {
            let mut members: Vec<String> = Vec::new();
            members.push(json_member("bytes", dec_string(f.bytes).as_str()));
            members.push(json_member("path", quote_json(f.path.as_str()).as_str()));
            let payload = json_object(&members);
            assert(views(members@) =~= seq![
                member_text("bytes"@, dec_digits(f.bytes as nat)),
                member_text("path"@, json_quote(f.path@)),
            ]);
            let answer = ipc_ok(id, payload.as_str());
            (
                answer,
                DownloadEvent {
                    kind: DownloadEventKind::Completed,
                    status: owned("下载完成"),
                    path: Some(f.path),
                    url,
                    bytes: Some(f.bytes),
                    success: true,
                },
            )
        },
        Err(e) => (
            ipc_error(id, e.message.as_str()),
            DownloadEvent {
                kind: DownloadEventKind::Failed,
                status: owned("下载失败"),
                path: None,
                url,
                bytes: None,
                success: false,
            },
        ),
    }
}

pub open spec fn export_outcome_of(
    id: Option<Seq<char>>,
    result: Result<(Seq<char>, u64), Seq<char>>,
    format: ExportFormat,
) -> (Seq<char>, DownloadEventView) {
    match result {
        Ok((path, bytes)) => (
            ipc_ok_text(id, export_payload_text(path, bytes, format)),
            DownloadEventView {
                kind: DownloadEventKind::Completed,
                status: "导出完成"@,
                path: Some(path),
                url: None,
                bytes: Some(bytes),
                success: true,
            },
        ),
        Err(e) => (
            ipc_error_text(id, e),
            DownloadEventView {
                kind: DownloadEventKind::Failed,
                status: "导出失败："@ + e,
                path: None,
                url: None,
                bytes: None,
                success: false,
            },
        ),
    }
}

/// The answer to an export request and the event for the history.
pub fn export_outcome(id: Option<&str>, result: Result<SavedFile, ShellError>, format: ExportFormat) -> (r: (
    String,
    DownloadEvent,
))
    ensures
        (r.0@, r.1@) == export_outcome_of(opt_str_view(id), saved_result_view(result), format),
{
    match result {
        Ok(f) => {
            let mut members: Vec<String> = Vec::new();
            members.push(json_member("bytes", dec_string(f.bytes).as_str()));
            members.push(json_member("format", quote_json(format.key()).as_str()));
            members.push(json_member("path", quote_json(f.path.as_str()).as_str()));
            let payload = json_object(&members);
            assert(views(members@) =~= seq![
                member_text("bytes"@, dec_digits(f.bytes as nat)),
                member_text("format"@, json_quote(export_format_key(format))),
                member_text("path"@, json_quote(f.path@)),
            ]);
            let answer = ipc_ok(id, payload.as_str());
            (
                answer,
                DownloadEvent {
                    kind: DownloadEventKind::Completed,
                    status: owned("导出完成"),
                    path: Some(f.path),
                    url: None,
                    bytes: Some(f.bytes),
                    success: true,
                },
            )
        },
        Err(e) => {
            let mut status = owned("导出失败：");
            push_str(&mut status, e.message.as_str());
            (
                ipc_error(id, e.message.as_str()),
                DownloadEvent {
                    kind: DownloadEventKind::Failed,
                    status,
                    path: None,
                    url: None,
                    bytes: None,
                    success: false,
                },
            )
        },
    }
}

/// The answer and event for a download or export message that is not JSON:
/// `prefix` names the request, `failed_status` is the event's status.
pub open spec fn invalid_message_outcome_of(prefix: Seq<char>, error: Seq<char>, failed_status: Seq<char>) -> (
    Seq<char>,
    DownloadEventView,
) {
    (
        ipc_error_text(None, prefix + error),
        DownloadEventView {
            kind: DownloadEventKind::Failed,
            status: failed_status,
            path: None,
            url: None,
            bytes: None,
            success: false,
        },
    )
}

pub fn invalid_message_outcome(prefix: &str, error: &str, failed_status: &str) -> (r: (String, DownloadEvent))
    ensures
        (r.0@, r.1@) == invalid_message_outcome_of(prefix@, error@, failed_status@),
{
    let mut text = owned(prefix);
    push_str(&mut text, error);
    (
        ipc_error(None, text.as_str()),
        DownloadEvent {
            kind: DownloadEventKind::Failed,
            status: owned(failed_status),
            path: None,
            url: None,
            bytes: None,
            success: false,
        },
    )
}

// ---------------------------------------------------------------------------
// A file sent by a page, from message to answer
// ---------------------------------------------------------------------------

/// What to do with a `saveDownload` message: answer at once (it is not JSON,
/// or it asks for nothing that can be saved), or write the file for the
/// request with this id and then answer with `download_outcome`.
#[derive(Debug)]
pub enum SaveDownloadPlan {
    Answer { answer: String, event: DownloadEvent },
    Write { id: Option<String>, file: SaveDownloadFile },
}

/// `parsed` is the message parsed as JSON, or the parser's error.
pub fn save_download_plan(parsed: &Result<JsonValue, String>) -> (r: SaveDownloadPlan)
    ensures
        match parsed {
            Err(e) => r matches SaveDownloadPlan::Answer { answer, event } && (answer@, event@)
                == invalid_message_outcome_of("ignored invalid download IPC: "@, e@, "下载失败"@),
            Ok(m) => match save_request_of(*m) {
                Err(e) => r matches SaveDownloadPlan::Answer { answer, event } && (answer@, event@)
                    == download_outcome_of(message_id(*m), Err(e), None),
                Ok((name, content)) => r matches SaveDownloadPlan::Write { id, file } && opt_string_view(
                    id,
                ) == message_id(*m) && file.filename@ == name && file.content@ == content,
            },
        },
{
    match parsed {
        Err(e) => {
            let (answer, event) = invalid_message_outcome("ignored invalid download IPC: ", e.as_str(), "下载失败");
            SaveDownloadPlan::Answer { answer, event }
        },
        Ok(m) => {
            let id = crate::shell::ipc_message_id(m);
            match save_download_request(m) {
                Ok(file) => SaveDownloadPlan::Write { id, file },
                Err(e) => {
                    let (answer, event) = download_outcome(
                        match &id {
                            Some(s) => Some(s.as_str()),
                            None => None,
                        },
                        Err(e),
                        None,
                    );
                    SaveDownloadPlan::Answer { answer, event }
                },
            }
        },
    }
}

/// The answer to a download says `ok` exactly when its history event is a
/// success: a completed event with a path on success, a failed one without
/// a path otherwise, each answer carrying the request's id.
pub proof fn law_download_answer_matches_event(
    id: Option<Seq<char>>,
    result: Result<(Seq<char>, u64), Seq<char>>,
    url: Option<Seq<char>>,
)
    ensures
        ({
            let (answer, event) = download_outcome_of(id, result, url);
            &&& event.success == (result is Ok)
            &&& event.success ==> event.kind == DownloadEventKind::Completed && event.status == "下载完成"@
                && event.path is Some && answer == ipc_ok_text(
                id,
                saved_payload_text(result->Ok_0.0, result->Ok_0.1),
            )
            &&& !event.success ==> event.kind == DownloadEventKind::Failed && event.status == "下载失败"@
                && event.path is None && answer == ipc_error_text(id, result->Err_0)
        }),
{
}

/// A message that is not JSON is answered with an error and no id, and its
/// history event is a failure without a path.
pub proof fn law_invalid_message_answer(prefix: Seq<char>, error: Seq<char>, failed_status: Seq<char>)
    ensures
        ({
            let (answer, event) = invalid_message_outcome_of(prefix, error, failed_status);
            &&& answer == ipc_error_text(None, prefix + error)
            &&& !event.success && event.kind == DownloadEventKind::Failed && event.path is None
        }),
{
}

} // verus!
