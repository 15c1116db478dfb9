use chatgpt_webview_client::downloads::DownloadEventKind;
use chatgpt_webview_client::export::{
    download_outcome, download_url_plan, download_url_request, export_conversation_file, export_markdown_document,
    export_outcome, invalid_message_outcome, rendered_pdf_filename, response_file_name,
    save_download_plan, save_download_request, ExportFile, SaveDownloadPlan, SavedFile,
};
use chatgpt_webview_client::filenames::sanitize_download_filename;
use chatgpt_webview_client::json::{JsonMember, JsonValue};
use chatgpt_webview_client::pdf::{export_pdf_document, pdf_utf16be_hex, wrap_pdf_lines};
use chatgpt_webview_client::shell::{
    download_url_from_message, ipc_command, ipc_error, ipc_message_id, ipc_ok,
    is_download_url_request, is_export_conversation_request, is_save_download_request,
    latency_notification_script, parse_download_diagnostic_event, parse_latency_event,
    parse_memory_optimization_request_id, parse_shell_command, verify_download_ipc_token,
    LatencyEvent, ShellCommand, ShellError,
};
use chatgpt_webview_client::site::{AiSite, ExportFormat};

fn to_json(value: &serde_json::Value) -> JsonValue {
    match value {
        serde_json::Value::Null => JsonValue::Null,
        serde_json::Value::Bool(b) => JsonValue::Bool(*b),
        serde_json::Value::Number(n) => JsonValue::Number(n.as_u64()),
        serde_json::Value::String(s) => JsonValue::String(s.clone()),
        serde_json::Value::Array(items) => JsonValue::Array(items.iter().map(to_json).collect()),
        serde_json::Value::Object(map) => JsonValue::Object(
            map.iter()
                .map(|(k, v)| JsonMember { key: k.clone(), value: to_json(v) })
                .collect(),
        ),
    }
}

fn parsed(text: &str) -> Result<JsonValue, String> {
    serde_json::from_str::<serde_json::Value>(text)
        .map(|v| to_json(&v))
        .map_err(|e| e.to_string())
}

fn message(text: &str) -> JsonValue {
    parsed(text).expect("test message is JSON")
}

fn shell(text: &str) -> Option<Result<ShellCommand, ShellError>> {
    parse_shell_command(&parsed(text))
}

#[test]
fn parse_shell_command_recognizes_valid_site_switch() {
    let command = shell(r#"{"id":"1","type":"switchSite","payload":{"site":"gemini"}}"#)
        .expect("shell command")
        .expect("valid shell command");

    assert_eq!(command, ShellCommand::SwitchSite(AiSite::Gemini));
}

#[test]
fn parse_shell_command_recognizes_secondary_site_close() {
    let command = shell(r#"{"id":"2","type":"closeSite","payload":{"site":"aistudio"}}"#)
        .expect("shell command")
        .expect("valid close command");

    assert_eq!(command, ShellCommand::CloseSite(AiSite::AiStudio));
}

#[test]
fn parse_shell_command_refuses_to_close_chatgpt() {
    let error = shell(r#"{"type":"closeSite","payload":{"site":"chatgpt"}}"#)
        .expect("shell command")
        .expect_err("chatgpt stays open");

    assert_eq!(error.message, "unknown closable site: chatgpt");
}

#[test]
fn parse_shell_command_recognizes_memory_optimization() {
    let command = shell(r#"{"id":"3","type":"optimizeMemory"}"#)
        .expect("shell command")
        .expect("valid optimize command");

    assert_eq!(command, ShellCommand::OptimizeMemory);
}

#[test]
fn parse_shell_command_recognizes_open_download_path() {
    let command = shell(
        r#"{"id":"5","type":"openDownloadPath","payload":{"path":"C:\\Users\\tester\\Downloads\\report.md"}}"#,
    )
    .expect("shell command")
    .expect("valid open path command");

    assert_eq!(command, ShellCommand::OpenDownloadPath(r#"C:\Users\tester\Downloads\report.md"#.to_string()));
}

#[test]
fn parse_shell_command_recognizes_open_download_folder() {
    let command = shell(
        r#"{"id":"6","type":"openDownloadFolder","payload":{"path":"C:\\Users\\tester\\Downloads\\report.md"}}"#,
    )
    .expect("shell command")
    .expect("valid open folder command");

    assert_eq!(command, ShellCommand::OpenDownloadFolder(r#"C:\Users\tester\Downloads\report.md"#.to_string()));
}

#[test]
fn parse_shell_command_needs_a_path() {
    let error = shell(r#"{"type":"openDownloadPath","payload":{"path":"  "}}"#)
        .expect("shell command")
        .expect_err("blank path");

    assert_eq!(error.message, "download path is missing");
}

#[test]
fn parse_shell_command_recognizes_download_manager_commands() {
    assert_eq!(
        shell(r#"{"id":"7","type":"openDownloadManager"}"#).expect("shell command").expect("valid command"),
        ShellCommand::OpenDownloadManager
    );
    assert_eq!(
        shell(r#"{"id":"7","type":"closeDownloadManager"}"#).expect("shell command").expect("valid command"),
        ShellCommand::CloseDownloadManager
    );
    assert_eq!(
        shell(r#"{"id":"8","type":"clearCompletedDownloads"}"#).expect("shell command").expect("valid command"),
        ShellCommand::ClearCompletedDownloads
    );
    assert_eq!(
        shell(r#"{"id":"9","type":"deleteDownloadRecord","payload":{"id":12}}"#)
            .expect("shell command")
            .expect("valid command"),
        ShellCommand::DeleteDownloadRecord(12)
    );
    assert_eq!(
        shell(r#"{"id":"10","type":"openDownloadSettings"}"#).expect("shell command").expect("valid command"),
        ShellCommand::OpenDownloadSettings
    );
    assert_eq!(
        shell(r#"{"type":"deleteDownloadRecord","payload":{"id":0}}"#)
            .expect("shell command")
            .expect_err("id zero")
            .message,
        "download record id is missing"
    );
}

#[test]
fn parse_shell_command_recognizes_latency_measurement() {
    let command = shell(r#"{"id":"9","type":"measureLatency","payload":{"site":"gemini"}}"#)
        .expect("shell command")
        .expect("valid latency command");

    assert_eq!(command, ShellCommand::MeasureLatency(AiSite::Gemini));
}

#[test]
fn parse_shell_command_recognizes_export_markdown() {
    let command = shell(r#"{"id":"5","type":"exportConversation","payload":{"format":"markdown"}}"#)
        .expect("shell command")
        .expect("valid export command");

    assert_eq!(command, ShellCommand::ExportConversation(ExportFormat::Markdown));
}

#[test]
fn parse_shell_command_recognizes_export_pdf() {
    let command = shell(r#"{"id":"6","type":"exportConversation","payload":{"format":"pdf"}}"#)
        .expect("shell command")
        .expect("valid export command");

    assert_eq!(command, ShellCommand::ExportConversation(ExportFormat::Pdf));
}

#[test]
fn parse_shell_command_rejects_invalid_site_key() {
    let error = shell(r#"{"type":"switchSite","payload":{"site":"unknown"}}"#)
        .expect("shell command")
        .expect_err("invalid site should fail");

    assert!(error.message.contains("unknown site"));
}

#[test]
fn parse_shell_command_ignores_existing_settings_ipc() {
    assert!(shell(r#"{"id":"1","type":"getProxyState"}"#).is_none());
}

#[test]
fn parse_shell_command_reports_text_that_is_not_json() {
    let error = parse_shell_command(&Err("expected value at line 1 column 1".to_string()))
        .expect("shell command")
        .expect_err("invalid JSON");

    assert_eq!(error.message, "invalid shell IPC message: expected value at line 1 column 1");
}

#[test]
fn message_type_and_id_are_read_as_strings() {
    let m = message(r#"{"id":7,"type":"saveDownload"}"#);
    assert_eq!(ipc_command(&m), "saveDownload");
    assert_eq!(ipc_message_id(&m), None);
    assert_eq!(ipc_message_id(&message(r#"{"id":"x"}"#)), Some("x".to_string()));
    assert!(is_save_download_request(&Some(m)));
    assert!(is_download_url_request(&Some(message(r#"{"type":"downloadUrl"}"#))));
    assert!(is_export_conversation_request(&Some(message(r#"{"type":"exportConversation"}"#))));
    assert!(!is_save_download_request(&None));
}

#[test]
fn memory_optimization_requests_carry_their_id() {
    assert_eq!(
        parse_memory_optimization_request_id(&Some(message(r#"{"id":"m1","type":"optimizeMemory"}"#))),
        Some(Some("m1".to_string()))
    );
    assert_eq!(
        parse_memory_optimization_request_id(&Some(message(r#"{"type":"optimizeMemory"}"#))),
        Some(None)
    );
    assert_eq!(parse_memory_optimization_request_id(&Some(message(r#"{"type":"navBack"}"#))), None);
}

#[test]
fn ipc_answers_are_compact_json() {
    assert_eq!(ipc_ok(Some("1"), "{\"a\":1}"), "{\"data\":{\"a\":1},\"id\":\"1\",\"ok\":true}");
    assert_eq!(ipc_error(None, "bad \"x\""), "{\"error\":\"bad \\\"x\\\"\",\"id\":null,\"ok\":false}");
}

#[test]
fn latency_results_default_success_to_having_a_delay() {
    let event = parse_latency_event(&Some(message(
        r#"{"type":"latencyResult","payload":{"site":"gemini","delay_ms":120}}"#,
    )))
    .expect("latency event");
    assert_eq!(
        event,
        LatencyEvent { site: AiSite::Gemini, delay_ms: Some(120), success: true, error: None }
    );
    let failed = parse_latency_event(&Some(message(
        r#"{"type":"latencyResult","payload":{"site":"chatgpt","success":false,"error":"timeout"}}"#,
    )))
    .expect("latency event");
    assert!(!failed.success);
    assert_eq!(failed.error.as_deref(), Some("timeout"));
    assert!(parse_latency_event(&Some(message(r#"{"type":"latencyResult","payload":{"site":"x"}}"#))).is_none());
    assert_eq!(
        latency_notification_script(&failed),
        "window.__aiClientUpdateLatency && window.__aiClientUpdateLatency({\"delay_ms\":null,\"error\":\"timeout\",\"site\":\"chatgpt\",\"success\":false});"
    );
}

#[test]
fn download_diagnostic_ipc_reports_visible_error() {
    let event = parse_download_diagnostic_event(&Some(message(
        r#"{"type":"downloadDiagnostic","payload":{"level":"error","message":"script failed"}}"#,
    )))
    .expect("diagnostic event");

    assert_eq!(event.status, "下载诊断：script failed");
    assert!(!event.success);
    let info = parse_download_diagnostic_event(&Some(message(r#"{"type":"downloadDiagnostic","payload":{}}"#)))
        .expect("diagnostic event");
    assert_eq!(info.status, "下载诊断：下载诊断事件");
    assert!(info.success);
}

#[test]
fn download_url_message_rejects_missing_ipc_token() {
    let m = message(
        r#"{"id":"download-url-denied","type":"downloadUrl","payload":{"url":"http://127.0.0.1/generated.txt","filename":"generated.txt"}}"#,
    );

    let error = verify_download_ipc_token(&m, Some("download-token")).expect_err("token is missing");
    let request_url = download_url_from_message(&m).ok();
    let (response, event) = download_outcome(ipc_message_id(&m).as_deref(), Err(error), request_url);
    let parsed: serde_json::Value = serde_json::from_str(&response).expect("response is json");

    assert_eq!(parsed["ok"], false);
    assert!(parsed["error"].as_str().expect("error should be returned").contains("download URL IPC token is missing"));
    assert_eq!(event.status, "下载失败");
    assert!(!event.success);
    assert_eq!(event.url.as_deref(), Some("http://127.0.0.1/generated.txt"));
}

#[test]
fn token_check_covers_every_case() {
    let m = message(r#"{"payload":{"token":"t"}}"#);
    assert!(verify_download_ipc_token(&m, Some("t")).is_ok());
    assert_eq!(
        verify_download_ipc_token(&m, Some("u")).unwrap_err().message,
        "download URL IPC token is invalid"
    );
    assert_eq!(
        verify_download_ipc_token(&m, None).unwrap_err().message,
        "download URL IPC is not allowed from this view"
    );
}

#[test]
fn download_urls_must_be_http() {
    let ok = download_url_request(&message(r#"{"payload":{"url":" https://x.test/a/report.pdf?v=1 "}}"#))
        .expect("request");
    assert_eq!(ok.url, "https://x.test/a/report.pdf?v=1");
    assert_eq!(ok.filename, "report.pdf");
    let named = download_url_request(&message(r#"{"payload":{"url":"http://x.test/a","filename":"mine.txt"}}"#))
        .expect("request");
    assert_eq!(named.filename, "mine.txt");
    assert_eq!(
        download_url_request(&message(r#"{"payload":{"url":"ftp://x.test/a"}}"#)).unwrap_err().message,
        "download URL must use http or https"
    );
    assert_eq!(
        download_url_request(&message(r#"{"type":"downloadUrl"}"#)).unwrap_err().message,
        "downloadUrl payload is missing"
    );
    assert_eq!(response_file_name("fallback.bin", Some("attachment; filename=\"real.zip\"")), "real.zip");
    assert_eq!(response_file_name("fallback.bin", None), "fallback.bin");
}

#[test]
fn save_download_payload_writes_base64_content() {
    let m = message(
        r#"{"id":"download-1","type":"saveDownload","payload":{"filename":"codex-download-test.txt","content_base64":"aGVsbG8="}}"#,
    );

    let file = save_download_request(&m).expect("download should decode");

    assert_eq!(file.content, b"hello");
    assert_eq!(file.content.len(), 5);
    assert_eq!(file.filename, "codex-download-test.txt");
}

#[test]
fn save_download_payload_accepts_data_url_prefixed_base64() {
    let m = message(
        r#"{"type":"saveDownload","payload":{"filename":"easygpt-data-url-test.txt","content_base64":"data:text/plain;base64,aGVsbG8="}}"#,
    );

    let file = save_download_request(&m).expect("download should decode");

    assert_eq!(file.content, b"hello");
}

#[test]
fn save_download_payload_sanitizes_windows_forbidden_filename_chars() {
    let m = message(r#"{"type":"saveDownload","payload":{"filename":"folder\\bad:name?.txt","content_base64":"aGVsbG8="}}"#);

    let file = save_download_request(&m).expect("download should decode");
    let filename = sanitize_download_filename(&file.filename);

    assert!(filename.starts_with("bad_name_"));
    assert!(!filename.contains(':'));
    assert!(!filename.contains('?'));
}

#[test]
fn save_download_reports_bad_content() {
    let m = message(r#"{"type":"saveDownload","payload":{"content_base64":"!!!!"}}"#);
    assert_eq!(
        save_download_request(&m).unwrap_err().message,
        "download content is not valid base64: Invalid symbol 33, offset 0."
    );
    let missing = message(r#"{"type":"saveDownload","payload":{"filename":"a"}}"#);
    assert_eq!(save_download_request(&missing).unwrap_err().message, "download content is missing");
    let blank_name = message(r#"{"type":"saveDownload","payload":{"filename":" ","content_base64":""}}"#);
    assert_eq!(save_download_request(&blank_name).expect("empty content").filename, "download");
}

#[test]
fn save_download_message_reports_completion_event() {
    let (response, event) = download_outcome(
        Some("download-2"),
        Ok(SavedFile { path: "/tmp/codex-download-event-test.txt".to_string(), bytes: 5 }),
        None,
    );
    let parsed: serde_json::Value = serde_json::from_str(&response).expect("response is json");

    assert_eq!(parsed["ok"], true);
    assert_eq!(parsed["data"]["bytes"], 5);
    assert_eq!(event.status, "下载完成");
    assert!(event.success);
    assert_eq!(event.kind, DownloadEventKind::Completed);
    assert_eq!(event.path.as_deref(), Some("/tmp/codex-download-event-test.txt"));
}

#[test]
fn invalid_messages_are_answered_with_the_parser_error() {
    let (response, event) = invalid_message_outcome("ignored invalid download IPC: ", "EOF", "下载失败");
    assert_eq!(response, "{\"error\":\"ignored invalid download IPC: EOF\",\"id\":null,\"ok\":false}");
    assert_eq!(event.kind, DownloadEventKind::Failed);
}

#[test]
fn rendered_pdf_filename_uses_site_name() {
    assert_eq!(rendered_pdf_filename(AiSite::NotebookLm), "NotebookLM-page-export.pdf");
}

#[test]
fn export_markdown_document_includes_metadata_and_content() {
    let markdown = export_markdown_document("ChatGPT", "https://chatgpt.com/c/1", "hello");

    assert!(markdown.contains("# ChatGPT"));
    assert!(markdown.contains("来源：<https://chatgpt.com/c/1>"));
    assert!(markdown.contains("hello"));
    assert_eq!(
        export_markdown_document("  ", " ", "\n body \n"),
        "# AI Conversation\n\n---\n\nbody\n"
    );
}

#[test]
fn export_pdf_document_creates_pdf_bytes() {
    let pdf = export_pdf_document("ChatGPT", "# ChatGPT\n\nhello");

    assert!(pdf.starts_with(b"%PDF-1.4"));
    assert!(String::from_utf8_lossy(&pdf).contains("%%EOF"));
}

#[test]
fn export_pdf_document_does_not_replace_chinese_with_question_marks() {
    let pdf = export_pdf_document("ChatGPT", "# ChatGPT\n\n## 用户\n\n你好，导出测试");
    let rendered = String::from_utf8_lossy(&pdf);

    assert!(!rendered.contains("??"));
    assert!(!rendered.contains("????"));
    assert!(rendered.contains(&pdf_utf16be_hex("你好，导出测试")));
}

#[test]
fn pdf_cross_references_point_at_objects() {
    let pdf = String::from_utf8(export_pdf_document("T", "x")).expect("ascii");
    let xref = pdf.find("xref\n").expect("xref");
    let entries: Vec<usize> = pdf[xref..]
        .lines()
        .filter(|line| line.ends_with(" 00000 n "))
        .map(|line| line[..10].parse().expect("offset"))
        .collect();
    assert_eq!(entries.len(), 7);
    for (index, offset) in entries.iter().enumerate() {
        assert!(pdf[*offset..].starts_with(&format!("{} 0 obj\n", index + 1)));
    }
    let start: usize = pdf.lines().rev().nth(1).expect("startxref value").parse().expect("number");
    assert_eq!(start, xref);
}

#[test]
fn pdf_text_is_utf16_hex() {
    assert_eq!(pdf_utf16be_hex("A你"), "FEFF00414F60");
    assert_eq!(pdf_utf16be_hex("😀"), "FEFFD83DDE00");
}

#[test]
fn pdf_lines_are_wrapped_and_trimmed() {
    let lines = wrap_pdf_lines("abcdef\r\n\nab  cd\n", 3);
    assert_eq!(lines, vec!["abc", "def", "", "ab", " cd"]);
    assert_eq!(wrap_pdf_lines("", 5), Vec::<String>::new());
    assert_eq!(wrap_pdf_lines("ab", 0), vec!["a", "b"]);
}

#[test]
fn export_conversation_payload_writes_markdown_file() {
    let m = message(
        "{\"id\":\"export-1\",\"type\":\"exportConversation\",\"payload\":{\"format\":\"markdown\",\"site_title\":\"ChatGPT\",\"url\":\"https://chatgpt.com/c/1\",\"markdown\":\"## 用户\\n\\nhello\"}}",
    );

    let file: ExportFile = export_conversation_file(&m).expect("export should build");

    assert_eq!(file.format, ExportFormat::Markdown);
    assert!(file.file_name.ends_with(".md"));
    assert!(String::from_utf8(file.content).expect("utf8").contains("## 用户"));
    let (response, event) = export_outcome(
        Some("export-1"),
        Ok(SavedFile { path: "/tmp/ChatGPT-conversation.md".to_string(), bytes: 10 }),
        ExportFormat::Markdown,
    );
    let parsed: serde_json::Value = serde_json::from_str(&response).expect("json");
    assert_eq!(parsed["data"]["format"], "markdown");
    assert_eq!(event.status, "导出完成");
}

#[test]
fn export_conversation_payload_writes_pdf_file() {
    let m = message(
        "{\"id\":\"export-2\",\"type\":\"exportConversation\",\"payload\":{\"format\":\"pdf\",\"site_title\":\"ChatGPT\",\"url\":\"https://chatgpt.com/c/1\",\"markdown\":\"## User\\n\\nhello\"}}",
    );

    let file = export_conversation_file(&m).expect("export should build");

    assert_eq!(file.format, ExportFormat::Pdf);
    assert_eq!(file.file_name, "ChatGPT-conversation.pdf");
    assert!(file.content.starts_with(b"%PDF-1.4"));
}

#[test]
fn export_refuses_blank_conversations() {
    let m = message(r#"{"type":"exportConversation","payload":{"format":"md","markdown":"  "}}"#);
    let error = export_conversation_file(&m).unwrap_err();
    assert_eq!(error.message, "当前页面未识别到可导出的对话内容");
    let (_, event) = export_outcome(None, Err(error), ExportFormat::Markdown);
    assert_eq!(event.status, "导出失败：当前页面未识别到可导出的对话内容");
    let bad = message(r#"{"type":"exportConversation","payload":{"format":"doc","markdown":"x"}}"#);
    assert_eq!(export_conversation_file(&bad).unwrap_err().message, "export format is missing or invalid");
}

#[test]
fn download_url_plan_checks_the_token_before_the_request() {
    let m = message(
        r#"{"id":"u1","type":"downloadUrl","payload":{"url":"https://example.com/a.pdf","token":"t"}}"#,
    );
    let plan = download_url_plan(&m, Some("t")).expect("token matches");
    assert_eq!(plan.url, "https://example.com/a.pdf");
    assert_eq!(plan.filename, "a.pdf");
    assert_eq!(download_url_plan(&m, Some("other")).unwrap_err().message, "download URL IPC token is invalid");
    assert_eq!(download_url_plan(&m, None).unwrap_err().message, "download URL IPC is not allowed from this view");

    let bad_url = message(r#"{"type":"downloadUrl","payload":{"url":"ftp://example.com/a","token":"t"}}"#);
    assert_eq!(download_url_plan(&bad_url, Some("t")).unwrap_err().message, "download URL must use http or https");
    assert_eq!(
        download_url_plan(&bad_url, Some("x")).unwrap_err().message,
        "download URL IPC token is invalid"
    );
}

#[test]
fn save_download_plan_writes_decoded_content_or_answers_at_once() {
    match save_download_plan(&parsed(
        r#"{"id":"s1","type":"saveDownload","payload":{"filename":"a.txt","content_base64":"data:text/plain;base64,aGVsbG8="}}"#,
    )) {
        SaveDownloadPlan::Write { id, file } => {
            assert_eq!(id.as_deref(), Some("s1"));
            assert_eq!(file.filename, "a.txt");
            assert_eq!(file.content, b"hello".to_vec());
        }
        other => panic!("unexpected plan {other:?}"),
    }
    match save_download_plan(&parsed(r#"{"id":"s2","type":"saveDownload","payload":{"filename":"a.txt"}}"#)) {
        SaveDownloadPlan::Answer { answer, event } => {
            let answer: serde_json::Value = serde_json::from_str(&answer).expect("answer is json");
            assert_eq!(answer["ok"], false);
            assert_eq!(answer["id"], "s2");
            assert_eq!(answer["error"], "download content is missing");
            assert!(!event.success);
            assert_eq!(event.status, "下载失败");
        }
        other => panic!("unexpected plan {other:?}"),
    }
    match save_download_plan(&parsed("not json")) {
        SaveDownloadPlan::Answer { answer, event } => {
            let answer: serde_json::Value = serde_json::from_str(&answer).expect("answer is json");
            assert_eq!(answer["ok"], false);
            assert!(answer["id"].is_null());
            assert!(!event.success);
        }
        other => panic!("unexpected plan {other:?}"),
    }
}
