use chatgpt_webview_client::downloads::{
    download_history_from_store, download_history_store, download_record_payload, DownloadEvent,
    DownloadEventKind, DownloadHistory, DownloadHistoryStore, DownloadRecord, DownloadRecordStatus,
};
use chatgpt_webview_client::filenames::{
    cross_platform_file_name, filename_from_content_disposition, filename_from_url,
    sanitize_download_filename,
};

fn record(id: u64, filename: &str, status: DownloadRecordStatus, message: &str, timestamp_ms: u128) -> DownloadRecord {
    DownloadRecord {
        id,
        filename: filename.to_string(),
        status,
        path: None,
        url: None,
        bytes: None,
        message: message.to_string(),
        timestamp_ms,
    }
}

fn event(kind: DownloadEventKind, status: &str, path: Option<&str>, url: Option<&str>, bytes: Option<u64>, success: bool) -> DownloadEvent {
    DownloadEvent {
        kind,
        status: status.to_string(),
        path: path.map(str::to_string),
        url: url.map(str::to_string),
        bytes,
        success,
    }
}

#[test]
fn download_history_records_started_and_completed_items() {
    let mut history = DownloadHistory::default();
    let path = r"C:\Users\tester\Downloads\report.docx";

    history.record(event(
        DownloadEventKind::Started,
        "下载已开始",
        Some(path),
        Some("https://example.com/report.docx"),
        None,
        true,
    ));
    history.record(event(
        DownloadEventKind::Completed,
        "下载完成",
        Some(path),
        Some("https://example.com/report.docx"),
        Some(42),
        true,
    ));

    let payload: serde_json::Value = serde_json::from_str(&history.payload()).expect("payload is JSON");
    assert_eq!(payload["downloads"][0]["filename"], "report.docx");
    assert_eq!(payload["downloads"][0]["status"], "completed");
    assert_eq!(payload["downloads"][0]["path"], path);
    assert_eq!(payload["downloads"][0]["bytes"], 42);
    assert_eq!(history.records.len(), 1);
}

#[test]
fn download_history_store_round_trips_completed_records() {
    let mut history = DownloadHistory::new(500);
    history.record(event(
        DownloadEventKind::Completed,
        "下载完成",
        Some(r"C:\Users\tester\Downloads\report.xlsx"),
        Some("https://example.com/report.xlsx"),
        Some(12),
        true,
    ));

    let store = download_history_store(&history);
    let restored = download_history_from_store(store, 500);

    assert_eq!(restored.records.len(), 1);
    assert_eq!(restored.records[0].filename, "report.xlsx");
    assert_eq!(restored.records[0].status, DownloadRecordStatus::Completed);
    assert_eq!(restored.records, history.records);
    assert_eq!(restored.next_id, history.next_id);
}

#[test]
fn download_history_load_marks_previous_started_as_failed() {
    let store = DownloadHistoryStore {
        version: 1,
        next_id: 1,
        records: vec![DownloadRecord {
            id: 1,
            filename: "unfinished.zip".to_string(),
            status: DownloadRecordStatus::Started,
            path: Some(r"C:\Downloads\unfinished.zip".to_string()),
            url: None,
            bytes: None,
            message: "下载已开始".to_string(),
            timestamp_ms: 1,
        }],
    };

    let history = download_history_from_store(store, 500);

    assert_eq!(history.records[0].status, DownloadRecordStatus::Failed);
    assert_eq!(history.records[0].message, "上次退出时下载未完成");
}

#[test]
fn download_history_load_caps_records() {
    let records = (0..3)
        .map(|id| record(id, &format!("file-{id}.txt"), DownloadRecordStatus::Completed, "下载完成", u128::from(id)))
        .collect();
    let store = DownloadHistoryStore { version: 1, next_id: 3, records };

    let history = download_history_from_store(store, 2);

    assert_eq!(history.records.len(), 2);
    let zero = download_history_from_store(DownloadHistoryStore { version: 1, next_id: 0, records: vec![] }, 0);
    assert_eq!(zero.max_records, 1);
}

#[test]
fn download_history_clear_completed_keeps_failed_records() {
    let mut history = DownloadHistory::new(500);
    history.records = vec![
        record(1, "done.txt", DownloadRecordStatus::Completed, "下载完成", 1),
        record(2, "failed.txt", DownloadRecordStatus::Failed, "下载失败", 2),
        record(3, "diagnostic.txt", DownloadRecordStatus::Diagnostic, "下载诊断", 3),
    ];

    history.clear_completed();

    assert_eq!(history.records.len(), 2);
    assert!(history.records.iter().all(|record| record.status != DownloadRecordStatus::Completed));
}

#[test]
fn history_keeps_newest_records_within_its_limit() {
    let mut history = DownloadHistory::new(2);
    for name in ["a.txt", "b.txt", "c.txt"] {
        history.record_at(
            event(DownloadEventKind::Failed, "下载失败", None, Some(&format!("https://x.test/{name}")), None, false),
            7,
        );
    }

    assert_eq!(history.records.len(), 2);
    assert_eq!(history.records[0].filename, "c.txt");
    assert_eq!(history.records[1].filename, "b.txt");
    assert_eq!(history.records[0].id, 3);
    assert_eq!(history.records[0].timestamp_ms, 7);
}

#[test]
fn completion_updates_only_the_matching_started_record() {
    let mut history = DownloadHistory::new(10);
    history.record_at(event(DownloadEventKind::Started, "开始", None, Some("https://x.test/a"), None, true), 1);
    history.record_at(event(DownloadEventKind::Started, "开始", None, Some("https://x.test/b"), None, true), 2);
    history.record_at(event(DownloadEventKind::Completed, "完成", None, Some("https://x.test/a"), Some(5), false), 3);

    assert_eq!(history.records.len(), 2);
    assert_eq!(history.records[1].status, DownloadRecordStatus::Failed);
    assert_eq!(history.records[1].timestamp_ms, 3);
    assert_eq!(history.records[1].id, 1);
    assert_eq!(history.records[0].status, DownloadRecordStatus::Started);
}

#[test]
fn delete_record_reports_whether_it_removed_one() {
    let mut history = DownloadHistory::new(10);
    history.records = vec![
        record(1, "a", DownloadRecordStatus::Completed, "", 1),
        record(2, "b", DownloadRecordStatus::Completed, "", 2),
    ];

    assert!(history.delete_record(1));
    assert!(!history.delete_record(9));
    assert_eq!(history.records.len(), 1);
    assert_eq!(history.records[0].id, 2);
}

#[test]
fn record_payload_lists_fields_in_key_order() {
    let mut r = record(7, "a\"b.txt", DownloadRecordStatus::Missing, "gone", 12);
    r.bytes = Some(3);
    assert_eq!(
        download_record_payload(&r),
        "{\"bytes\":3,\"filename\":\"a\\\"b.txt\",\"id\":7,\"message\":\"gone\",\"path\":null,\"status\":\"missing\",\"timestamp_ms\":12,\"url\":null}"
    );
}

#[test]
fn status_names_match_the_pages() {
    assert_eq!(DownloadRecordStatus::Cancelled.as_str(), "cancelled");
    assert_eq!(DownloadRecordStatus::Started.as_str(), "started");
}

#[test]
fn file_names_come_from_either_separator() {
    assert_eq!(cross_platform_file_name(r"C:\Users\t\a.txt"), Some("a.txt".to_string()));
    assert_eq!(cross_platform_file_name("/tmp/b.txt"), Some("b.txt".to_string()));
    assert_eq!(cross_platform_file_name("/tmp/ "), None);
}

#[test]
fn url_file_names_ignore_query_and_fragment() {
    assert_eq!(filename_from_url("https://example.com/files/report.pdf?x=1#top"), "report.pdf");
    assert_eq!(filename_from_url("https://example.com/"), "download");
}

#[test]
fn content_disposition_names_are_unquoted() {
    assert_eq!(
        filename_from_content_disposition("attachment; filename=\"report.pdf\""),
        Some("report.pdf".to_string())
    );
    assert_eq!(
        filename_from_content_disposition("attachment; filename*=UTF-8''%E6%8A%A5.pdf"),
        Some("%E6%8A%A5.pdf".to_string())
    );
    assert_eq!(filename_from_content_disposition("inline"), None);
    assert_eq!(filename_from_content_disposition("attachment; filename=\"\""), None);
}

#[test]
fn sanitized_names_avoid_windows_forbidden_characters() {
    assert_eq!(sanitize_download_filename("bad<>:\"|?*name.txt"), "bad_______name.txt");
    assert_eq!(sanitize_download_filename(r"dir\sub/evil.txt. "), "evil.txt");
    assert_eq!(sanitize_download_filename("CON"), "download");
    assert_eq!(sanitize_download_filename("lpt1"), "download");
    assert_eq!(sanitize_download_filename("   "), "download");
}
