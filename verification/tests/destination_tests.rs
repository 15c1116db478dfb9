use std::path::Path;

use chatgpt_webview_client::filenames::{cross_platform_file_name, download_directory, DownloadSaveMode};
use chatgpt_webview_client::settings::join_path;

const BASE_DIR: &str = "/opt/easygpt";
const DATA_DIR: &str = "/opt/easygpt/data";

/// The directory and the name a download suggested as `suggested` is saved
/// under, before a free name is looked for.
fn destination(suggested: &str, mode: DownloadSaveMode, fixed_dir: &str, last_dir: &str) -> String {
    let filename = cross_platform_file_name(suggested).unwrap_or_else(|| "download".to_string());
    let fixed_is_absolute = Path::new(fixed_dir.trim()).is_absolute();
    let directory = download_directory(mode, fixed_dir, last_dir, BASE_DIR, DATA_DIR, fixed_is_absolute);
    join_path(&directory, &filename)
}

fn file_name(path: &str) -> Option<String> {
    Path::new(path).file_name().and_then(|name| name.to_str()).map(str::to_string)
}

#[test]
fn download_destination_uses_suggested_filename() {
    let destination = destination("report.pdf", DownloadSaveMode::Fixed, "", "");

    assert_eq!(file_name(&destination).as_deref(), Some("report.pdf"));
    assert!(Path::new(&destination).is_absolute());
}

#[test]
fn download_destination_uses_windows_basename_on_unix_hosts() {
    let destination = destination(r"C:\Users\tester\Downloads\report.pdf", DownloadSaveMode::Fixed, "", "");

    assert_eq!(file_name(&destination).as_deref(), Some("report.pdf"));
}

#[test]
fn download_destination_respects_fixed_absolute_directory() {
    let dir = "/tmp/easygpt-fixed-download-test".to_string();
    let destination = destination("report.pdf", DownloadSaveMode::Fixed, &dir, "");

    assert!(Path::new(&destination).starts_with(&dir));
    assert_eq!(file_name(&destination).as_deref(), Some("report.pdf"));
}

#[test]
fn download_destination_respects_last_directory_mode() {
    let dir = "/tmp/easygpt-last-download-test".to_string();
    let destination = destination("report.pdf", DownloadSaveMode::LastDir, "", &dir);

    assert!(Path::new(&destination).starts_with(&dir));
}

#[test]
fn default_download_directory_is_data_downloads_under_base() {
    assert_eq!(
        download_directory(DownloadSaveMode::Fixed, "  ", "/tmp/last", BASE_DIR, DATA_DIR, false),
        "/opt/easygpt/data/Downloads"
    );
}

#[test]
fn default_download_directory_follows_the_data_directory() {
    assert_eq!(
        download_directory(DownloadSaveMode::Fixed, "", "", "/home/u/.local/share/EasyGPT", "/home/u/.local/share/EasyGPT/store", false),
        "/home/u/.local/share/EasyGPT/store/Downloads"
    );
}

#[test]
fn relative_fixed_directory_is_under_base_and_trimmed() {
    assert_eq!(
        download_directory(DownloadSaveMode::Fixed, " exports ", "", BASE_DIR, DATA_DIR, false),
        "/opt/easygpt/exports"
    );
    assert_eq!(
        download_directory(DownloadSaveMode::Fixed, " /srv/files ", "", BASE_DIR, DATA_DIR, true),
        "/srv/files"
    );
}

#[test]
fn last_directory_mode_without_last_directory_uses_fixed_rule() {
    assert_eq!(
        download_directory(DownloadSaveMode::LastDir, "", " ", BASE_DIR, DATA_DIR, false),
        "/opt/easygpt/data/Downloads"
    );
    assert_eq!(
        download_directory(DownloadSaveMode::LastDir, "exports", " /tmp/last ", BASE_DIR, DATA_DIR, false),
        "/tmp/last"
    );
}
