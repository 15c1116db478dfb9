use vstd::prelude::*;

pub mod clash;
pub mod controller;
pub mod downloads;
pub mod export;
pub mod filenames;
pub mod ipc;
pub mod json;
pub mod pages;
pub mod pdf;
pub mod repair;
pub mod jsontext;
pub mod settings;
pub mod shell;
pub mod site;
pub mod templates;
pub mod text;
pub mod yaml;

pub use settings::{AppSettings, ProxyMode, ProxyScheme, ProxySettings, ProxySubscription, ProxyUiSettings, app_data_dir, detected_proxy, parse_proxy_server, portable_data_dir, settings_path, stable_subscription_id, startup_proxy, webview_profile_dir, windows_system_proxy};

verus! {

pub const CHATGPT_URL: &'static str = "https://chatgpt.com";

pub const APP_DIR_NAME: &'static str = "ChatGPTWebviewClient";

pub const WEBVIEW_PROFILE_DIR_NAME: &'static str = "WebView2Profile";

pub const PORTABLE_DATA_DIR_NAME: &'static str = "data";

pub const DELAY_TEST_URL: &'static str = "https://chatgpt.com/cdn-cgi/trace";

/// How long a delay test or a latency measurement may take, in milliseconds.
pub const DELAY_TIMEOUT_MS: u64 = 5000;

} // verus!
