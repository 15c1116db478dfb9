use chatgpt_webview_client::settings::{legacy_app_data_dir, local_http_proxy};
use chatgpt_webview_client::{
    app_data_dir, detected_proxy, parse_proxy_server, settings_path, stable_subscription_id,
    startup_proxy, webview_profile_dir, windows_system_proxy, AppSettings, ProxyMode,
    ProxyScheme, ProxySettings, ProxySubscription,
};

const EXE_DIR: &str = "/opt/easygpt";

fn subscription(id: &str, name: &str, url: &str) -> ProxySubscription {
    ProxySubscription { id: id.to_string(), name: name.to_string(), url: url.to_string() }
}

#[test]
fn profile_dir_uses_app_specific_webview_folder() {
    let profile_dir = webview_profile_dir(None, EXE_DIR);
    let rendered = profile_dir.replace('\\', "/");

    assert!(rendered.ends_with("data/WebView2Profile"));
}

#[test]
fn settings_path_uses_program_data_directory() {
    let path = settings_path(None, EXE_DIR);
    let rendered = path.replace('\\', "/");

    assert!(rendered.ends_with("data/settings.toml"));
}

#[test]
fn app_data_dir_uses_program_data_directory() {
    let path = app_data_dir(None, EXE_DIR);
    let rendered = path.replace('\\', "/");

    assert!(rendered.ends_with("data"));
}

#[test]
fn clash_runtime_dir_is_inside_program_data_directory() {
    let path = chatgpt_webview_client::clash::clash_runtime_dir(&app_data_dir(None, EXE_DIR));
    let rendered = path.replace('\\', "/");

    assert!(rendered.ends_with("data/clash"));
}

#[test]
fn parses_windows_split_http_proxy_server() {
    let proxy = parse_proxy_server("http=127.0.0.1:7898;https=127.0.0.1:7898")
        .expect("proxy should parse");

    assert_eq!(
        proxy,
        ProxySettings {
            scheme: ProxyScheme::Http,
            host: "127.0.0.1".to_string(),
            port: "7898".to_string(),
        }
    );
}

#[test]
fn parses_plain_proxy_server() {
    let proxy = parse_proxy_server("127.0.0.1:7898").expect("proxy should parse");

    assert_eq!(
        proxy,
        ProxySettings {
            scheme: ProxyScheme::Http,
            host: "127.0.0.1".to_string(),
            port: "7898".to_string(),
        }
    );
}

#[test]
fn parses_socks_proxy_server() {
    let proxy = parse_proxy_server("socks=127.0.0.1:7897").expect("proxy should parse");

    assert_eq!(
        proxy,
        ProxySettings {
            scheme: ProxyScheme::Socks5,
            host: "127.0.0.1".to_string(),
            port: "7897".to_string(),
        }
    );
}

#[test]
fn default_app_settings_use_system_proxy() {
    let settings = AppSettings::default();

    assert_eq!(settings.proxy.mode, ProxyMode::System);
    assert_eq!(settings.proxy.mixed_port, 17898);
    assert_eq!(settings.proxy.controller_port, 17899);
    assert!(settings.proxy.auto_update_subscription);
    assert!(settings.proxy.selected_group.is_empty());
    assert!(settings.proxy.selected_proxy.is_empty());
}

#[test]
fn active_subscription_url_uses_selected_subscription() {
    let mut settings = AppSettings::default();
    settings.proxy.subscription_url = "https://example.com/old".to_string();
    settings.proxy.subscriptions = vec![
        subscription("a", "A", "https://example.com/a"),
        subscription("b", "B", "https://example.com/b"),
    ];
    settings.proxy.active_subscription_id = "b".to_string();
    settings.proxy.normalize_subscriptions();

    assert_eq!(settings.proxy.active_subscription_url(), "https://example.com/b");
    assert_eq!(settings.proxy.subscription_url, "https://example.com/b");
}

#[test]
fn normalizing_subscription_resets_selected_proxy_when_active_subscription_changes() {
    let mut settings = AppSettings::default();
    settings.proxy.selected_group = "Proxy".to_string();
    settings.proxy.selected_proxy = "Old Node".to_string();
    settings.proxy.active_subscription_id = "b".to_string();
    settings.proxy.subscriptions = vec![
        subscription("a", "A", "https://example.com/a"),
        subscription("b", "B", "https://example.com/b"),
    ];

    settings.proxy.normalize_subscriptions_with_previous_active(Some("a"));

    assert!(settings.proxy.selected_group.is_empty());
    assert!(settings.proxy.selected_proxy.is_empty());
}

#[test]
fn legacy_subscription_url_migrates_to_subscription_list() {
    let mut settings = AppSettings::default();
    settings.proxy.mode = ProxyMode::InternalClash;
    settings.proxy.subscription_url = "https://example.com/legacy".to_string();
    settings.proxy.selected_group = "Proxy".to_string();
    settings.proxy.selected_proxy = "Node".to_string();

    let settings = settings.normalized();

    assert_eq!(settings.proxy.active_subscription_url(), "https://example.com/legacy");
    assert_eq!(settings.proxy.subscriptions.len(), 1);
    assert_eq!(settings.proxy.subscriptions[0].name, "默认订阅");
    assert!(!settings.proxy.active_subscription_id.is_empty());
}

#[test]
fn normalizing_twice_changes_nothing() {
    let mut settings = AppSettings::default();
    settings.proxy.subscriptions = vec![
        subscription("", "", " https://example.com/a "),
        subscription("b", "B", "https://example.com/b"),
        subscription("b", "B2", "https://example.com/b2"),
    ];
    settings.proxy.active_subscription_id = "missing".to_string();
    settings.proxy.normalize_subscriptions();
    let once = settings.clone();
    settings.proxy.normalize_subscriptions();

    assert_eq!(settings, once);
    assert!(settings
        .proxy
        .subscriptions
        .iter()
        .any(|s| s.id == settings.proxy.active_subscription_id));
    assert_eq!(settings.proxy.subscriptions.len(), 3);
}

#[test]
fn stable_subscription_id_is_fnv_hex() {
    assert_eq!(stable_subscription_id(""), "sub-cbf29ce484222325");
    assert_eq!(stable_subscription_id("a"), "sub-af63dc4c8601ec8c");
    assert_ne!(
        stable_subscription_id("https://example.com/a"),
        stable_subscription_id("https://example.com/b")
    );
}

#[test]
fn windows_registry_values_give_a_proxy_only_when_enabled() {
    assert_eq!(windows_system_proxy(Some(0), Some("127.0.0.1:7890")), None);
    assert_eq!(windows_system_proxy(None, Some("127.0.0.1:7890")), None);
    assert_eq!(
        windows_system_proxy(Some(1), Some("127.0.0.1:7890")),
        Some(ProxySettings {
            scheme: ProxyScheme::Http,
            host: "127.0.0.1".to_string(),
            port: "7890".to_string(),
        })
    );
}

#[test]
fn environment_override_wins_over_system_proxy() {
    let system = ProxySettings {
        scheme: ProxyScheme::Http,
        host: "10.0.0.1".to_string(),
        port: "8080".to_string(),
    };
    let detected = detected_proxy(Some("socks5://127.0.0.1:1080"), Some(system.clone()));
    assert_eq!(
        detected,
        Some(ProxySettings {
            scheme: ProxyScheme::Socks5,
            host: "127.0.0.1".to_string(),
            port: "1080".to_string(),
        })
    );
    assert_eq!(detected_proxy(None, Some(system.clone())), Some(system));
}

#[test]
fn startup_proxy_follows_mode() {
    let system = ProxySettings {
        scheme: ProxyScheme::Http,
        host: "10.0.0.1".to_string(),
        port: "8080".to_string(),
    };
    let mut settings = AppSettings::default();
    assert_eq!(startup_proxy(&settings, Some(system.clone())), Some(system.clone()));
    settings.proxy.mode = ProxyMode::Direct;
    assert_eq!(startup_proxy(&settings, Some(system.clone())), None);
    settings.proxy.mode = ProxyMode::InternalClash;
    assert_eq!(startup_proxy(&settings, Some(system)), Some(local_http_proxy(17898)));
}

#[test]
fn legacy_data_dir_is_per_user() {
    assert!(legacy_app_data_dir("/home/u/.local/share").ends_with("ChatGPTWebviewClient"));
}

#[test]
fn data_dir_environment_variable_moves_every_data_file() {
    let custom = "/home/u/.local/share/EasyGPT/data";
    assert_eq!(app_data_dir(Some(custom), EXE_DIR), custom);
    assert_eq!(settings_path(Some(custom), EXE_DIR), "/home/u/.local/share/EasyGPT/data/settings.toml");
    assert_eq!(webview_profile_dir(Some(custom), EXE_DIR), "/home/u/.local/share/EasyGPT/data/WebView2Profile");
    assert_eq!(
        chatgpt_webview_client::clash::clash_runtime_dir(&app_data_dir(Some(custom), EXE_DIR)),
        "/home/u/.local/share/EasyGPT/data/clash"
    );
}

#[test]
fn empty_data_dir_environment_variable_keeps_portable_directory() {
    assert_eq!(app_data_dir(Some(""), EXE_DIR), "/opt/easygpt/data");
    assert_eq!(app_data_dir(None, EXE_DIR), "/opt/easygpt/data");
}
