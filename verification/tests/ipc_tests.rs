use chatgpt_webview_client::controller::{ProxyGroup, ProxyNode, ProxyState};
use chatgpt_webview_client::downloads::DownloadEventKind;
use chatgpt_webview_client::ipc::{
    chatgpt_check_target, delay_test_group, find_group_index, ipc_request, is_concurrent,
    latency_proxy, route_site_message, settings_restart_required, IpcRequest, SiteMessage,
};
use chatgpt_webview_client::json::{JsonMember, JsonValue};
use chatgpt_webview_client::settings::local_http_proxy;
use chatgpt_webview_client::site::AiSite;
use chatgpt_webview_client::{AppSettings, ProxyMode, ProxyScheme, ProxySettings, ProxySubscription};

fn to_json(value: &serde_json::Value) -> JsonValue {
    match value {
        serde_json::Value::Null => JsonValue::Null,
        serde_json::Value::Bool(b) => JsonValue::Bool(*b),
        serde_json::Value::Number(n) => JsonValue::Number(n.as_u64()),
        serde_json::Value::String(s) => JsonValue::String(s.clone()),
        serde_json::Value::Array(items) => JsonValue::Array(items.iter().map(to_json).collect()),
        serde_json::Value::Object(map) => JsonValue::Object(
            map.iter()
                .map(|(k, v)| JsonMember { key: k.clone(), value: to_json(v) })
                .collect(),
        ),
    }
}

fn route(text: &str) -> SiteMessage {
    let parsed = serde_json::from_str::<serde_json::Value>(text).ok().map(|v| to_json(&v));
    route_site_message(&parsed)
}

fn group(name: &str, selected: &str, nodes: &[&str]) -> ProxyGroup {
    ProxyGroup {
        name: name.to_string(),
        selected: selected.to_string(),
        nodes: nodes
            .iter()
            .map(|n| ProxyNode { name: n.to_string(), kind: "Shadowsocks".to_string() })
            .collect(),
    }
}

fn subscription(id: &str, url: &str) -> ProxySubscription {
    ProxySubscription { id: id.to_string(), name: id.to_string(), url: url.to_string() }
}

#[test]
fn site_messages_route_memory_optimization_with_its_id() {
    assert_eq!(
        route(r#"{"id":"m1","type":"optimizeMemory"}"#),
        SiteMessage::OptimizeMemory(Some("m1".to_string()))
    );
    assert_eq!(route(r#"{"type":"optimizeMemory"}"#), SiteMessage::OptimizeMemory(None));
}

#[test]
fn site_messages_route_latency_results() {
    match route(r#"{"type":"latencyResult","payload":{"site":"gemini","delay_ms":42}}"#) {
        SiteMessage::Latency(event) => {
            assert_eq!(event.site, AiSite::Gemini);
            assert_eq!(event.delay_ms, Some(42));
            assert!(event.success);
        }
        other => panic!("unexpected route {other:?}"),
    }
}

#[test]
fn latency_result_for_unknown_site_goes_to_settings_handler() {
    assert_eq!(
        route(r#"{"type":"latencyResult","payload":{"site":"nowhere","delay_ms":42}}"#),
        SiteMessage::Settings
    );
}

#[test]
fn site_messages_route_downloads_and_exports() {
    assert_eq!(route(r#"{"type":"saveDownload","payload":{}}"#), SiteMessage::SaveDownload);
    assert_eq!(route(r#"{"type":"downloadUrl","payload":{}}"#), SiteMessage::DownloadUrl);
    assert_eq!(
        route(r#"{"type":"exportConversation","payload":{}}"#),
        SiteMessage::ExportConversation
    );
}

#[test]
fn site_messages_route_download_diagnostics() {
    match route(r#"{"type":"downloadDiagnostic","payload":{"level":"error","message":"blocked"}}"#) {
        SiteMessage::Diagnostic(event) => {
            assert_eq!(event.kind, DownloadEventKind::Diagnostic);
            assert_eq!(event.status, "下载诊断：blocked");
            assert!(!event.success);
        }
        other => panic!("unexpected route {other:?}"),
    }
}

#[test]
fn settings_commands_and_invalid_json_go_to_settings_handler() {
    assert_eq!(route(r#"{"id":"1","type":"getProxyState"}"#), SiteMessage::Settings);
    assert_eq!(route("not json"), SiteMessage::Settings);
}

#[test]
fn ipc_request_names_each_settings_command() {
    assert_eq!(ipc_request("getProxyState"), IpcRequest::ProxyState);
    assert_eq!(ipc_request("listProxyGroups"), IpcRequest::ProxyState);
    assert_eq!(ipc_request("saveSettings"), IpcRequest::SaveSettings);
    assert_eq!(ipc_request("selectProxy"), IpcRequest::SelectProxy);
    assert_eq!(ipc_request("testDelay"), IpcRequest::TestDelay);
    assert_eq!(ipc_request("testAllDelays"), IpcRequest::TestAllDelays);
    assert_eq!(ipc_request("checkChatGpt"), IpcRequest::CheckChatGpt);
    assert_eq!(ipc_request("restartRuntime"), IpcRequest::RestartRuntime);
    assert_eq!(ipc_request("repairProxy"), IpcRequest::RepairProxy);
    assert_eq!(ipc_request("readProxyLogs"), IpcRequest::ReadProxyLogs);
    assert_eq!(ipc_request("refreshSubscription"), IpcRequest::RefreshSubscription);
    assert_eq!(ipc_request("getproxystate"), IpcRequest::Unknown);
    assert_eq!(ipc_request(""), IpcRequest::Unknown);
}

#[test]
fn only_network_checks_and_logs_run_without_the_state_lock() {
    assert!(is_concurrent(IpcRequest::TestDelay));
    assert!(is_concurrent(IpcRequest::TestAllDelays));
    assert!(is_concurrent(IpcRequest::CheckChatGpt));
    assert!(is_concurrent(IpcRequest::ReadProxyLogs));
    assert!(!is_concurrent(IpcRequest::SaveSettings));
    assert!(!is_concurrent(IpcRequest::RepairProxy));
    assert!(!is_concurrent(IpcRequest::Unknown));
}

#[test]
fn saving_unchanged_settings_needs_no_restart() {
    let settings = AppSettings::default();
    assert!(!settings_restart_required(&settings.proxy, &settings.proxy));

    let mut moved_selection = settings.clone();
    moved_selection.proxy.selected_group = "Proxy".to_string();
    moved_selection.proxy.mixed_port = 7999;
    assert!(!settings_restart_required(&settings.proxy, &moved_selection.proxy));
}

#[test]
fn saving_a_new_mode_or_subscription_restarts_the_runtime() {
    let settings = AppSettings::default();

    let mut mode = settings.clone();
    mode.proxy.mode = ProxyMode::Direct;
    assert!(settings_restart_required(&settings.proxy, &mode.proxy));

    let mut auto_update = settings.clone();
    auto_update.proxy.auto_update_subscription = !settings.proxy.auto_update_subscription;
    assert!(settings_restart_required(&settings.proxy, &auto_update.proxy));

    let mut with_subs = settings.clone();
    with_subs.proxy.subscriptions = vec![subscription("a", "https://a.example/sub"), subscription("b", "https://b.example/sub")];
    with_subs.proxy.active_subscription_id = "a".to_string();
    let mut switched = with_subs.clone();
    switched.proxy.active_subscription_id = "b".to_string();
    assert!(settings_restart_required(&with_subs.proxy, &switched.proxy));

    let mut new_url = with_subs.clone();
    new_url.proxy.subscriptions[0].url = "https://a.example/other".to_string();
    assert!(settings_restart_required(&with_subs.proxy, &new_url.proxy));
}

#[test]
fn chatgpt_check_prefers_group_then_proxy_then_global() {
    let mut settings = AppSettings::default();
    settings.proxy.selected_group = "  Proxy  ".to_string();
    settings.proxy.selected_proxy = "Tokyo".to_string();
    assert_eq!(chatgpt_check_target(&settings.proxy), "Proxy");

    settings.proxy.selected_group = "   ".to_string();
    settings.proxy.selected_proxy = " Tokyo ".to_string();
    assert_eq!(chatgpt_check_target(&settings.proxy), "Tokyo");

    settings.proxy.selected_proxy = String::new();
    assert_eq!(chatgpt_check_target(&settings.proxy), "GLOBAL");
}

#[test]
fn delay_test_group_uses_request_then_saved_group() {
    assert_eq!(delay_test_group(Some("Auto"), "Proxy"), Some("Auto".to_string()));
    assert_eq!(delay_test_group(None, "Proxy"), Some("Proxy".to_string()));
    assert_eq!(delay_test_group(None, " Proxy "), Some(" Proxy ".to_string()));
    assert_eq!(delay_test_group(None, "  "), None);
}

#[test]
fn find_group_index_finds_first_exact_name() {
    let state = ProxyState {
        groups: vec![
            group("GLOBAL", "Proxy", &["Proxy", "DIRECT"]),
            group("Proxy", "Tokyo", &["Tokyo", "Osaka"]),
            group("Proxy", "Osaka", &["Osaka"]),
        ],
    };
    assert_eq!(find_group_index(&state, "Proxy"), Some(1));
    assert_eq!(find_group_index(&state, "GLOBAL"), Some(0));
    assert_eq!(find_group_index(&state, "proxy"), None);
    assert_eq!(find_group_index(&ProxyState { groups: vec![] }, "Proxy"), None);
}

#[test]
fn latency_proxy_follows_the_mode() {
    let system = ProxySettings { scheme: ProxyScheme::Socks5, host: "10.0.0.1".to_string(), port: "1080".to_string() };
    let runtime = local_http_proxy(7891);
    let mut settings = AppSettings::default();

    settings.proxy.mode = ProxyMode::Direct;
    assert_eq!(latency_proxy(&settings, Some(runtime.clone()), Some(system.clone())), None);

    settings.proxy.mode = ProxyMode::System;
    assert_eq!(latency_proxy(&settings, Some(runtime.clone()), Some(system.clone())), Some(system.clone()));
    assert_eq!(latency_proxy(&settings, Some(runtime.clone()), None), None);

    settings.proxy.mode = ProxyMode::InternalClash;
    settings.proxy.mixed_port = 7897;
    assert_eq!(latency_proxy(&settings, Some(runtime.clone()), Some(system.clone())), Some(runtime));
    assert_eq!(latency_proxy(&settings, None, Some(system)), Some(local_http_proxy(7897)));
}
