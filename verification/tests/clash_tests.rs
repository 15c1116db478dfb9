use chatgpt_webview_client::clash::{
    active_subscription_cache_id, active_subscription_cache_path, build_sanitized_config,
    clash_runtime_dir, config_check, configured_runtime_ports, ensure_subscription_source_available,
    load_or_download_subscription_with, load_startup_subscription_with, mihomo_log_tail,
    normalize_subscription_text, preferred_subscription_download, resolved_runtime_ports,
    saved_proxy_selection, startup_needs_download, subscription_cache_file_name,
    subscription_is_valid_clash_config, CachedSubscription, ConfigError, PortError, PortProbe,
    SubscriptionCandidate, SubscriptionError,
};
use chatgpt_webview_client::yaml::{YamlEntry, YamlValue};
use chatgpt_webview_client::{AppSettings, ProxyMode, ProxySubscription, ProxyUiSettings};

fn to_yaml(value: &serde_yaml::Value) -> YamlValue {
    match value {
        serde_yaml::Value::Null => YamlValue::Null,
        serde_yaml::Value::Bool(b) => YamlValue::Bool(*b),
        serde_yaml::Value::Number(n) => YamlValue::Number(n.to_string()),
        serde_yaml::Value::String(s) => YamlValue::String(s.clone()),
        serde_yaml::Value::Sequence(items) => YamlValue::Sequence(items.iter().map(to_yaml).collect()),
        serde_yaml::Value::Mapping(map) => YamlValue::Mapping(
            map.iter()
                .map(|(k, v)| YamlEntry { key: to_yaml(k), value: to_yaml(v) })
                .collect(),
        ),
        serde_yaml::Value::Tagged(tagged) => {
            YamlValue::Tagged(tagged.tag.to_string(), Box::new(to_yaml(&tagged.value)))
        }
    }
}

fn from_yaml(value: &YamlValue) -> serde_yaml::Value {
    match value {
        YamlValue::Null => serde_yaml::Value::Null,
        YamlValue::Bool(b) => serde_yaml::Value::Bool(*b),
        YamlValue::Number(n) => serde_yaml::from_str(n).expect("number text"),
        YamlValue::String(s) => serde_yaml::Value::String(s.clone()),
        YamlValue::Sequence(items) => serde_yaml::Value::Sequence(items.iter().map(from_yaml).collect()),
        YamlValue::Mapping(entries) => {
            let mut map = serde_yaml::Mapping::new();
            for entry in entries {
                map.insert(from_yaml(&entry.key), from_yaml(&entry.value));
            }
            serde_yaml::Value::Mapping(map)
        }
        YamlValue::Tagged(tag, inner) => serde_yaml::Value::Tagged(Box::new(
            serde_yaml::value::TaggedValue {
                tag: serde_yaml::value::Tag::new(tag.clone()),
                value: from_yaml(inner),
            },
        )),
    }
}

fn parse(text: &str) -> Result<YamlValue, String> {
    let text = normalize_subscription_text(text);
    serde_yaml::from_str::<serde_yaml::Value>(&text).map(|v| to_yaml(&v)).map_err(|e| e.to_string())
}

fn render(text: &str, mixed: u16, controller: u16, secret: &str) -> Result<String, String> {
    match build_sanitized_config(parse(text), mixed, controller, secret) {
        Ok(config) => Ok(serde_yaml::to_string(&from_yaml(&config)).expect("config prints")),
        Err(error) => Err(error.message()),
    }
}

fn sample_subscription() -> &'static str {
    r#"
proxies:
  - name: test
    type: direct
proxy-groups:
  - name: Proxy
    type: select
    proxies:
      - test
rules:
  - MATCH,Proxy
"#
}

fn settings_with(mixed_port: u16, controller_port: u16, group: &str, proxy: &str) -> AppSettings {
    AppSettings {
        proxy: ProxyUiSettings {
            mode: ProxyMode::InternalClash,
            subscription_url: String::new(),
            active_subscription_id: String::new(),
            subscriptions: Vec::new(),
            mixed_port,
            controller_port,
            auto_update_subscription: true,
            selected_group: group.to_string(),
            selected_proxy: proxy.to_string(),
        },
    }
}

#[test]
fn sanitized_config_rejects_plain_node_subscription_with_clear_message() {
    let error = render("dm1lc3M6Ly90ZXN0", 17898, 17899, "secret")
        .expect_err("plain node subscriptions should be rejected");

    assert!(error.contains("not Clash YAML"), "unexpected error: {error}");
}

#[test]
fn sanitized_config_forces_local_only_ports() {
    let config = render(sample_subscription(), 17898, 17899, "secret").expect("config should render");

    assert!(config.contains("mixed-port: 17898"));
    assert!(config.contains("allow-lan: false"));
    assert!(config.contains("bind-address: 127.0.0.1"));
    assert!(config.contains("external-controller: 127.0.0.1:17899"));
    assert!(config.contains("secret: secret"));
}

#[test]
fn sanitized_config_rejects_subscription_without_required_routing_keys() {
    let subscription = r#"
proxies:
  - name: test
    type: direct
"#;

    let error = render(subscription, 17898, 17899, "secret")
        .expect_err("config without proxy-groups and rules should be rejected");

    assert!(error.contains("proxy-groups"));
}

#[test]
fn sanitized_config_accepts_utf8_bom_subscription_cache() {
    let subscription = format!("\u{feff}{}", sample_subscription());

    let config = render(&subscription, 17898, 17899, "secret").expect("BOM-prefixed subscription should render");

    assert!(config.contains("mixed-port: 17898"));
}

#[test]
fn sanitized_config_accepts_bom_without_leading_newline() {
    let subscription = "\u{feff}proxies:\n  - name: direct-test\n    type: direct\nproxy-groups:\n  - name: AUTO\n    type: select\n    proxies:\n      - direct-test\n      - DIRECT\nrules:\n  - MATCH,AUTO\n";

    let config = render(subscription, 17898, 17899, "secret").expect("BOM-prefixed subscription should render");

    assert!(config.contains("mixed-port: 17898"));
}

#[test]
fn sanitized_config_rewrites_rules_to_app_proxy_group() {
    let subscription = r#"
proxies:
  - name: test
    type: direct
proxy-groups:
  - name: Proxy
    type: select
    proxies:
      - test
rules:
  - GEOIP,CN,DIRECT
  - MATCH,Proxy
"#;

    let config = render(subscription, 17898, 17899, "secret").expect("config should render");

    assert!(config.contains("- MATCH,Proxy"));
    assert!(!config.contains("GEOIP"));
}

#[test]
fn config_check_reports_each_missing_key() {
    let both_missing = parse("foo: 1\n");
    assert_eq!(
        config_check(&both_missing).map_err(|e| e.message()),
        Err("subscription is missing required Clash routing keys: proxy-groups, proxies or proxy-providers".to_string())
    );
    let providers_only = parse("proxy-providers:\n  p: {}\nproxy-groups:\n  - type: select\n");
    assert_eq!(config_check(&providers_only), Err(ConfigError::MissingGroupName));
    let not_yaml = Err("found unexpected end of stream".to_string());
    assert_eq!(config_check(&not_yaml), Err(ConfigError::InvalidYaml("found unexpected end of stream".to_string())));
    assert_eq!(
        config_check(&not_yaml).unwrap_err().message(),
        "subscription is not valid YAML: found unexpected end of stream"
    );
    let broken = parse("proxies: [unclosed");
    let message = config_check(&broken).unwrap_err().message();
    assert!(message.starts_with("subscription is not valid YAML: ") && message.len() > "subscription is not valid YAML: ".len());
    assert!(subscription_is_valid_clash_config(&parse(sample_subscription())));
    assert!(!subscription_is_valid_clash_config(&parse("dm1lc3M6Ly90ZXN0")));
}

#[test]
fn saved_proxy_selection_requires_group_and_proxy() {
    let settings = settings_with(17898, 17899, "PROXY", "");

    assert!(saved_proxy_selection(&settings).is_none());
}

#[test]
fn saved_proxy_selection_returns_group_and_proxy() {
    let settings = settings_with(17898, 17899, "PROXY", "香港 01");

    assert_eq!(
        saved_proxy_selection(&settings),
        Some(("PROXY".to_string(), "香港 01".to_string()))
    );
}

#[test]
fn runtime_ports_use_configured_settings() {
    let settings = settings_with(19080, 19081, "", "");

    let (mixed_port, controller_port) = configured_runtime_ports(&settings).expect("ports should be accepted");

    assert_eq!(mixed_port, 19080);
    assert_eq!(controller_port, 19081);
}

#[test]
fn runtime_ports_reject_equal_ports() {
    let settings = settings_with(19080, 19080, "", "");

    let error = configured_runtime_ports(&settings).expect_err("same port should be rejected");

    assert!(error.message().contains("must be different"));
}

#[test]
fn resolved_runtime_ports_preserve_free_configured_ports() {
    let settings = settings_with(19080, 19081, "", "");
    let probe = PortProbe {
        mixed_port_available: true,
        controller_port_available: true,
        spare_for_mixed: Some(40000),
        spare_for_controller: Some(40001),
    };

    let ports = resolved_runtime_ports(&settings, &probe).expect("ports should resolve");

    assert_eq!(ports.mixed_port, 19080);
    assert_eq!(ports.controller_port, 19081);
}

#[test]
fn resolved_runtime_ports_avoid_occupied_ports() {
    let settings = settings_with(19080, 19081, "", "");
    let probe = PortProbe {
        mixed_port_available: false,
        controller_port_available: false,
        spare_for_mixed: Some(40000),
        spare_for_controller: Some(40001),
    };

    let ports = resolved_runtime_ports(&settings, &probe).expect("ports should resolve");

    assert_ne!(ports.mixed_port, 19080);
    assert_ne!(ports.controller_port, 19081);
    assert_ne!(ports.mixed_port, ports.controller_port);
    let collide = PortProbe { spare_for_controller: Some(40000), ..probe };
    assert_eq!(resolved_runtime_ports(&settings, &collide), Err(PortError::Collision));
    let none_free = PortProbe { spare_for_mixed: None, ..probe };
    assert_eq!(resolved_runtime_ports(&settings, &none_free), Err(PortError::NoFreePort));
}

#[test]
fn active_subscription_cache_is_isolated_by_subscription_id() {
    let runtime_dir = clash_runtime_dir("/opt/easygpt/data");
    let mut settings = AppSettings::default();
    settings.proxy.subscriptions = vec![
        ProxySubscription {
            id: "sub-a".to_string(),
            name: "A".to_string(),
            url: "https://example.com/a".to_string(),
        },
        ProxySubscription {
            id: "sub-b".to_string(),
            name: "B".to_string(),
            url: "https://example.com/b".to_string(),
        },
    ];
    settings.proxy.active_subscription_id = "sub-a".to_string();
    settings.proxy.normalize_subscriptions();

    let first = active_subscription_cache_path(&runtime_dir, &settings);
    settings.proxy.active_subscription_id = "sub-b".to_string();
    settings.proxy.normalize_subscriptions();
    let second = active_subscription_cache_path(&runtime_dir, &settings);

    assert_ne!(first, second);
    assert!(first.replace('\\', "/").ends_with("subscriptions/sub-a.yaml"));
    assert!(second.replace('\\', "/").ends_with("subscriptions/sub-b.yaml"));
    assert_eq!(active_subscription_cache_id(&settings), "sub-b");
}

#[test]
fn subscription_cache_id_sanitizes_path_separators() {
    assert_eq!(subscription_cache_file_name("sub/../bad"), "sub____bad.yaml");
}

#[test]
fn empty_url_needs_a_cache() {
    assert!(matches!(
        ensure_subscription_source_available("", false),
        Err(SubscriptionError::MissingSource)
    ));
    assert!(ensure_subscription_source_available("", true).is_ok());
    assert!(ensure_subscription_source_available("https://example.com/sub", false).is_ok());
}

#[test]
fn cached_subscription_starts_without_url_when_auto_update_is_off() {
    let cache = CachedSubscription::Present { text: sample_subscription().to_string(), valid: true };
    assert!(!startup_needs_download("", &cache, false));
    let result = load_startup_subscription_with("", cache, false, None);
    assert_eq!(result.ok(), Some(sample_subscription().to_string()));
}

#[test]
fn valid_cache_is_used_when_download_fails() {
    let url = "https://example.invalid/sub";
    let cache = CachedSubscription::Present { text: sample_subscription().to_string(), valid: true };
    assert!(startup_needs_download(url, &cache, true));
    let result =
        load_startup_subscription_with(url, cache, true, Some(Err("network unavailable".to_string())));
    assert_eq!(result.ok(), Some(sample_subscription().to_string()));
}

#[test]
fn startup_prefers_fresh_download_over_cache() {
    let url = "https://example.invalid/sub";
    let cache = CachedSubscription::Present { text: sample_subscription().to_string(), valid: true };
    let result = load_startup_subscription_with(url, cache, true, Some(Ok("fresh".to_string())));
    assert_eq!(result.ok(), Some("fresh".to_string()));
}

#[test]
fn invalid_cache_is_replaced_or_reported() {
    let url = "https://example.test/sub";
    let cache = CachedSubscription::Present { text: "dm1lc3M6Ly90ZXN0".to_string(), valid: false };
    let refreshed = load_startup_subscription_with(url, cache, true, Some(Ok("fresh".to_string())));
    assert_eq!(refreshed.ok(), Some("fresh".to_string()));
    let cache = CachedSubscription::Present { text: "dm1lc3M6Ly90ZXN0".to_string(), valid: false };
    let failed = load_startup_subscription_with(url, cache, true, Some(Err("offline".to_string())));
    assert!(matches!(failed, Err(SubscriptionError::InvalidCacheNotRefreshed(e)) if e == "offline"));
}

#[test]
fn refresh_uses_cache_when_download_fails() {
    let url = "https://example.invalid/sub";
    let cache = CachedSubscription::Present { text: sample_subscription().to_string(), valid: true };
    let result =
        load_or_download_subscription_with(url, cache, true, Some(Err("network unavailable".to_string())));
    assert_eq!(result.ok(), Some(sample_subscription().to_string()));
}

#[test]
fn clash_meta_download_is_preferred_when_it_is_clash_yaml() {
    let chosen = preferred_subscription_download(vec![
        SubscriptionCandidate { text: "plain".to_string(), valid: false },
        SubscriptionCandidate { text: "meta".to_string(), valid: true },
        SubscriptionCandidate { text: "clash".to_string(), valid: true },
    ]);
    assert_eq!(chosen, Some("meta".to_string()));
}

#[test]
fn log_tail_keeps_last_lines() {
    assert_eq!(mihomo_log_tail("a\nb\nc\n", 2), "b\nc");
    assert_eq!(mihomo_log_tail("a\r\nb", 5), "a\nb");
}

// The scenarios below follow the subscription start-up cases: the cache
// file's content and validity, and what each download gave, are the inputs.

fn compact_subscription() -> &'static str {
    r#"
mixed-port: 7890
allow-lan: true
proxies:
  - name: test
    type: direct
proxy-groups:
  - name: AUTO
    type: select
    proxies:
      - test
rules:
  - MATCH,AUTO
"#
}

fn alternate_subscription() -> &'static str {
    r#"
proxies:
  - name: fresh
    type: direct
proxy-groups:
  - name: FreshProxy
    type: select
    proxies:
      - fresh
rules:
  - MATCH,FreshProxy
"#
}

fn multi_node_subscription() -> &'static str {
    r#"
mixed-port: 7890
proxies:
  - { name: hk-1, type: ss, server: example.com, port: 10001, cipher: aes-128-gcm, password: test }
  - { name: jp-1, type: ss, server: example.com, port: 10002, cipher: aes-128-gcm, password: test }
  - { name: us-1, type: ss, server: example.com, port: 10003, cipher: aes-128-gcm, password: test }
proxy-groups:
  - { name: Proxy, type: select, proxies: [hk-1, jp-1, us-1] }
rules:
  - MATCH,Proxy
"#
}

fn candidate(text: &str) -> SubscriptionCandidate {
    SubscriptionCandidate { text: text.to_string(), valid: subscription_is_valid_clash_config(&parse(text)) }
}

fn valid_cache(text: &str) -> CachedSubscription {
    CachedSubscription::Present { text: text.to_string(), valid: subscription_is_valid_clash_config(&parse(text)) }
}

#[test]
fn download_subscription_prefers_clash_meta_user_agent_for_complete_node_lists() {
    // The `clash.meta` download is already a Clash configuration, so it is the only one.
    let full_yaml = multi_node_subscription().trim_start();
    let downloaded = preferred_subscription_download(vec![candidate(full_yaml)]).expect("subscription should download");

    assert!(downloaded.contains("jp-1"), "provider returned compact content: {downloaded}");
}

#[test]
fn download_subscription_falls_back_to_clash_user_agent_when_meta_is_not_clash_yaml() {
    let expected_yaml = compact_subscription().trim_start();
    let downloaded = preferred_subscription_download(vec![candidate("dm1lc3M6Ly90ZXN0"), candidate(expected_yaml)])
        .expect("subscription should download");

    assert!(downloaded.contains("proxy-groups:"), "provider returned non-Clash content: {downloaded}");
}

#[test]
fn cached_subscription_can_start_without_subscription_url_when_auto_update_is_disabled() {
    let result = load_or_download_subscription_with("", valid_cache(compact_subscription()), false, None);

    assert_eq!(result.expect("cached subscription should load"), compact_subscription());
}

#[test]
fn empty_subscription_url_requires_cache_or_auto_update_disabled() {
    let error = ensure_subscription_source_available("", false).expect_err("missing cache and empty URL should fail");

    assert!(error.message("/tmp/missing-chatgpt-client-subscription.yaml").contains("subscription URL"));
}

#[test]
fn cached_subscription_is_used_when_auto_update_download_fails() {
    let result = load_or_download_subscription_with(
        "https://example.invalid/sub",
        valid_cache(compact_subscription()),
        true,
        Some(Err("network unavailable".to_string())),
    );

    assert_eq!(result.expect("cached subscription should be used as fallback"), compact_subscription());
}

#[test]
fn startup_auto_update_downloads_active_subscription_even_when_cache_exists() {
    let result = load_startup_subscription_with(
        "https://example.invalid/sub",
        valid_cache(compact_subscription()),
        true,
        Some(Ok(alternate_subscription().to_string())),
    );

    assert_eq!(result.expect("startup should download the active subscription"), alternate_subscription());
}

#[test]
fn startup_uses_valid_cache_when_auto_update_download_fails() {
    let result = load_startup_subscription_with(
        "https://example.invalid/sub",
        valid_cache(compact_subscription()),
        true,
        Some(Err("network unavailable".to_string())),
    );

    assert_eq!(result.expect("valid cache should be used when refresh fails"), compact_subscription());
}

#[test]
fn invalid_cached_subscription_is_refreshed_on_startup_when_auto_update_is_enabled() {
    let cache = valid_cache("dm1lc3M6Ly90ZXN0");
    assert!(matches!(cache, CachedSubscription::Present { valid: false, .. }));
    let result = load_startup_subscription_with(
        "https://example.test/sub",
        cache,
        true,
        Some(Ok(compact_subscription().to_string())),
    );

    assert_eq!(result.expect("startup should refresh invalid cached subscription"), compact_subscription());
}
