use chatgpt_webview_client::controller::{
    delay_result, format_proxy_path, parse_proxy_state, preferred_proxy_group, preferred_proxy_node,
    ProxyGroup, ProxyNode, ProxyState,
};
use chatgpt_webview_client::json::{JsonMember, JsonValue};
use chatgpt_webview_client::repair::{
    ordered_proxy_candidates, proxy_selection_plan, proxy_url, windows_browser_args, ProxyRepair,
    RepairStep,
};
use chatgpt_webview_client::{ProxyScheme, ProxySettings};

fn to_json(value: &serde_json::Value) -> JsonValue {
    match value {
        serde_json::Value::Null => JsonValue::Null,
        serde_json::Value::Bool(b) => JsonValue::Bool(*b),
        serde_json::Value::Number(n) => JsonValue::Number(n.as_u64()),
        serde_json::Value::String(s) => JsonValue::String(s.clone()),
        serde_json::Value::Array(items) => JsonValue::Array(items.iter().map(to_json).collect()),
        serde_json::Value::Object(map) => JsonValue::Object(
            map.iter()
                .map(|(k, v)| JsonMember { key: k.clone(), value: to_json(v) })
                .collect(),
        ),
    }
}

fn parse(text: &str) -> Result<JsonValue, String> {
    serde_json::from_str::<serde_json::Value>(text).map(|v| to_json(&v)).map_err(|e| e.to_string())
}

fn node(name: &str, kind: &str) -> ProxyNode {
    ProxyNode { name: name.to_string(), kind: kind.to_string() }
}

fn group(name: &str, selected: &str, nodes: Vec<ProxyNode>) -> ProxyGroup {
    ProxyGroup { name: name.to_string(), selected: selected.to_string(), nodes }
}

#[test]
fn proxy_state_parses_select_group_and_nodes() {
    let json = r#"
{
  "proxies": {
    "PROXY": {
      "name": "PROXY",
      "type": "Selector",
      "now": "香港 01",
      "all": ["香港 01", "日本/02"]
    },
    "香港 01": {
      "name": "香港 01",
      "type": "Shadowsocks",
      "udp": true
    },
    "日本/02": {
      "name": "日本/02",
      "type": "Trojan"
    },
    "DIRECT": {
      "name": "DIRECT",
      "type": "Direct"
    }
  }
}
"#;

    let state = parse_proxy_state(&parse(json)).map_err(|e| e.message()).expect("state should parse");

    assert_eq!(state.groups.len(), 1);
    assert_eq!(state.groups[0].name, "PROXY");
    assert_eq!(state.groups[0].selected, "香港 01");
    assert_eq!(state.groups[0].nodes.len(), 2);
    assert_eq!(state.groups[0].nodes[1].name, "日本/02");
    assert_eq!(state.groups[0].nodes[0].kind, "Shadowsocks");
}

#[test]
fn proxy_state_lists_groups_in_key_order_whatever_the_member_order() {
    let a = JsonMember {
        key: "b-group".to_string(),
        value: JsonValue::Object(vec![JsonMember {
            key: "all".to_string(),
            value: JsonValue::Array(vec![JsonValue::String("n1".to_string())]),
        }]),
    };
    let b = JsonMember {
        key: "A-group".to_string(),
        value: JsonValue::Object(vec![JsonMember {
            key: "all".to_string(),
            value: JsonValue::Array(vec![JsonValue::String("n2".to_string())]),
        }]),
    };
    let c = JsonMember {
        key: "a-group".to_string(),
        value: JsonValue::Object(vec![JsonMember {
            key: "all".to_string(),
            value: JsonValue::Array(vec![JsonValue::String("n3".to_string())]),
        }]),
    };
    let root = JsonValue::Object(vec![JsonMember { key: "proxies".to_string(), value: JsonValue::Object(vec![a, b, c]) }]);

    let state = parse_proxy_state(&Ok(root)).map_err(|e| e.message()).expect("state should parse");
    let names: Vec<&str> = state.groups.iter().map(|g| g.name.as_str()).collect();

    assert_eq!(names, vec!["A-group", "a-group", "b-group"]);
    assert_eq!(state.groups[0].nodes[0].name, "n2");
}

#[test]
fn proxy_state_rejects_text_that_is_not_json() {
    let error = parse_proxy_state(&parse("not json")).unwrap_err();
    assert_eq!(error.message(), "mihomo proxy response is not JSON: expected ident at line 1 column 2");
}

#[test]
fn proxy_path_url_encodes_unicode_spaces_and_slashes() {
    assert_eq!(format_proxy_path("香港 01/测试"), "%E9%A6%99%E6%B8%AF%2001%2F%E6%B5%8B%E8%AF%95");
}

#[test]
fn preferred_group_uses_saved_group_when_present() {
    let state = ProxyState {
        groups: vec![group("GLOBAL", "DIRECT", vec![]), group("Proxy", "node-a", vec![])],
    };

    assert_eq!(preferred_proxy_group(&state, "Proxy").expect("group should be found").name, "Proxy");
}

#[test]
fn preferred_group_skips_global_when_saved_group_is_missing() {
    let state = ProxyState {
        groups: vec![group("GLOBAL", "DIRECT", vec![]), group("Proxy", "node-a", vec![])],
    };

    assert_eq!(
        preferred_proxy_group(&state, "Old").expect("fallback group should be found").name,
        "Proxy"
    );
}

#[test]
fn preferred_group_falls_back_to_global_when_it_is_alone() {
    let state = ProxyState { groups: vec![group("global", "DIRECT", vec![])] };
    assert_eq!(preferred_proxy_group(&state, "").expect("group").name, "global");
    assert!(preferred_proxy_group(&ProxyState { groups: vec![] }, "Proxy").is_none());
}

#[test]
fn preferred_node_uses_saved_then_selected_then_non_direct() {
    let nodes = vec![node("DIRECT", "Direct"), node("node-a", "Vless"), node("node-b", "Vless")];
    let selected_group = group("Proxy", "node-b", nodes.clone());
    let direct_selected_group = group("Proxy", "DIRECT", nodes);

    assert_eq!(
        preferred_proxy_node(&selected_group, "node-a").expect("saved node should be preferred").name,
        "node-a"
    );
    assert_eq!(
        preferred_proxy_node(&selected_group, "missing").expect("selected node should be preferred").name,
        "node-b"
    );
    assert_eq!(
        preferred_proxy_node(&direct_selected_group, "missing")
            .expect("non-direct fallback should be preferred")
            .name,
        "node-a"
    );
}

#[test]
fn ordered_proxy_candidates_prefers_saved_valid_non_global_group() {
    let groups = vec![
        group("GLOBAL", "DIRECT", vec![node("DIRECT", "Direct")]),
        group("Proxy", "node-a", vec![node("node-a", "Vless"), node("DIRECT", "Direct")]),
    ];

    let candidates = ordered_proxy_candidates(&groups, "Proxy", "node-a");

    assert_eq!(candidates.first(), Some(&(String::from("Proxy"), String::from("node-a"))));
    for pair in candidates.windows(2) {
        assert_ne!(pair[0], pair[1]);
    }
    assert!(candidates.contains(&(String::from("GLOBAL"), String::from("DIRECT"))));
}

#[test]
fn selection_plan_reports_what_changes() {
    let state = ProxyState {
        groups: vec![group("Proxy", "node-b", vec![node("node-a", "Vless"), node("node-b", "Vless")])],
    };
    let plan = proxy_selection_plan(&state, "Proxy", "node-a").expect("plan");
    assert_eq!((plan.group.as_str(), plan.node.as_str()), ("Proxy", "node-a"));
    assert!(plan.needs_select);
    assert!(!plan.needs_save);
    let plan = proxy_selection_plan(&state, "", "").expect("plan");
    assert_eq!(plan.node, "node-b");
    assert!(!plan.needs_select);
    assert!(plan.needs_save);
    assert!(proxy_selection_plan(&ProxyState { groups: vec![] }, "", "").is_none());
}

#[test]
fn repair_tries_candidates_in_order_then_gives_up() {
    let mut repair = ProxyRepair::new(vec![
        ("Proxy".to_string(), "a".to_string()),
        ("Proxy".to_string(), "b".to_string()),
    ]);
    match repair.next_step() {
        RepairStep::Try { group, proxy } => assert_eq!((group.as_str(), proxy.as_str()), ("Proxy", "a")),
        RepairStep::GiveUp { .. } => panic!("expected a candidate"),
    }
    assert!(!repair.report(None, Some("timeout".to_string())));
    match repair.next_step() {
        RepairStep::Try { proxy, .. } => assert_eq!(proxy, "b"),
        RepairStep::GiveUp { .. } => panic!("expected a candidate"),
    }
    assert!(!repair.report(Some("refused".to_string()), None));
    match repair.next_step() {
        RepairStep::GiveUp { message } => {
            assert_eq!(message, "no usable proxy node reached ChatGPT: refused")
        }
        RepairStep::Try { .. } => panic!("expected to give up"),
    }
    let mut reached = ProxyRepair::new(vec![("Proxy".to_string(), "a".to_string())]);
    let _ = reached.next_step();
    assert!(reached.report(None, None));
    assert_eq!(reached.last_error, None);
    let mut empty = ProxyRepair::new(vec![]);
    match empty.next_step() {
        RepairStep::GiveUp { message } => assert_eq!(message, "no usable proxy node reached ChatGPT"),
        RepairStep::Try { .. } => panic!("expected to give up"),
    }
}

#[test]
fn proxy_url_needs_host_and_port() {
    let socks = ProxySettings {
        scheme: ProxyScheme::Socks5,
        host: " 127.0.0.1 ".to_string(),
        port: "1080".to_string(),
    };
    assert_eq!(proxy_url(&socks), Some("socks5h://127.0.0.1:1080".to_string()));
    let blank = ProxySettings { scheme: ProxyScheme::Http, host: " ".to_string(), port: "80".to_string() };
    assert_eq!(proxy_url(&blank), None);
}

#[test]
fn windows_browser_args_keep_internal_proxy_when_diagnostics_are_enabled() {
    let proxy = ProxySettings {
        scheme: ProxyScheme::Http,
        host: "127.0.0.1".to_string(),
        port: "17898".to_string(),
    };

    let args = windows_browser_args(Some(&proxy), None);

    assert!(args.contains("--js-flags=--expose-gc"));
    assert!(args.contains("--proxy-server=http://127.0.0.1:17898"));
    assert!(!args.contains("--remote-debugging-port"));
    let debug = windows_browser_args(None, Some("9222"));
    assert!(debug.ends_with(" --remote-debugging-port=9222"));
}

#[test]
fn delay_results_keep_name_and_outcome() {
    let ok = delay_result("node-a", Ok(120));
    assert_eq!((ok.name.as_str(), ok.delay_ms, ok.error), ("node-a", Some(120), None));
    let failed = delay_result("node-b", Err("timeout".to_string()));
    assert_eq!(failed.delay_ms, None);
    assert_eq!(failed.error, Some("timeout".to_string()));
}
