use ctos::json::{json_to_string_pretty, JsonValue};
use ctos::{ClashCfg, CtosError, SingboxCfg};

const CLASH_TEST: &str = r#"
port: 7890
mode: rule
proxies:
  - { name: "ss one", type: ss, server: a.example, port: 8388, cipher: aes-256-gcm, password: pw, udp: true }
  - { name: trojan two, type: trojan, server: b.example, port: 443, password: pw, sni: b.example, tls: true }
  - { name: vmess three, type: vmess, server: c.example, port: "10086", uuid: u-u-i-d, alterId: 0, network: ws, ws-opts: { path: /ws } }
  - { name: http four, type: http, server: d.example, port: 8080, username: user, password: secret }
  - { name: socks five, type: socks5, server: e.example, port: 1080 }
rules:
  - MATCH,DIRECT
"#;

fn clash_test() -> ClashCfg {
    ClashCfg::new_from_plain_text(CLASH_TEST).unwrap()
}

#[test]
fn get_metainfo() {
    let cfg = clash_test();
    assert_eq!(
        cfg.get_node_tags(),
        vec!["ss one", "trojan two", "vmess three", "http four", "socks five"]
    );
    assert_eq!(cfg.get_node_types(), vec!["ss", "trojan", "vmess", "http", "socks5"]);
}

#[test]
fn gen_proxies() {
    let cfg = clash_test();
    assert!(cfg.all_proxies_convertible());
    let info = cfg.get_node_data_full().unwrap();
    assert_eq!(info.list.len(), 5);
    let text = info.proxies_string_pretty().unwrap();
    assert!(text.starts_with("[\n"));
    assert!(text.contains("\"type\": \"http\""));
    assert!(text.contains("\"tag\": \"socks five\""));
}

#[test]
fn merge_config() {
    let info = clash_test().get_node_data_full().unwrap();
    let profile = info.merge_min();
    let text = json_to_string_pretty(&profile);
    assert!(text.is_ok());
    match &profile {
        JsonValue::Object(entries) => {
            let outbounds = entries.iter().find(|(k, _)| k == "outbounds").map(|(_, v)| v);
            match outbounds {
                Some(JsonValue::Array(list)) => assert_eq!(list.len(), 5 + 5),
                _ => panic!("the profile has an outbounds list"),
            }
        }
        _ => panic!("the profile is an object"),
    }
}

#[test]
fn profile_text_is_read() {
    let cfg = SingboxCfg::from_text(r#"{"outbounds": [{"type": "direct"}, {"type": "selector", "outbounds": []}], "n": -3}"#)
        .unwrap();
    let info = clash_test().get_node_data_full().unwrap();
    assert!(info.can_merge_into(&cfg.0));
    let mut v = cfg.0;
    info.merge_to_value(&mut v);
    let text = ctos::json::json_to_string(&v).unwrap();
    assert!(text.contains("\"n\":-3"));
    assert!(text.contains("\"outbounds\":[\"ss one\",\"trojan two\",\"vmess three\",\"http four\",\"socks five\"]"));
    assert!(matches!(SingboxCfg::from_text("{ not json"), Err(CtosError::Json(_))));
}

#[test]
fn compact_rendering_is_one_line() {
    let text = "proxies:\n  - { name: \"two\\nlines\", type: socks5, server: s, port: 1 }\n";
    let info = ClashCfg::new_from_plain_text(text).unwrap().get_node_data_full().unwrap();
    let one_line = info.proxies_string().unwrap();
    assert!(!one_line.contains('\n'));
    assert!(one_line.contains("two\\nlines"));
    assert!(info.proxies_string_pretty().unwrap().contains('\n'));
}

#[test]
fn printed_lists_read_back() {
    let info = clash_test().get_node_data_full().unwrap();
    let compact = ctos::json::load_json(&info.proxies_string().unwrap()).unwrap();
    let pretty = ctos::json::load_json(&info.proxies_string_pretty().unwrap()).unwrap();
    assert_eq!(compact, pretty);
    let again = ctos::json::json_to_string(&compact).unwrap();
    assert_eq!(again, info.proxies_string().unwrap());
    match &compact {
        JsonValue::Array(list) => assert_eq!(list.len(), info.list.len()),
        _ => panic!("the proxies print as an array"),
    }
    let tags = ctos::json::load_json(&info.print_tags().unwrap()).unwrap();
    assert_eq!(tags, info.sum_tags());
}
