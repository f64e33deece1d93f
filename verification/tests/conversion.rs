use ctos::helper::NodeInfo;
use ctos::sb_def::SingboxNodeDef;
use ctos::yaml::{load_yaml, YamlNode};
use ctos::{ClashCfg, CtosError, PerClashProxy};

fn cfg(text: &str) -> ClashCfg {
    ClashCfg::new_from_plain_text(text).unwrap()
}

fn proxies_json(text: &str) -> String {
    cfg(text).get_node_data_full().unwrap().proxies_string().unwrap()
}

fn first_proxy(text: &str) -> PerClashProxy {
    let c = cfg(text);
    let items = c.get_proxies().unwrap().into_items();
    PerClashProxy::from(items.into_iter().next().unwrap())
}

#[test]
fn vmess_without_network_opt() {
    static YAML_TESTCASE_STR: &str = r#"proxies:
    - {"server":"server","port": 2,"uuid":"uuid","udp":true,"name":"name","type":"vmess","alterId":0}
          "#;

    let vmess_data = ClashCfg::new_from_plain_text(YAML_TESTCASE_STR);

    assert!(vmess_data
        .unwrap()
        .get_node_data_full()
        .unwrap()
        .proxies_string_pretty()
        .is_ok())
}

#[test]
fn vmess_fields() {
    let text = r#"proxies:
    - {"server":"server","port": 2,"uuid":"uuid","udp":true,"name":"name","type":"vmess","alterId":0}
"#;
    assert_eq!(
        proxies_json(text),
        r#"[{"alter_id":0,"security":"auto","server":"server","server_port":2,"tag":"name","type":"vmess","uuid":"uuid"}]"#
    );
}

#[test]
fn shadowsocks_with_obfs_plugin() {
    let text = r#"
proxies:
  - name: ss1
    type: ss
    server: example.com
    port: 8388
    cipher: aes-256-gcm
    password: pw
    plugin: obfs
    plugin-opts: { mode: tls, host: bing.com }
"#;
    assert_eq!(
        proxies_json(text),
        r#"[{"method":"aes-256-gcm","network":"tcp","password":"pw","plugin":"obfs-local","plugin_opts":"obfs=tls;obfs-host=bing.com","server":"example.com","server_port":8388,"tag":"ss1","type":"shadowsocks","udp_over_tcp":false}]"#
    );
}

#[test]
fn port_as_text_and_truncated_port() {
    let text = r#"
proxies:
  - { name: a, type: socks5, server: h, port: "+0443", udp: true }
  - { name: b, type: socks5, server: h, port: 65537, username: u, password: p }
"#;
    assert_eq!(
        proxies_json(text),
        r#"[{"server":"h","server_port":443,"tag":"a","type":"socks","udp_over_tcp":false,"version":5},{"network":"tcp","password":"u","server":"h","server_port":1,"tag":"b","type":"socks","udp_over_tcp":false,"username":"u","version":5}]"#
    );
}

#[test]
fn trojan_with_tls() {
    let text = r#"
proxies:
  - { name: t, type: trojan, server: s, port: 443, password: p, sni: example.org, tls: true, alpn: h2 }
"#;
    assert_eq!(
        proxies_json(text),
        r#"[{"network":"tcp","password":"p","server":"s","server_port":443,"tag":"t","tls":{"alpn":["h2"],"disable_sni":false,"enabled":true,"insecure":false,"server_name":"example.org","utls":{"enabled":true,"fingerprint":"chrome"}},"type":"trojan"}]"#
    );
}

#[test]
fn vmess_over_websocket() {
    let text = r#"
proxies:
  - name: v
    type: vmess
    server: s
    port: 1
    uuid: u
    alertId: "3"
    network: ws
    ws-opts: { path: /p, max-early-data: "2048", early-data-header-name: Sec }
"#;
    assert_eq!(
        proxies_json(text),
        r#"[{"alter_id":3,"network":"tcp","security":"auto","server":"s","server_port":1,"tag":"v","transport":{"early_data_header_name":"Sec","max_early_data":2048,"path":"/p","type":"ws"},"type":"vmess","uuid":"u"}]"#
    );
}

#[test]
fn vless_over_grpc_and_http_transport() {
    let text = r#"
proxies:
  - { name: l, type: vless, server: s, port: 2, uuid: u, udp: true, network: grpc, grpc-opts: { grpc-service-name: svc } }
  - { name: m, type: vless, server: s, port: 3, uuid: u, network: http, http-opts: { path: [/a, /b] } }
"#;
    assert_eq!(
        proxies_json(text),
        r#"[{"server":"s","server_port":2,"tag":"l","transport":{"service_name":"svc","type":"grpc"},"type":"vless","uuid":"u"},{"network":"tcp","server":"s","server_port":3,"tag":"m","transport":{"path":"/a","type":"http"},"type":"vless","uuid":"u"}]"#
    );
}

#[test]
fn hysteria_and_ssr() {
    let text = r#"
proxies:
  - { name: h, type: hysteria, server: s, port: 5, up: "10 Mbps", down: "50 Mbps", recv_window_conn: 100, sni: "true" }
  - { name: r, type: ssr, server: s, port: 6, cipher: c, password: p, obfs: o, obfs-param: op, protocol: pr, protocol-param: pp }
"#;
    assert_eq!(
        proxies_json(text),
        r#"[{"disable_mtu_discovery":true,"down":"50 Mbps","recv_window_conn":100,"server":"s","server_port":5,"tag":"h","type":"hysteria","up":"10 Mbps"},{"method":"c","network":"tcp","obfs":"o","obfs_param":"op","password":"p","protocol":"pr","protocol_param":"pp","server":"s","server_port":6,"tag":"r","type":"shadowsocksr"}]"#
    );
}

#[test]
fn unconverted_types_give_nothing() {
    for t in ["tuic", "wireguard"] {
        let text = format!("proxies:\n  - {{ name: x, type: {}, server: s, port: 1 }}\n", t);
        assert!(first_proxy(&text).convert_to_singbox_def().is_none());
    }
    let p = first_proxy("proxies:\n  - { name: x, type: trojan, server: s, port: 1, password: p }\n");
    assert!(matches!(p.convert_to_singbox_def(), Some(SingboxNodeDef::Trojan(_))));
}

#[test]
fn http_proxy_is_converted() {
    let p = first_proxy("proxies:\n  - {name: h, type: http, server: s, port: 80}\n");
    match p.convert_to_singbox_def() {
        Some(SingboxNodeDef::Http(h)) => {
            assert_eq!(h.kind, "http");
            assert_eq!(h.tag, "h");
            assert_eq!(h.server, "s");
            assert_eq!(h.server_port, 80);
            assert!(h.username.is_none() && h.password.is_none() && h.tls.is_none());
        }
        _ => panic!("an http proxy converts to an Http outbound"),
    }
    let text = "proxies:\n  - {name: h, type: http, server: s, port: 80, username: u, password: w, tls: true, sni: e}\n";
    assert_eq!(
        proxies_json(text),
        r#"[{"password":"w","server":"s","server_port":80,"tag":"h","tls":{"disable_sni":false,"enabled":true,"insecure":false,"server_name":"e","utls":{"enabled":true,"fingerprint":"chrome"}},"type":"http","username":"u"}]"#
    );
}

#[test]
fn tags_and_types() {
    let text = r#"
proxies:
  - { name: one, type: ss }
  - { type: vmess }
  - { name: three }
"#;
    let c = cfg(text);
    assert_eq!(c.get_node_tags(), vec!["one", "unnamed", "three"]);
    assert_eq!(c.get_node_types(), vec!["ss", "vmess", "unknown"]);
    assert_eq!(
        ClashCfg::type_converter(c.get_node_types()),
        vec!["Shadowsocks", "VMess", ""]
    );
}

#[test]
fn type_converter_names() {
    let ts: Vec<String> = ["ss", "trojan", "socks5", "hysteria", "vmess", "ssr", "vless", "tuic", "http"]
        .iter()
        .map(|s| s.to_string())
        .collect();
    assert_eq!(
        ClashCfg::type_converter(ts),
        vec!["Shadowsocks", "Trojan", "Socks", "Hysteria", "VMess", "Shadowsocksr", "Vless", "", ""]
    );
}

#[test]
fn tags_name_the_outbounds() {
    let text = r#"
proxies:
  - { name: first, type: trojan, server: s, port: 1, password: p }
  - { name: second, type: socks5, server: s, port: 2 }
"#;
    let info = cfg(text).get_node_data_full().unwrap();
    assert_eq!(info.tags, vec!["first", "second"]);
    assert_eq!(info.list.len(), 2);
    assert_eq!(info.print_tags().unwrap(), "[\n  \"first\",\n  \"second\"\n]");
    let list = info.proxies_string().unwrap();
    assert!(list.contains(r#""tag":"first""#) && list.contains(r#""tag":"second""#));
}

#[test]
fn missing_proxies_give_an_empty_list() {
    let info = cfg("rules: []\n").get_node_data_full().unwrap();
    assert!(info.list.is_empty() && info.tags.is_empty());
    assert_eq!(info.proxies_string().unwrap(), "[]");
    let d = NodeInfo::default();
    assert!(d.list.is_empty() && d.tags.is_empty());
}

#[test]
fn text_that_is_no_yaml() {
    match ClashCfg::new_from_plain_text("proxies: [unclosed") {
        Err(CtosError::Yaml(m)) => assert!(!m.is_empty()),
        _ => panic!("expected a YAML error"),
    }
    assert!(matches!(ClashCfg::parse_plain_text(""), Err(CtosError::NoDocument)));
    assert!(matches!(ClashCfg::parse_plain_text("a: [b"), Err(CtosError::Yaml(_))));
    assert!(ClashCfg::parse_plain_text("a: 1").is_ok());
    assert_eq!(load_yaml("").unwrap().len(), 0);
}

#[test]
fn first_document_is_the_configuration() {
    let c = ClashCfg::new_from_plain_text("a: 1\n---\nb: 2\n").unwrap();
    assert_eq!(c.0.get("a"), YamlNode::Integer(1));
    assert_eq!(c.0.get("b"), YamlNode::BadValue);
    let d = ClashCfg::to_yaml_data("x: [1, 2]").unwrap();
    assert_eq!(d.get("x").at(1), YamlNode::Integer(2));
    assert_eq!(d.get("x").at(2), YamlNode::BadValue);
}
