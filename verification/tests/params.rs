use ctos::text::{concatenated, parse_decimal, str_eq};
use ctos::yaml::{load_yaml, YamlNode};
use ctos::PerClashProxy;

fn proxy(text: &str) -> PerClashProxy {
    PerClashProxy::from(load_yaml(text).unwrap().remove(0))
}

#[test]
fn decimal_parsing() {
    assert_eq!(parse_decimal("443", 65535), Some(443));
    assert_eq!(parse_decimal("+12", 65535), Some(12));
    assert_eq!(parse_decimal("0012", 65535), Some(12));
    assert_eq!(parse_decimal("65535", 65535), Some(65535));
    assert_eq!(parse_decimal("65536", 65535), None);
    assert_eq!(parse_decimal("4294967295", 4294967295), Some(4294967295));
    assert_eq!(parse_decimal("4294967296", 4294967295), None);
    assert_eq!(parse_decimal("", 65535), None);
    assert_eq!(parse_decimal("+", 65535), None);
    assert_eq!(parse_decimal("-1", 65535), None);
    assert_eq!(parse_decimal(" 1", 65535), None);
    assert_eq!(parse_decimal("1a", 65535), None);
    assert_eq!(parse_decimal("٣", 65535), None);
}

#[test]
fn int_param_reads_integers_and_text() {
    let p = proxy("{ a: 8080, b: \"8081\", c: 70000, d: -1 }");
    assert_eq!(p.int_param("a"), 8080);
    assert_eq!(p.int_param("b"), 8081);
    assert_eq!(p.int_param("c"), 70000u32 as u16);
    assert_eq!(p.int_param("d"), 65535);
}

#[test]
fn string_params_and_names() {
    let p = proxy("{ name: n, type: ss, plugin: obfs, other: v2ray-plugin, third: x }");
    assert_eq!(p.str_param("name"), "n");
    assert_eq!(p.named(), "n");
    assert_eq!(p.typed(), "ss");
    assert_eq!(p.optional_plugin("plugin").as_deref(), Some("obfs-local"));
    assert_eq!(p.optional_plugin("other").as_deref(), Some("v2ray-plugin"));
    assert_eq!(p.optional_plugin("third").as_deref(), Some("x"));
    assert_eq!(p.optional_plugin("missing"), None);
    let q = proxy("{ port: 1 }");
    assert_eq!(q.named(), "unnamed");
    assert_eq!(q.typed(), "unknown");
}

#[test]
fn plugin_options_text() {
    let opts = load_yaml("{ mode: http, host: a.example }").unwrap().remove(0);
    assert_eq!(PerClashProxy::plugin_opts_to_string(opts), "obfs=http;obfs-host=a.example");
}

#[test]
fn tls_settings() {
    assert!(proxy("{ sni: a }").parse_tls().is_none());
    let t = proxy("{ tls: true, sni: \"true\", ca: /ca.pem }").parse_tls().unwrap();
    assert!(t.enabled && t.disable_sni && !t.insecure);
    assert_eq!(t.server_name.as_deref(), Some("true"));
    assert_eq!(t.certificate_path.as_deref(), Some("/ca.pem"));
    assert_eq!(t.utls.fingerprint, "chrome");
    assert!(t.alpn.is_none() && t.reality.is_none());
    let u = proxy("{ tls: false, servername: b }").parse_tls().unwrap();
    assert_eq!(u.server_name.as_deref(), Some("b"));
    assert!(!u.disable_sni);
}

#[test]
fn transports() {
    assert!(proxy("{ a: 1 }").parse_transport().is_none());
    let t = proxy("{ network: ws, ws-opts: { max-early-data: 2048 } }").parse_transport().unwrap();
    assert_eq!(t.kind, "ws");
    assert_eq!(t.max_early_data, None);
    let g = proxy("{ network: grpc }").parse_transport().unwrap();
    assert_eq!(g.kind, "grpc");
    assert!(g.service_name.is_none());
}

#[test]
fn text_helpers() {
    assert!(str_eq("ab", "ab"));
    assert!(!str_eq("ab", "abc"));
    assert_eq!(concatenated("a", "bc"), "abc");
}

#[test]
fn yaml_lookups() {
    let y = load_yaml("{ k: [x, y], 3: three, s: str, b: true }").unwrap().remove(0);
    assert_eq!(y.get("k").at(0), YamlNode::String("x".to_string()));
    assert_eq!(y.at(3), YamlNode::String("three".to_string()));
    assert_eq!(y.get("nothing"), YamlNode::BadValue);
    assert_eq!(y.get("s").into_string().as_deref(), Some("str"));
    assert_eq!(y.get("b").as_bool(), Some(true));
    assert_eq!(y.get("k").as_i64(), None);
    assert!(y.get("zz").is_badvalue());
    assert_eq!(y.get("k").into_items().len(), 2);
    assert_eq!(y.get("s").into_items().len(), 0);
    assert_eq!(y.deep_clone(), y);
}
