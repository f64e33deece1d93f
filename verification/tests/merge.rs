use ctos::helper::NodeInfo;
use ctos::json::{json_to_string, merge, merged, JsonNumber, JsonValue, Merge};
use ctos::paradigm::PARADIGM;
use ctos::ClashCfg;

fn s(x: &str) -> JsonValue {
    JsonValue::String(x.to_string())
}

fn n(x: u64) -> JsonValue {
    JsonValue::Number(JsonNumber::PosInt(x))
}

fn obj(entries: Vec<(&str, JsonValue)>) -> JsonValue {
    JsonValue::Object(entries.into_iter().map(|(k, v)| (k.to_string(), v)).collect())
}

fn text(v: &JsonValue) -> String {
    json_to_string(v).unwrap()
}

#[test]
fn arrays_are_appended() {
    let mut a = JsonValue::Array(vec![n(1), n(2)]);
    merge(&mut a, &JsonValue::Array(vec![n(3)]));
    assert_eq!(a, JsonValue::Array(vec![n(1), n(2), n(3)]));
}

#[test]
fn object_is_pushed_onto_array() {
    let a = JsonValue::Array(vec![n(1)]);
    let r = merged(a, &obj(vec![("k", n(2))]));
    assert_eq!(r, JsonValue::Array(vec![n(1), obj(vec![("k", n(2))])]));
}

#[test]
fn objects_merge_key_by_key() {
    let mut a = obj(vec![("keep", n(1)), ("list", JsonValue::Array(vec![n(1)])), ("inner", obj(vec![("x", n(1))]))]);
    let b = obj(vec![("list", JsonValue::Array(vec![n(2)])), ("inner", obj(vec![("y", n(2))])), ("new", s("v"))]);
    a.merge(b);
    assert_eq!(
        text(&a),
        r#"{"inner":{"x":1,"y":2},"keep":1,"list":[1,2],"new":"v"}"#
    );
}

#[test]
fn scalars_are_replaced() {
    assert_eq!(merged(n(1), &s("x")), s("x"));
    assert_eq!(merged(s("x"), &JsonValue::Array(vec![])), JsonValue::Array(vec![]));
    assert_eq!(merged(obj(vec![("a", n(1))]), &JsonValue::Array(vec![n(2)])), JsonValue::Array(vec![n(2)]));
    assert_eq!(merged(JsonValue::Null, &obj(vec![("a", n(1))])), obj(vec![("a", n(1))]));
    assert_eq!(merged(obj(vec![("a", n(1))]), &JsonValue::Null), JsonValue::Null);
}

#[test]
fn merging_nothing_changes_nothing() {
    let a = obj(vec![("a", n(1)), ("b", JsonValue::Array(vec![n(2)]))]);
    assert_eq!(merged(a.deep_clone(), &obj(vec![])), a);
    let x = JsonValue::Array(vec![n(1)]);
    assert_eq!(merged(x.deep_clone(), &JsonValue::Array(vec![])), x);
}

#[test]
fn merged_objects_hold_each_key_once() {
    let a = obj(vec![("a", n(1)), ("b", n(2))]);
    let b = obj(vec![("b", n(3)), ("c", n(4)), ("a", n(5))]);
    match merged(a, &b) {
        JsonValue::Object(e) => {
            let keys: Vec<&str> = e.iter().map(|(k, _)| k.as_str()).collect();
            assert_eq!(keys, vec!["a", "b", "c"]);
        }
        _ => panic!("expected an object"),
    }
}

#[test]
fn paradigm_is_the_documented_profile() {
    let parsed = ctos::json::load_json(PARADIGM).unwrap();
    let out: serde_json::Value = serde_json::from_str(&text(&parsed)).unwrap();
    let outbounds = out["outbounds"].as_array().unwrap();
    assert_eq!(outbounds.len(), 5);
    assert_eq!(outbounds[1]["tag"], "auto");
    assert_eq!(outbounds[1]["outbounds"], serde_json::Value::Array(vec![]));
    let cfg = ctos::SingboxCfg::from_text(PARADIGM).unwrap();
    assert_eq!(text(&cfg.0), text(&parsed));
    assert!(sample_info().try_merge_min().is_some());
}

fn sample_info() -> NodeInfo {
    let text = r#"
proxies:
  - { name: first, type: trojan, server: s, port: 1, password: p }
  - { name: second, type: socks5, server: s, port: 2 }
"#;
    ClashCfg::new_from_plain_text(text).unwrap().get_node_data_full().unwrap()
}

#[test]
fn merge_min_appends_proxies_and_tags() {
    let info = sample_info();
    let r = info.merge_min();
    let out: serde_json::Value = serde_json::from_str(&text(&r)).unwrap();
    let outbounds = out["outbounds"].as_array().unwrap();
    assert_eq!(outbounds.len(), 7);
    assert_eq!(outbounds[5]["tag"], "first");
    assert_eq!(outbounds[6]["tag"], "second");
    assert_eq!(outbounds[1]["tag"], "auto");
    let tags = serde_json::Value::Array(vec![
        serde_json::Value::String("first".to_string()),
        serde_json::Value::String("second".to_string()),
    ]);
    assert_eq!(outbounds[1]["outbounds"], tags);
    assert_eq!(out["route"]["auto_detect_interface"], serde_json::Value::Bool(true));
}

#[test]
fn merge_into_a_profile() {
    let info = sample_info();
    let mut profile = obj(vec![
        ("log", obj(vec![("level", s("info"))])),
        (
            "outbounds",
            JsonValue::Array(vec![
                obj(vec![("tag", s("proxy")), ("type", s("selector")), ("outbounds", JsonValue::Array(vec![s("old")]))]),
                obj(vec![("tag", s("group")), ("outbounds", JsonValue::Array(vec![s("x")]))]),
            ]),
        ),
    ]);
    assert!(info.can_merge_into(&profile));
    info.merge_to_value(&mut profile);
    let out: serde_json::Value = serde_json::from_str(&text(&profile)).unwrap();
    assert_eq!(out["log"]["level"], "info");
    let outbounds = out["outbounds"].as_array().unwrap();
    assert_eq!(outbounds.len(), 4);
    assert_eq!(outbounds[0]["outbounds"].as_array().unwrap().len(), 1);
    let group: Vec<&str> = outbounds[1]["outbounds"].as_array().unwrap().iter().map(|v| v.as_str().unwrap()).collect();
    assert_eq!(group, vec!["x", "first", "second"]);
    assert_eq!(outbounds[2]["tag"], "first");
    assert_eq!(outbounds[3]["tag"], "second");
}

#[test]
fn profiles_that_cannot_take_the_proxies() {
    let info = sample_info();
    assert!(!info.can_merge_into(&n(1)));
    assert!(!info.can_merge_into(&JsonValue::Array(vec![])));
    assert!(info.can_merge_into(&JsonValue::Null));
    let bad_group = obj(vec![("outbounds", JsonValue::Array(vec![n(1), s("x")]))]);
    assert!(!info.can_merge_into(&bad_group));
    let one = NodeInfo { list: vec![obj(vec![])], tags: vec!["t".to_string()] };
    assert!(!one.can_merge_into(&obj(vec![])));
}

#[test]
fn merge_into_null_builds_the_profile() {
    let info = sample_info();
    let mut profile = JsonValue::Null;
    info.merge_to_value(&mut profile);
    let out: serde_json::Value = serde_json::from_str(&text(&profile)).unwrap();
    let outbounds = out["outbounds"].as_array().unwrap();
    assert_eq!(outbounds.len(), 2);
    assert_eq!(outbounds[1]["outbounds"].as_array().unwrap().len(), 2);
}

#[test]
fn rendering_is_compact_or_indented() {
    let v = obj(vec![("b", n(1)), ("a", JsonValue::Array(vec![s("x")]))]);
    assert_eq!(text(&v), r#"{"a":["x"],"b":1}"#);
    assert_eq!(
        ctos::json::json_to_string_pretty(&v).unwrap(),
        "{\n  \"a\": [\n    \"x\"\n  ],\n  \"b\": 1\n}"
    );
    let f = JsonValue::Number(JsonNumber::Float("1.5".to_string()));
    assert_eq!(text(&f), "1.5");
    let neg = JsonValue::Number(JsonNumber::NegInt(-3));
    assert_eq!(text(&neg), "-3");
}
