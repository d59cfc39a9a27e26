use httpie::json::build_body;
use httpie::KvPair;

fn pair(k: &str, v: &str) -> KvPair {
    KvPair {
        k: k.to_string(),
        v: v.to_string(),
    }
}

#[test]
fn body_of_two_pairs() {
    let pairs = vec![pair("a", "1"), pair("b", "2")];
    assert_eq!(build_body(&pairs), "{\"a\":\"1\",\"b\":\"2\"}");
}

#[test]
fn body_of_no_pairs_is_empty_object() {
    let pairs: Vec<KvPair> = Vec::new();
    assert_eq!(build_body(&pairs), "{}");
}

#[test]
fn body_decodes_as_the_expected_json_object() {
    let pairs = vec![pair("a", "1"), pair("b", "2")];
    let body = build_body(&pairs);
    let got: serde_json::Value = serde_json::from_str(&body).unwrap();
    let want: serde_json::Value = serde_json::from_str("{\"a\":\"1\",\"b\":\"2\"}").unwrap();
    assert_eq!(got, want);
}

#[test]
fn duplicate_key_keeps_only_last_value() {
    let pairs = vec![pair("a", "1"), pair("b", "2"), pair("a", "3")];
    let body = build_body(&pairs);
    assert_eq!(body, "{\"b\":\"2\",\"a\":\"3\"}");
    let got: serde_json::Value = serde_json::from_str(&body).unwrap();
    assert_eq!(got["a"], serde_json::Value::String("3".to_string()));
    assert_eq!(got["b"], serde_json::Value::String("2".to_string()));
}

#[test]
fn duplicate_key_three_times_keeps_last() {
    let pairs = vec![pair("k", "1"), pair("k", "2"), pair("k", "3")];
    assert_eq!(build_body(&pairs), "{\"k\":\"3\"}");
}

#[test]
fn body_escapes_specials() {
    let pairs = vec![pair("q", "a\"b\\c\nd")];
    assert_eq!(build_body(&pairs), "{\"q\":\"a\\\"b\\\\c\\nd\"}");
}

#[test]
fn body_escapes_control_characters() {
    let pairs = vec![pair("c", "x\u{1}y\r\t")];
    let body = build_body(&pairs);
    assert_eq!(body, "{\"c\":\"x\\u0001y\\r\\t\"}");
    let got: serde_json::Value = serde_json::from_str(&body).unwrap();
    assert_eq!(got["c"], serde_json::Value::String("x\u{1}y\r\t".to_string()));
}

#[test]
fn body_escapes_key_too() {
    let pairs = vec![pair("a\"b", "v")];
    assert_eq!(build_body(&pairs), "{\"a\\\"b\":\"v\"}");
}
