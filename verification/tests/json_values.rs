use flytrap::json::JsonValue;
use flytrap::recorder::str_contains;

#[test]
fn documents_clone_deeply() {
    let doc = JsonValue::Obj(vec![
        (
            "items".to_string(),
            JsonValue::Arr(vec![JsonValue::Num("1".to_string()), JsonValue::Null]),
        ),
        ("name".to_string(), JsonValue::Str("fly".to_string())),
    ]);
    assert_eq!(doc.clone(), doc);
}

#[test]
fn substring_search_finds_the_json_marker() {
    assert!(str_contains("application/json; charset=utf-8", "application/json"));
    assert!(str_contains("application/json", "application/json"));
    assert!(!str_contains("text/plain", "application/json"));
    assert!(!str_contains("application/jso", "application/json"));
    assert!(str_contains("abc", ""));
    assert!(!str_contains("", "a"));
}
