use flytrap::entity::Request;
use flytrap::json::JsonValue;
use flytrap::materialize::{prepare_request, prepare_url};

fn def_with_query(query: Vec<(String, JsonValue)>) -> Request {
    Request {
        id: 7,
        name: "echo".to_string(),
        method: "GET".to_string(),
        path: "/echo".to_string(),
        query,
        host: "http://x.test".to_string(),
        headers: vec![("x-trace".to_string(), "1".to_string())],
        body: Some(JsonValue::Obj(vec![("bar".to_string(), JsonValue::Str("okay".to_string()))])),
    }
}

#[test]
fn empty_query_url_is_host_plus_path() {
    let d = def_with_query(vec![]);
    let url = prepare_url(&d);
    assert_eq!(url, "http://x.test/echo");
    assert!(!url.contains('?'));
}

#[test]
fn single_pair_query_url() {
    let d = def_with_query(vec![("a".to_string(), JsonValue::Str("1".to_string()))]);
    assert_eq!(prepare_url(&d), "http://x.test/echo?a=1");
}

#[test]
fn multi_pair_query_joins_pairs_with_ampersand() {
    let d = def_with_query(vec![
        ("a".to_string(), JsonValue::Str("1".to_string())),
        ("b".to_string(), JsonValue::Bool(true)),
        ("c".to_string(), JsonValue::Null),
        ("d".to_string(), JsonValue::Num("25".to_string())),
    ]);
    let url = prepare_url(&d);
    assert_eq!(url, "http://x.test/echo?a=1&b=true&c=null&d=25");
    // every key appears exactly once
    for needle in ["a=1", "b=true", "c=null", "d=25"] {
        assert_eq!(url.matches(needle).count(), 1);
    }
    assert_eq!(url.matches('&').count(), 3);
    assert_eq!(url.matches('?').count(), 1);
}

#[test]
fn materialized_request_copies_definition_verbatim() {
    let d = def_with_query(vec![("a".to_string(), JsonValue::Str("1".to_string()))]);
    let raw = prepare_request(&d);
    assert_eq!(raw.id, 0);
    assert_eq!(raw.method, "GET");
    assert_eq!(raw.url, "http://x.test/echo?a=1");
    assert_eq!(raw.version, "HTTP/1.1");
    assert_eq!(raw.headers, vec![("x-trace".to_string(), "1".to_string())]);
    assert_eq!(
        raw.body,
        Some(JsonValue::Obj(vec![("bar".to_string(), JsonValue::Str("okay".to_string()))]))
    );
}

#[test]
fn scalar_values_render_without_quotes() {
    assert_eq!(JsonValue::Str("hi".to_string()).render_scalar(), "hi");
    assert_eq!(JsonValue::Num("3".to_string()).render_scalar(), "3");
    assert_eq!(JsonValue::Bool(false).render_scalar(), "false");
    assert_eq!(JsonValue::Bool(true).render_scalar(), "true");
    assert_eq!(JsonValue::Null.render_scalar(), "null");
}

#[test]
fn well_formedness_rejects_repeated_keys_and_structured_values() {
    let good = def_with_query(vec![
        ("a".to_string(), JsonValue::Str("1".to_string())),
        ("b".to_string(), JsonValue::Num("2".to_string())),
    ]);
    assert!(good.check_wf());
    let repeated = def_with_query(vec![
        ("a".to_string(), JsonValue::Str("1".to_string())),
        ("a".to_string(), JsonValue::Str("2".to_string())),
    ]);
    assert!(!repeated.check_wf());
    let structured = def_with_query(vec![("a".to_string(), JsonValue::Arr(vec![]))]);
    assert!(!structured.check_wf());
}
