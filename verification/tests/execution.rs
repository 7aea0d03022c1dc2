use flytrap::entity::Request;
use flytrap::error::{DecodeFault, Error};
use flytrap::json::JsonValue;
use flytrap::recorder::make_response;
use flytrap::service::{execute_request, execute_request_with_id, make_request};
use flytrap::store::Store;
use flytrap::transport::{validate_outbound, TransportReply};

fn sample_def() -> Request {
    Request {
        id: 7,
        name: "echo".to_string(),
        method: "GET".to_string(),
        path: "/echo".to_string(),
        query: vec![("a".to_string(), JsonValue::Str("1".to_string()))],
        host: "http://x.test".to_string(),
        headers: vec![("x-trace".to_string(), "1".to_string())],
        body: None,
    }
}

fn json_reply() -> TransportReply {
    TransportReply {
        version: "HTTP/1.1".to_string(),
        status_code: 200,
        headers: vec![("content-type".to_string(), "application/json".to_string())],
        content_type: Some("application/json".to_string()),
        body_text: "{\"ok\":true}".to_string(),
        request_time: 1000,
        response_time: 1004,
    }
}

fn seeded_store() -> Store {
    let mut store = Store::new();
    assert!(store.create_request_definition(sample_def()).is_ok());
    store
}

#[test]
fn replay_records_a_json_exchange() {
    let mut store = seeded_store();
    let rec = match execute_request_with_id(&mut store, 7, 99, Ok(json_reply())) {
        Ok(rec) => rec,
        Err(e) => panic!("execution failed: {:?}", e),
    };
    assert_eq!(rec.id, 99);
    assert_eq!(rec.request.url, "http://x.test/echo?a=1");
    assert_eq!(rec.request.method, "GET");
    assert_eq!(rec.request.version, "HTTP/1.1");
    assert_eq!(rec.request.headers, vec![("x-trace".to_string(), "1".to_string())]);
    assert_eq!(rec.response.status_code, 200);
    assert_eq!(rec.response.status_message, "OK");
    assert_eq!(
        rec.response.body,
        JsonValue::Obj(vec![("ok".to_string(), JsonValue::Bool(true))])
    );
    assert_eq!(rec.request_time, 1000);
    assert_eq!(rec.response_time, 1004);
    assert!(rec.response_time >= rec.request_time);
    // the referenced rows independently resolve
    assert!(store.find_raw_request(rec.request.id).is_some());
    assert!(store.find_raw_response(rec.response.id).is_some());
    assert_eq!(store.raw_request_count(), 1);
    assert_eq!(store.raw_response_count(), 1);
    assert_eq!(store.execution_count(), 1);
}

#[test]
fn unknown_definition_fails_with_not_found_and_writes_nothing() {
    let mut store = seeded_store();
    let r = execute_request_with_id(&mut store, 8, 99, Ok(json_reply()));
    assert_eq!(r, Err(Error::NotFound));
    assert_eq!(store.raw_request_count(), 0);
    assert_eq!(store.raw_response_count(), 0);
    assert_eq!(store.execution_count(), 0);
}

#[test]
fn transport_failure_leaves_exactly_one_orphaned_request_row() {
    let mut store = seeded_store();
    let r = execute_request_with_id(&mut store, 7, 99, Err("connection refused".to_string()));
    assert_eq!(r, Err(Error::TransportError("connection refused".to_string())));
    assert_eq!(store.raw_request_count(), 1);
    assert_eq!(store.raw_response_count(), 0);
    assert_eq!(store.execution_count(), 0);
}

#[test]
fn unrecognized_method_fails_with_transport_error_after_persisting() {
    let mut store = Store::new();
    let mut def = sample_def();
    def.method = "BAD METHOD".to_string();
    assert!(store.create_request_definition(def).is_ok());
    let r = execute_request_with_id(&mut store, 7, 99, Ok(json_reply()));
    match r {
        Err(Error::TransportError(_)) => {}
        other => panic!("expected a transport error, got {:?}", other),
    }
    assert_eq!(store.raw_request_count(), 1);
    assert_eq!(store.raw_response_count(), 0);
    assert_eq!(store.execution_count(), 0);
}

#[test]
fn untransmittable_header_fails_the_whole_operation() {
    let mut store = Store::new();
    let mut def = sample_def();
    def.headers = vec![("bad name".to_string(), "x".to_string())];
    assert!(store.create_request_definition(def).is_ok());
    let r = execute_request_with_id(&mut store, 7, 99, Ok(json_reply()));
    match r {
        Err(Error::TransportError(_)) => {}
        other => panic!("expected a transport error, got {:?}", other),
    }
    assert_eq!(store.raw_request_count(), 1);
    assert_eq!(store.raw_response_count(), 0);
}

#[test]
fn replaying_twice_produces_fresh_rows_each_time() {
    let mut store = seeded_store();
    let first = execute_request(&mut store, 7, Ok(json_reply())).unwrap();
    let second = execute_request(&mut store, 7, Ok(json_reply())).unwrap();
    assert_ne!(first.id, second.id);
    assert_ne!(first.request.id, second.request.id);
    assert_ne!(first.response.id, second.response.id);
    assert_eq!(store.raw_request_count(), 2);
    assert_eq!(store.raw_response_count(), 2);
    assert_eq!(store.execution_count(), 2);
}

#[test]
fn duplicate_execution_identifier_fails_the_commit() {
    let mut store = seeded_store();
    assert!(execute_request_with_id(&mut store, 7, 99, Ok(json_reply())).is_ok());
    let r = execute_request_with_id(&mut store, 7, 99, Ok(json_reply()));
    match r {
        Err(Error::CreateFailed(_)) => {}
        other => panic!("expected a create failure, got {:?}", other),
    }
    // the raw rows written before the failing commit stay behind
    assert_eq!(store.raw_request_count(), 2);
    assert_eq!(store.raw_response_count(), 2);
    assert_eq!(store.execution_count(), 1);
}

#[test]
fn missing_content_type_is_a_decoding_precondition() {
    let mut store = seeded_store();
    let mut reply = json_reply();
    reply.content_type = None;
    let r = execute_request_with_id(&mut store, 7, 99, Ok(reply));
    assert_eq!(
        r,
        Err(Error::DecodingPrecondition(DecodeFault::MissingContentType))
    );
    assert_eq!(store.raw_request_count(), 1);
    assert_eq!(store.raw_response_count(), 0);
    assert_eq!(store.execution_count(), 0);
}

#[test]
fn unregistered_status_code_is_a_decoding_precondition() {
    let mut store = seeded_store();
    let mut reply = json_reply();
    reply.status_code = 599;
    let r = execute_request_with_id(&mut store, 7, 99, Ok(reply));
    assert_eq!(
        r,
        Err(Error::DecodingPrecondition(DecodeFault::UnknownStatusCode))
    );
}

#[test]
fn undeclared_invalid_json_body_is_a_decoding_precondition() {
    let mut store = seeded_store();
    let mut reply = json_reply();
    reply.body_text = "{broken".to_string();
    let r = execute_request_with_id(&mut store, 7, 99, Ok(reply));
    assert_eq!(
        r,
        Err(Error::DecodingPrecondition(DecodeFault::InvalidJsonBody))
    );
    assert_eq!(store.raw_response_count(), 0);
}

#[test]
fn non_json_body_is_stored_as_text() {
    let mut store = seeded_store();
    let mut reply = json_reply();
    reply.content_type = Some("text/plain".to_string());
    reply.headers = vec![("content-type".to_string(), "text/plain".to_string())];
    reply.body_text = "hello there".to_string();
    let rec = execute_request_with_id(&mut store, 7, 99, Ok(reply)).unwrap();
    assert_eq!(rec.response.body, JsonValue::Str("hello there".to_string()));
}

#[test]
fn make_request_persists_the_materialized_snapshot() {
    let mut store = seeded_store();
    let raw = make_request(&mut store, 7).unwrap();
    assert_eq!(raw.id, 1);
    assert_eq!(raw.url, "http://x.test/echo?a=1");
    assert_eq!(store.raw_request_count(), 1);
    let stored = store.find_raw_request(1).unwrap();
    assert_eq!(stored.url, "http://x.test/echo?a=1");
    assert!(validate_outbound(&raw).is_ok());
}

#[test]
fn make_request_for_a_missing_definition_is_not_found() {
    let mut store = Store::new();
    assert_eq!(make_request(&mut store, 7), Err(Error::NotFound));
    assert_eq!(store.raw_request_count(), 0);
}

#[test]
fn decoded_response_keeps_reply_headers_verbatim() {
    let reply = json_reply();
    let resp = make_response(&reply).unwrap();
    assert_eq!(resp.id, 0);
    assert_eq!(resp.version, "HTTP/1.1");
    assert_eq!(
        resp.headers,
        vec![("content-type".to_string(), "application/json".to_string())]
    );
}

#[test]
fn duplicate_definition_identifier_is_rejected() {
    let mut store = seeded_store();
    let r = store.create_request_definition(sample_def());
    match r {
        Err(Error::CreateFailed(_)) => {}
        other => panic!("expected a create failure, got {:?}", other),
    }
    assert_eq!(store.definition_count(), 1);
}
