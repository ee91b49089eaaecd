use std::collections::HashMap;

use pale::{NotisResponse, RPCError, RPCRequest, RPCResponse, JSONRPC};

fn uuid_version(id: u128) -> u128 {
    (id >> 76) & 0xf
}

fn uuid_variant(id: u128) -> u128 {
    (id >> 62) & 0x3
}

#[test]
fn request_with_id_gets_a_random_uuid() {
    let mut params = HashMap::new();
    params.insert("filter".to_string(), serde_json::Value::from(81));
    let request = RPCRequest::new("example/method".to_string(), Some(params.clone()), true);
    assert_eq!(request.jsonrpc(), "2.0");
    assert_eq!(request.method, "example/method");
    assert_eq!(request.params, Some(params));
    let id = request.id.expect("an id was asked for");
    assert_eq!(uuid_version(id), 4);
    assert_eq!(uuid_variant(id), 2);
}

#[test]
fn request_ids_differ() {
    let a = RPCRequest::new("m".to_string(), None, true);
    let b = RPCRequest::new("m".to_string(), None, true);
    assert_ne!(a.id, b.id);
}

#[test]
fn request_without_id_is_a_notification() {
    let request = RPCRequest::new("notify".to_string(), None, false);
    assert_eq!(request.id, None);
    assert_eq!(request.params, None);
    assert_eq!(request.jsonrpc(), JSONRPC);
}

#[test]
fn received_notification_never_closes() {
    let n = NotisResponse::new("2.0".to_string(), "tick".to_string(), Some(serde_json::Value::from(3)));
    assert!(!n.is_closing());
    assert_eq!(n.close_flag(), None);
    assert_eq!(n.method, "tick");
    assert_eq!(n.params, Some(serde_json::Value::from(3)));
    assert_eq!(n.jsonrpc(), "2.0");
}

#[test]
fn close_signal_closes() {
    let n = NotisResponse::close_signal();
    assert!(n.is_closing());
    assert_eq!(n.close_flag(), Some(true));
    assert_eq!(n.method, "");
    assert_eq!(n.params, None);
    assert_eq!(n.jsonrpc(), "2.0");
}

#[test]
fn response_keeps_its_parts() {
    let error = RPCError { code: -32601, message: "Method not found".to_string(), data: None };
    let r = RPCResponse::new("2.0".to_string(), None, Some(error.clone()), Some(7));
    assert_eq!(r.jsonrpc(), "2.0");
    assert_eq!(r.result, None);
    assert_eq!(r.error, Some(error));
    assert_eq!(r.id, Some(7));
}
