use pale::request::{PendingRequest, ReplyOutcome};
use pale::{PaleError, RPCError, RPCRequest, RPCResponse};
use serde_json::Value;

fn pending_for(id: u128, timeout_nanos: u128) -> PendingRequest {
    let mut request = RPCRequest::new("m".to_string(), None, false);
    request.id = Some(id);
    PendingRequest::new(&request, timeout_nanos)
}

fn reply(id: Option<u128>, result: Option<Value>, error: Option<RPCError>) -> RPCResponse {
    RPCResponse::new("2.0".to_string(), result, error, id)
}

#[test]
fn start_without_connection_fails() {
    let r = PendingRequest::start(false, "m".to_string(), None, 10);
    assert!(matches!(r, Err(PaleError::ClientDisconnected)));
}

#[test]
fn start_with_connection_builds_request_and_waiter() {
    let (request, pending) = PendingRequest::start(true, "sum".to_string(), None, 10).unwrap();
    assert_eq!(request.method, "sum");
    let id = request.id.unwrap();
    assert_eq!((id >> 76) & 0xf, 4);
    let own = pending.on_reply(Some(reply(Some(id), Some(Value::from(5)), None)), 0);
    assert!(matches!(own, ReplyOutcome::Finished(Ok(v)) if v == Value::from(5)));
}

#[test]
fn no_reply_is_a_timeout_or_error() {
    let p = pending_for(1, 100);
    assert!(matches!(p.on_reply(None, 0), ReplyOutcome::Finished(Err(PaleError::RequestTimeoutOrError))));
}

#[test]
fn other_reply_before_timeout_keeps_waiting() {
    let p = pending_for(1, 100);
    assert!(matches!(p.on_reply(Some(reply(Some(2), Some(Value::from(1)), None)), 50), ReplyOutcome::Pending));
    assert!(matches!(p.on_reply(Some(reply(Some(2), None, None)), 99), ReplyOutcome::Pending));
    assert!(matches!(p.on_reply(Some(reply(None, None, None)), 0), ReplyOutcome::Pending));
}

#[test]
fn other_reply_after_timeout_times_out() {
    let p = pending_for(1, 100);
    assert!(matches!(
        p.on_reply(Some(reply(Some(2), Some(Value::from(1)), None)), 101),
        ReplyOutcome::Finished(Err(PaleError::RequestTimeout))
    ));
    // exactly at the timeout is not past it
    assert!(matches!(p.on_reply(Some(reply(Some(2), None, None)), 100), ReplyOutcome::Pending));
}

#[test]
fn remaining_wait_is_what_is_left_of_the_timeout() {
    let p = pending_for(1, 100);
    assert_eq!(p.remaining_wait(0), 100);
    assert_eq!(p.remaining_wait(30), 70);
    assert_eq!(p.remaining_wait(100), 0);
    assert_eq!(p.remaining_wait(250), 0);
}

#[test]
fn own_reply_result_wins_over_error() {
    let p = pending_for(9, 100);
    let error = RPCError { code: 1, message: "bad".to_string(), data: None };
    let r = p.on_reply(Some(reply(Some(9), Some(Value::from("ok")), Some(error))), 500);
    assert!(matches!(r, ReplyOutcome::Finished(Ok(v)) if v == Value::from("ok")));
}

#[test]
fn own_reply_error_is_rpc_error() {
    let p = pending_for(9, 100);
    let error = RPCError { code: -32000, message: "boom".to_string(), data: Some(Value::from(true)) };
    let r = p.on_reply(Some(reply(Some(9), None, Some(error.clone()))), 0);
    assert!(matches!(r, ReplyOutcome::Finished(Err(PaleError::RPC(e))) if e == error));
}

#[test]
fn own_reply_without_data() {
    let p = pending_for(9, 100);
    let r = p.on_reply(Some(reply(Some(9), None, None)), 0);
    assert!(matches!(r, ReplyOutcome::Finished(Err(PaleError::NoReturnedRPCData))));
}

#[test]
fn request_without_id_matches_reply_without_id() {
    let request = RPCRequest::new("n".to_string(), None, false);
    let p = PendingRequest::new(&request, 100);
    let r = p.on_reply(Some(reply(None, Some(Value::Null), None)), 0);
    assert!(matches!(r, ReplyOutcome::Finished(Ok(Value::Null))));
    assert!(matches!(p.on_reply(Some(reply(Some(3), None, None)), 0), ReplyOutcome::Pending));
}
