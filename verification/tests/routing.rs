use pale::routing::{read_frame, route_message, Frame, Incoming, Route};
use pale::PaleError;
use serde_json::Value;

#[test]
fn text_notification_has_params() {
    let r = read_frame(Frame::Text(r#"{"jsonrpc":"2.0","method":"tick","params":[1]}"#.to_string())).unwrap();
    match r {
        Incoming::Message { value, is_notification } => {
            assert!(is_notification);
            assert_eq!(value["method"], Value::from("tick"));
        }
        _ => panic!("expected a message"),
    }
}

#[test]
fn binary_response_has_no_params() {
    let r = read_frame(Frame::Binary(br#"{"jsonrpc":"2.0","result":5,"id":null}"#.to_vec())).unwrap();
    assert!(matches!(r, Incoming::Message { is_notification: false, .. }));
}

#[test]
fn null_params_still_count() {
    let r = read_frame(Frame::Text(r#"{"params":null}"#.to_string())).unwrap();
    assert!(matches!(r, Incoming::Message { is_notification: true, .. }));
}

#[test]
fn notification_without_params_is_a_notification() {
    let r = read_frame(Frame::Text(r#"{"jsonrpc":"2.0","method":"ping"}"#.to_string())).unwrap();
    assert!(matches!(r, Incoming::Message { is_notification: true, .. }));
}

#[test]
fn non_object_has_no_params() {
    let r = read_frame(Frame::Text("[1,2]".to_string())).unwrap();
    assert!(matches!(r, Incoming::Message { is_notification: false, .. }));
}

#[test]
fn malformed_payload_is_a_json_error() {
    assert!(matches!(read_frame(Frame::Text("not json".to_string())), Err(PaleError::SerdeJson(_))));
    assert!(matches!(read_frame(Frame::Binary(vec![0xff, 0xfe])), Err(PaleError::SerdeJson(_))));
}

#[test]
fn control_frames() {
    assert!(matches!(read_frame(Frame::Close), Ok(Incoming::SessionEnded)));
    assert!(matches!(read_frame(Frame::Ping), Ok(Incoming::Nothing)));
    assert!(matches!(read_frame(Frame::Pong), Ok(Incoming::Nothing)));
    assert!(matches!(read_frame(Frame::Raw), Ok(Incoming::Nothing)));
    assert!(matches!(read_frame(Frame::ReadError), Ok(Incoming::Nothing)));
}

#[test]
fn routes() {
    assert_eq!(route_message(true, 1, 0), Route::Notification { forward: true });
    assert_eq!(route_message(true, 0, 5), Route::Notification { forward: false });
    assert_eq!(route_message(false, 3, 2), Route::Response { forward: true });
    assert_eq!(route_message(false, 3, 0), Route::Response { forward: false });
}
