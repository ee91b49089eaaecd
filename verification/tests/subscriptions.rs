use pale::subscription::{Delivery, Subscription};
use pale::{NotisResponse, PaleError};
use serde_json::Value;

fn notis(method: &str, params: Option<Value>) -> Option<NotisResponse> {
    Some(NotisResponse::new("2.0".to_string(), method.to_string(), params))
}

#[test]
fn subscribing_needs_a_connection() {
    assert!(matches!(Subscription::start(false, "a".to_string()), Err(PaleError::ClientDisconnected)));
    let s = Subscription::start(true, "a".to_string()).unwrap();
    assert!(!s.is_ended());
}

#[test]
fn subscription_delivers_its_stream_and_ends_on_close() {
    let mut sub = Subscription::new("a".to_string());
    let msgs = vec![
        notis("a", Some(Value::from(1))),
        None,
        notis("b", Some(Value::from(2))),
        notis("a", None),
        Some(NotisResponse::close_signal()),
        notis("a", Some(Value::from(3))),
        None,
    ];
    let mut delivered = Vec::new();
    let mut ends = 0;
    for m in msgs {
        match sub.observe(m) {
            Delivery::Deliver(p) => delivered.push(p),
            Delivery::End => ends += 1,
            Delivery::Skip => {}
        }
    }
    assert_eq!(delivered, vec![Some(Value::from(1)), None]);
    assert_eq!(ends, 3);
    assert!(sub.is_ended());
}

#[test]
fn close_signal_ends_any_subscription() {
    // the close signal's method is empty, yet it ends a subscription to ""
    let mut sub = Subscription::new(String::new());
    assert!(matches!(sub.observe(Some(NotisResponse::close_signal())), Delivery::End));
    assert!(matches!(sub.observe(notis("", Some(Value::from(1)))), Delivery::End));
}

#[test]
fn lagged_message_is_skipped() {
    let mut sub = Subscription::new("a".to_string());
    assert!(matches!(sub.observe(None), Delivery::Skip));
    assert!(!sub.is_ended());
    assert!(matches!(sub.observe(notis("a", Some(Value::from(5)))), Delivery::Deliver(Some(v)) if v == Value::from(5)));
}
