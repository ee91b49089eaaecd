//! What the connection does with each websocket frame it reads.
//!
//! Text and binary frames hold JSON: a message with a `method` (or `params`)
//! member is a notification for the subscriptions, any other is a response
//! for the waiting requests. It is passed on only when someone listens. A close frame
//! ends the session; anything else is passed over.
use serde_json::Value;
use vstd::prelude::*;

use crate::error::PaleError;
use crate::outside::{
    json_has_member, json_member, json_of_bytes, json_of_text, parse_json_bytes, parse_json_text,
};

verus! {

/// What the socket yielded.
#[derive(Debug)]
pub enum Frame {
    /// The socket reported an error instead of a frame.
    ReadError,
    /// A text frame, with its text.
    Text(String),
    /// A binary frame, with its bytes.
    Binary(Vec<u8>),
    Ping,
    Pong,
    /// The server closes the connection.
    Close,
    /// A raw frame.
    Raw,
}

/// What a frame amounts to.
#[derive(Debug)]
pub enum Incoming {
    /// A JSON message, and whether it is a notification.
    Message { value: Value, is_notification: bool },
    /// The server closed the connection: the session is over.
    SessionEnded,
    /// Nothing to do: go on reading.
    Nothing,
}

/// A message is a notification when it has a `method` member (every
/// JSON-RPC notification does, a response never does) or a `params` member.
pub open spec fn is_notification(value: Value) -> bool {
    json_member(value, "method"@) || json_member(value, "params"@)
}

/// Which messages are notifications: exactly those with a `method` or a
/// `params` member. A plain response (a `result` or an `error` object and an
/// `id`, with neither of those members) is never one, whatever else it
/// holds; a message with either member always is.
pub proof fn law_notifications_are_the_messages_with_method_or_params(value: Value)
    ensures
        !json_member(value, "method"@) && !json_member(value, "params"@) ==> !is_notification(value),
        json_member(value, "method"@) ==> is_notification(value),
        json_member(value, "params"@) ==> is_notification(value),
{
}

/// Where a decoded message goes.
#[derive(Debug, Clone, Copy, PartialEq, Eq, Structural)]
pub enum Route {
    /// A notification: broadcast it to the subscriptions if `forward`.
    Notification { forward: bool },
    /// A response: broadcast it to the waiting requests if `forward`.
    Response { forward: bool },
}

/// Reads one frame. Text and binary frames are parsed as JSON, and a payload
/// that is not JSON is an error (which ends the session); a close frame ends
/// the session; read errors, pings, pongs and raw frames are passed over.
pub fn read_frame(frame: Frame) -> (r: Result<Incoming, PaleError>)
    ensures
        match frame {
            Frame::Text(text) => match json_of_text(text@) {
                Some(doc) => r matches Ok(Incoming::Message { value, is_notification: n }) && value == doc
                    && n == is_notification(doc)
                    && n == (json_member(doc, "method"@) || json_member(doc, "params"@)),
                None => r is Err,
            },
            Frame::Binary(bytes) => match json_of_bytes(bytes@) {
                Some(doc) => r matches Ok(Incoming::Message { value, is_notification: n }) && value == doc
                    && n == is_notification(doc)
                    && n == (json_member(doc, "method"@) || json_member(doc, "params"@)),
                None => r is Err,
            },
            Frame::Close => r matches Ok(Incoming::SessionEnded),
            _ => r matches Ok(Incoming::Nothing),
        },
        r matches Err(e) ==> e is SerdeJson,
{
    match frame {
        Frame::Text(text) => match parse_json_text(text.as_str()) {
            Ok(value) => {
                let is_notification = json_has_member(&value, "method") || json_has_member(&value, "params");
                Ok(Incoming::Message { value, is_notification })
            },
            Err(e) => Err(PaleError::SerdeJson(e)),
        },
        Frame::Binary(bytes) => match parse_json_bytes(bytes.as_slice()) {
            Ok(value) => {
                let is_notification = json_has_member(&value, "method") || json_has_member(&value, "params");
                Ok(Incoming::Message { value, is_notification })
            },
            Err(e) => Err(PaleError::SerdeJson(e)),
        },
        Frame::Close => Ok(Incoming::SessionEnded),
        _ => Ok(Incoming::Nothing),
    }
}

/// A notification goes to the subscriptions, any other message to the
/// waiting requests; it is broadcast only when its side has at least one
/// receiver.
pub fn route_message(is_notification: bool, notification_receivers: usize, response_receivers: usize) -> (r: Route)
    ensures
        r == if is_notification {
            Route::Notification { forward: notification_receivers > 0 }
        } else {
            Route::Response { forward: response_receivers > 0 }
        },
{
    if is_notification {
        Route::Notification { forward: notification_receivers > 0 }
    } else {
        Route::Response { forward: response_receivers > 0 }
    }
}

} // verus!
