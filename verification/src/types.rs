//! The JSON-RPC 2.0 messages that travel between the client and the server.
use std::collections::HashMap;

use serde_json::Value;
use vstd::prelude::*;

use crate::outside::{is_random_uuid, random_request_id};

verus! {

/// The JSON-RPC protocol version written into every message the client makes.
pub const JSONRPC: &'static str = "2.0";

/// A request (or, without an id, a notification) sent to the server.
#[derive(Debug, Clone, PartialEq, Eq)]
pub struct RPCRequest {
    pub(crate) jsonrpc: String,
    pub method: String,
    pub params: Option<HashMap<String, Value>>,
    /// The request's UUID, as its big-endian `u128`.
    pub id: Option<u128>,
}

/// What a request holds.
pub struct RPCRequestView {
    pub jsonrpc: Seq<char>,
    pub method: Seq<char>,
    pub params: Option<HashMap<String, Value>>,
    pub id: Option<u128>,
}

impl View for RPCRequest {
    type V = RPCRequestView;

    closed spec fn view(&self) -> RPCRequestView {
        RPCRequestView {
            jsonrpc: self.jsonrpc@,
            method: self.method@,
            params: self.params,
            id: self.id,
        }
    }
}

impl RPCRequest {
    /// Builds a request for `method` with `params`; with `generate_id` it gets
    /// a fresh random UUID as its id, without it no id (a notification).
    pub fn new(method: String, params: Option<HashMap<String, Value>>, generate_id: bool) -> (r: Self)
        ensures
            r@.jsonrpc == JSONRPC@,
            r@.method == method@,
            r@.params == params,
            generate_id ==> r@.id is Some && is_random_uuid(r@.id.unwrap()),
            !generate_id ==> r@.id is None,
    {
        RPCRequest {
            jsonrpc: String::from_str(JSONRPC),
            method,
            params,
            id: if generate_id { Some(random_request_id()) } else { None },
        }
    }

    /// The protocol version the request carries.
    pub fn jsonrpc(&self) -> (r: &String)
        ensures
            r@ == self@.jsonrpc,
    {
        &self.jsonrpc
    }
}


/// A notification pushed by the server: a `method` with its `params`.
///
/// The `close` flag cannot come from the server: notifications built from
/// received data never carry it. Only [`NotisResponse::close_signal`] sets it,
/// and a notification that carries it ends every subscription.
#[derive(Debug, Clone, PartialEq, Eq, Hash)]
pub struct NotisResponse {
    pub(crate) jsonrpc: String,
    pub method: String,
    pub params: Option<Value>,
    pub(crate) close: Option<bool>,
}

/// What a notification holds.
pub struct NotisResponseView {
    pub jsonrpc: Seq<char>,
    pub method: Seq<char>,
    pub params: Option<Value>,
    pub close: Option<bool>,
}

impl View for NotisResponse {
    type V = NotisResponseView;

    closed spec fn view(&self) -> NotisResponseView {
        NotisResponseView {
            jsonrpc: self.jsonrpc@,
            method: self.method@,
            params: self.params,
            close: self.close,
        }
    }
}

impl NotisResponseView {
    /// The notification tells every subscription to end.
    pub open spec fn closing(self) -> bool {
        self.close == Some(true)
    }
}

impl NotisResponse {
    /// A notification as received from the server: it never carries the close
    /// flag.
    pub fn new(jsonrpc: String, method: String, params: Option<Value>) -> (r: Self)
        ensures
            r@.jsonrpc == jsonrpc@,
            r@.method == method@,
            r@.params == params,
            r@.close is None,
    {
        NotisResponse { jsonrpc, method, params, close: None }
    }

    /// The special notification that the client broadcasts when it shuts
    /// down, so that every subscription stream ends.
    pub fn close_signal() -> (r: Self)
        ensures
            r@.jsonrpc == JSONRPC@,
            r@.method == Seq::<char>::empty(),
            r@.params is None,
            r@.close == Some(true),
    {
        NotisResponse {
            jsonrpc: String::from_str(JSONRPC),
            method: String::new(),
            params: None,
            close: Some(true),
        }
    }

    /// Whether this notification ends the subscriptions: its close flag is set
    /// to `true` (an absent flag counts as `false`).
    pub fn is_closing(&self) -> (r: bool)
        ensures
            r == self@.closing(),
    {
        match self.close {
            Some(flag) => flag,
            None => false,
        }
    }

    /// The protocol version the notification carries.
    pub fn jsonrpc(&self) -> (r: &String)
        ensures
            r@ == self@.jsonrpc,
    {
        &self.jsonrpc
    }

    /// The close flag.
    pub fn close_flag(&self) -> (r: Option<bool>)
        ensures
            r == self@.close,
    {
        self.close
    }
}

/// The server's answer to a request.
#[derive(Debug, Clone, PartialEq, Eq, Hash)]
pub struct RPCResponse {
    pub(crate) jsonrpc: String,
    pub result: Option<Value>,
    pub error: Option<RPCError>,
    /// The id of the request answered, as its big-endian `u128`.
    pub id: Option<u128>,
}

/// What a response holds.
pub struct RPCResponseView {
    pub jsonrpc: Seq<char>,
    pub result: Option<Value>,
    pub error: Option<RPCError>,
    pub id: Option<u128>,
}

impl View for RPCResponse {
    type V = RPCResponseView;

    closed spec fn view(&self) -> RPCResponseView {
        RPCResponseView {
            jsonrpc: self.jsonrpc@,
            result: self.result,
            error: self.error,
            id: self.id,
        }
    }
}

impl RPCResponse {
    /// A response as received from the server.
    pub fn new(jsonrpc: String, result: Option<Value>, error: Option<RPCError>, id: Option<u128>) -> (r: Self)
        ensures
            r@.jsonrpc == jsonrpc@,
            r@.result == result,
            r@.error == error,
            r@.id == id,
    {
        RPCResponse { jsonrpc, result, error, id }
    }

    /// The protocol version the response carries.
    pub fn jsonrpc(&self) -> (r: &String)
        ensures
            r@ == self@.jsonrpc,
    {
        &self.jsonrpc
    }
}

/// What each message's view holds, for the rest of the crate.
pub(crate) broadcast proof fn reveal_request_view(r: RPCRequest)
    ensures
        #[trigger] r@ == (RPCRequestView {
            jsonrpc: r.jsonrpc@,
            method: r.method@,
            params: r.params,
            id: r.id,
        }),
{
}

pub(crate) broadcast proof fn reveal_notification_view(n: NotisResponse)
    ensures
        #[trigger] n@ == (NotisResponseView {
            jsonrpc: n.jsonrpc@,
            method: n.method@,
            params: n.params,
            close: n.close,
        }),
{
}

pub(crate) broadcast proof fn reveal_response_view(r: RPCResponse)
    ensures
        #[trigger] r@ == (RPCResponseView {
            jsonrpc: r.jsonrpc@,
            result: r.result,
            error: r.error,
            id: r.id,
        }),
{
}

pub(crate) broadcast group group_message_views {
    reveal_request_view,
    reveal_notification_view,
    reveal_response_view,
}

/// The error object of a failed request.
#[derive(Debug, Clone, PartialEq, Eq, Hash)]
pub struct RPCError {
    pub code: i32,
    pub message: String,
    pub data: Option<Value>,
}

} // verus!
