//! Matching the server's replies to a request.
//!
//! A request waits on the stream of replies that the server sends for all
//! requests. Each reply that arrives (or the failure to receive one within the
//! request timeout) is handed to [`PendingRequest::on_reply`], which decides
//! whether the request is answered, failed, or still waiting.
use std::collections::HashMap;

use serde_json::Value;
use vstd::prelude::*;

use crate::error::PaleError;
use crate::outside::is_random_uuid;
use crate::supervisor::require_connected;
use crate::types::{RPCError, RPCRequest, RPCResponse, JSONRPC};

verus! {

broadcast use crate::types::group_message_views;

/// The decision taken on one reply, or on the lack of one.
#[derive(Debug)]
pub enum ReplyOutcome {
    /// The reply belongs to another request: keep waiting.
    Pending,
    /// The request is over, with the result the server returned or an error.
    Finished(Result<Value, PaleError>),
}

/// A request that waits for its reply.
pub struct PendingRequest {
    id: Option<u128>,
    timeout_nanos: u128,
}

/// What a waiting request holds.
pub struct PendingRequestView {
    /// The id of the request.
    pub id: Option<u128>,
    /// The request timeout, in nanoseconds.
    pub timeout_nanos: int,
}

impl View for PendingRequest {
    type V = PendingRequestView;

    closed spec fn view(&self) -> PendingRequestView {
        PendingRequestView { id: self.id, timeout_nanos: self.timeout_nanos as int }
    }
}

/// The decision on `reply` for a request waiting as `p`, `elapsed_nanos`
/// after it was sent.
pub open spec fn reply_outcome(p: PendingRequestView, reply: Option<RPCResponse>, elapsed_nanos: u128) -> ReplyOutcome {
    match reply {
        None => ReplyOutcome::Finished(Err(PaleError::RequestTimeoutOrError)),
        Some(res) => if res@.id != p.id {
            if elapsed_nanos > p.timeout_nanos {
                ReplyOutcome::Finished(Err(PaleError::RequestTimeout))
            } else {
                ReplyOutcome::Pending
            }
        } else {
            match (res@.result, res@.error) {
                (Some(value), _) => ReplyOutcome::Finished(Ok(value)),
                (None, Some(error)) => ReplyOutcome::Finished(Err(PaleError::RPC(error))),
                (None, None) => ReplyOutcome::Finished(Err(PaleError::NoReturnedRPCData)),
            }
        },
    }
}

/// Only its own reply answers a request: a reply that ends the request with
/// a result, an error object or `NoReturnedRPCData` carries the request's
/// id; a reply for another request ends it only with `RequestTimeout`, and
/// only once the timeout has passed; a result wins over an error object.
pub proof fn law_only_own_reply_answers(p: PendingRequestView, res: RPCResponse, elapsed_nanos: u128)
    ensures
        (reply_outcome(p, Some(res), elapsed_nanos) matches ReplyOutcome::Finished(Ok(_)))
            ==> res@.id == p.id && res@.result is Some,
        forall|e: RPCError| reply_outcome(p, Some(res), elapsed_nanos) == ReplyOutcome::Finished(Err(PaleError::RPC(e)))
            ==> res@.id == p.id && res@.result is None && res@.error == Some(e),
        reply_outcome(p, Some(res), elapsed_nanos) == ReplyOutcome::Finished(Err(PaleError::NoReturnedRPCData))
            ==> res@.id == p.id && res@.result is None && res@.error is None,
        res@.id != p.id ==> (reply_outcome(p, Some(res), elapsed_nanos) is Pending
            || (elapsed_nanos > p.timeout_nanos
                && reply_outcome(p, Some(res), elapsed_nanos) == ReplyOutcome::Finished(Err(PaleError::RequestTimeout)))),
{
}

/// Its own reply always answers a request, whenever it arrives: a reply
/// that carries the request's id finishes it (it is never left waiting, nor
/// timed out), with the reply's result when there is one, else with its error
/// object as `RPC`, else with `NoReturnedRPCData`.
pub proof fn law_own_reply_finishes(p: PendingRequestView, res: RPCResponse, elapsed_nanos: u128)
    requires
        res@.id == p.id,
    ensures
        !(reply_outcome(p, Some(res), elapsed_nanos) is Pending),
        forall|v: Value| res@.result == Some(v)
            ==> reply_outcome(p, Some(res), elapsed_nanos) == ReplyOutcome::Finished(Ok(v)),
        forall|e: RPCError| res@.result is None && res@.error == Some(e)
            ==> reply_outcome(p, Some(res), elapsed_nanos) == ReplyOutcome::Finished(Err(PaleError::RPC(e))),
        res@.result is None && res@.error is None
            ==> reply_outcome(p, Some(res), elapsed_nanos) == ReplyOutcome::Finished(Err(PaleError::NoReturnedRPCData)),
{
}

/// How long a request that was sent `elapsed_nanos` ago may still wait for
/// its reply: what is left of its timeout.
pub open spec fn wait_left(p: PendingRequestView, elapsed_nanos: u128) -> int {
    if elapsed_nanos < p.timeout_nanos {
        p.timeout_nanos - elapsed_nanos
    } else {
        0
    }
}

/// A request never waits past its timeout: waiting what is left from any
/// moment ends no later than the timeout (or at once, when it is reached),
/// and once the timeout has passed any reply but its own ends it.
pub proof fn law_wait_ends_by_the_timeout(p: PendingRequestView, elapsed_nanos: u128, res: RPCResponse)
    ensures
        elapsed_nanos < p.timeout_nanos ==> elapsed_nanos + wait_left(p, elapsed_nanos) == p.timeout_nanos,
        elapsed_nanos >= p.timeout_nanos ==> wait_left(p, elapsed_nanos) == 0,
        elapsed_nanos > p.timeout_nanos && res@.id != p.id
            ==> reply_outcome(p, Some(res), elapsed_nanos) == ReplyOutcome::Finished(Err(PaleError::RequestTimeout)),
{
}

impl PendingRequest {
    /// Starts a request for `method` with `params` on a client whose
    /// connection state is `connected`: without a connection it fails with
    /// `ClientDisconnected`; with one it yields the request to send, under a
    /// fresh random id, and the state that waits for its reply with the given
    /// timeout.
    pub fn start(
        connected: bool,
        method: String,
        params: Option<HashMap<String, Value>>,
        timeout_nanos: u128,
    ) -> (r: Result<(RPCRequest, PendingRequest), PaleError>)
        ensures
            !connected ==> r == Err::<(RPCRequest, PendingRequest), PaleError>(PaleError::ClientDisconnected),
            connected ==> (r matches Ok((request, pending)) && {
                &&& request@.jsonrpc == JSONRPC@
                &&& request@.method == method@
                &&& request@.params == params
                &&& request@.id is Some
                &&& is_random_uuid(request@.id.unwrap())
                &&& pending@.id == request@.id
                &&& pending@.timeout_nanos == timeout_nanos
            }),
    {
        match require_connected(connected) {
            Err(e) => Err(e),
            Ok(()) => {
                let request = RPCRequest::new(method, params, true);
                let pending = PendingRequest::new(&request, timeout_nanos);
                Ok((request, pending))
            },
        }
    }

    /// Starts waiting for the reply to `request`, with the request timeout in
    /// nanoseconds.
    pub fn new(request: &RPCRequest, timeout_nanos: u128) -> (r: Self)
        ensures
            r@.id == request@.id,
            r@.timeout_nanos == timeout_nanos,
    {
        PendingRequest { id: request.id, timeout_nanos }
    }

    /// How long to wait for the next reply, `elapsed_nanos` after the request
    /// was sent: what is left of the timeout, zero once it is reached.
    pub fn remaining_wait(&self, elapsed_nanos: u128) -> (r: u128)
        ensures
            r == wait_left(self@, elapsed_nanos),
    {
        if elapsed_nanos < self.timeout_nanos {
            self.timeout_nanos - elapsed_nanos
        } else {
            0
        }
    }

    /// Decides on `reply`, received `elapsed_nanos` after the request was
    /// sent; `None` stands for no reply within the timeout, or a broken reply
    /// stream.
    ///
    /// - No reply: the request fails with `RequestTimeoutOrError`.
    /// - A reply whose id is not the request's: the request keeps waiting,
    ///   unless the timeout has passed, when it fails with
    ///   `RequestTimeout`.
    /// - The request's reply: its result if it has one, else its error object
    ///   as `RPC`, else `NoReturnedRPCData`.
    pub fn on_reply(&self, reply: Option<RPCResponse>, elapsed_nanos: u128) -> (r: ReplyOutcome)
        ensures
            r == reply_outcome(self@, reply, elapsed_nanos),
    {
        match reply {
            None => ReplyOutcome::Finished(Err(PaleError::RequestTimeoutOrError)),
            Some(res) => {
                let same_id = match (res.id, self.id) {
                    (Some(a), Some(b)) => a == b,
                    (None, None) => true,
                    _ => false,
                };
                if !same_id {
                    if elapsed_nanos > self.timeout_nanos {
                        ReplyOutcome::Finished(Err(PaleError::RequestTimeout))
                    } else {
                        ReplyOutcome::Pending
                    }
                } else {
                    let RPCResponse { jsonrpc: _, result, error, id: _ } = res;
                    match result {
                        Some(value) => ReplyOutcome::Finished(Ok(value)),
                        None => match error {
                            Some(error) => ReplyOutcome::Finished(Err(PaleError::RPC(error))),
                            None => ReplyOutcome::Finished(Err(PaleError::NoReturnedRPCData)),
                        },
                    }
                }
            },
        }
    }
}

} // verus!
