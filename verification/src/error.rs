//! The errors of the client.
use tokio::sync::broadcast::error::SendError as BroadcastSendError;
use tokio::sync::mpsc::error::SendError as MpscSendError;
use tokio::time::error::Elapsed;
use tokio_tungstenite::tungstenite;
use tokio_tungstenite::tungstenite::http::uri::InvalidUri;
use vstd::prelude::*;

use crate::types::{NotisResponse, RPCError, RPCRequest, RPCResponse};

verus! {

/// Everything that can go wrong in the client.
#[derive(Debug)]
pub enum PaleError {
    /// The server answered the request with an error object.
    RPC(RPCError),
    /// The server's answer held neither a result nor an error.
    NoReturnedRPCData,
    /// Other requests' answers kept arriving after the request's timeout.
    RequestTimeout,
    /// No answer arrived within the timeout, or the answers stopped.
    RequestTimeoutOrError,
    /// The client has no live connection.
    ClientDisconnected,
    /// The client already has a live connection.
    ClientAlreadyConnected,
    /// Waiting for the connection state ran out of time.
    ClientTimeout(Elapsed),
    /// The websocket failed.
    Tungstenite(tungstenite::Error),
    /// JSON could not be read or written.
    SerdeJson(serde_json::Error),
    /// The address is not a valid URI.
    InvalidUri(InvalidUri),
    /// A request could not be handed to the connection.
    RequestSendError(BroadcastSendError<RPCRequest>),
    /// The close request could not be delivered.
    CloseSendError(MpscSendError<()>),
    /// A response could not be broadcast.
    ResponseSendError(BroadcastSendError<RPCResponse>),
    /// A notification could not be broadcast.
    ValueSendError(BroadcastSendError<NotisResponse>),
}

} // verus!
