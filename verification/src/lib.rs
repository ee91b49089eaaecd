//! A reconnecting, subscription keeping JSON-RPC 2.0 websocket client: the
//! verified core.
//!
//! This crate holds the protocol data and every decision the client makes:
//! how requests are built and matched to their replies, which notifications a
//! subscription delivers and when it ends, how incoming websocket frames are
//! routed, and when the connection supervisor reconnects, retries, gives up or
//! shuts down. The websocket, the channels and the async tasks that carry
//! these decisions out live in the companion crate under `app/`.
#![allow(unused_imports)]

pub mod config;
pub mod error;
pub mod outside;
pub mod request;
pub mod routing;
pub mod subscription;
pub mod supervisor;
pub mod types;

pub use config::ClientConfig;
pub use error::PaleError;
pub use types::{
    NotisResponse, NotisResponseView, RPCError, RPCRequest, RPCRequestView, RPCResponse,
    RPCResponseView, JSONRPC,
};
