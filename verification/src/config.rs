//! The settings of the client.
use std::time::Duration;

use tokio_tungstenite::tungstenite::protocol::WebSocketConfig;
use vstd::prelude::*;

use tokio_tungstenite::tungstenite::ClientRequestBuilder;

use crate::error::PaleError;
use crate::outside::{
    add_request_header, default_websocket_config, duration_from_secs, new_request_builder,
    default_websocket_settings, parse_uri, request_headers, request_uri, secs_duration,
    uri_of_text, websocket_settings,
};

verus! {

/// The config of the client: channel capacity, reconnection and request
/// timing, an optional bearer token, and the underlying websocket's own
/// config.
#[derive(Debug, Clone)]
pub struct ClientConfig {
    /// How many messages can be in any of the internal channels at once.
    pub channel_capacity: usize,
    /// How many reconnection attempts the client will attempt at most when
    /// the connection is lost (or when the first attempt fails).
    pub max_retry_attempts: i32,
    /// The delay between reconnection attempts.
    pub retry_connection: Duration,
    /// The timeout of each request to the server.
    pub request_timeout: Duration,
    /// An optional bearer token, sent in an `Authorization` header when
    /// connecting.
    pub bearer_token: Option<String>,
    /// Config for the underlying websocket.
    pub ws_config: WebSocketConfig,
}

/// The default config's channel capacity.
pub const DEFAULT_CHANNEL_CAPACITY: usize = 8192;

/// The default config's `max_retry_attempts`.
pub const DEFAULT_MAX_RETRY_ATTEMPTS: i32 = 36;

/// The default config's delay between reconnection attempts, in seconds.
pub const DEFAULT_RETRY_CONNECTION_SECS: u64 = 10;

/// The default config's request timeout, in seconds.
pub const DEFAULT_REQUEST_TIMEOUT_SECS: u64 = 15;

impl ClientConfig {
    /// The settings of the default config.
    pub open spec fn has_default_settings(&self) -> bool {
        &&& websocket_settings(self.ws_config) == default_websocket_settings()
        &&& self.channel_capacity == DEFAULT_CHANNEL_CAPACITY
        &&& self.max_retry_attempts == DEFAULT_MAX_RETRY_ATTEMPTS
        &&& self.retry_connection == secs_duration(DEFAULT_RETRY_CONNECTION_SECS)
        &&& self.request_timeout == secs_duration(DEFAULT_REQUEST_TIMEOUT_SECS)
    }

    /// The default config, but with `bearer` as the bearer token.
    pub fn with_bearer(bearer: &str) -> (r: Self)
        ensures
            r.has_default_settings(),
            r.bearer_token is Some,
            r.bearer_token.unwrap()@ == bearer@,
    {
        ClientConfig { bearer_token: Some(String::from_str(bearer)), ..ClientConfig::default() }
    }

    /// The header that carries the bearer token when connecting: none
    /// without a token, else `Authorization: Bearer <token>`.
    pub fn authorization_header(&self) -> (r: Option<(String, String)>)
        ensures
            r is Some <==> self.bearer_token is Some,
            r matches Some((name, value)) ==> name@ == "Authorization"@ && value@ == "Bearer "@ + self.bearer_token.unwrap()@,
    {
        match &self.bearer_token {
            None => None,
            Some(token) => {
                let name = String::from_str("Authorization");
                let value = String::from_str("Bearer ").concat(token.as_str());
                Some((name, value))
            },
        }
    }

    /// The websocket handshake request for `uri`: the URI must parse (else
    /// `InvalidUri`), and the request carries the
    /// [`authorization_header`](Self::authorization_header) when there is a
    /// bearer token.
    pub fn handshake_request(&self, uri: &str) -> (r: Result<ClientRequestBuilder, PaleError>)
        ensures
            r is Ok <==> uri_of_text(uri@) is Some,
            r matches Ok(b) ==> uri_of_text(uri@) == Some(request_uri(b)),
            r matches Err(e) ==> e is InvalidUri,
            r matches Ok(b) ==> request_headers(b) == match self.bearer_token {
                None => Seq::<(Seq<char>, Seq<char>)>::empty(),
                Some(token) => seq![("Authorization"@, "Bearer "@ + token@)],
            },
    {
        let parsed = match parse_uri(uri) {
            Ok(parsed) => parsed,
            Err(e) => return Err(PaleError::InvalidUri(e)),
        };
        let builder = new_request_builder(parsed);
        match self.authorization_header() {
            Some((name, value)) => Ok(add_request_header(builder, name, value)),
            None => Ok(builder),
        }
    }
}

impl Default for ClientConfig {
    /// Channels of 8192 messages, at most 36 reconnection attempts, 10 s
    /// between reconnection attempts, a 15 s request timeout, no bearer token
    /// and tungstenite's default websocket config.
    fn default() -> (r: Self)
        ensures
            r.has_default_settings(),
            r.bearer_token is None,
    {
        ClientConfig {
            channel_capacity: DEFAULT_CHANNEL_CAPACITY,
            max_retry_attempts: DEFAULT_MAX_RETRY_ATTEMPTS,
            retry_connection: duration_from_secs(DEFAULT_RETRY_CONNECTION_SECS),
            request_timeout: duration_from_secs(DEFAULT_REQUEST_TIMEOUT_SECS),
            bearer_token: None,
            ws_config: default_websocket_config(),
        }
    }
}

} // verus!
