//! Declarations of the outside types that the library carries through its
//! data, and the wrappers for the outside functions that it calls.
use vstd::prelude::*;

verus! {

/// `serde_json::Value`: a JSON document. The library only carries it.
#[verifier::external_type_specification]
#[verifier::external_body]
pub struct ExJsonValue(serde_json::Value);

/// `serde_json::Error`: a failure to read or write JSON.
#[verifier::external_type_specification]
#[verifier::external_body]
pub struct ExJsonError(serde_json::Error);

/// `tungstenite::Error`: a websocket failure.
#[verifier::external_type_specification]
#[verifier::external_body]
pub struct ExWsError(tokio_tungstenite::tungstenite::Error);

/// `http::uri::InvalidUri`: an address that does not parse as a URI.
#[verifier::external_type_specification]
#[verifier::external_body]
pub struct ExInvalidUri(tokio_tungstenite::tungstenite::http::uri::InvalidUri);

/// `tokio::time::error::Elapsed`: a timeout ran out.
#[verifier::external_type_specification]
#[verifier::external_body]
pub struct ExElapsed(tokio::time::error::Elapsed);

/// `tokio::sync::broadcast::error::SendError`: a broadcast found no receiver.
#[verifier::external_type_specification]
#[verifier::external_body]
#[verifier::reject_recursive_types(T)]
pub struct ExBroadcastSendError<T>(tokio::sync::broadcast::error::SendError<T>);

/// `tokio::sync::mpsc::error::SendError`: the receiving side is gone.
#[verifier::external_type_specification]
#[verifier::external_body]
#[verifier::reject_recursive_types(T)]
pub struct ExMpscSendError<T>(tokio::sync::mpsc::error::SendError<T>);

/// `tungstenite::protocol::WebSocketConfig`: the websocket's own settings.
#[verifier::external_type_specification]
#[verifier::external_body]
pub struct ExWebSocketConfig(tokio_tungstenite::tungstenite::protocol::WebSocketConfig);

/// What `std::time::Duration::from_secs` returns for `secs`.
pub uninterp spec fn secs_duration(secs: u64) -> std::time::Duration;

/// Calls `std::time::Duration::from_secs`. Its documentation: "Creates a new
/// `Duration` from the specified number of whole seconds"; it cannot fail.
/// The result is named, not described: vstd keeps `Duration` opaque.
#[verifier::external_body]
pub(crate) fn duration_from_secs(secs: u64) -> (d: std::time::Duration)
    ensures
        d == secs_duration(secs),
{
    std::time::Duration::from_secs(secs)
}

/// The settings that a `WebSocketConfig` holds, as plain values (its six
/// public fields).
#[derive(Debug, Clone, Copy, PartialEq, Eq)]
pub struct WebSocketSettings {
    pub read_buffer_size: usize,
    pub write_buffer_size: usize,
    pub max_write_buffer_size: usize,
    pub max_message_size: Option<usize>,
    pub max_frame_size: Option<usize>,
    pub accept_unmasked_frames: bool,
}

/// The settings held by `config`: its six fields read as plain values.
pub uninterp spec fn websocket_settings(config: tokio_tungstenite::tungstenite::protocol::WebSocketConfig) -> WebSocketSettings;

/// The settings of tungstenite's default websocket config: 128 KiB read and
/// write buffers, an unlimited write buffer, 64 MiB messages, 16 MiB frames,
/// and no unmasked frames.
pub open spec fn default_websocket_settings() -> WebSocketSettings {
    WebSocketSettings {
        read_buffer_size: 131072,
        write_buffer_size: 131072,
        max_write_buffer_size: usize::MAX,
        max_message_size: Some(67108864),
        max_frame_size: Some(16777216),
        accept_unmasked_frames: false,
    }
}

/// Calls `WebSocketConfig::default` (tungstenite), whose source sets
/// `read_buffer_size` and `write_buffer_size` to `128 * 1024`,
/// `max_write_buffer_size` to `usize::MAX`, `max_message_size` to
/// `Some(64 << 20)`, `max_frame_size` to `Some(16 << 20)` and
/// `accept_unmasked_frames` to `false`.
#[verifier::external_body]
pub(crate) fn default_websocket_config() -> (c: tokio_tungstenite::tungstenite::protocol::WebSocketConfig)
    ensures
        websocket_settings(c) == default_websocket_settings(),
{
    tokio_tungstenite::tungstenite::protocol::WebSocketConfig::default()
}

/// `Duration`'s `Clone`: `Duration` is `Copy`, and a `Copy` type's clone is a
/// copy (the `Copy` documentation requires it), so the clone equals the
/// value it was made from.
pub assume_specification[ <std::time::Duration as Clone>::clone ](d: &std::time::Duration) -> (r: std::time::Duration)
    ensures
        r == *d,
;

/// `WebSocketConfig`'s `Clone` (tungstenite derives `Clone` and `Copy` for it):
/// the clone equals the value it was made from.
pub assume_specification[ <tokio_tungstenite::tungstenite::protocol::WebSocketConfig as Clone>::clone ](
    c: &tokio_tungstenite::tungstenite::protocol::WebSocketConfig,
) -> (r: tokio_tungstenite::tungstenite::protocol::WebSocketConfig)
    ensures
        r == *c,
;

/// `http::Uri`: a parsed URI.
#[verifier::external_type_specification]
#[verifier::external_body]
pub struct ExUri(tokio_tungstenite::tungstenite::http::Uri);

/// `tungstenite::ClientRequestBuilder`: the websocket handshake request.
#[verifier::external_type_specification]
#[verifier::external_body]
pub struct ExClientRequestBuilder(tokio_tungstenite::tungstenite::ClientRequestBuilder);

/// The URI that `http::Uri::from_str` reads from `text`, or `None` where it
/// refuses `text`.
pub uninterp spec fn uri_of_text(text: Seq<char>) -> Option<tokio_tungstenite::tungstenite::http::Uri>;

/// Calls `http::Uri::from_str`: it succeeds exactly when `text` is a valid
/// URI, and what it reads depends on `text` alone (named, not spelled out:
/// the URI grammar is the `http` crate's). The error is not described.
#[verifier::external_body]
pub(crate) fn parse_uri(text: &str) -> (r: Result<tokio_tungstenite::tungstenite::http::Uri, tokio_tungstenite::tungstenite::http::uri::InvalidUri>)
    ensures
        r is Ok <==> uri_of_text(text@) is Some,
        r matches Ok(u) ==> uri_of_text(text@) == Some(u),
{
    <tokio_tungstenite::tungstenite::http::Uri as std::str::FromStr>::from_str(text)
}

/// The extra handshake headers (name, value) that a `ClientRequestBuilder`
/// holds, in the order they were added.
pub uninterp spec fn request_headers(builder: tokio_tungstenite::tungstenite::ClientRequestBuilder) -> Seq<(Seq<char>, Seq<char>)>;

/// The URI that a `ClientRequestBuilder` targets.
pub uninterp spec fn request_uri(builder: tokio_tungstenite::tungstenite::ClientRequestBuilder) -> tokio_tungstenite::tungstenite::http::Uri;

/// Calls `ClientRequestBuilder::new`: a handshake request that targets `uri`
/// (its source stores it) and holds no extra header yet (it starts
/// `additional_headers` empty).
#[verifier::external_body]
pub(crate) fn new_request_builder(uri: tokio_tungstenite::tungstenite::http::Uri) -> (b: tokio_tungstenite::tungstenite::ClientRequestBuilder)
    ensures
        request_uri(b) == uri,
        request_headers(b) == Seq::<(Seq<char>, Seq<char>)>::empty(),
{
    tokio_tungstenite::tungstenite::ClientRequestBuilder::new(uri)
}

/// Calls `ClientRequestBuilder::with_header`, which appends the header
/// (`name`, `value`) to the handshake request's extra headers (its source
/// pushes the pair onto `additional_headers`), leaving its URI as it is.
#[verifier::external_body]
pub(crate) fn add_request_header(
    builder: tokio_tungstenite::tungstenite::ClientRequestBuilder,
    name: String,
    value: String,
) -> (b: tokio_tungstenite::tungstenite::ClientRequestBuilder)
    ensures
        request_uri(b) == request_uri(builder),
        request_headers(b) == request_headers(builder).push((name@, value@)),
{
    builder.with_header(name, value)
}

/// The JSON document that `serde_json::from_str::<Value>` reads from `text`,
/// or `None` where it refuses `text`.
pub uninterp spec fn json_of_text(text: Seq<char>) -> Option<serde_json::Value>;

/// Calls `serde_json::from_str::<Value>`: it succeeds exactly when `text` is
/// one JSON document, and what it reads depends on `text` alone (named, not
/// spelled out: the grammar and the nesting limit are serde_json's). The
/// error, when there is one, is not described.
#[verifier::external_body]
pub(crate) fn parse_json_text(text: &str) -> (r: Result<serde_json::Value, serde_json::Error>)
    ensures
        r is Ok <==> json_of_text(text@) is Some,
        r matches Ok(v) ==> json_of_text(text@) == Some(v),
{
    serde_json::from_str(text)
}

/// The JSON document that `serde_json::from_slice::<Value>` reads from
/// `bytes`, or `None` where it refuses them.
pub uninterp spec fn json_of_bytes(bytes: Seq<u8>) -> Option<serde_json::Value>;

/// Calls `serde_json::from_slice::<Value>`: it succeeds exactly when `bytes`
/// hold one JSON document in UTF-8, and what it reads depends on `bytes`
/// alone (named, as for text). The error is not described.
#[verifier::external_body]
pub(crate) fn parse_json_bytes(bytes: &[u8]) -> (r: Result<serde_json::Value, serde_json::Error>)
    ensures
        r is Ok <==> json_of_bytes(bytes@) is Some,
        r matches Ok(v) ==> json_of_bytes(bytes@) == Some(v),
{
    serde_json::from_slice(bytes)
}

/// Whether `value` is a JSON object with a member named `key`: what
/// `serde_json::Value::get(key).is_some()` answers.
pub uninterp spec fn json_member(value: serde_json::Value, key: Seq<char>) -> bool;

/// Calls `serde_json::Value::get` with a string key and tells whether it
/// found something (`Value::get` indexes an object by key and gives `None`
/// for any other value); the answer depends on `value` and `key` alone.
#[verifier::external_body]
pub(crate) fn json_has_member(value: &serde_json::Value, key: &str) -> (r: bool)
    ensures
        r == json_member(*value, key@),
{
    value.get(key).is_some()
}

/// The version nibble (bits 76..80) of a UUID held as a big-endian `u128`.
pub open spec fn uuid_version(id: u128) -> u128 {
    (id >> 76u128) & 0xfu128
}

/// The two variant bits (bits 62..64) of a UUID held as a big-endian `u128`.
pub open spec fn uuid_variant(id: u128) -> u128 {
    (id >> 62u128) & 0x3u128
}

/// A random (version 4, RFC 4122 variant) UUID.
pub open spec fn is_random_uuid(id: u128) -> bool {
    uuid_version(id) == 4 && uuid_variant(id) == 2
}

/// Calls `uuid::Uuid::new_v4` and hands back the UUID as its big-endian
/// `u128` (`Uuid::as_u128`).
///
/// The bits come from the operating system's random source, so only what
/// holds of every outcome is claimed: `new_v4` masks the random value so that
/// the version nibble reads 4 and the variant bits read `10`. (It panics
/// only when the operating system cannot supply random bytes, which no
/// argument can rule out.)
#[verifier::external_body]
pub(crate) fn random_request_id() -> (id: u128)
    ensures
        is_random_uuid(id),
{
    uuid::Uuid::new_v4().as_u128()
}

} // verus!
