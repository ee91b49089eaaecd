use std::time::Duration;

use pale::{ClientConfig, PaleError};

fn handshake_headers(c: &ClientConfig, uri: &str) -> String {
    format!("{:?}", c.handshake_request(uri).unwrap())
}

fn assert_default_ws(c: &ClientConfig) {
    let ws = c.ws_config;
    assert_eq!(ws.read_buffer_size, 131072);
    assert_eq!(ws.write_buffer_size, 131072);
    assert_eq!(ws.max_write_buffer_size, usize::MAX);
    assert_eq!(ws.max_message_size, Some(67108864));
    assert_eq!(ws.max_frame_size, Some(16777216));
    assert!(!ws.accept_unmasked_frames);
}

#[test]
fn default_config() {
    let c = ClientConfig::default();
    assert_eq!(c.channel_capacity, 8192);
    assert_eq!(c.max_retry_attempts, 36);
    assert_eq!(c.retry_connection, Duration::from_secs(10));
    assert_eq!(c.request_timeout, Duration::from_secs(15));
    assert_eq!(c.bearer_token, None);
    assert_default_ws(&c);
    assert!(c.authorization_header().is_none());
}

#[test]
fn bearer_config() {
    let c = ClientConfig::with_bearer("s3cr3t");
    assert_eq!(c.bearer_token.as_deref(), Some("s3cr3t"));
    assert_eq!(c.channel_capacity, 8192);
    assert_eq!(c.max_retry_attempts, 36);
    assert_eq!(c.retry_connection, Duration::from_secs(10));
    assert_eq!(c.request_timeout, Duration::from_secs(15));
    assert_default_ws(&c);
    assert_eq!(
        c.authorization_header(),
        Some(("Authorization".to_string(), "Bearer s3cr3t".to_string()))
    );
}

#[test]
fn handshake_for_valid_uri() {
    let c = ClientConfig::with_bearer("t");
    assert!(c.handshake_request("ws://localhost:5281").is_ok());
    assert!(ClientConfig::default().handshake_request("ws://example.com/socket").is_ok());
}

#[test]
fn handshake_carries_the_bearer_header_only_with_a_token() {
    let with = handshake_headers(&ClientConfig::with_bearer("tok"), "ws://localhost:1");
    assert!(with.contains("\"Authorization\", \"Bearer tok\""), "{with}");
    let without = handshake_headers(&ClientConfig::default(), "ws://localhost:1");
    assert!(!without.contains("Authorization"), "{without}");
}

#[test]
fn handshake_for_invalid_uri() {
    let c = ClientConfig::default();
    assert!(matches!(c.handshake_request(""), Err(PaleError::InvalidUri(_))));
    assert!(matches!(c.handshake_request("ws://exa mple.com"), Err(PaleError::InvalidUri(_))));
}

#[test]
fn handshake_targets_the_given_uri() {
    let text = handshake_headers(&ClientConfig::default(), "ws://example.com:9000/rpc");
    assert!(text.contains("ws://example.com:9000/rpc"), "{text}");
}
