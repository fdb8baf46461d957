use ws_core::accept::Accept;
use ws_core::handshake::{
    connection_has_upgrade, validate, ws, HandshakeError, HandshakeRequest,
};

fn valid_request() -> HandshakeRequest {
    HandshakeRequest {
        method: "GET".to_owned(),
        connection: Some("Upgrade".to_owned()),
        upgrade: Some("websocket".to_owned()),
        version: Some("13".to_owned()),
        key: Some("dGhlIHNhbXBsZSBub25jZQ==".to_owned()),
    }
}

#[test]
fn rfc_test_vector_accept_key() {
    let accept = Accept::from_key("dGhlIHNhbXBsZSBub25jZQ==");
    assert_eq!(accept.as_str(), "s3pPLMBiTxaQ9kYGzzhZRbK+xOo=");
}

#[test]
fn accept_key_differs_per_key() {
    let a = Accept::from_key("dGhlIHNhbXBsZSBub25jZQ==");
    let b = Accept::from_key("AAAAAAAAAAAAAAAAAAAAAA==");
    assert_ne!(a.as_str(), b.as_str());
}

#[test]
fn valid_handshake_gets_101_with_headers() {
    let req = valid_request();
    let w = ws(&req).expect("a valid request must be accepted");
    let resp = w.into_response();
    assert_eq!(resp.status, 101);
    assert_eq!(resp.connection, "upgrade");
    assert_eq!(resp.upgrade, "websocket");
    assert_eq!(resp.sec_websocket_accept, "s3pPLMBiTxaQ9kYGzzhZRbK+xOo=");
}

#[test]
fn wrong_method_is_rejected() {
    let mut req = valid_request();
    req.method = "POST".to_owned();
    assert_eq!(validate(&req), Err(HandshakeError::MethodNotGet));
    assert!(ws(&req).is_err());
}

#[test]
fn lowercase_method_is_rejected() {
    let mut req = valid_request();
    req.method = "get".to_owned();
    assert_eq!(validate(&req), Err(HandshakeError::MethodNotGet));
}

#[test]
fn missing_connection_is_rejected() {
    let mut req = valid_request();
    req.connection = None;
    assert_eq!(validate(&req), Err(HandshakeError::ConnectionMissingUpgrade));
    assert!(ws(&req).is_err());
}

#[test]
fn connection_without_upgrade_token_is_rejected() {
    let mut req = valid_request();
    req.connection = Some("keep-alive".to_owned());
    assert_eq!(validate(&req), Err(HandshakeError::ConnectionMissingUpgrade));
}

#[test]
fn missing_upgrade_is_rejected() {
    let mut req = valid_request();
    req.upgrade = None;
    assert_eq!(validate(&req), Err(HandshakeError::UpgradeNotWebsocket));
}

#[test]
fn wrong_upgrade_is_rejected() {
    let mut req = valid_request();
    req.upgrade = Some("h2c".to_owned());
    assert_eq!(validate(&req), Err(HandshakeError::UpgradeNotWebsocket));
    assert!(ws(&req).is_err());
}

#[test]
fn upgrade_header_is_case_insensitive() {
    let mut req = valid_request();
    req.upgrade = Some("WebSocket".to_owned());
    assert!(validate(&req).is_ok());
}

#[test]
fn missing_version_is_rejected() {
    let mut req = valid_request();
    req.version = None;
    assert_eq!(validate(&req), Err(HandshakeError::VersionNotThirteen));
}

#[test]
fn wrong_version_is_rejected() {
    let mut req = valid_request();
    req.version = Some("8".to_owned());
    assert_eq!(validate(&req), Err(HandshakeError::VersionNotThirteen));
    assert!(ws(&req).is_err());
}

#[test]
fn version_must_be_exact() {
    let mut req = valid_request();
    req.version = Some("13 ".to_owned());
    assert_eq!(validate(&req), Err(HandshakeError::VersionNotThirteen));
}

#[test]
fn missing_key_is_rejected() {
    let mut req = valid_request();
    req.key = None;
    assert_eq!(validate(&req), Err(HandshakeError::KeyMissing));
    assert!(ws(&req).is_err());
}

#[test]
fn connection_token_matching() {
    assert!(connection_has_upgrade("Upgrade"));
    assert!(connection_has_upgrade("upgrade"));
    assert!(connection_has_upgrade("UPGRADE"));
    assert!(connection_has_upgrade("keep-alive, Upgrade"));
    assert!(connection_has_upgrade("keep-alive, Upgrade, foo"));
    assert!(!connection_has_upgrade("keep-alive"));
    assert!(!connection_has_upgrade("upgrader"));
    assert!(!connection_has_upgrade("keep-alive, upgrader"));
    assert!(!connection_has_upgrade(""));
    // the splitting is on ", " exactly, as the original header handling has it
    assert!(!connection_has_upgrade("keep-alive,upgrade"));
}
