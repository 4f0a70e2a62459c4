use boinc_rpc::errors::Error;
use boinc_rpc::handshake::{Handshake, HandshakeStep};
use boinc_rpc::node::Node;

fn leaf(name: &str, text: Option<&str>) -> Node {
    Node::leaf(name, text.map(|t| t.to_string()))
}

fn failure(step: HandshakeStep) -> Error {
    match step {
        HandshakeStep::Failed(e) => e,
        HandshakeStep::Send(_) => panic!("unexpected frame to send"),
        HandshakeStep::Authorized => panic!("unexpected success"),
    }
}

#[test]
fn handshake_happy_path() {
    let mut hs = Handshake::new(Some("secret".to_string()));
    assert_eq!(hs.first_request(), vec![leaf("auth1", None)]);
    match hs.on_reply(&vec![leaf("nonce", Some("abc123"))]) {
        HandshakeStep::Send(frame) => assert_eq!(
            frame,
            vec![Node::parent(
                "auth2",
                vec![leaf("nonce_hash", Some("38d4588fdbc729ba5f07c49b42d195a0"))]
            )]
        ),
        _ => panic!("expected the answer to the challenge"),
    }
    assert!(hs.nonce_seen());
    assert!(matches!(
        hs.on_reply(&vec![leaf("authorized", None)]),
        HandshakeStep::Authorized
    ));
}

#[test]
fn authorized_without_challenge() {
    let mut hs = Handshake::new(None);
    assert!(matches!(
        hs.on_reply(&vec![leaf("authorized", None), leaf("junk", None)]),
        HandshakeStep::Authorized
    ));
}

#[test]
fn duplicate_nonce_rejected() {
    let mut hs = Handshake::new(Some("pw".to_string()));
    assert!(matches!(
        hs.on_reply(&vec![leaf("nonce", Some("n1"))]),
        HandshakeStep::Send(_)
    ));
    assert_eq!(
        failure(hs.on_reply(&vec![leaf("nonce", Some("n2"))])),
        Error::DaemonError("Daemon requested nonce again - could be a bug".to_string())
    );
}

#[test]
fn duplicate_nonce_in_one_reply_rejected() {
    let mut hs = Handshake::new(Some("pw".to_string()));
    assert_eq!(
        failure(hs.on_reply(&vec![leaf("nonce", Some("n1")), leaf("nonce", Some("n2"))])),
        Error::DaemonError("Daemon requested nonce again - could be a bug".to_string())
    );
}

#[test]
fn missing_password_rejected() {
    let mut hs = Handshake::new(None);
    assert_eq!(
        failure(hs.on_reply(&vec![leaf("nonce", Some("abc123"))])),
        Error::AuthError("Password required for nonce".to_string())
    );
    assert!(!hs.nonce_seen());
}

#[test]
fn nonce_without_text_rejected() {
    let mut hs = Handshake::new(Some("pw".to_string()));
    assert_eq!(
        failure(hs.on_reply(&vec![leaf("nonce", None)])),
        Error::AuthError("Invalid nonce".to_string())
    );
}

#[test]
fn unauthorized_reply_fails() {
    let mut hs = Handshake::new(Some("pw".to_string()));
    assert_eq!(
        failure(hs.on_reply(&vec![leaf("unauthorized", None)])),
        Error::AuthError("unauthorized".to_string())
    );
}

#[test]
fn error_reply_carries_text() {
    let mut hs = Handshake::new(Some("pw".to_string()));
    assert_eq!(
        failure(hs.on_reply(&vec![leaf("error", Some("bad"))])),
        Error::DaemonError("BOINC daemon returned error: Some(\"bad\")".to_string())
    );
    let mut hs = Handshake::new(Some("pw".to_string()));
    assert_eq!(
        failure(hs.on_reply(&vec![leaf("error", None)])),
        Error::DaemonError("BOINC daemon returned error: None".to_string())
    );
}

#[test]
fn unexpected_tag_fails() {
    let mut hs = Handshake::new(Some("pw".to_string()));
    assert_eq!(
        failure(hs.on_reply(&vec![leaf("surprise", None)])),
        Error::DaemonError("Invalid response from daemon: surprise".to_string())
    );
}

#[test]
fn empty_reply_fails() {
    let mut hs = Handshake::new(Some("pw".to_string()));
    assert_eq!(
        failure(hs.on_reply(&vec![])),
        Error::DaemonError("Empty response".to_string())
    );
}
