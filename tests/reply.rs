use boinc_rpc::errors::Error;
use boinc_rpc::node::Node;

fn leaf(name: &str, text: Option<&str>) -> Node {
    Node::leaf(name, text.map(|t| t.to_string()))
}

#[test]
fn verify_rpc_reply_contents() {
    let fixture = vec![leaf("error", Some("Missing authenticator"))];
    assert_eq!(
        boinc_rpc::verify_rpc_reply_contents(&fixture).err().unwrap(),
        Error::AuthError("Missing authenticator".to_string())
    );
}

#[test]
fn error_missing_url_is_invalid_url() {
    let data = vec![leaf("error", Some("Missing URL"))];
    assert_eq!(
        boinc_rpc::verify_rpc_reply_contents(&data),
        Err(Error::InvalidURLError("Missing URL".to_string()))
    );
}

#[test]
fn error_already_attached() {
    let data = vec![leaf("error", Some("Already attached to project"))];
    assert_eq!(
        boinc_rpc::verify_rpc_reply_contents(&data),
        Err(Error::AlreadyAttachedError("Already attached to project".to_string()))
    );
}

#[test]
fn error_other_text_is_data_parse_error() {
    let data = vec![leaf("error", Some("something else"))];
    assert_eq!(
        boinc_rpc::verify_rpc_reply_contents(&data),
        Err(Error::DataParseError("something else".to_string()))
    );
}

#[test]
fn error_unauthorized_text_is_auth_error() {
    let data = vec![leaf("error", Some("unauthorized"))];
    assert_eq!(
        boinc_rpc::verify_rpc_reply_contents(&data),
        Err(Error::AuthError("unauthorized".to_string()))
    );
}

#[test]
fn error_without_text_is_daemon_error() {
    let data = vec![leaf("error", None)];
    assert_eq!(
        boinc_rpc::verify_rpc_reply_contents(&data),
        Err(Error::DaemonError("Unknown error".to_string()))
    );
}

#[test]
fn success_reply_is_true() {
    let data = vec![leaf("success", None)];
    assert_eq!(boinc_rpc::verify_rpc_reply_contents(&data), Ok(true));
}

#[test]
fn empty_reply_is_false() {
    let data: Vec<Node> = vec![];
    assert_eq!(boinc_rpc::verify_rpc_reply_contents(&data), Ok(false));
}

#[test]
fn other_tags_are_ignored() {
    let data = vec![leaf("projects", None), leaf("success", None), leaf("foo", Some("1"))];
    assert_eq!(boinc_rpc::verify_rpc_reply_contents(&data), Ok(true));
    let data = vec![leaf("projects", None)];
    assert_eq!(boinc_rpc::verify_rpc_reply_contents(&data), Ok(false));
}

#[test]
fn status_reports_its_code() {
    let data = vec![leaf("success", None), leaf("status", Some("-104"))];
    assert_eq!(boinc_rpc::verify_rpc_reply_contents(&data), Err(Error::StatusError(-104)));
}

#[test]
fn unreadable_status_is_default_code() {
    let data = vec![leaf("status", Some("bad"))];
    assert_eq!(boinc_rpc::verify_rpc_reply_contents(&data), Err(Error::StatusError(9999)));
    let data = vec![leaf("status", Some("3000000000"))];
    assert_eq!(boinc_rpc::verify_rpc_reply_contents(&data), Err(Error::StatusError(9999)));
    let data = vec![leaf("status", None)];
    assert_eq!(boinc_rpc::verify_rpc_reply_contents(&data), Err(Error::StatusError(9999)));
}

#[test]
fn unauthorized_tag_is_auth_error() {
    let data = vec![leaf("unauthorized", None)];
    assert_eq!(boinc_rpc::verify_rpc_reply_contents(&data), Err(Error::AuthError(String::new())));
}

#[test]
fn first_deciding_tag_wins() {
    let data = vec![
        leaf("error", Some("Missing URL")),
        leaf("status", Some("1")),
    ];
    assert_eq!(
        boinc_rpc::verify_rpc_reply_contents(&data),
        Err(Error::InvalidURLError("Missing URL".to_string()))
    );
}
