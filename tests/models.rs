use boinc_rpc::client::{
    account_manager_request, account_manager_status_from_reply, exchange_versions_request,
    language_request, messages_request, mode_request, object_from_reply, objects_from_reply,
    request_by_tag, results_request,
};
use boinc_rpc::errors::Error;
use boinc_rpc::models::{
    AccountManagerInfo, Component, Message, Process, ProjectInfo, RunMode, VersionInfo,
};
use boinc_rpc::node::Node;
use boinc_rpc::util::{any_text, eval_node_contents, parse_node, trimmed_optional};
use boinc_rpc::Client;

fn leaf(name: &str, text: Option<&str>) -> Node {
    Node::leaf(name, text.map(|t| t.to_string()))
}

#[test]
fn integer_contents() {
    assert_eq!(eval_node_contents(&leaf("a", Some("42"))), Some(42));
    assert_eq!(eval_node_contents(&leaf("a", Some("-7"))), Some(-7));
    assert_eq!(eval_node_contents(&leaf("a", Some("+7"))), Some(7));
    assert_eq!(eval_node_contents(&leaf("a", Some(" 4"))), None);
    assert_eq!(eval_node_contents(&leaf("a", Some("x"))), None);
    assert_eq!(eval_node_contents(&leaf("a", Some(""))), None);
    assert_eq!(eval_node_contents(&leaf("a", Some("9223372036854775808"))), None);
    assert_eq!(eval_node_contents(&leaf("a", None)), None);
}

#[test]
fn any_text_prefers_cdata() {
    let mut n = leaf("a", Some("text"));
    assert_eq!(any_text(&n), Some("text".to_string()));
    n.cdata = Some("data".to_string());
    assert_eq!(any_text(&n), Some("data".to_string()));
    assert_eq!(any_text(&leaf("a", None)), None);
}

#[test]
fn trimmed_optional_trims() {
    assert_eq!(trimmed_optional(&Some("  a b\n\t".to_string())), Some("a b".to_string()));
    assert_eq!(trimmed_optional(&None), None);
}

#[test]
fn parse_node_reads_root() {
    let n = parse_node("<a><b>1</b></a>").unwrap();
    assert_eq!(n.name, "a");
    assert_eq!(n.children, vec![leaf("b", Some("1"))]);
    assert!(matches!(parse_node("<a>"), Err(Error::DataParseError(_))));
}

#[test]
fn message_from_node() {
    let mut body = leaf("body", None);
    body.cdata = Some("\n hello \n".to_string());
    let node = Node::parent(
        "msg",
        vec![
            leaf("project", Some(" P ")),
            leaf("pri", Some("1")),
            leaf("seqno", Some("17")),
            body,
            leaf("time", Some("1600000000")),
            leaf("other", Some("x")),
        ],
    );
    let m = Message::from_node(&node);
    assert_eq!(m.project_name, Some("P".to_string()));
    assert_eq!(m.priority, Some(1));
    assert_eq!(m.msg_number, Some(17));
    assert_eq!(m.body, Some("hello".to_string()));
    assert_eq!(m.timestamp, Some(1600000000));
}

#[test]
fn version_from_node() {
    let node = Node::parent(
        "server_version",
        vec![leaf("major", Some("7")), leaf("minor", Some("16")), leaf("release", Some("x"))],
    );
    let v = VersionInfo::from_node(&node);
    assert_eq!(v, VersionInfo { major: Some(7), minor: Some(16), release: None });
}

#[test]
fn project_from_node() {
    let node = Node::parent(
        "project",
        vec![
            leaf("name", Some(" Einstein ")),
            leaf("url", Some("https://example.org/")),
            Node::parent(
                "platfroms",
                vec![leaf("platform", Some("linux")), leaf("platform", None), leaf("x", Some("y"))],
            ),
        ],
    );
    let p = ProjectInfo::from_node(&node);
    assert_eq!(p.name, Some("Einstein".to_string()));
    assert_eq!(p.url, Some("https://example.org/".to_string()));
    assert_eq!(p.platforms, Some(vec!["linux".to_string()]));
    assert_eq!(p.summary, None);
}

#[test]
fn account_manager_from_node() {
    let node = Node::parent(
        "acct_mgr_info",
        vec![
            leaf("acct_mgr_url", Some(" http://am/ ")),
            leaf("acct_mgr_name", Some("AM")),
            leaf("have_credentials", None),
        ],
    );
    let a = AccountManagerInfo::from_node(&node);
    assert_eq!(a.url, Some("http://am/".to_string()));
    assert_eq!(a.name, Some("AM".to_string()));
    assert_eq!(a.have_credentials, Some(true));
    assert_eq!(a.cookie_required, None);
}

#[test]
fn object_lookup() {
    let data = vec![leaf("success", None), leaf("acct_mgr_info", Some("x"))];
    assert_eq!(object_from_reply(&data, "acct_mgr_info"), Ok(leaf("acct_mgr_info", Some("x"))));
    assert_eq!(
        object_from_reply(&data, "host_info"),
        Err(Error::DataParseError("Object not found.".to_string()))
    );
    let data = vec![leaf("error", Some("Missing URL")), leaf("host_info", None)];
    assert_eq!(
        object_from_reply(&data, "host_info"),
        Err(Error::InvalidURLError("Missing URL".to_string()))
    );
}

#[test]
fn list_lookup() {
    let data = vec![
        Node::parent("msgs", vec![leaf("msg", Some("1")), leaf("other", None)]),
        leaf("junk", None),
        Node::parent("msgs", vec![leaf("msg", Some("2"))]),
    ];
    assert_eq!(
        objects_from_reply(&data, "msgs", "msg"),
        Ok(vec![leaf("msg", Some("1")), leaf("msg", Some("2"))])
    );
    assert_eq!(
        objects_from_reply(&data, "results", "result"),
        Err(Error::DataParseError("Objects not found.".to_string()))
    );
    let empty = vec![leaf("msgs", None)];
    assert_eq!(objects_from_reply(&empty, "msgs", "msg"), Ok(vec![]));
}

#[test]
fn account_manager_status() {
    let data = vec![Node::parent("acct_mgr_rpc_reply", vec![leaf("error_num", Some("-108"))])];
    assert_eq!(account_manager_status_from_reply(&data), Ok(-108));
    let data = vec![leaf("other", None)];
    assert_eq!(
        account_manager_status_from_reply(&data),
        Err(Error::DataParseError("acct_mgr_rpc_reply node not found".to_string()))
    );
}

#[test]
fn request_builders() {
    assert_eq!(request_by_tag("get_host_info"), vec![leaf("get_host_info", None)]);
    assert_eq!(messages_request(5), vec![leaf("get_messages", Some("5"))]);
    assert_eq!(messages_request(-12), vec![leaf("get_messages", Some("-12"))]);
    assert_eq!(
        account_manager_request("u", "n", "p"),
        vec![Node::parent(
            "acct_mgr_rpc",
            vec![leaf("url", Some("u")), leaf("name", Some("n")), leaf("password", Some("p"))]
        )]
    );
    assert_eq!(
        exchange_versions_request(&VersionInfo { major: Some(7), minor: Some(16), release: None }),
        vec![Node::parent(
            "exchange_versions",
            vec![leaf("major", Some("16")), leaf("minor", Some("7")), leaf("release", None)]
        )]
    );
    assert_eq!(results_request(false), vec![Node::parent("get_results", vec![])]);
    assert_eq!(
        results_request(true),
        vec![Node::parent("get_results", vec![leaf("active_only", Some("1"))])]
    );
    assert_eq!(
        mode_request(Component::GPU, RunMode::Never, "3600"),
        vec![Node::parent(
            "set_gpu_mode",
            vec![leaf("duration", Some("3600")), leaf("never", None)]
        )]
    );
    assert_eq!(
        mode_request(Component::CPU, RunMode::Auto, "0"),
        vec![Node::parent("set_run_mode", vec![leaf("duration", Some("0")), leaf("auto", None)])]
    );
    assert_eq!(
        language_request("de"),
        vec![Node::parent("set_language", vec![leaf("language", Some("de"))])]
    );
}

#[test]
fn process_codes() {
    assert_eq!(Process::Uninitialized.code(), 0);
    assert_eq!(Process::Suspended.code(), 9);
    assert_eq!(Process::CopyPending.code(), 10);
}

#[test]
fn client_holds_transport() {
    let c = Client::new(5u8);
    assert_eq!(c.transport, 5);
}
