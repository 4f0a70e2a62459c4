use vstd::prelude::*;

use crate::errors::{Error, ErrorModel};
use crate::models::{Component, RunMode, VersionInfo};
use crate::node::{leaf, lemma_view_fields, nodes_view, opt_text_view, parent, Node, NodeModel};
use crate::text::{decimal_of, decimal_text, parsed_i64, same_str};
use crate::util::{eval_node_contents, node_integer, node_result_view};

verus! {

/// The status code that a `status` node reports: its text read as an `i32`,
/// or 9999 when that cannot be done.
pub open spec fn status_code(n: NodeModel) -> i32 {
    match n.text {
        Some(t) => match parsed_i64(t) {
            Some(v) => if i32::MIN <= v <= i32::MAX {
                v as i32
            } else {
                9999
            },
            None => 9999,
        },
        None => 9999,
    }
}

/// The error that the text of an `error` node stands for.
pub open spec fn error_for_text(t: Seq<char>) -> ErrorModel {
    if t == "unauthorized"@ || t == "Missing authenticator"@ {
        ErrorModel::AuthError(t)
    } else if t == "Missing URL"@ {
        ErrorModel::InvalidURLError(t)
    } else if t == "Already attached to project"@ {
        ErrorModel::AlreadyAttachedError(t)
    } else {
        ErrorModel::DataParseError(t)
    }
}

/// How the children of a reply, from position `i` on, classify it, given
/// whether a `success` node came before.
pub open spec fn classify_reply(data: Seq<NodeModel>, i: int, success: bool) -> Result<bool, ErrorModel>
    decreases data.len() - i,
{
    if i < 0 || i >= data.len() {
        Ok(success)
    } else {
        let n = data[i];
        if n.name == "success"@ {
            classify_reply(data, i + 1, true)
        } else if n.name == "status"@ {
            Err(ErrorModel::StatusError(status_code(n)))
        } else if n.name == "unauthorized"@ {
            Err(ErrorModel::AuthError(Seq::empty()))
        } else if n.name == "error"@ {
            match n.text {
                Some(t) => Err(error_for_text(t)),
                None => Err(ErrorModel::DaemonError("Unknown error"@)),
            }
        } else {
            classify_reply(data, i + 1, success)
        }
    }
}

pub open spec fn bool_result_view(r: Result<bool, Error>) -> Result<bool, ErrorModel> {
    match r {
        Ok(b) => Ok(b),
        Err(e) => Err(e@),
    }
}

pub open spec fn slice_view(data: &[Node]) -> Seq<NodeModel> {
    data@.map_values(|n: Node| n@)
}

fn status_of(node: &Node) -> (r: i32)
    ensures
        r == status_code(node@),
{
    proof {
        lemma_view_fields(node);
    }
    match eval_node_contents(node) {
        Some(v) => if -2147483648 <= v && v <= 2147483647 {
            v as i32
        } else {
            9999
        },
        None => 9999,
    }
}

fn error_from_text(t: &String) -> (r: Error)
    ensures
        r@ == error_for_text(t@),
{
    let s = t.as_str();
    if same_str(s, "unauthorized") || same_str(s, "Missing authenticator") {
        Error::AuthError(t.clone())
    } else if same_str(s, "Missing URL") {
        Error::InvalidURLError(t.clone())
    } else if same_str(s, "Already attached to project") {
        Error::AlreadyAttachedError(t.clone())
    } else {
        Error::DataParseError(t.clone())
    }
}

/// Classifies a reply: `Ok(true)` when it holds a `success` node, `Ok(false)`
/// when it holds none of the nodes that decide, and otherwise the error that
/// the first `status`, `unauthorized` or `error` node stands for.
pub fn verify_rpc_reply_contents(data: &[Node]) -> (r: Result<bool, Error>)
    ensures
        bool_result_view(r) == classify_reply(slice_view(data), 0, false),
{
    let ghost dv = slice_view(data);
    let mut success = false;
    let mut i: usize = 0;
    while i < data.len()
        invariant
            dv == slice_view(data),
            i <= data.len(),
            classify_reply(dv, 0, false) == classify_reply(dv, i as int, success),
        decreases data.len() - i,
    {
        let node = &data[i];
        proof {
            lemma_view_fields(node);
            assert(dv[i as int] == node@);
        }
        let name = node.name.as_str();
        if same_str(name, "success") {
            success = true;
        } else if same_str(name, "status") {
            return Err(Error::StatusError(status_of(node)));
        } else if same_str(name, "unauthorized") {
            let r = Err(Error::AuthError(String::new()));
            proof {
                assert(bool_result_view(r) == Err::<bool, ErrorModel>(
                    ErrorModel::AuthError(Seq::empty()),
                ));
            }
            return r;
        } else if same_str(name, "error") {
            return match &node.text {
                Some(t) => Err(error_from_text(t)),
                None => Err(Error::DaemonError(String::from_str("Unknown error"))),
            };
        }
        i = i + 1;
    }
    Ok(success)
}

/// Issues requests through a transport and reads the replies.
pub struct Client<S> {
    pub transport: S,
}

impl<S> Client<S> {
    pub fn new(transport: S) -> (r: Self)
        ensures
            r.transport == transport,
    {
        Client { transport }
    }
}

/// The first node among `data` from position `i` on that is named `tag`.
pub open spec fn first_named(data: Seq<NodeModel>, tag: Seq<char>, i: int) -> Option<NodeModel>
    decreases data.len() - i,
{
    if i < 0 || i >= data.len() {
        None
    } else if data[i].name == tag {
        Some(data[i])
    } else {
        first_named(data, tag, i + 1)
    }
}

/// What a reply that should carry one record gives: its classification
/// error, or the first child named `tag`.
pub open spec fn object_spec(data: Seq<NodeModel>, tag: Seq<char>) -> Result<NodeModel, ErrorModel> {
    match classify_reply(data, 0, false) {
        Err(e) => Err(e),
        Ok(_) => match first_named(data, tag, 0) {
            Some(n) => Ok(n),
            None => Err(ErrorModel::DataParseError("Object not found."@)),
        },
    }
}

/// Takes the record named `object_tag` out of a reply.
pub fn object_from_reply(data: &[Node], object_tag: &str) -> (r: Result<Node, Error>)
    ensures
        node_result_view(r) == object_spec(slice_view(data), object_tag@),
{
    match verify_rpc_reply_contents(data) {
        Err(e) => return Err(e),
        Ok(_) => {},
    }
    let ghost dv = slice_view(data);
    assert(classify_reply(dv, 0, false) is Ok);
    let mut i: usize = 0;
    while i < data.len()
        invariant
            dv == slice_view(data),
            classify_reply(dv, 0, false) is Ok,
            i <= data.len(),
            first_named(dv, object_tag@, 0) == first_named(dv, object_tag@, i as int),
        decreases data.len() - i,
    {
        let child = &data[i];
        proof {
            lemma_view_fields(child);
            assert(dv[i as int] == child@);
        }
        if same_str(child.name.as_str(), object_tag) {
            return Ok(child.deep_clone());
        }
        i = i + 1;
    }
    Err(Error::DataParseError(String::from_str("Object not found.")))
}

/// The nodes among `c` that are named `tag`, in order.
pub open spec fn named(c: Seq<NodeModel>, tag: Seq<char>) -> Seq<NodeModel>
    decreases c.len(),
{
    if c.len() == 0 {
        Seq::empty()
    } else if c.last().name == tag {
        named(c.drop_last(), tag).push(c.last())
    } else {
        named(c.drop_last(), tag)
    }
}

/// Over the children of every node of `data` named `vec_tag`, in order, those
/// named `object_tag`; with whether any node was named `vec_tag`.
pub open spec fn collected(data: Seq<NodeModel>, vec_tag: Seq<char>, object_tag: Seq<char>) -> (
    bool,
    Seq<NodeModel>,
)
    decreases data.len(),
{
    if data.len() == 0 {
        (false, Seq::empty())
    } else {
        let prev = collected(data.drop_last(), vec_tag, object_tag);
        if data.last().name == vec_tag {
            (true, prev.1 + named(data.last().children, object_tag))
        } else {
            prev
        }
    }
}

/// What a reply that should carry a list of records gives.
pub open spec fn objects_spec(data: Seq<NodeModel>, vec_tag: Seq<char>, object_tag: Seq<char>) -> Result<
    Seq<NodeModel>,
    ErrorModel,
> {
    match classify_reply(data, 0, false) {
        Err(e) => Err(e),
        Ok(_) => if collected(data, vec_tag, object_tag).0 {
            Ok(collected(data, vec_tag, object_tag).1)
        } else {
            Err(ErrorModel::DataParseError("Objects not found."@))
        },
    }
}

pub open spec fn nodes_result_view(r: Result<Vec<Node>, Error>) -> Result<Seq<NodeModel>, ErrorModel> {
    match r {
        Ok(v) => Ok(nodes_view(v)),
        Err(e) => Err(e@),
    }
}

fn push_named(out: &mut Vec<Node>, list: &Node, object_tag: &str)
    ensures
        nodes_view(*final(out)) == nodes_view(*old(out)) + named(list@.children, object_tag@),
{
    proof {
        lemma_view_fields(list);
    }
    let ghost c = list@.children;
    let ghost start = nodes_view(*out);
    let mut j: usize = 0;
    while j < list.children.len()
        invariant
            c == list@.children,
            c.len() == list.children.len(),
            forall|k: int| 0 <= k < list.children.len() ==> #[trigger] c[k] == list.children[k]@,
            j <= list.children.len(),
            nodes_view(*out) == start + named(c.take(j as int), object_tag@),
        decreases list.children.len() - j,
    {
        let item = &list.children[j];
        proof {
            lemma_view_fields(item);
            assert(c.take(j + 1).drop_last() =~= c.take(j as int));
        }
        if same_str(item.name.as_str(), object_tag) {
            let ghost before = nodes_view(*out);
            out.push(item.deep_clone());
            assert(nodes_view(*out) =~= before.push(item@));
            assert(nodes_view(*out) =~= start + named(c.take(j + 1), object_tag@));
        }
        j = j + 1;
    }
    assert(c.take(c.len() as int) =~= c);
}

/// Takes the records named `object_tag` out of the lists named `vec_tag`
/// in a reply.
pub fn objects_from_reply(data: &[Node], vec_tag: &str, object_tag: &str) -> (r: Result<
    Vec<Node>,
    Error,
>)
    ensures
        nodes_result_view(r) == objects_spec(slice_view(data), vec_tag@, object_tag@),
{
    match verify_rpc_reply_contents(data) {
        Err(e) => return Err(e),
        Ok(_) => {},
    }
    let ghost dv = slice_view(data);
    assert(classify_reply(dv, 0, false) is Ok);
    let mut v: Vec<Node> = Vec::new();
    let mut success = false;
    let mut i: usize = 0;
    while i < data.len()
        invariant
            dv == slice_view(data),
            classify_reply(dv, 0, false) is Ok,
            i <= data.len(),
            (success, nodes_view(v)) == collected(dv.take(i as int), vec_tag@, object_tag@),
        decreases data.len() - i,
    {
        let child = &data[i];
        proof {
            assert(dv.take(i + 1).drop_last() =~= dv.take(i as int));
            assert(dv[i as int] == child@);
        }
        if same_str(child.name.as_str(), vec_tag) {
            success = true;
            push_named(&mut v, child, object_tag);
        }
        i = i + 1;
    }
    assert(dv.take(dv.len() as int) =~= dv);
    if !success {
        return Err(Error::DataParseError(String::from_str("Objects not found.")));
    }
    Ok(v)
}

/// A node's text read as an `i32`, if it writes one that fits.
pub open spec fn node_i32(n: NodeModel) -> Option<i32> {
    match node_integer(n) {
        Some(v) => if i32::MIN <= v <= i32::MAX {
            Some(v as i32)
        } else {
            None
        },
        None => None,
    }
}

/// The last reading of an `error_num` node among `c`, starting from `v`.
pub open spec fn error_num_scan(c: Seq<NodeModel>, v: Option<i32>) -> Option<i32>
    decreases c.len(),
{
    if c.len() == 0 {
        v
    } else if c.last().name == "error_num"@ {
        node_i32(c.last())
    } else {
        error_num_scan(c.drop_last(), v)
    }
}

/// The status that the `acct_mgr_rpc_reply` nodes of a reply report.
pub open spec fn rpc_status_scan(data: Seq<NodeModel>) -> Option<i32>
    decreases data.len(),
{
    if data.len() == 0 {
        None
    } else {
        let prev = rpc_status_scan(data.drop_last());
        if data.last().name == "acct_mgr_rpc_reply"@ {
            error_num_scan(data.last().children, prev)
        } else {
            prev
        }
    }
}

pub open spec fn rpc_status_spec(data: Seq<NodeModel>) -> Result<i32, ErrorModel> {
    match classify_reply(data, 0, false) {
        Err(e) => Err(e),
        Ok(_) => match rpc_status_scan(data) {
            Some(v) => Ok(v),
            None => Err(ErrorModel::DataParseError("acct_mgr_rpc_reply node not found"@)),
        },
    }
}

fn eval_node_i32(n: &Node) -> (r: Option<i32>)
    ensures
        r == node_i32(n@),
{
    match eval_node_contents(n) {
        Some(v) => if -2147483648 <= v && v <= 2147483647 {
            Some(v as i32)
        } else {
            None
        },
        None => None,
    }
}

proof fn lemma_error_num_scan_take(c: Seq<NodeModel>, v: Option<i32>, j: int)
    requires
        0 <= j < c.len(),
    ensures
        error_num_scan(c.take(j + 1), v) == if c[j].name == "error_num"@ {
            node_i32(c[j])
        } else {
            error_num_scan(c.take(j), v)
        },
{
    assert(c.take(j + 1).drop_last() =~= c.take(j));
}

/// Reads the status of the last account manager request from a reply.
pub fn account_manager_status_from_reply(data: &[Node]) -> (r: Result<i32, Error>)
    ensures
        match r {
            Ok(v) => rpc_status_spec(slice_view(data)) == Ok::<i32, ErrorModel>(v),
            Err(e) => rpc_status_spec(slice_view(data)) == Err::<i32, ErrorModel>(e@),
        },
{
    match verify_rpc_reply_contents(data) {
        Err(e) => return Err(e),
        Ok(_) => {},
    }
    let ghost dv = slice_view(data);
    assert(classify_reply(dv, 0, false) is Ok);
    let mut v: Option<i32> = None;
    let mut i: usize = 0;
    while i < data.len()
        invariant
            dv == slice_view(data),
            classify_reply(dv, 0, false) is Ok,
            i <= data.len(),
            v == rpc_status_scan(dv.take(i as int)),
        decreases data.len() - i,
    {
        let child = &data[i];
        proof {
            assert(dv.take(i + 1).drop_last() =~= dv.take(i as int));
            assert(dv[i as int] == child@);
            lemma_view_fields(child);
        }
        if same_str(child.name.as_str(), "acct_mgr_rpc_reply") {
            let ghost c = child@.children;
            let ghost v0 = v;
            let mut j: usize = 0;
            while j < child.children.len()
                invariant
                    c == child@.children,
                    c.len() == child.children.len(),
                    forall|k: int| 0 <= k < child.children.len() ==> #[trigger] c[k] == child.children[k]@,
                    j <= child.children.len(),
                    v == error_num_scan(c.take(j as int), v0),
                decreases child.children.len() - j,
            {
                let g = &child.children[j];
                proof {
                    lemma_view_fields(g);
                    lemma_error_num_scan_take(c, v0, j as int);
                }
                if same_str(g.name.as_str(), "error_num") {
                    v = eval_node_i32(g);
                }
                j = j + 1;
            }
            assert(c.take(c.len() as int) =~= c);
        }
        i = i + 1;
    }
    assert(dv.take(dv.len() as int) =~= dv);
    match v {
        Some(x) => Ok(x),
        None => Err(Error::DataParseError(String::from_str("acct_mgr_rpc_reply node not found"))),
    }
}

/// A request of one empty node named `tag`.
pub fn request_by_tag(tag: &str) -> (r: Vec<Node>)
    ensures
        nodes_view(r) == seq![leaf(tag@, None)],
{
    let r = vec![Node::leaf(tag, None)];
    assert(nodes_view(r) =~= seq![leaf(tag@, None)]);
    r
}

/// The request for the messages after sequence number `seqno`.
pub fn messages_request(seqno: i64) -> (r: Vec<Node>)
    ensures
        nodes_view(r) == seq![leaf("get_messages"@, Some(decimal_of(seqno as int)))],
{
    let r = vec![Node::leaf("get_messages", Some(decimal_text(seqno)))];
    assert(nodes_view(r) =~= seq![leaf("get_messages"@, Some(decimal_of(seqno as int)))]);
    r
}

/// The request that attaches to an account manager.
pub fn account_manager_request(url: &str, name: &str, password: &str) -> (r: Vec<Node>)
    ensures
        nodes_view(r) == seq![
            parent(
                "acct_mgr_rpc"@,
                seq![
                    leaf("url"@, Some(url@)),
                    leaf("name"@, Some(name@)),
                    leaf("password"@, Some(password@)),
                ],
            ),
        ],
{
    let children = vec![
        Node::leaf("url", Some(String::from_str(url))),
        Node::leaf("name", Some(String::from_str(name))),
        Node::leaf("password", Some(String::from_str(password))),
    ];
    assert(nodes_view(children) =~= seq![
        leaf("url"@, Some(url@)),
        leaf("name"@, Some(name@)),
        leaf("password"@, Some(password@)),
    ]);
    let r = vec![Node::parent("acct_mgr_rpc", children)];
    assert(nodes_view(r) =~= seq![parent("acct_mgr_rpc"@, nodes_view(children))]);
    r
}

pub open spec fn opt_decimal(v: Option<i64>) -> Option<Seq<char>> {
    match v {
        Some(x) => Some(decimal_of(x as int)),
        None => None,
    }
}

fn opt_decimal_text(v: Option<i64>) -> (r: Option<String>)
    ensures
        opt_text_view(r) == opt_decimal(v),
{
    match v {
        Some(x) => Some(decimal_text(x)),
        None => None,
    }
}

/// The request that exchanges version numbers; the `major` node carries
/// `info.minor` and the `minor` node `info.major`.
pub fn exchange_versions_request(info: &VersionInfo) -> (r: Vec<Node>)
    ensures
        nodes_view(r) == seq![
            parent(
                "exchange_versions"@,
                seq![
                    leaf("major"@, opt_decimal(info.minor)),
                    leaf("minor"@, opt_decimal(info.major)),
                    leaf("release"@, opt_decimal(info.release)),
                ],
            ),
        ],
{
    let children = vec![
        Node::leaf("major", opt_decimal_text(info.minor)),
        Node::leaf("minor", opt_decimal_text(info.major)),
        Node::leaf("release", opt_decimal_text(info.release)),
    ];
    assert(nodes_view(children) =~= seq![
        leaf("major"@, opt_decimal(info.minor)),
        leaf("minor"@, opt_decimal(info.major)),
        leaf("release"@, opt_decimal(info.release)),
    ]);
    let r = vec![Node::parent("exchange_versions", children)];
    assert(nodes_view(r) =~= seq![parent("exchange_versions"@, nodes_view(children))]);
    r
}

/// The request for task results, of active tasks only if `active_only`.
pub fn results_request(active_only: bool) -> (r: Vec<Node>)
    ensures
        nodes_view(r) == seq![
            parent(
                "get_results"@,
                if active_only {
                    seq![leaf("active_only"@, Some("1"@))]
                } else {
                    seq![]
                },
            ),
        ],
{
    let mut children: Vec<Node> = Vec::new();
    if active_only {
        children.push(Node::leaf("active_only", Some(String::from_str("1"))));
    }
    assert(nodes_view(children) =~= if active_only {
        seq![leaf("active_only"@, Some("1"@))]
    } else {
        seq![]
    });
    let r = vec![Node::parent("get_results", children)];
    assert(nodes_view(r) =~= seq![parent("get_results"@, nodes_view(children))]);
    r
}

pub open spec fn component_word(c: Component) -> Seq<char> {
    match c {
        Component::CPU => "run"@,
        Component::GPU => "gpu"@,
        Component::Network => "network"@,
    }
}

pub open spec fn mode_word(m: RunMode) -> Seq<char> {
    match m {
        RunMode::Always => "always"@,
        RunMode::Auto => "auto"@,
        RunMode::Never => "never"@,
        RunMode::Restore => "restore"@,
    }
}

/// The request that sets the run mode of a component for `duration`
/// seconds (written in decimal).
pub fn mode_request(c: Component, m: RunMode, duration: &str) -> (r: Vec<Node>)
    ensures
        nodes_view(r) == seq![
            parent(
                "set_"@ + component_word(c) + "_mode"@,
                seq![leaf("duration"@, Some(duration@)), leaf(mode_word(m), None)],
            ),
        ],
{
    let comp = match c {
        Component::CPU => "run",
        Component::GPU => "gpu",
        Component::Network => "network",
    };
    let mode = match m {
        RunMode::Always => "always",
        RunMode::Auto => "auto",
        RunMode::Never => "never",
        RunMode::Restore => "restore",
    };
    let mut name = String::from_str("set_");
    name.append(comp);
    name.append("_mode");
    let children = vec![
        Node::leaf("duration", Some(String::from_str(duration))),
        Node::leaf(mode, None),
    ];
    assert(nodes_view(children) =~= seq![leaf("duration"@, Some(duration@)), leaf(mode_word(m), None)]);
    let r = vec![Node::parent(name.as_str(), children)];
    assert(nodes_view(r) =~= seq![parent(name@, nodes_view(children))]);
    r
}

/// The request that sets the daemon's language.
pub fn language_request(v: &str) -> (r: Vec<Node>)
    ensures
        nodes_view(r) == seq![parent("set_language"@, seq![leaf("language"@, Some(v@))])],
{
    let children = vec![Node::leaf("language", Some(String::from_str(v)))];
    assert(nodes_view(children) =~= seq![leaf("language"@, Some(v@))]);
    let r = vec![Node::parent("set_language", children)];
    assert(nodes_view(r) =~= seq![parent("set_language"@, nodes_view(children))]);
    r
}

} // verus!
