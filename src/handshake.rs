use vstd::prelude::*;

use crate::errors::{Error, ErrorModel};
use crate::node::{leaf, lemma_view_fields, nodes_view, opt_text_view, Node, NodeModel};
use crate::rpc::{compute_nonce_hash, nonce_hash_of};
use crate::text::same_str;

verus! {

/// How `Option<String>`'s `Debug` writes a text that may be absent.
pub uninterp spec fn debug_text_of(t: Option<Seq<char>>) -> Seq<char>;

/// Relies on `Option<String>`'s `Debug`: the output depends on the value
/// alone.
#[verifier::external_body]
fn debug_text(t: &Option<String>) -> (r: String)
    ensures
        r@ == debug_text_of(opt_text_view(*t)),
{
    format!("{:?}", t)
}

/// What the client does after one reply of the authentication exchange.
pub enum HandshakeStep {
    /// Send this frame and wait for the next reply.
    Send(Vec<Node>),
    /// The daemon has accepted the connection.
    Authorized,
    /// The exchange has failed for good.
    Failed(Error),
}

/// The model of a [`HandshakeStep`].
pub enum StepModel {
    Send(Seq<NodeModel>),
    Authorized,
    Failed(ErrorModel),
}

pub open spec fn step_view(s: HandshakeStep) -> StepModel {
    match s {
        HandshakeStep::Send(v) => StepModel::Send(nodes_view(v)),
        HandshakeStep::Authorized => StepModel::Authorized,
        HandshakeStep::Failed(e) => StepModel::Failed(e@),
    }
}

/// The frame that opens the exchange: one empty `auth1` node.
pub open spec fn auth1_frame() -> Seq<NodeModel> {
    seq![leaf("auth1"@, None)]
}

/// The frame that answers a challenge: `auth2` holding `nonce_hash`.
pub open spec fn auth2_frame(hash: Seq<char>) -> Seq<NodeModel> {
    seq![
        NodeModel {
            name: "auth2"@,
            text: None,
            cdata: None,
            children: seq![leaf("nonce_hash"@, Some(hash))],
        },
    ]
}

/// The outcome of the children of one reply from position `i` on, for a
/// client that has (`seen`) or has not yet answered a challenge and has
/// `pending` an answer to send; with whether a challenge has been answered.
pub open spec fn reply_step(
    seen: bool,
    pending: Option<Seq<char>>,
    password: Option<Seq<char>>,
    reply: Seq<NodeModel>,
    i: int,
) -> (StepModel, bool)
    decreases reply.len() - i,
{
    if i < 0 || i >= reply.len() {
        match pending {
            Some(h) => (StepModel::Send(auth2_frame(h)), seen),
            None => (StepModel::Failed(ErrorModel::DaemonError("Empty response"@)), seen),
        }
    } else {
        let n = reply[i];
        if n.name == "nonce"@ {
            if seen {
                (
                    StepModel::Failed(
                        ErrorModel::DaemonError("Daemon requested nonce again - could be a bug"@),
                    ),
                    seen,
                )
            } else {
                match password {
                    None => (
                        StepModel::Failed(ErrorModel::AuthError("Password required for nonce"@)),
                        seen,
                    ),
                    Some(p) => match n.text {
                        None => (StepModel::Failed(ErrorModel::AuthError("Invalid nonce"@)), seen),
                        Some(t) => reply_step(
                            true,
                            Some(nonce_hash_of(p, t)),
                            password,
                            reply,
                            i + 1,
                        ),
                    },
                }
            }
        } else if n.name == "unauthorized"@ {
            (StepModel::Failed(ErrorModel::AuthError("unauthorized"@)), seen)
        } else if n.name == "error"@ {
            (
                StepModel::Failed(
                    ErrorModel::DaemonError(
                        "BOINC daemon returned error: "@ + debug_text_of(n.text),
                    ),
                ),
                seen,
            )
        } else if n.name == "authorized"@ {
            (StepModel::Authorized, seen)
        } else {
            (
                StepModel::Failed(
                    ErrorModel::DaemonError("Invalid response from daemon: "@ + n.name),
                ),
                seen,
            )
        }
    }
}

proof fn lemma_send_means_seen(
    seen: bool,
    pending: Option<Seq<char>>,
    password: Option<Seq<char>>,
    reply: Seq<NodeModel>,
    i: int,
)
    requires
        pending is Some ==> seen,
    ensures
        reply_step(seen, pending, password, reply, i).0 is Send ==> reply_step(
            seen,
            pending,
            password,
            reply,
            i,
        ).1,
    decreases reply.len() - i,
{
    if 0 <= i < reply.len() {
        let n = reply[i];
        if n.name == "nonce"@ && !seen && password is Some && n.text is Some {
            lemma_send_means_seen(
                true,
                Some(nonce_hash_of(password->Some_0, n.text->Some_0)),
                password,
                reply,
                i + 1,
            );
        }
    }
}

/// A daemon that challenges twice gets no second answer: once a reply has
/// been answered with a hash, a reply that opens with another `nonce` ends
/// the exchange with a daemon error.
pub proof fn lemma_duplicate_nonce_rejected(
    password: Option<Seq<char>>,
    first: Seq<NodeModel>,
    second: Seq<NodeModel>,
)
    requires
        reply_step(false, None, password, first, 0).0 is Send,
        second.len() > 0,
        second[0].name == "nonce"@,
    ensures
        reply_step(reply_step(false, None, password, first, 0).1, None, password, second, 0).0
            == StepModel::Failed(
            ErrorModel::DaemonError("Daemon requested nonce again - could be a bug"@),
        ),
{
    lemma_send_means_seen(false, None, password, first, 0);
}

/// A challenge that comes when no password was given fails with an
/// authentication error, and no answer is sent.
pub proof fn lemma_nonce_needs_password(reply: Seq<NodeModel>)
    requires
        reply.len() > 0,
        reply[0].name == "nonce"@,
    ensures
        reply_step(false, None, None, reply, 0).0 == StepModel::Failed(
            ErrorModel::AuthError("Password required for nonce"@),
        ),
{
}

/// The client's side of the authentication exchange, between replies: it
/// waits for a challenge until it has answered one, then for the verdict.
pub struct Handshake {
    password: Option<String>,
    nonce_seen: bool,
}

impl Handshake {
    pub closed spec fn spec_password(&self) -> Option<Seq<char>> {
        opt_text_view(self.password)
    }

    /// Whether a challenge has been answered.
    pub closed spec fn spec_nonce_seen(&self) -> bool {
        self.nonce_seen
    }

    pub fn new(password: Option<String>) -> (r: Handshake)
        ensures
            r.spec_password() == opt_text_view(password),
            !r.spec_nonce_seen(),
    {
        Handshake { password, nonce_seen: false }
    }

    pub fn nonce_seen(&self) -> (r: bool)
        ensures
            r == self.spec_nonce_seen(),
    {
        self.nonce_seen
    }

    /// The frame that opens the exchange.
    pub fn first_request(&self) -> (r: Vec<Node>)
        ensures
            nodes_view(r) == auth1_frame(),
    {
        let n = Node::new("auth1");
        proof {
            lemma_view_fields(&n);
            assert(n@.children =~= Seq::<NodeModel>::empty());
        }
        let r = vec![n];
        assert(nodes_view(r) =~= auth1_frame());
        r
    }

    /// Takes the children of one reply and says what to do next.
    pub fn on_reply(&mut self, reply: &Vec<Node>) -> (r: HandshakeStep)
        ensures
            final(self).spec_password() == old(self).spec_password(),
            (step_view(r), final(self).spec_nonce_seen()) == reply_step(
                old(self).spec_nonce_seen(),
                None,
                old(self).spec_password(),
                nodes_view(*reply),
                0,
            ),
    {
        let ghost rv = nodes_view(*reply);
        let ghost pw = opt_text_view(self.password);
        let mut pending: Option<String> = None;
        let mut i: usize = 0;
        while i < reply.len()
            invariant
                rv == nodes_view(*reply),
                pw == opt_text_view(self.password),
                self.password == old(self).password,
                i <= reply.len(),
                reply_step(old(self).nonce_seen, None, pw, rv, 0) == reply_step(
                    self.nonce_seen,
                    opt_text_view(pending),
                    pw,
                    rv,
                    i as int,
                ),
            decreases reply.len() - i,
        {
            let n = &reply[i];
            proof {
                lemma_view_fields(n);
                assert(rv[i as int] == n@);
            }
            if same_str(n.name.as_str(), "nonce") {
                if self.nonce_seen {
                    return HandshakeStep::Failed(
                        Error::DaemonError(
                            String::from_str("Daemon requested nonce again - could be a bug"),
                        ),
                    );
                }
                let pwd = match &self.password {
                    Some(p) => p,
                    None => {
                        return HandshakeStep::Failed(
                            Error::AuthError(String::from_str("Password required for nonce")),
                        );
                    },
                };
                let nonce = match &n.text {
                    Some(t) => t,
                    None => {
                        return HandshakeStep::Failed(
                            Error::AuthError(String::from_str("Invalid nonce")),
                        );
                    },
                };
                pending = Some(compute_nonce_hash(pwd.as_str(), nonce.as_str()));
                self.nonce_seen = true;
            } else if same_str(n.name.as_str(), "unauthorized") {
                return HandshakeStep::Failed(Error::AuthError(String::from_str("unauthorized")));
            } else if same_str(n.name.as_str(), "error") {
                let mut msg = String::from_str("BOINC daemon returned error: ");
                let shown = debug_text(&n.text);
                msg.append(shown.as_str());
                return HandshakeStep::Failed(Error::DaemonError(msg));
            } else if same_str(n.name.as_str(), "authorized") {
                return HandshakeStep::Authorized;
            } else {
                let mut msg = String::from_str("Invalid response from daemon: ");
                msg.append(n.name.as_str());
                return HandshakeStep::Failed(Error::DaemonError(msg));
            }
            i = i + 1;
        }
        match pending {
            Some(h) => HandshakeStep::Send(auth2_request(h)),
            None => HandshakeStep::Failed(Error::DaemonError(String::from_str("Empty response"))),
        }
    }
}

fn auth2_request(hash: String) -> (r: Vec<Node>)
    ensures
        nodes_view(r) == auth2_frame(hash@),
{
    let mut inner = Node::new("nonce_hash");
    inner.text = Some(hash);
    let mut outer = Node::new("auth2");
    proof {
        lemma_view_fields(&inner);
        assert(inner@.children =~= Seq::<NodeModel>::empty());
        assert(inner@ == leaf("nonce_hash"@, Some(hash@)));
    }
    outer.children = vec![inner];
    proof {
        lemma_view_fields(&outer);
        assert(outer@.children =~= seq![leaf("nonce_hash"@, Some(hash@))]);
    }
    let r = vec![outer];
    assert(nodes_view(r) =~= auth2_frame(hash@));
    r
}

} // verus!
