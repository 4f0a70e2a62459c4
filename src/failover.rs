use vstd::prelude::*;

use crate::errors::{Error, ErrorModel};

verus! {

/// What the retrying caller does next.
pub enum FailoverAction {
    /// Establish a new session (there is none).
    Connect,
    /// Run the operation on the live session.
    Run,
    /// Stop: every attempt is spent.
    GiveUp(Error),
}

pub enum ActionModel {
    Connect,
    Run,
    GiveUp(ErrorModel),
}

pub open spec fn action_view(a: FailoverAction) -> ActionModel {
    match a {
        FailoverAction::Connect => ActionModel::Connect,
        FailoverAction::Run => ActionModel::Run,
        FailoverAction::GiveUp(e) => ActionModel::GiveUp(e@),
    }
}

/// The model of a [`Failover`]: the retries allowed, the attempts spent, and
/// the message of the last network failure.
pub struct FailoverModel {
    pub max_retries: nat,
    pub attempts: nat,
    pub last_message: Seq<char>,
}

pub open spec fn fresh_failover(max_retries: nat) -> FailoverModel {
    FailoverModel { max_retries, attempts: 0, last_message: Seq::empty() }
}

/// The next step: give up once `max_retries + 1` attempts are spent, else
/// run on a live session or establish one.
pub open spec fn next_action_spec(m: FailoverModel, have_session: bool) -> ActionModel {
    if m.attempts > m.max_retries {
        ActionModel::GiveUp(ErrorModel::NetworkError(m.last_message))
    } else if have_session {
        ActionModel::Run
    } else {
        ActionModel::Connect
    }
}

/// A failure of a handshake or of an operation: a network failure spends an
/// attempt and is retried (the session is dropped); any other is returned.
pub open spec fn record_spec(m: FailoverModel, e: ErrorModel) -> (FailoverModel, Option<ErrorModel>) {
    match e {
        ErrorModel::NetworkError(msg) => (
            FailoverModel {
                attempts: if m.attempts <= m.max_retries {
                    m.attempts + 1
                } else {
                    m.attempts
                },
                last_message: msg,
                ..m
            },
            None,
        ),
        _ => (m, Some(e)),
    }
}

/// The state after a run of network failures with these messages.
pub open spec fn after_network_failures(m: FailoverModel, msgs: Seq<Seq<char>>) -> FailoverModel
    decreases msgs.len(),
{
    if msgs.len() == 0 {
        m
    } else {
        record_spec(
            after_network_failures(m, msgs.drop_last()),
            ErrorModel::NetworkError(msgs.last()),
        ).0
    }
}

/// Bounded retry over transient network failures.
pub struct Failover {
    max_retries: u32,
    attempts: u64,
    last_message: String,
}

impl Failover {
    pub closed spec fn spec_view(&self) -> FailoverModel {
        FailoverModel {
            max_retries: self.max_retries as nat,
            attempts: self.attempts as nat,
            last_message: self.last_message@,
        }
    }

    pub fn new(max_retries: u32) -> (r: Failover)
        ensures
            r.spec_view() == fresh_failover(max_retries as nat),
    {
        Failover { max_retries, attempts: 0, last_message: String::new() }
    }

    /// What to do before the next attempt.
    pub fn next_action(&self, have_session: bool) -> (r: FailoverAction)
        ensures
            action_view(r) == next_action_spec(self.spec_view(), have_session),
    {
        if self.attempts > self.max_retries as u64 {
            FailoverAction::GiveUp(Error::NetworkError(self.last_message.clone()))
        } else if have_session {
            FailoverAction::Run
        } else {
            FailoverAction::Connect
        }
    }

    /// Records a failure: `None` means retry (drop the session first),
    /// `Some` is the error to return.
    pub fn record_failure(&mut self, e: Error) -> (r: Option<Error>)
        ensures
            record_spec(old(self).spec_view(), e@) == (
                final(self).spec_view(),
                match r {
                    Some(x) => Some(x@),
                    None => None::<ErrorModel>,
                },
            ),
    {
        match e {
            Error::NetworkError(msg) => {
                if self.attempts <= self.max_retries as u64 {
                    self.attempts = self.attempts + 1;
                }
                self.last_message = msg;
                None
            },
            other => Some(other),
        }
    }
}

/// Transient failures are retried until the attempts run out: after up to
/// `max_retries` network failures in a row a fresh façade still establishes
/// a new session, and after `max_retries + 1` it gives up with a network
/// error carrying the last failure's message.
pub proof fn lemma_retry_until_exhausted(max_retries: nat, msgs: Seq<Seq<char>>)
    ensures
        after_network_failures(fresh_failover(max_retries), msgs).max_retries == max_retries,
        msgs.len() > 0 ==> after_network_failures(fresh_failover(max_retries), msgs).last_message
            == msgs.last(),
        after_network_failures(fresh_failover(max_retries), msgs).attempts == if msgs.len()
            <= max_retries + 1 {
            msgs.len()
        } else {
            max_retries + 1
        },
        msgs.len() <= max_retries ==> next_action_spec(
            after_network_failures(fresh_failover(max_retries), msgs),
            false,
        ) == ActionModel::Connect,
        msgs.len() > max_retries ==> next_action_spec(
            after_network_failures(fresh_failover(max_retries), msgs),
            false,
        ) == ActionModel::GiveUp(ErrorModel::NetworkError(msgs.last())),
    decreases msgs.len(),
{
    if msgs.len() > 0 {
        lemma_retry_until_exhausted(max_retries, msgs.drop_last());
    }
}

/// Failures other than network ones are never retried: they are returned
/// as they came and spend no attempt.
pub proof fn lemma_other_failures_returned(m: FailoverModel, e: ErrorModel)
    requires
        !(e is NetworkError),
    ensures
        record_spec(m, e) == (m, Some(e)),
{
}

} // verus!
