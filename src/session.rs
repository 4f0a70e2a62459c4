use vstd::prelude::*;

use crate::errors::{Error, ErrorModel};

verus! {

/// Where a session stands: establishing its connection, holding an
/// authenticated one, or failed for good.
pub enum SessionState<C> {
    Connecting,
    Ready(C),
    Failed(Error),
}

/// The model of a [`SessionState`].
pub enum SessionView<C> {
    Connecting,
    Ready(C),
    Failed(ErrorModel),
}

pub open spec fn state_view<C>(s: SessionState<C>) -> SessionView<C> {
    match s {
        SessionState::Connecting => SessionView::Connecting,
        SessionState::Ready(c) => SessionView::Ready(c),
        SessionState::Failed(e) => SessionView::Failed(e@),
    }
}

pub open spec fn unit_result_view(r: Result<(), Error>) -> Result<(), ErrorModel> {
    match r {
        Ok(()) => Ok(()),
        Err(e) => Err(e@),
    }
}

pub open spec fn conn_result_view<C>(r: Result<C, Error>) -> Result<C, ErrorModel> {
    match r {
        Ok(c) => Ok(c),
        Err(e) => Err(e@),
    }
}

/// The message of the error that a session holds while a query has its
/// connection; it stays there if the query is abandoned before its reply.
pub open spec fn abandoned_message() -> Seq<char> {
    "query abandoned before its reply"@
}

/// The message of the error for a query asked before the connection is up.
pub open spec fn not_ready_message() -> Seq<char> {
    "connection is not established"@
}

/// Whether a session can take a query: `None` while connecting.
pub open spec fn readiness_spec<C>(s: SessionView<C>) -> Option<Result<(), ErrorModel>> {
    match s {
        SessionView::Connecting => None,
        SessionView::Ready(_) => Some(Ok(())),
        SessionView::Failed(e) => Some(Err(e)),
    }
}

/// The end of connecting: the state after it, and what the caller learns.
pub open spec fn connected_spec<C>(s: SessionView<C>, outcome: Result<C, ErrorModel>) -> (
    SessionView<C>,
    Result<(), ErrorModel>,
) {
    match s {
        SessionView::Connecting => match outcome {
            Ok(c) => (SessionView::Ready(c), Ok(())),
            Err(e) => (SessionView::Failed(e), Err(e)),
        },
        SessionView::Ready(c) => (SessionView::Ready(c), Ok(())),
        SessionView::Failed(e) => (SessionView::Failed(e), Err(e)),
    }
}

/// The start of a query: the state while it runs, and the connection it gets.
pub open spec fn begin_spec<C>(s: SessionView<C>) -> (SessionView<C>, Result<C, ErrorModel>) {
    match s {
        SessionView::Ready(c) => (
            SessionView::Failed(ErrorModel::NetworkError(abandoned_message())),
            Ok(c),
        ),
        SessionView::Connecting => (
            SessionView::Connecting,
            Err(ErrorModel::ConnectError(not_ready_message())),
        ),
        SessionView::Failed(e) => (SessionView::Failed(e), Err(e)),
    }
}

/// The end of a query that had `conn`: a network failure fails the session,
/// any other outcome gives the connection back.
pub open spec fn end_spec<C>(conn: C, failure: Option<ErrorModel>) -> SessionView<C> {
    match failure {
        Some(e) => if e is NetworkError {
            SessionView::Failed(e)
        } else {
            SessionView::Ready(conn)
        },
        None => SessionView::Ready(conn),
    }
}

pub open spec fn failure_of<T>(r: Result<T, Error>) -> Option<ErrorModel> {
    match r {
        Ok(_) => None,
        Err(e) => Some(e@),
    }
}

/// One connection to the daemon and the state of its use. Queries take the
/// connection out for their whole exchange, so at most one is ever in flight.
pub struct Session<C> {
    state: SessionState<C>,
}

impl<C> Session<C> {
    pub closed spec fn spec_view(&self) -> SessionView<C> {
        state_view(self.state)
    }

    /// A session whose connection is being established.
    pub fn new() -> (r: Session<C>)
        ensures
            r.spec_view() == SessionView::<C>::Connecting,
    {
        Session { state: SessionState::Connecting }
    }

    /// Whether a query can be made now; `None` while connecting.
    pub fn readiness(&self) -> (r: Option<Result<(), Error>>)
        ensures
            match r {
                None => readiness_spec(self.spec_view()) is None,
                Some(x) => readiness_spec(self.spec_view()) == Some(unit_result_view(x)),
            },
    {
        match &self.state {
            SessionState::Connecting => None,
            SessionState::Ready(_) => Some(Ok(())),
            SessionState::Failed(e) => Some(Err(e.clone())),
        }
    }

    /// Records how establishing the connection ended.
    pub fn finish_connecting(&mut self, outcome: Result<C, Error>) -> (r: Result<(), Error>)
        ensures
            connected_spec(old(self).spec_view(), conn_result_view(outcome)) == (
                final(self).spec_view(),
                unit_result_view(r),
            ),
    {
        match &self.state {
            SessionState::Connecting => {},
            SessionState::Ready(_) => return Ok(()),
            SessionState::Failed(e) => return Err(e.clone()),
        }
        match outcome {
            Ok(c) => {
                self.state = SessionState::Ready(c);
                Ok(())
            },
            Err(e) => {
                self.state = SessionState::Failed(e.clone());
                Err(e)
            },
        }
    }

    /// Takes the connection for one query.
    pub fn begin_query(&mut self) -> (r: Result<C, Error>)
        ensures
            begin_spec(old(self).spec_view()) == (final(self).spec_view(), conn_result_view(r)),
    {
        let mut state = SessionState::Failed(
            Error::NetworkError(String::from_str("query abandoned before its reply")),
        );
        std::mem::swap(&mut self.state, &mut state);
        match state {
            SessionState::Ready(c) => Ok(c),
            SessionState::Connecting => {
                self.state = SessionState::Connecting;
                Err(Error::ConnectError(String::from_str("connection is not established")))
            },
            SessionState::Failed(e) => {
                self.state = SessionState::Failed(e.clone());
                Err(e)
            },
        }
    }

    /// Gives the connection back after a query, with how the query ended.
    pub fn end_query<T>(&mut self, conn: C, outcome: &Result<T, Error>)
        ensures
            final(self).spec_view() == end_spec(conn, failure_of(*outcome)),
    {
        match outcome {
            Err(e) => {
                if e.is_network() {
                    self.state = SessionState::Failed(e.clone());
                } else {
                    self.state = SessionState::Ready(conn);
                }
            },
            Ok(_) => {
                self.state = SessionState::Ready(conn);
            },
        }
    }
}

/// Queries never overlap on one connection: while a query holds the
/// connection, another that starts gets an error and no connection.
pub proof fn lemma_one_query_in_flight<C>(s: SessionView<C>)
    requires
        begin_spec(s).1 is Ok,
    ensures
        begin_spec(begin_spec(s).0).1 is Err,
        begin_spec(begin_spec(s).0).0 == begin_spec(s).0,
{
}

/// A network failure during a query leaves the session failed for good, and
/// the failure is what every later query gets.
pub proof fn lemma_network_failure_absorbs<C>(conn: C, e: ErrorModel)
    requires
        e is NetworkError,
    ensures
        end_spec(conn, Some(e)) == SessionView::<C>::Failed(e),
        begin_spec(end_spec(conn, Some(e))) == (SessionView::<C>::Failed(e), Err::<C, ErrorModel>(e)),
        connected_spec(end_spec(conn, Some(e)), Ok::<C, ErrorModel>(conn)).0 == SessionView::<
            C,
        >::Failed(e),
{
}

} // verus!
