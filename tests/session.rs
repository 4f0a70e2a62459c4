use boinc_rpc::errors::Error;
use boinc_rpc::failover::{Failover, FailoverAction};
use boinc_rpc::session::Session;

#[test]
fn session_connects_and_serves_queries() {
    let mut s: Session<u32> = Session::new();
    assert_eq!(s.readiness(), None);
    assert_eq!(
        s.begin_query(),
        Err(Error::ConnectError("connection is not established".to_string()))
    );
    assert_eq!(s.finish_connecting(Ok(7)), Ok(()));
    assert_eq!(s.readiness(), Some(Ok(())));
    let conn = s.begin_query().unwrap();
    assert_eq!(conn, 7);
    s.end_query(conn, &Ok::<(), Error>(()));
    assert_eq!(s.begin_query(), Ok(7));
}

#[test]
fn failed_handshake_fails_session() {
    let mut s: Session<u32> = Session::new();
    let e = Error::AuthError("unauthorized".to_string());
    assert_eq!(s.finish_connecting(Err(e.clone())), Err(e.clone()));
    assert_eq!(s.readiness(), Some(Err(e.clone())));
    assert_eq!(s.begin_query(), Err(e.clone()));
    assert_eq!(s.finish_connecting(Ok(1)), Err(e));
}

#[test]
fn one_query_in_flight() {
    let mut s: Session<u32> = Session::new();
    s.finish_connecting(Ok(3)).unwrap();
    let first = s.begin_query().unwrap();
    assert_eq!(
        s.begin_query(),
        Err(Error::NetworkError("query abandoned before its reply".to_string()))
    );
    s.end_query(first, &Ok::<u8, Error>(0));
    assert_eq!(s.begin_query(), Ok(3));
}

#[test]
fn abandoned_query_fails_session() {
    let mut s: Session<u32> = Session::new();
    s.finish_connecting(Ok(3)).unwrap();
    let conn = s.begin_query().unwrap();
    drop(conn);
    assert_eq!(
        s.readiness(),
        Some(Err(Error::NetworkError("query abandoned before its reply".to_string())))
    );
}

#[test]
fn network_failure_fails_session() {
    let mut s: Session<u32> = Session::new();
    s.finish_connecting(Ok(3)).unwrap();
    let conn = s.begin_query().unwrap();
    let e = Error::NetworkError("reset".to_string());
    s.end_query(conn, &Err::<(), Error>(e.clone()));
    assert_eq!(s.readiness(), Some(Err(e.clone())));
    assert_eq!(s.begin_query(), Err(e));
}

#[test]
fn other_failure_keeps_session() {
    let mut s: Session<u32> = Session::new();
    s.finish_connecting(Ok(3)).unwrap();
    let conn = s.begin_query().unwrap();
    s.end_query(conn, &Err::<(), Error>(Error::DataParseError("bad".to_string())));
    assert_eq!(s.readiness(), Some(Ok(())));
}

/// Drives the retry decisions the way the transport does, with a session
/// builder that fails with a network error `failing` times.
fn run_with_failover(max_retries: u32, failing: u32) -> (Result<&'static str, Error>, u32, u32) {
    let mut f = Failover::new(max_retries);
    let mut session: Option<u32> = None;
    let mut builds = 0u32;
    let mut invalidated = 0u32;
    loop {
        match f.next_action(session.is_some()) {
            FailoverAction::Connect => {
                builds += 1;
                if builds <= failing {
                    let e = Error::NetworkError(format!("refused {}", builds));
                    if let Some(fatal) = f.record_failure(e) {
                        return (Err(fatal), builds, invalidated);
                    }
                    invalidated += 1;
                } else {
                    session = Some(builds);
                }
            }
            FailoverAction::Run => return (Ok("done"), builds, invalidated),
            FailoverAction::GiveUp(e) => return (Err(e), builds, invalidated),
        }
    }
}

#[test]
fn retry_failover() {
    let (r, builds, invalidated) = run_with_failover(2, 2);
    assert_eq!(r, Ok("done"));
    assert_eq!(builds, 3);
    assert_eq!(invalidated, 2);
}

#[test]
fn retries_exhausted() {
    let (r, builds, _) = run_with_failover(2, 10);
    assert_eq!(r, Err(Error::NetworkError("refused 3".to_string())));
    assert_eq!(builds, 3);
}

#[test]
fn no_retries_allowed() {
    let (r, builds, _) = run_with_failover(0, 1);
    assert_eq!(r, Err(Error::NetworkError("refused 1".to_string())));
    assert_eq!(builds, 1);
}

#[test]
fn other_failures_are_not_retried() {
    let mut f = Failover::new(5);
    let e = Error::AuthError("unauthorized".to_string());
    assert_eq!(f.record_failure(e.clone()), Some(e));
    assert!(matches!(f.next_action(false), FailoverAction::Connect));
    assert!(matches!(f.next_action(true), FailoverAction::Run));
}
