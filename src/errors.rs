use vstd::prelude::*;

verus! {

/// Every way an operation of this library can fail.
#[derive(Debug, PartialEq, Eq)]
pub enum Error {
    ConnectError(String),
    DataParseError(String),
    InvalidPasswordError(String),
    DaemonError(String),
    NullError(String),
    NetworkError(String),
    StatusError(i32),
    AuthError(String),
    InvalidURLError(String),
    AlreadyAttachedError(String),
}

/// The model of an [`Error`]: the same kinds, with their messages viewed.
pub enum ErrorModel {
    ConnectError(Seq<char>),
    DataParseError(Seq<char>),
    InvalidPasswordError(Seq<char>),
    DaemonError(Seq<char>),
    NullError(Seq<char>),
    NetworkError(Seq<char>),
    StatusError(i32),
    AuthError(Seq<char>),
    InvalidURLError(Seq<char>),
    AlreadyAttachedError(Seq<char>),
}

impl View for Error {
    type V = ErrorModel;

    open spec fn view(&self) -> ErrorModel {
        match self {
            Error::ConnectError(m) => ErrorModel::ConnectError(m@),
            Error::DataParseError(m) => ErrorModel::DataParseError(m@),
            Error::InvalidPasswordError(m) => ErrorModel::InvalidPasswordError(m@),
            Error::DaemonError(m) => ErrorModel::DaemonError(m@),
            Error::NullError(m) => ErrorModel::NullError(m@),
            Error::NetworkError(m) => ErrorModel::NetworkError(m@),
            Error::StatusError(c) => ErrorModel::StatusError(*c),
            Error::AuthError(m) => ErrorModel::AuthError(m@),
            Error::InvalidURLError(m) => ErrorModel::InvalidURLError(m@),
            Error::AlreadyAttachedError(m) => ErrorModel::AlreadyAttachedError(m@),
        }
    }
}

impl Clone for Error {
    fn clone(&self) -> (r: Error)
        ensures
            r == *self,
    {
        match self {
            Error::ConnectError(m) => Error::ConnectError(m.clone()),
            Error::DataParseError(m) => Error::DataParseError(m.clone()),
            Error::InvalidPasswordError(m) => Error::InvalidPasswordError(m.clone()),
            Error::DaemonError(m) => Error::DaemonError(m.clone()),
            Error::NullError(m) => Error::NullError(m.clone()),
            Error::NetworkError(m) => Error::NetworkError(m.clone()),
            Error::StatusError(c) => Error::StatusError(*c),
            Error::AuthError(m) => Error::AuthError(m.clone()),
            Error::InvalidURLError(m) => Error::InvalidURLError(m.clone()),
            Error::AlreadyAttachedError(m) => Error::AlreadyAttachedError(m.clone()),
        }
    }
}

impl Error {
    /// Whether this failure leaves the connection untrustworthy: the one kind
    /// that invalidates a session and may be retried.
    pub open spec fn spec_is_network(&self) -> bool {
        self is NetworkError
    }

    #[verifier::when_used_as_spec(spec_is_network)]
    pub fn is_network(&self) -> (r: bool)
        ensures
            r == self.spec_is_network(),
    {
        match self {
            Error::NetworkError(_) => true,
            _ => false,
        }
    }
}

} // verus!
