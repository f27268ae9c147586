//! What can go wrong with a request.

use vstd::prelude::*;

verus! {

/// Why something was canceled.
#[derive(Debug)]
pub enum Cause<X> {
    /// No reason was given.
    Unknown,
    /// The reason in words.
    Message(&'static str),
    /// What the connection reported.
    Transport(X),
}

/// The kinds of an input or output error.
#[derive(Clone, Copy, Debug, PartialEq, Eq, Structural)]
pub enum IoErrorKind {
    /// What was to be written cannot be.
    InvalidInput,
}

/// The error of a request. `X` is what the pool, the connector and the
/// connections report.
#[derive(Debug)]
pub enum Error<X> {
    /// The request asks for a version of HTTP that the client does not speak.
    UnsupportedVersion,
    /// The request has a method that the client does not support.
    UnsupportedRequestMethod,
    /// Input or output failed.
    Io { kind: IoErrorKind, message: &'static str },
    /// No connection could be made.
    Connect(X),
    /// The request, or a way to get a connection for it, was given up.
    Canceled(Cause<X>),
    /// The pool or a connection failed in another way.
    Transport(X),
}

impl<X> Error<X> {
    /// The request asks for a version that is not supported.
    pub fn new_user_unsupported_version() -> (r: Self)
        ensures
            r == Error::<X>::UnsupportedVersion,
    {
        Error::UnsupportedVersion
    }

    /// The request has a method that is not supported.
    pub fn new_user_unsupported_request_method() -> (r: Self)
        ensures
            r == Error::<X>::UnsupportedRequestMethod,
    {
        Error::UnsupportedRequestMethod
    }

    /// Input or output failed.
    pub fn new_io(kind: IoErrorKind, message: &'static str) -> (r: Self)
        ensures
            r == (Error::<X>::Io { kind, message }),
    {
        Error::Io { kind, message }
    }

    /// No connection could be made.
    pub fn new_connect(cause: X) -> (r: Self)
        ensures
            r == Error::Connect(cause),
    {
        Error::Connect(cause)
    }

    /// Something was given up, for a reason that may be given in words.
    pub fn new_canceled(message: Option<&'static str>) -> (r: Self)
        ensures
            r == Error::<X>::Canceled(
                match message {
                    Some(message) => Cause::Message(message),
                    None => Cause::Unknown,
                },
            ),
    {
        match message {
            Some(message) => Error::Canceled(Cause::Message(message)),
            None => Error::Canceled(Cause::Unknown),
        }
    }

    /// Whether something was given up, rather than having failed.
    pub fn is_canceled(&self) -> (r: bool)
        ensures
            r == (*self is Canceled),
    {
        match self {
            Error::Canceled(_) => true,
            _ => false,
        }
    }
}

} // verus!
