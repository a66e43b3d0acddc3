//! The ways in which a call to the directory can fail.

use vstd::prelude::*;

verus! {

/// A round trip that did not yield a usable response.
#[derive(Clone, Debug, PartialEq, Eq)]
pub enum TransportError {
    /// The server answered with this status, which is not 200.
    StatusCode(u16),
    /// The body of a 200 response did not have the expected shape.
    Json(String),
    /// The request could not be sent or the response could not be read.
    Other(String),
}

/// The view of a [`TransportError`].
pub enum TransportErrorView {
    StatusCode(u16),
    Json(Seq<char>),
    Other(Seq<char>),
}

impl View for TransportError {
    type V = TransportErrorView;

    open spec fn view(&self) -> TransportErrorView {
        match self {
            TransportError::StatusCode(code) => TransportErrorView::StatusCode(*code),
            TransportError::Json(what) => TransportErrorView::Json(what@),
            TransportError::Other(what) => TransportErrorView::Other(what@),
        }
    }
}

/// Why a negotiation or a verification call failed.
#[derive(Clone, Debug, PartialEq, Eq)]
pub enum Error {
    /// A round trip failed.
    UReq(TransportError),
    /// The server did not report the state that the step asks for.
    AuthenticationFailed,
}

/// The view of an [`Error`].
pub enum ErrorView {
    UReq(TransportErrorView),
    AuthenticationFailed,
}

impl View for Error {
    type V = ErrorView;

    open spec fn view(&self) -> ErrorView {
        match self {
            Error::UReq(e) => ErrorView::UReq(e@),
            Error::AuthenticationFailed => ErrorView::AuthenticationFailed,
        }
    }
}

impl From<TransportError> for Error {
    /// A failed round trip, as the error of a whole call.
    fn from(e: TransportError) -> (err: Error) {
        Error::UReq(e)
    }
}

impl vstd::std_specs::convert::FromSpecImpl<TransportError> for Error {
    open spec fn obeys_from_spec() -> bool {
        true
    }

    open spec fn from_spec(e: TransportError) -> Error {
        Error::UReq(e)
    }
}

} // verus!
