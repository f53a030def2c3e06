//! What the flows need of a remote call, as plain values: the authorization
//! header that came with it and the status that goes back on failure.

use vstd::prelude::*;

verus! {

/// The status code of a failed call. A caller decides by it whether to try
/// again.
#[derive(Debug, Clone, Copy, PartialEq, Eq, Structural)]
pub enum Code {
    /// The caller did not show a token that is accepted for the call, or
    /// credentials that are right.
    Unauthenticated,
    /// What the call speaks of is not there.
    NotFound,
    /// The request breaks a rule.
    InvalidArgument,
    /// The service failed.
    Internal,
}

/// The failure that a remote caller is told: a code and a text.
#[derive(Debug)]
pub struct Status {
    pub code: Code,
    pub message: String,
}

/// A [`Status`] with its text as a sequence of characters.
pub struct StatusView {
    pub code: Code,
    pub message: Seq<char>,
}

impl View for Status {
    type V = StatusView;

    open spec fn view(&self) -> StatusView {
        StatusView { code: self.code, message: self.message@ }
    }
}

/// The `authorization` header of a call.
#[derive(Debug)]
pub enum Authorization {
    /// The call has no such header.
    Missing,
    /// The header holds bytes that are no visible ASCII text.
    Unreadable,
    /// The text of the header.
    Text(String),
}

/// An [`Authorization`] with its text as a sequence of characters.
pub enum AuthorizationView {
    Missing,
    Unreadable,
    Text(Seq<char>),
}

impl View for Authorization {
    type V = AuthorizationView;

    open spec fn view(&self) -> AuthorizationView {
        match self {
            Authorization::Missing => AuthorizationView::Missing,
            Authorization::Unreadable => AuthorizationView::Unreadable,
            Authorization::Text(text) => AuthorizationView::Text(text@),
        }
    }
}

impl Status {
    /// A status with the code `Unauthenticated`.
    pub fn unauthenticated(message: String) -> (status: Status)
        ensures
            status@ == (StatusView { code: Code::Unauthenticated, message: message@ }),
    {
        Status { code: Code::Unauthenticated, message }
    }

    /// A status with the code `NotFound`.
    pub fn not_found(message: String) -> (status: Status)
        ensures
            status@ == (StatusView { code: Code::NotFound, message: message@ }),
    {
        Status { code: Code::NotFound, message }
    }

    /// A status with the code `InvalidArgument`.
    pub fn invalid_argument(message: String) -> (status: Status)
        ensures
            status@ == (StatusView { code: Code::InvalidArgument, message: message@ }),
    {
        Status { code: Code::InvalidArgument, message }
    }

    /// A status with the code `Internal`.
    pub fn internal(message: String) -> (status: Status)
        ensures
            status@ == (StatusView { code: Code::Internal, message: message@ }),
    {
        Status { code: Code::Internal, message }
    }
}

} // verus!
