//! The failures that the flows of this crate report.

use vstd::prelude::*;

verus! {

/// A failure of a flow. Failures of lower layers (storage, token encoding) are
/// reported as [`Error::InternalError`]; nothing is retried.
#[derive(Debug)]
pub enum Error {
    /// The token is forged, malformed, expired, of the wrong type, or issued
    /// before the account's invalidation cutoff.
    Unauthorized,
    /// No account has this username and password.
    WrongCredentials,
    /// The account that a token names does not exist.
    NotFound,
    /// A rule on the request was broken; the text names it.
    CustomValidationError(String),
    /// Signing or storage failed; the text says what.
    InternalError(String),
}

/// The result of a flow.
pub type AppResult<T> = Result<T, Error>;

/// An [`Error`] with its texts as sequences of characters.
pub enum ErrorView {
    Unauthorized,
    WrongCredentials,
    NotFound,
    CustomValidationError(Seq<char>),
    InternalError(Seq<char>),
}

impl View for Error {
    type V = ErrorView;

    open spec fn view(&self) -> ErrorView {
        match self {
            Error::Unauthorized => ErrorView::Unauthorized,
            Error::WrongCredentials => ErrorView::WrongCredentials,
            Error::NotFound => ErrorView::NotFound,
            Error::CustomValidationError(text) => ErrorView::CustomValidationError(text@),
            Error::InternalError(text) => ErrorView::InternalError(text@),
        }
    }
}

/// The text that a caller is shown for `error`.
pub open spec fn error_text(error: ErrorView) -> Seq<char> {
    match error {
        ErrorView::Unauthorized => "You are unauthorized"@,
        ErrorView::WrongCredentials => "wrong credentials"@,
        ErrorView::NotFound => "Not found"@,
        ErrorView::CustomValidationError(text) => "Validation failed: "@ + text,
        ErrorView::InternalError(text) => "Internal server error: "@ + text,
    }
}

impl Error {
    /// The text that a caller is shown for this error.
    pub fn message(&self) -> (text: String)
        ensures
            text@ == error_text(self@),
    {
        match self {
            Error::Unauthorized => String::from_str("You are unauthorized"),
            Error::WrongCredentials => String::from_str("wrong credentials"),
            Error::NotFound => String::from_str("Not found"),
            Error::CustomValidationError(text) => String::from_str("Validation failed: ").concat(
                text.as_str(),
            ),
            Error::InternalError(text) => String::from_str("Internal server error: ").concat(
                text.as_str(),
            ),
        }
    }
}

} // verus!
