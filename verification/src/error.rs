//! The errors that an operation on a `Location` throws to the calling script.

use vstd::prelude::*;

verus! {

/// An exception for the calling script.
#[derive(Debug, PartialEq, Eq)]
pub enum Error {
    /// The relevant document is not same origin-domain with the caller.
    Security,
    /// A URL or a scheme could not be parsed.
    Syntax,
    /// A type error with its message.
    Type(String),
}

/// The mathematical value of an [`Error`].
pub enum ErrorView {
    Security,
    Syntax,
    Type(Seq<char>),
}

impl View for Error {
    type V = ErrorView;

    open spec fn view(&self) -> ErrorView {
        match *self {
            Error::Security => ErrorView::Security,
            Error::Syntax => ErrorView::Syntax,
            Error::Type(message) => ErrorView::Type(message@),
        }
    }
}

/// What the message of a type error starts with when a URL was refused.
pub open spec fn parse_failure_prefix() -> Seq<char> {
    "Couldn't parse URL: "@
}

/// The type error for a URL that the parser refused with `reason`.
pub fn parse_failure(reason: &str) -> (error: Error)
    ensures
        error@ == ErrorView::Type(parse_failure_prefix() + reason@),
{
    let mut message = String::from_str("Couldn't parse URL: ");
    message.append(reason);
    Error::Type(message)
}

} // verus!
