//! The smallest family of errors: an error is a message and nothing else.

use crate::kind::Kind;
use vstd::prelude::*;
use vstd::std_specs::convert::FromSpecImpl;

verus! {

/// The kinds of error of this family.
#[derive(Debug, PartialEq, Eq)]
pub enum ErrorKind {
    /// An error described by a message.
    Msg(String),
}

/// The errors of this family.
pub type Error = crate::error::Error<ErrorKind>;

impl Kind for ErrorKind {
    open spec fn spec_description(&self) -> Seq<char> {
        match self {
            ErrorKind::Msg(s) => s@,
        }
    }

    open spec fn spec_display(&self) -> Seq<char> {
        match self {
            ErrorKind::Msg(s) => s@,
        }
    }

    fn description(&self) -> (r: &str) {
        match self {
            ErrorKind::Msg(s) => s.as_str(),
        }
    }

    fn display(&self) -> (s: String) {
        match self {
            ErrorKind::Msg(s) => s.clone(),
        }
    }
}

impl<'a> From<&'a str> for ErrorKind {
    /// The kind of an error described by `message`.
    fn from(message: &'a str) -> (k: ErrorKind)
        ensures
            k matches ErrorKind::Msg(m) && m@ == message@,
    {
        ErrorKind::Msg(String::from_str(message))
    }
}

impl<'a> FromSpecImpl<&'a str> for ErrorKind {
    /// The kind holds a string of its own with the text of `message`; which
    /// string that is, no function of `message` says.
    open spec fn obeys_from_spec() -> bool {
        false
    }

    open spec fn from_spec(message: &'a str) -> ErrorKind {
        arbitrary()
    }
}

impl From<String> for ErrorKind {
    /// The kind of an error described by `message`.
    fn from(message: String) -> (k: ErrorKind) {
        ErrorKind::Msg(message)
    }
}

impl FromSpecImpl<String> for ErrorKind {
    open spec fn obeys_from_spec() -> bool {
        true
    }

    open spec fn from_spec(message: String) -> ErrorKind {
        ErrorKind::Msg(message)
    }
}

} // verus!
