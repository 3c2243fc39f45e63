//! A family of errors that shows every sort of kind: kinds of its own, with
//! and without a payload, a kind that links the family [`crate::mock`], a
//! kind for a foreign error, and the kind of an ad-hoc message.

use crate::chained_error::ChainedError;
use crate::dyn_error::{chained, DynError, Layer, ToError};
use crate::kind::Kind;
use crate::mock;
use std::num::ParseIntError;
use vstd::prelude::*;
use vstd::std_specs::convert::FromSpecImpl;

verus! {

/// The kinds of error of this family.
#[derive(Debug, PartialEq, Eq)]
pub enum ErrorKind {
    /// An error described by a message.
    Msg(String),
    /// An error of the linked family [`crate::mock`].
    Mock(mock::ErrorKind),
    /// A number could not be parsed; the foreign error is the cause.
    ParseInt,
    /// A kind without a payload.
    Custom,
    /// The name of a toolchain that is not valid.
    InvalidToolchainName(String),
}

/// The errors of this family.
pub type Error = crate::error::Error<ErrorKind>;

impl Kind for ErrorKind {
    open spec fn spec_description(&self) -> Seq<char> {
        match self {
            ErrorKind::Msg(s) => s@,
            ErrorKind::Mock(k) => k.spec_description(),
            ErrorKind::ParseInt => "number not parsed"@,
            ErrorKind::Custom => "Custom"@,
            ErrorKind::InvalidToolchainName(_) => "invalid toolchain name"@,
        }
    }

    open spec fn spec_display(&self) -> Seq<char> {
        match self {
            ErrorKind::Msg(s) => s@,
            ErrorKind::Mock(k) => k.spec_display(),
            ErrorKind::ParseInt => "number not parsed"@,
            ErrorKind::Custom => "Custom"@,
            ErrorKind::InvalidToolchainName(t) => "invalid toolchain name: '"@ + t@ + "'"@,
        }
    }

    fn description(&self) -> (r: &str) {
        match self {
            ErrorKind::Msg(s) => s.as_str(),
            ErrorKind::Mock(k) => k.description(),
            ErrorKind::ParseInt => "number not parsed",
            ErrorKind::Custom => "Custom",
            ErrorKind::InvalidToolchainName(_) => "invalid toolchain name",
        }
    }

    fn display(&self) -> (s: String) {
        match self {
            ErrorKind::Msg(s) => s.clone(),
            ErrorKind::Mock(k) => k.display(),
            ErrorKind::ParseInt => String::from_str("number not parsed"),
            ErrorKind::Custom => String::from_str("Custom"),
            ErrorKind::InvalidToolchainName(t) => {
                let mut s = String::from_str("invalid toolchain name: '");
                s.append(t.as_str());
                s.append("'");
                s
            },
        }
    }
}

impl<'a> From<&'a str> for ErrorKind {
    /// The kind of an error described by `message`.
    fn from(message: &'a str) -> (k: ErrorKind)
        ensures
            k matches ErrorKind::Msg(m) && m@ == message@,
    {
        ErrorKind::Msg(String::from_str(message))
    }
}

impl<'a> FromSpecImpl<&'a str> for ErrorKind {
    /// The kind holds a string of its own with the text of `message`; which
    /// string that is, no function of `message` says.
    open spec fn obeys_from_spec() -> bool {
        false
    }

    open spec fn from_spec(message: &'a str) -> ErrorKind {
        arbitrary()
    }
}

impl From<String> for ErrorKind {
    /// The kind of an error described by `message`.
    fn from(message: String) -> (k: ErrorKind) {
        ErrorKind::Msg(message)
    }
}

impl FromSpecImpl<String> for ErrorKind {
    open spec fn obeys_from_spec() -> bool {
        true
    }

    open spec fn from_spec(message: String) -> ErrorKind {
        ErrorKind::Msg(message)
    }
}

impl From<mock::ErrorKind> for ErrorKind {
    /// The kind that holds a kind of the linked family unchanged.
    fn from(kind: mock::ErrorKind) -> (k: ErrorKind) {
        ErrorKind::Mock(kind)
    }
}

impl FromSpecImpl<mock::ErrorKind> for ErrorKind {
    open spec fn obeys_from_spec() -> bool {
        true
    }

    open spec fn from_spec(kind: mock::ErrorKind) -> ErrorKind {
        ErrorKind::Mock(kind)
    }
}

impl From<mock::Error> for Error {
    /// Takes an error of the linked family into this family: the same
    /// chain, with the kind of `e` held in [`ErrorKind::Mock`].
    fn from(e: mock::Error) -> (r: Error)
        ensures
            r@.kind == ErrorKind::Mock(e@.kind),
            r@.causes == e@.causes,
            r@.backtrace == e@.backtrace,
            r@.chain() == e@.chain(),
            r@.rendered() == e@.rendered(),
    {
        let r = Error::link(e);
        proof {
            r@.lemma_link_folds_into_one_line(e@);
        }
        r
    }
}

impl FromSpecImpl<mock::Error> for Error {
    /// What `from` returns is stated over the views of the two errors.
    open spec fn obeys_from_spec() -> bool {
        false
    }

    open spec fn from_spec(e: mock::Error) -> Error {
        arbitrary()
    }
}

/// `std::num::ParseIntError`, the error that `str::parse` returns for an
/// integer.  Nothing inside it is visible to the proofs.
#[verifier::external_type_specification]
#[verifier::external_body]
pub struct ExParseIntError(std::num::ParseIntError);

/// The text that `Display` gives for a `std::num::ParseIntError`.
pub uninterp spec fn parse_int_error_text(e: ParseIntError) -> Seq<char>;

/// Formats a `std::num::ParseIntError` with `{}`, its `Display` form.
#[verifier::external_body]
fn parse_int_error_display(e: &ParseIntError) -> (s: String)
    ensures
        s@ == parse_int_error_text(*e),
{
    format!("{}", e)
}

impl ToError for ParseIntError {
    /// A chain of one error, which shows the text of its `Display` and
    /// carries no backtrace.
    open spec fn layers(&self) -> Seq<Layer> {
        chained(
            Layer {
                description: parse_int_error_text(*self),
                display: parse_int_error_text(*self),
                backtrace: None,
            },
            Seq::empty(),
        )
    }

    fn to_error(self) -> (e: DynError) {
        let display = parse_int_error_display(&self);
        let description = display.clone();
        DynError::new(description, display, None, None)
    }
}

impl From<ParseIntError> for Error {
    /// Wraps a foreign error: the new error is of kind
    /// [`ErrorKind::ParseInt`] and `e` is its cause.
    fn from(e: ParseIntError) -> (r: Error)
        ensures
            r@.kind == ErrorKind::ParseInt,
            r@.causes == e.layers(),
            r@.chain().len() == 2,
            r@.chain()[0].description == "number not parsed"@,
            r@.chain()[1].description == parse_int_error_text(e),
    {
        let r = Error::with_chain(e, ErrorKind::ParseInt);
        proof {
            r@.lemma_foreign_link_adds_a_line(e.layers());
        }
        r
    }
}

impl FromSpecImpl<ParseIntError> for Error {
    /// The backtrace of the new error is decided when it is made, so no
    /// function of `e` alone gives the error.
    open spec fn obeys_from_spec() -> bool {
        false
    }

    open spec fn from_spec(e: ParseIntError) -> Error {
        arbitrary()
    }
}

} // verus!
