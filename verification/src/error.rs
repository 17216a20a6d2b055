//! The errors that the response deserializers report.

use vstd::prelude::*;
use crate::json::JsonValue;

verus! {

/// What a JSON value was expected to be.
#[derive(Debug, Clone, Copy, PartialEq, Eq, Structural)]
pub enum Expected {
    /// "a number"
    Number,
    /// "a string"
    String,
}

/// A deserialization error.
#[derive(Debug, PartialEq)]
pub enum DeError {
    /// An unsigned integer outside the accepted values; `expected` says what
    /// was accepted.
    InvalidUnsigned { value: u64, expected: String },
    /// An error with a free-form message.
    Custom(String),
    /// A value of the wrong kind: "expected {kind}, got `{got}`", where
    /// `got` is written as JSON.
    ExpectedGot { kind: Expected, got: JsonValue },
}

/// A `DeError` with its texts taken as character sequences.
pub enum DeErrorView {
    InvalidUnsigned { value: u64, expected: Seq<char> },
    Custom(Seq<char>),
    ExpectedGot { kind: Expected, got: JsonValue },
}

impl View for DeError {
    type V = DeErrorView;

    open spec fn view(&self) -> DeErrorView {
        match self {
            DeError::InvalidUnsigned { value, expected } => DeErrorView::InvalidUnsigned {
                value: *value,
                expected: expected@,
            },
            DeError::Custom(m) => DeErrorView::Custom(m@),
            DeError::ExpectedGot { kind, got } => DeErrorView::ExpectedGot {
                kind: *kind,
                got: *got,
            },
        }
    }
}

/// An error with the message `msg`.
pub fn custom(msg: &str) -> (e: DeError)
    ensures
        e@ == DeErrorView::Custom(msg@),
{
    DeError::Custom(String::from_str(msg))
}

} // verus!
