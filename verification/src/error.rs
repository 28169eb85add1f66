//! Structured errors for every failure path of the command layer.

use vstd::prelude::*;
use crate::value::{Value, ValueView};

verus! {

/// Everything that can go wrong between receiving an invocation and
/// returning its result. Each variant carries what a caller needs to
/// inspect the failure; none is ever swallowed inside this crate.
#[derive(Debug, Clone, PartialEq, Eq)]
pub enum Error {
    /// A dynamic value's active variant did not match the native type a
    /// coercion asked for: the expected type's name, and the offending value.
    InvalidType(String, Value),
    /// A byte sequence was not valid UTF-8 during conversion to text.
    DecodeError,
    /// An argument-store index was out of range: the index asked for.
    MissingArgument(usize),
    /// No adapter is registered under the requested name: the name asked for.
    CommandNotFound(String),
    /// The wrapped native function itself reported a failure, passed
    /// through unchanged as its message.
    FunctionError(String),
}

/// The mathematical model of an [`Error`]: text as sequences of
/// characters, indexes as unbounded integers.
pub enum ErrorView {
    InvalidType(Seq<char>, ValueView),
    DecodeError,
    MissingArgument(int),
    CommandNotFound(Seq<char>),
    FunctionError(Seq<char>),
}

impl View for Error {
    type V = ErrorView;

    open spec fn view(&self) -> ErrorView {
        match self {
            Error::InvalidType(expected, offending) => ErrorView::InvalidType(
                expected@,
                offending@,
            ),
            Error::DecodeError => ErrorView::DecodeError,
            Error::MissingArgument(index) => ErrorView::MissingArgument(*index as int),
            Error::CommandNotFound(name) => ErrorView::CommandNotFound(name@),
            Error::FunctionError(message) => ErrorView::FunctionError(message@),
        }
    }
}

/// Lifts an executable result to the model level, so that one contract
/// can pin both the success value and the exact error.
pub open spec fn res_view<T>(r: Result<T, Error>) -> Result<T, ErrorView> {
    match r {
        Ok(v) => Ok(v),
        Err(e) => Err(e@),
    }
}

} // verus!
