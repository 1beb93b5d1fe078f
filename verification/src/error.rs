//! The ways in which a value object can be invalid.

use vstd::prelude::*;
use vstd::std_specs::convert::FromSpecImpl;

verus! {

/// The condition that made an expansion fail.
#[derive(Clone, Copy, Debug, PartialEq, Eq, Hash, Structural)]
pub enum ErrorCode {
    /// The `@value` payload is neither null nor a scalar, and the value is not
    /// typed `@json`.
    InvalidValueObjectValue,
    /// The `@language` payload is not a string.
    InvalidLanguageTaggedString,
    /// The `@direction` payload is not `"ltr"` or `"rtl"`.
    InvalidBaseDirection,
    /// The `@index` payload is not a string.
    InvalidIndexValue,
    /// A `@type` payload, or a member of it, is not a string.
    InvalidTypeValue,
    /// A `@type` resolves to something other than an IRI reference or `@json`.
    InvalidTypedValue,
    /// The object holds a key that no value object may hold, or a type beside
    /// a language or a direction.
    InvalidValueObject,
    /// A language or a direction is attached to something that is no string.
    InvalidLanguageTaggedValue,
}

/// A failed expansion.
#[derive(Clone, Copy, Debug, PartialEq, Eq, Hash, Structural)]
pub struct Error {
    /// The condition that made it fail.
    pub code: ErrorCode,
}

impl Error {
    /// The error with the given code.
    pub fn new(code: ErrorCode) -> (error: Error)
        ensures
            error == (Error { code }),
    {
        Error { code }
    }

    /// The condition that this error reports.
    pub fn code(&self) -> (code: ErrorCode)
        ensures
            code == self.code,
    {
        self.code
    }
}

impl From<ErrorCode> for Error {
    fn from(code: ErrorCode) -> (error: Error) {
        Error { code }
    }
}

impl FromSpecImpl<ErrorCode> for Error {
    open spec fn obeys_from_spec() -> bool {
        true
    }

    open spec fn from_spec(code: ErrorCode) -> Error {
        Error { code }
    }
}

/// The model of what a fallible step gave: the model of the value it
/// produced, or the code of the error it failed with.
pub open spec fn outcome<T: DeepView>(result: Result<T, Error>) -> Result<T::V, ErrorCode> {
    match result {
        Ok(value) => Ok(value.deep_view()),
        Err(error) => Err(error.code),
    }
}

} // verus!
