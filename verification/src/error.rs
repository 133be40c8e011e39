//! The ways in which the content of one line can fail to parse.

use vstd::prelude::*;

verus! {

/// Why a line, or a part of one, was refused.
///
/// An error speaks of the one text that was handed in and of nothing else:
/// the caller decides whether to skip the line, report it, or stop.
#[derive(Clone, Copy, Debug, PartialEq, Eq, Structural)]
pub enum ParseError {
    /// A number is not written in the digits of its radix, or does not fit.
    MalformedInteger,
    /// An address operand lacks its brackets or its index.
    MalformedAddressExpression,
    /// A text that has to hold at least one word holds none.
    EmptyInput,
    /// The pattern engine refused one of the two line patterns.
    InvalidPattern,
}

/// What a contract sees of a result: the view of the value, or the error.
pub open spec fn outcome<T: View>(result: Result<T, ParseError>) -> Result<T::V, ParseError> {
    match result {
        Ok(value) => Ok(value@),
        Err(e) => Err(e),
    }
}

} // verus!
