//! The two patterns by which a line is told apart, and what the `regex`
//! crate answers to them.
//!
//! Verus does not look into the pattern engine. What it is taken to do is
//! given a name here, and the contracts of the line parser speak of those
//! names: they say what is done with the engine's answer, whatever it is.

use vstd::prelude::*;

use crate::error::ParseError;

verus! {

/// The first field of an instruction line: characters that belong to no
/// word, then one to sixteen hexadecimal digits, then a colon.
pub const INSTRUCTION_PATTERN: &'static str = r"^\W*[0-9a-fA-F]{1,16}:.*";

/// The first field of a data line: sixteen hexadecimal digits at its start.
pub const DATA_PATTERN: &'static str = r"^[0-9a-fA-F]{16}.*";

/// The error of `regex::Regex::new`; nothing is known of what it holds.
#[verifier::external_type_specification]
#[verifier::external_body]
pub struct ExRegexError(regex::Error);

/// Whether `regex::Regex::new` accepts `pattern`.
pub uninterp spec fn compiles(pattern: Seq<char>) -> bool;

/// Whether the expression that `regex::Regex::new` makes of `pattern` has a
/// match somewhere in `text`, as `regex::Regex::is_match` reports it.
pub uninterp spec fn finds(pattern: Seq<char>, text: Seq<char>) -> bool;

/// Compiles `pattern` with `regex::Regex::new` and asks the compiled
/// expression, through `regex::Regex::is_match`, whether it matches
/// anywhere in `text`.
///
/// Not proved: that the call comes back with an error exactly for the
/// patterns the crate refuses, and with the crate's own verdict otherwise;
/// and that both depend on the two texts alone.
#[verifier::external_body]
pub(crate) fn is_match(pattern: &str, text: &str) -> (found: Result<bool, regex::Error>)
    ensures
        found is Ok <==> compiles(pattern@),
        found matches Ok(verdict) ==> verdict == finds(pattern@, text@),
{
    Ok(regex::Regex::new(pattern)?.is_match(text))
}

/// What the pattern engine says of the first field of a line.
#[derive(Clone, Copy, Debug, PartialEq, Eq, Structural)]
pub struct Shape {
    /// Whether the instruction pattern matches.
    pub instruction: bool,
    /// Whether the data pattern matches.
    pub data: bool,
}

/// The shape of `field`, if the engine accepts both patterns.
pub open spec fn shape(field: Seq<char>) -> Result<Shape, ParseError> {
    if compiles(DATA_PATTERN@) && compiles(INSTRUCTION_PATTERN@) {
        Ok(
            Shape {
                instruction: finds(INSTRUCTION_PATTERN@, field),
                data: finds(DATA_PATTERN@, field),
            },
        )
    } else {
        Err(ParseError::InvalidPattern)
    }
}

/// What holding `text` against `pattern` comes to: the engine's verdict, or
/// an invalid pattern where it refuses `pattern`.
pub open spec fn matched(pattern: Seq<char>, text: Seq<char>) -> Result<bool, ParseError> {
    if compiles(pattern) {
        Ok(finds(pattern, text))
    } else {
        Err(ParseError::InvalidPattern)
    }
}

/// Holds `text` against `pattern`: whether the pattern matches somewhere in
/// the text, or [`ParseError::InvalidPattern`] if the engine refuses the
/// pattern.
pub fn search(pattern: &str, text: &str) -> (result: Result<bool, ParseError>)
    ensures
        result == matched(pattern@, text@),
{
    match is_match(pattern, text) {
        Ok(verdict) => Ok(verdict),
        Err(_) => Err(ParseError::InvalidPattern),
    }
}

/// Holds the first field of a line against the two patterns.
pub fn shape_of(field: &str) -> (result: Result<Shape, ParseError>)
    ensures
        result == shape(field@),
{
    let data = search(DATA_PATTERN, field)?;
    let instruction = search(INSTRUCTION_PATTERN, field)?;
    Ok(Shape { instruction, data })
}

} // verus!
