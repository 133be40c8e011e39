//! Operands in AT&T syntax: a register (`%rax`), an immediate (`$0x10`), or
//! an address expression (`-0x8(%rbp,%rax,4)`).
//!
//! An address expression is written `DISP(BASE,INDEX,SCALE)`. The index is
//! required; the displacement, the base and the scale may each be left out,
//! and the scale may go together with its comma. The fields keep what was
//! written: nothing is resolved to an effective address.
//!
//! The displacement is the one number that may have a sign: `-0x8` is kept
//! as `0xfffffffffffffff8`, the 64-bit two's complement of eight. How to
//! read it back as a signed number is left to the caller.
//!
//! The shape of a token is looked at before its numbers: a token without
//! brackets, without an index, or with more than three parts between the
//! brackets is a malformed address expression even where its numbers are
//! malformed too.

use vstd::prelude::*;

use crate::error::{outcome, ParseError};
use crate::number::{displacement, immediate, literal};
use crate::number::{parse_displacement, parse_immediate, parse_integer};
use crate::objdump::x8664_att::register::{register, register_of, Register, RegisterView};
use crate::text::{chars_of, fields, lemma_run, run, scan, slice, split, starts_with, Stop};

verus! {

/// The base or the index of an address expression.
#[derive(Clone, Debug, PartialEq, Eq)]
pub enum AddressTerm {
    Register(Register),
    Immediate(u64),
}

/// The parts of an address expression, as they were written.
#[derive(Clone, Debug, PartialEq, Eq)]
pub struct AddressExpr {
    /// The displacement; a negative one as its 64-bit two's complement.
    pub displacement: Option<u64>,
    pub base: Option<AddressTerm>,
    pub index: AddressTerm,
    pub scale: Option<u64>,
}

/// One operand of an instruction.
#[derive(Clone, Debug, PartialEq, Eq)]
pub enum Operand {
    Register(Register),
    Immediate(u64),
    Address(AddressExpr),
}

/// A base or index as a contract sees it.
pub enum AddressTermView {
    Register(RegisterView),
    Immediate(u64),
}

/// An address expression as a contract sees it.
pub struct AddressExprView {
    pub displacement: Option<u64>,
    pub base: Option<AddressTermView>,
    pub index: AddressTermView,
    pub scale: Option<u64>,
}

/// An operand as a contract sees it.
pub enum OperandView {
    Register(RegisterView),
    Immediate(u64),
    Address(AddressExprView),
}

impl View for AddressTerm {
    type V = AddressTermView;

    open spec fn view(&self) -> AddressTermView {
        match self {
            AddressTerm::Register(r) => AddressTermView::Register(r@),
            AddressTerm::Immediate(v) => AddressTermView::Immediate(*v),
        }
    }
}

impl View for AddressExpr {
    type V = AddressExprView;

    open spec fn view(&self) -> AddressExprView {
        AddressExprView {
            displacement: self.displacement,
            base: match self.base {
                Some(term) => Some(term@),
                None => None,
            },
            index: self.index@,
            scale: self.scale,
        }
    }
}

impl View for Operand {
    type V = OperandView;

    open spec fn view(&self) -> OperandView {
        match self {
            Operand::Register(r) => OperandView::Register(r@),
            Operand::Immediate(v) => OperandView::Immediate(*v),
            Operand::Address(a) => OperandView::Address(a@),
        }
    }
}

/// A number that may be left out: an empty text is no number, any other text
/// has to spell one.
pub open spec fn optional(text: Seq<char>, value: Option<u64>) -> Result<Option<u64>, ParseError> {
    if text.len() == 0 {
        Ok(None)
    } else {
        match value {
            Some(v) => Ok(Some(v)),
            None => Err(ParseError::MalformedInteger),
        }
    }
}

/// The base or index that `text` spells: an immediate if it begins with `$`,
/// else a register, named with or without `%`.
pub open spec fn term(text: Seq<char>) -> Result<AddressTermView, ParseError> {
    if text.len() > 0 && text[0] == '$' {
        match immediate(text) {
            Some(v) => Ok(AddressTermView::Immediate(v)),
            None => Err(ParseError::MalformedInteger),
        }
    } else {
        Ok(AddressTermView::Register(register(text)))
    }
}

/// A base that may be left out.
pub open spec fn optional_term(text: Seq<char>) -> Result<Option<AddressTermView>, ParseError> {
    if text.len() == 0 {
        Ok(None)
    } else {
        match term(text) {
            Ok(t) => Ok(Some(t)),
            Err(e) => Err(e),
        }
    }
}

/// The address expression with the four parts as written. The parts are read
/// in the order displacement, base, index, scale, and the first that is
/// malformed decides the error.
pub open spec fn address_of(
    disp: Seq<char>,
    base: Seq<char>,
    index: Seq<char>,
    scale: Seq<char>,
) -> Result<AddressExprView, ParseError> {
    match optional(disp, displacement(disp)) {
        Err(e) => Err(e),
        Ok(displacement) => match optional_term(base) {
            Err(e) => Err(e),
            Ok(base) => match term(index) {
                Err(e) => Err(e),
                Ok(index) => match optional(scale, literal(scale)) {
                    Err(e) => Err(e),
                    Ok(scale) => Ok(AddressExprView { displacement, base, index, scale }),
                },
            },
        },
    }
}

/// Whether `token` has the shape of an address expression: an opening
/// bracket, a closing bracket as its last character, and between the two
/// either two or three comma-separated parts of which the second, the index,
/// is not empty.
pub open spec fn is_bracketed(token: Seq<char>) -> bool {
    let open = run(token, Stop::At('(')) as int;
    &&& open < token.len()
    &&& token.last() == ')'
    &&& {
        let parts = fields(token.subrange(open + 1, token.len() - 1), ',');
        2 <= parts.len() <= 3 && parts[1].len() > 0
    }
}

/// The address expression that `token` spells. A token without the shape of
/// one is a malformed address expression; a part that does not spell its
/// value is a malformed integer.
pub open spec fn address(token: Seq<char>) -> Result<AddressExprView, ParseError> {
    if !is_bracketed(token) {
        Err(ParseError::MalformedAddressExpression)
    } else {
        let open = run(token, Stop::At('(')) as int;
        let parts = fields(token.subrange(open + 1, token.len() - 1), ',');
        address_of(
            token.take(open),
            parts[0],
            parts[1],
            if parts.len() == 3 {
                parts[2]
            } else {
                Seq::empty()
            },
        )
    }
}

/// The operand that `token` spells: a register after `%`, an immediate after
/// `$`, an address expression otherwise.
pub open spec fn operand(token: Seq<char>) -> Result<OperandView, ParseError> {
    if token.len() > 0 && token[0] == '%' {
        Ok(OperandView::Register(register(token)))
    } else if token.len() > 0 && token[0] == '$' {
        match immediate(token) {
            Some(v) => Ok(OperandView::Immediate(v)),
            None => Err(ParseError::MalformedInteger),
        }
    } else {
        match address(token) {
            Ok(a) => Ok(OperandView::Address(a)),
            Err(e) => Err(e),
        }
    }
}

/// A token that is neither a register nor an immediate and has not the shape
/// of an address expression is a malformed address expression.
pub proof fn lemma_shapeless_operand(token: Seq<char>)
    requires
        token.len() == 0 || (token[0] != '%' && token[0] != '$'),
        !is_bracketed(token),
    ensures
        operand(token) == Err::<OperandView, ParseError>(ParseError::MalformedAddressExpression),
{
}

/// A token that does not end with a closing bracket, whether or not it holds
/// an opening one, has not the shape of an address expression.
pub proof fn lemma_unmatched_bracket(token: Seq<char>)
    requires
        token.len() == 0 || token.last() != ')',
    ensures
        !is_bracketed(token),
{
    lemma_run(token, Stop::At('('));
}

/// Parses the base or the index of an address expression.
pub fn parse_term(text: &str) -> (result: Result<AddressTerm, ParseError>)
    ensures
        outcome(result) == term(text@),
{
    if starts_with(text, '$') {
        Ok(AddressTerm::Immediate(parse_immediate(text)?))
    } else {
        Ok(AddressTerm::Register(register_of(text)))
    }
}

/// Parses an address expression `DISP(BASE,INDEX,SCALE)`.
///
/// The token is refused as [`ParseError::MalformedAddressExpression`] unless
/// it holds an opening bracket, ends with a closing bracket, and has two or
/// three comma-separated parts between them with a non-empty index. A
/// displacement, scale or immediate that does not spell a number is refused
/// as [`ParseError::MalformedInteger`].
pub fn parse_address(token: &str) -> (result: Result<AddressExpr, ParseError>)
    ensures
        outcome(result) == address(token@),
{
    let chars = chars_of(token);
    let n = chars.len();
    proof {
        assert(chars@.skip(0) == chars@);
    }
    let open = scan(&chars, 0, Stop::At('('));
    if open == n || chars[n - 1] != ')' {
        return Err(ParseError::MalformedAddressExpression);
    }
    let parts = split(slice(token, open + 1, n - 1), ',');
    if parts.len() < 2 || parts.len() > 3 || parts[1].is_empty() {
        return Err(ParseError::MalformedAddressExpression);
    }
    proof {
        assert(token@.take(open as int) == token@.subrange(0, open as int));
    }
    let displacement = if open == 0 {
        None
    } else {
        Some(parse_displacement(slice(token, 0, open))?)
    };
    let base = if parts[0].is_empty() {
        None
    } else {
        Some(parse_term(parts[0])?)
    };
    let index = parse_term(parts[1])?;
    let scale = if parts.len() < 3 || parts[2].is_empty() {
        None
    } else {
        Some(parse_integer(parts[2])?)
    };
    Ok(AddressExpr { displacement, base, index, scale })
}

/// Parses one operand. A token that begins with `%` is a register and never
/// fails; one that begins with `$` is an immediate; any other token has to be
/// an address expression.
pub fn parse_operand(token: &str) -> (result: Result<Operand, ParseError>)
    ensures
        outcome(result) == operand(token@),
{
    if starts_with(token, '%') {
        Ok(Operand::Register(register_of(token)))
    } else if starts_with(token, '$') {
        Ok(Operand::Immediate(parse_immediate(token)?))
    } else {
        Ok(Operand::Address(parse_address(token)?))
    }
}

} // verus!
