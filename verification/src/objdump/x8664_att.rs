//! Instructions in AT&T syntax, as a disassembly prints them: a mnemonic,
//! operands in the order in which they are written, and, where the
//! disassembler added one, the symbol the instruction refers to
//! (`callq <memcpy>`).
//!
//! The words of an instruction are what whitespace separates, and nothing
//! else separates them: a comma written after an operand is part of that
//! operand's word.

pub mod opcode;
pub mod operand;
pub mod register;

use vstd::prelude::*;

use crate::error::{outcome, ParseError};
use crate::objdump::x8664_att::opcode::{opcode, opcode_of, Opcode, OpcodeView};
use crate::objdump::x8664_att::operand::{operand, parse_operand, Operand, OperandView};
use crate::text::{split_whitespace, starts_with, texts, words};

verus! {

/// One instruction.
#[derive(Clone, Debug, PartialEq, Eq)]
pub struct X8664ATTInstruction {
    pub opcode: Opcode,
    /// The operands, in the order of the source text (source before
    /// destination).
    pub operands: Vec<Operand>,
    /// The word that begins with `<`, if there is one; else empty.
    pub trailing_symbol: String,
}

/// An instruction as a contract sees it.
pub struct InstructionView {
    pub opcode: OpcodeView,
    pub operands: Seq<OperandView>,
    pub trailing_symbol: Seq<char>,
}

impl View for X8664ATTInstruction {
    type V = InstructionView;

    open spec fn view(&self) -> InstructionView {
        InstructionView {
            opcode: self.opcode@,
            operands: views(self.operands@),
            trailing_symbol: self.trailing_symbol@,
        }
    }
}

/// The operands as a contract sees them, one for one.
pub open spec fn views(operands: Seq<Operand>) -> Seq<OperandView> {
    Seq::new(operands.len(), |i: int| operands[i]@)
}

/// Whether `word` is the symbol that ends the operands.
pub open spec fn is_symbol(word: Seq<char>) -> bool {
    word.len() > 0 && word[0] == '<'
}

/// What the words after the mnemonic hold: the operands up to the first
/// symbol, and that symbol (empty if there is none). Words after the symbol
/// are not looked at. The first word that is no operand decides the error.
pub open spec fn operands_and_symbol(ws: Seq<Seq<char>>) -> Result<
    (Seq<OperandView>, Seq<char>),
    ParseError,
>
    decreases ws.len(),
{
    if ws.len() == 0 {
        Ok((Seq::empty(), Seq::empty()))
    } else if is_symbol(ws[0]) {
        Ok((Seq::empty(), ws[0]))
    } else {
        match operand(ws[0]) {
            Err(e) => Err(e),
            Ok(first) => after(seq![first], operands_and_symbol(ws.skip(1))),
        }
    }
}

/// `rest` with the operands `front` set before its own.
pub open spec fn after(
    front: Seq<OperandView>,
    rest: Result<(Seq<OperandView>, Seq<char>), ParseError>,
) -> Result<(Seq<OperandView>, Seq<char>), ParseError> {
    match rest {
        Err(e) => Err(e),
        Ok((operands, symbol)) => Ok((front + operands, symbol)),
    }
}

/// The instruction that `text` spells: the first word is the mnemonic, the
/// words after it are operands up to the first word that begins with `<`.
/// A text without a word is empty input.
pub open spec fn instruction(text: Seq<char>) -> Result<InstructionView, ParseError> {
    let ws = words(text);
    if ws.len() == 0 {
        Err(ParseError::EmptyInput)
    } else {
        match operands_and_symbol(ws.skip(1)) {
            Err(e) => Err(e),
            Ok((operands, trailing_symbol)) => Ok(
                InstructionView { opcode: opcode(ws[0]), operands, trailing_symbol },
            ),
        }
    }
}

/// Parses the instruction column of a disassembly line.
///
/// The text is split at whitespace. The first word is the mnemonic; it always
/// resolves, to [`Opcode::Unknown`] if the table does not hold it. Each
/// further word is an operand, until a word begins with `<`: that word
/// becomes the trailing symbol and the rest of the text is dropped. The
/// result is [`ParseError::EmptyInput`] if the text holds no word, and the
/// error of the first word that is no operand if there is one: no instruction
/// comes back with some of its operands missing.
pub fn parse_x8664_att_instruction(text: &str) -> (result: Result<X8664ATTInstruction, ParseError>)
    ensures
        outcome(result) == instruction(text@),
{
    let found = split_whitespace(text);
    if found.len() == 0 {
        return Err(ParseError::EmptyInput);
    }
    let ghost ws = words(text@);
    let ghost rest = ws.skip(1);
    let op = opcode_of(found[0]);
    let mut operands: Vec<Operand> = Vec::new();
    let mut i: usize = 1;
    proof {
        assert(found[0]@ == ws[0]);
        assert(rest.skip(0) == rest);
        assert(views(operands@) + Seq::<OperandView>::empty() == views(operands@));
    }
    while i < found.len()
        invariant
            1 <= i <= found@.len(),
            ws == words(text@),
            texts(found@) == ws,
            rest == ws.skip(1),
            op@ == opcode(ws[0]),
            operands_and_symbol(rest) == after(
                views(operands@),
                operands_and_symbol(rest.skip(i - 1)),
            ),
        decreases found@.len() - i,
    {
        let word = found[i];
        let ghost tail = rest.skip(i - 1);
        let ghost before = operands@;
        proof {
            assert(word@ == ws[i as int]);
            assert(tail[0] == word@);
            assert(tail.skip(1) == rest.skip(i as int));
            assert(views(before) + Seq::<OperandView>::empty() == views(before));
        }
        if starts_with(word, '<') {
            return Ok(
                X8664ATTInstruction {
                    opcode: op,
                    operands,
                    trailing_symbol: word.to_owned(),
                },
            );
        }
        let parsed = parse_operand(word)?;
        let ghost added = parsed@;
        operands.push(parsed);
        proof {
            assert(views(operands@) == views(before) + seq![added]);
            if let Ok((more, symbol)) = operands_and_symbol(tail.skip(1)) {
                assert(views(before) + (seq![added] + more) == views(operands@) + more);
            }
        }
        i += 1;
    }
    proof {
        assert(views(operands@) + Seq::<OperandView>::empty() == views(operands@));
    }
    Ok(X8664ATTInstruction { opcode: op, operands, trailing_symbol: String::new() })
}

} // verus!
