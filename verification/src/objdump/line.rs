//! One line of a disassembly, told apart and taken to pieces.
//!
//! A line is read in three steps. What follows the first `#` is a comment
//! and is dropped. What is left is cut into fields at each tab; a line whose
//! fields are all empty is blank. The first field is then held against two
//! patterns, the instruction pattern first:
//!
//! * an instruction line begins with an address and a colon, followed in the
//!   same field by the bytes of the instruction; its second field is the
//!   instruction itself;
//! * a data line begins with sixteen hexadecimal digits, followed by the
//!   words of the dump;
//! * a line of any other shape is kept as it is.
//!
//! A comment alone does not make a line blank: `   # note` leaves three
//! spaces, which is a first field of no known shape.

use vstd::prelude::*;
use vstd::string::*;

use crate::error::{outcome, ParseError};
use crate::number::{digits, is_digit, lemma_hex_fits, parse_hex, plus_number};
use crate::objdump::pattern::{shape, shape_of, Shape};
use crate::objdump::x8664_att::{instruction, parse_x8664_att_instruction};
use crate::objdump::x8664_att::{InstructionView, X8664ATTInstruction};
use crate::text::{chars_of, fields, is_whitespace, join, run, scan, slice, split};
use crate::text::{lemma_fields_first, lemma_fields_one, lemma_run_all, lemma_trim_end};
use crate::text::{lemma_words_first, lemma_words_one, split_whitespace, texts, trim_end};
use crate::text::{words, Stop};

verus! {

/// What a line of a disassembly is.
#[derive(Clone, Debug, PartialEq, Eq)]
pub enum ObjDumpLineType {
    Instruction(ObjDumpInstructionLine),
    Data(ObjDumpDataLine),
    /// A line of no known shape: its text, without the comment.
    Other(String),
    Blank,
}

/// An instruction with its address and its bytes.
#[derive(Clone, Debug, PartialEq, Eq)]
pub struct ObjDumpInstructionLine {
    pub address: u64,
    pub bytes: Vec<u8>,
    pub instruction: X8664ATTInstruction,
}

/// A line of a data dump: its address, and its words with one space between
/// them. The words are kept as text.
#[derive(Clone, Debug, PartialEq, Eq)]
pub struct ObjDumpDataLine {
    pub address: u64,
    pub data: String,
}

/// An instruction line as a contract sees it.
pub struct InstructionLineView {
    pub address: u64,
    pub bytes: Seq<u8>,
    pub instruction: InstructionView,
}

/// A data line as a contract sees it.
pub struct DataLineView {
    pub address: u64,
    pub data: Seq<char>,
}

/// A line as a contract sees it: texts are sequences of characters.
pub enum LineView {
    Instruction(InstructionLineView),
    Data(DataLineView),
    Other(Seq<char>),
    Blank,
}

impl View for ObjDumpInstructionLine {
    type V = InstructionLineView;

    open spec fn view(&self) -> InstructionLineView {
        InstructionLineView {
            address: self.address,
            bytes: self.bytes@,
            instruction: self.instruction@,
        }
    }
}

impl View for ObjDumpDataLine {
    type V = DataLineView;

    open spec fn view(&self) -> DataLineView {
        DataLineView { address: self.address, data: self.data@ }
    }
}

impl View for ObjDumpLineType {
    type V = LineView;

    open spec fn view(&self) -> LineView {
        match self {
            ObjDumpLineType::Instruction(line) => LineView::Instruction(line@),
            ObjDumpLineType::Data(line) => LineView::Data(line@),
            ObjDumpLineType::Other(text) => LineView::Other(text@),
            ObjDumpLineType::Blank => LineView::Blank,
        }
    }
}

/// The line without its comment: what stands before the first `#`.
pub open spec fn content(line: Seq<char>) -> Seq<char> {
    line.take(run(line, Stop::At('#')) as int)
}

/// Whether all the tab-separated fields of `content` are empty.
pub open spec fn is_blank(content: Seq<char>) -> bool {
    let f = fields(content, '\t');
    forall|i: int| 0 <= i < f.len() ==> (#[trigger] f[i]).len() == 0
}

/// The bytes that the words spell, each a hexadecimal number of at most
/// `ff`. The first word that is none decides the error.
pub open spec fn bytes(ws: Seq<Seq<char>>) -> Result<Seq<u8>, ParseError>
    decreases ws.len(),
{
    if ws.len() == 0 {
        Ok(Seq::empty())
    } else {
        match plus_number(ws[0], 16, 0xff) {
            None => Err(ParseError::MalformedInteger),
            Some(first) => bytes_after(seq![first as u8], bytes(ws.skip(1))),
        }
    }
}

/// `rest` with the bytes `front` set before its own.
pub open spec fn bytes_after(front: Seq<u8>, rest: Result<Seq<u8>, ParseError>) -> Result<
    Seq<u8>,
    ParseError,
> {
    match rest {
        Err(e) => Err(e),
        Ok(more) => Ok(front + more),
    }
}

/// The second field, where there is one; else an empty text.
pub open spec fn second(f: Seq<Seq<char>>) -> Seq<char> {
    if f.len() > 1 {
        f[1]
    } else {
        Seq::empty()
    }
}

/// An instruction line with the fields `f`. The first word of the first
/// field, without the colons that end it, is the address in hexadecimal; the
/// words after it are the bytes; the second field is the instruction. The
/// address is read first, then the bytes, then the instruction, and the first
/// of them that fails decides the error.
pub open spec fn instruction_line(f: Seq<Seq<char>>) -> Result<LineView, ParseError> {
    let ws = words(f[0]);
    if ws.len() == 0 {
        Err(ParseError::EmptyInput)
    } else {
        match plus_number(trim_end(ws[0], ':'), 16, u64::MAX) {
            None => Err(ParseError::MalformedInteger),
            Some(address) => match bytes(ws.skip(1)) {
                Err(e) => Err(e),
                Ok(bytes) => match instruction(second(f)) {
                    Err(e) => Err(e),
                    Ok(instruction) => Ok(
                        LineView::Instruction(InstructionLineView { address, bytes, instruction }),
                    ),
                },
            },
        }
    }
}

/// A data line with the first field `field`. Its first word is the address
/// in hexadecimal; the words after it, with one space between them, are the
/// data.
pub open spec fn data_line(field: Seq<char>) -> Result<LineView, ParseError> {
    let ws = words(field);
    if ws.len() == 0 {
        Err(ParseError::EmptyInput)
    } else {
        match plus_number(ws[0], 16, u64::MAX) {
            None => Err(ParseError::MalformedInteger),
            Some(address) => Ok(
                LineView::Data(DataLineView { address, data: join(ws.skip(1), seq![' ']) }),
            ),
        }
    }
}

/// What a line with the given content is, when its first field has the
/// given shape. The instruction pattern goes first: a first field that
/// matches both patterns is that of an instruction line.
pub open spec fn classified(content: Seq<char>, shape: Shape) -> Result<LineView, ParseError> {
    if is_blank(content) {
        Ok(LineView::Blank)
    } else if shape.instruction {
        instruction_line(fields(content, '\t'))
    } else if shape.data {
        data_line(fields(content, '\t')[0])
    } else {
        Ok(LineView::Other(content))
    }
}

/// What the line is. A blank line is blank whatever the pattern engine
/// would say; for any other line the engine has to accept the two patterns,
/// and its verdicts on the first field decide between the shapes.
pub open spec fn parsed(line: Seq<char>) -> Result<LineView, ParseError> {
    let content = content(line);
    if is_blank(content) {
        Ok(LineView::Blank)
    } else {
        match shape(fields(content, '\t')[0]) {
            Err(e) => Err(e),
            Ok(shape) => classified(content, shape),
        }
    }
}

/// An address, a colon, a tab and the column `90` make an instruction line
/// at that address: for every address of one to sixteen hexadecimal digits,
/// if the engine finds the instruction pattern in the first field, the line
/// parses to an instruction line whose address is the number the digits
/// spell.
pub proof fn lemma_instruction_line_address(address: Seq<char>)
    requires
        1 <= address.len() <= 16,
        forall|i: int| 0 <= i < address.len() ==> is_digit(#[trigger] address[i], 16),
    ensures
        digits(address, 16) is Some,
        (shape(address + seq![':']) matches Ok(found) && found.instruction) ==> (parsed(
            address + seq![':', '\t', '9', '0'],
        ) matches Ok(LineView::Instruction(line)) && line.address == digits(address, 16).unwrap()),
{
    let first = address + seq![':'];
    let column = seq!['9', '0'];
    let line = first + seq!['\t'] + column;
    let n = address.len() as int;
    assert(line == address + seq![':', '\t', '9', '0']);
    lemma_hex_fits(address);
    // No comment, and one tab.
    assert forall|i: int| 0 <= i < line.len() implies !Stop::At('#').holds(#[trigger] line[i]) by {
        if i < n {
            assert(is_digit(address[i], 16));
        }
    }
    lemma_run_all(line, Stop::At('#'));
    assert(content(line) == line);
    assert forall|i: int| 0 <= i < first.len() implies #[trigger] first[i] != '\t' by {
        if i < n {
            assert(is_digit(address[i], 16));
        }
    }
    lemma_fields_first(first, column, '\t');
    lemma_fields_one(column, '\t');
    let f = fields(line, '\t');
    assert(f == seq![first, column]);
    assert(f[0].len() > 0);
    // The first field is one word: the address with its colon.
    assert forall|i: int| 0 <= i < first.len() implies !is_whitespace(#[trigger] first[i]) by {
        if i < n {
            assert(is_digit(address[i], 16));
        }
    }
    lemma_words_one(first);
    assert(is_digit(address[n - 1], 16));
    lemma_trim_end(first, ':', n);
    assert(first.take(n) == address);
    assert(words(first).skip(1) == Seq::<Seq<char>>::empty());
    // The column is one word, a mnemonic without operands.
    lemma_words_one(column);
    assert(words(column).skip(1) == Seq::<Seq<char>>::empty());
    assert(second(f) == column);
}

/// Sixteen hexadecimal digits, a space and the word `deadbeef` make a data
/// line: for every such address, if the engine finds the data pattern and
/// not the instruction pattern in the line, the line parses to a data line
/// whose address is the number the digits spell and whose data is
/// `deadbeef`.
pub proof fn lemma_data_line_address(address: Seq<char>)
    requires
        address.len() == 16,
        forall|i: int| 0 <= i < address.len() ==> is_digit(#[trigger] address[i], 16),
    ensures
        digits(address, 16) is Some,
        (shape(address + seq![' '] + "deadbeef"@) matches Ok(found) && !found.instruction
            && found.data) ==> parsed(address + seq![' '] + "deadbeef"@) == Ok::<
            LineView,
            ParseError,
        >(
            LineView::Data(
                DataLineView {
                    address: digits(address, 16).unwrap() as u64,
                    data: "deadbeef"@,
                },
            ),
        ),
{
    reveal_strlit("deadbeef");
    let word = "deadbeef"@;
    let line = address + seq![' '] + word;
    lemma_hex_fits(address);
    // No comment and no tab: the line is its own first field.
    assert forall|i: int| 0 <= i < line.len() implies !Stop::At('#').holds(#[trigger] line[i])
        && line[i] != '\t' by {
        if i < 16 {
            assert(is_digit(address[i], 16));
        }
    }
    lemma_run_all(line, Stop::At('#'));
    assert(content(line) == line);
    lemma_fields_one(line, '\t');
    assert(fields(line, '\t')[0] == line);
    assert(!is_blank(line));
    // Two words: the address and the data.
    assert forall|i: int| 0 <= i < 16 implies !is_whitespace(#[trigger] address[i]) by {
        assert(is_digit(address[i], 16));
    }
    lemma_words_first(address, ' ', word);
    lemma_words_one(word);
    let ws = words(line);
    assert(ws == seq![address, word]);
    assert(ws.skip(1) == seq![word]);
}

/// Parsing is a function of the line: whatever two runs on one line return
/// looks alike, value for value and error for error.
pub proof fn lemma_parse_deterministic(
    line: Seq<char>,
    once: Result<ObjDumpLineType, ParseError>,
    again: Result<ObjDumpLineType, ParseError>,
)
    requires
        outcome(once) == parsed(line),
        outcome(again) == parsed(line),
    ensures
        outcome(once) == outcome(again),
{
}

/// The line without its comment.
pub fn strip_comment(line: &str) -> (text: &str)
    ensures
        text@ == content(line@),
{
    let chars = chars_of(line);
    proof {
        assert(chars@.skip(0) == chars@);
    }
    let end = scan(&chars, 0, Stop::At('#'));
    slice(line, 0, end)
}

/// `token` without the colons that end it.
pub fn trim_colons(token: &str) -> (text: &str)
    ensures
        text@ == trim_end(token@, ':'),
{
    let chars = chars_of(token);
    let mut n: usize = chars.len();
    while n > 0 && chars[n - 1] == ':'
        invariant
            n <= chars@.len(),
            forall|i: int| n <= i < chars@.len() ==> chars@[i] == ':',
        decreases n,
    {
        n -= 1;
    }
    proof {
        lemma_trim_end(chars@, ':', n as int);
    }
    slice(token, 0, n)
}

/// Whether all the fields are empty.
fn blank(found: &Vec<&str>) -> (blank: bool)
    ensures
        blank == forall|i: int| 0 <= i < found@.len() ==> (#[trigger] texts(found@)[i]).len() == 0,
{
    let mut i: usize = 0;
    while i < found.len()
        invariant
            i <= found@.len(),
            forall|j: int| 0 <= j < i ==> (#[trigger] texts(found@)[j]).len() == 0,
        decreases found@.len() - i,
    {
        if !found[i].is_empty() {
            assert(texts(found@)[i as int].len() != 0);
            return false;
        }
        i += 1;
    }
    true
}

/// Reads the words from the second on as bytes.
fn read_bytes(found: &Vec<&str>) -> (result: Result<Vec<u8>, ParseError>)
    requires
        found@.len() > 0,
    ensures
        outcome(result) == bytes(texts(found@).skip(1)),
{
    let ghost rest = texts(found@).skip(1);
    let mut read: Vec<u8> = Vec::new();
    let mut i: usize = 1;
    proof {
        assert(rest.skip(0) == rest);
        assert(read@ + Seq::<u8>::empty() == read@);
    }
    while i < found.len()
        invariant
            1 <= i <= found@.len(),
            rest == texts(found@).skip(1),
            bytes(rest) == bytes_after(read@, bytes(rest.skip(i - 1))),
        decreases found@.len() - i,
    {
        let ghost tail = rest.skip(i - 1);
        let ghost before = read@;
        proof {
            assert(tail[0] == found[i as int]@);
            assert(tail.skip(1) == rest.skip(i as int));
        }
        let byte = parse_hex(found[i], 0xff).ok_or(ParseError::MalformedInteger)?;
        read.push(byte as u8);
        proof {
            if let Ok(more) = bytes(tail.skip(1)) {
                assert(before + (seq![byte as u8] + more) == read@ + more);
            }
        }
        i += 1;
    }
    proof {
        assert(read@ + Seq::<u8>::empty() == read@);
    }
    Ok(read)
}

/// Sets the words from the second on one after another, with one space
/// between neighbours.
fn join_rest(found: &Vec<&str>) -> (data: String)
    requires
        found@.len() > 0,
    ensures
        data@ == join(texts(found@).skip(1), seq![' ']),
{
    let ghost rest = texts(found@).skip(1);
    let mut data = String::new();
    let mut i: usize = 1;
    proof {
        reveal_strlit(" ");
        assert(" "@ == seq![' ']);
        assert(rest.take(0) == Seq::<Seq<char>>::empty());
    }
    while i < found.len()
        invariant
            1 <= i <= found@.len(),
            rest == texts(found@).skip(1),
            " "@ == seq![' '],
            data@ == join(rest.take(i - 1), seq![' ']),
        decreases found@.len() - i,
    {
        proof {
            let upto = rest.take(i as int);
            assert(upto.last() == found[i as int]@);
            assert(upto.drop_last() == rest.take(i - 1));
            if i == 1 {
                assert(data@ + found[i as int]@ == found[i as int]@);
            }
        }
        if i > 1 {
            data.append(" ");
        }
        data.append(found[i]);
        i += 1;
    }
    proof {
        assert(rest.take(i - 1) == rest);
    }
    data
}

/// Reads an instruction line with the given fields.
fn read_instruction_line(found: &Vec<&str>) -> (result: Result<ObjDumpLineType, ParseError>)
    requires
        found@.len() > 0,
    ensures
        outcome(result) == instruction_line(texts(found@)),
{
    let ws = split_whitespace(found[0]);
    if ws.len() == 0 {
        return Err(ParseError::EmptyInput);
    }
    proof {
        assert(ws[0]@ == words(found[0]@)[0]);
    }
    let address = parse_hex(trim_colons(ws[0]), u64::MAX).ok_or(ParseError::MalformedInteger)?;
    let bytes = read_bytes(&ws)?;
    let column = if found.len() > 1 {
        found[1]
    } else {
        ""
    };
    proof {
        reveal_strlit("");
        assert(column@ == second(texts(found@)));
    }
    let instruction = parse_x8664_att_instruction(column)?;
    Ok(ObjDumpLineType::Instruction(ObjDumpInstructionLine { address, bytes, instruction }))
}

/// Reads a data line with the first field `field`.
fn read_data_line(field: &str) -> (result: Result<ObjDumpLineType, ParseError>)
    ensures
        outcome(result) == data_line(field@),
{
    let ws = split_whitespace(field);
    if ws.len() == 0 {
        return Err(ParseError::EmptyInput);
    }
    proof {
        assert(ws[0]@ == words(field@)[0]);
    }
    let address = parse_hex(ws[0], u64::MAX).ok_or(ParseError::MalformedInteger)?;
    Ok(ObjDumpLineType::Data(ObjDumpDataLine { address, data: join_rest(&ws) }))
}

/// Reads a line that is not blank, given its fields and the shape of the
/// first of them.
fn read_line(text: &str, found: &Vec<&str>, shape: Shape) -> (result: Result<
    ObjDumpLineType,
    ParseError,
>)
    requires
        texts(found@) == fields(text@, '\t'),
        !is_blank(text@),
    ensures
        outcome(result) == classified(text@, shape),
{
    if shape.instruction {
        read_instruction_line(found)
    } else if shape.data {
        proof {
            assert(found[0]@ == fields(text@, '\t')[0]);
        }
        read_data_line(found[0])
    } else {
        Ok(ObjDumpLineType::Other(text.to_owned()))
    }
}

/// Takes a line without comment to pieces, given what the patterns say of
/// its first field.
///
/// A blank line is [`ObjDumpLineType::Blank`] whatever the shape. Else an
/// instruction shape gives an instruction line, a data shape a data line, and
/// neither gives [`ObjDumpLineType::Other`] with the text unchanged. The
/// errors are those of the contents: [`ParseError::MalformedInteger`] for an
/// address or a byte that is no hexadecimal number of its size,
/// [`ParseError::EmptyInput`] where the first field, or the instruction
/// column of an instruction line, holds no word, and the errors of the
/// instruction's operands.
pub fn classify(text: &str, shape: Shape) -> (result: Result<ObjDumpLineType, ParseError>)
    ensures
        outcome(result) == classified(text@, shape),
{
    let found = split(text, '\t');
    if blank(&found) {
        return Ok(ObjDumpLineType::Blank);
    }
    read_line(text, &found, shape)
}

/// Parses one line of a disassembly, given without its line break.
///
/// A line that holds nothing but tabs before its comment is
/// [`ObjDumpLineType::Blank`]. For any other line the first field is held
/// against the instruction pattern and the data pattern, and the line is
/// read as [`classify`] describes. A line of unknown shape is no error; an
/// error speaks of what a line of known shape holds, or, as
/// [`ParseError::InvalidPattern`], of a pattern that the engine refused.
pub fn parse_objdump_line(line: &str) -> (result: Result<ObjDumpLineType, ParseError>)
    ensures
        outcome(result) == parsed(line@),
{
    let text = strip_comment(line);
    let found = split(text, '\t');
    if blank(&found) {
        return Ok(ObjDumpLineType::Blank);
    }
    proof {
        assert(found[0]@ == fields(text@, '\t')[0]);
    }
    read_line(text, &found, shape_of(found[0])?)
}

} // verus!
