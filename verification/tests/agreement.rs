//! The line parser against the same reading written with the standard
//! library and the pattern engine.

use objdump_att::error::ParseError;
use objdump_att::objdump::line::{
    parse_objdump_line, ObjDumpDataLine, ObjDumpInstructionLine, ObjDumpLineType,
};
use objdump_att::objdump::pattern::{DATA_PATTERN, INSTRUCTION_PATTERN};
use objdump_att::objdump::x8664_att::parse_x8664_att_instruction;

fn hexadecimal(word: &str) -> Result<u64, ParseError> {
    u64::from_str_radix(word, 16).map_err(|_| ParseError::MalformedInteger)
}

fn byte(word: &str) -> Result<u8, ParseError> {
    u8::from_str_radix(word, 16).map_err(|_| ParseError::MalformedInteger)
}

fn plainly(line: &str) -> Result<ObjDumpLineType, ParseError> {
    let content = line.split('#').next().unwrap_or("");
    let fields: Vec<&str> = content.split('\t').collect();
    if fields.iter().all(|field| field.is_empty()) {
        return Ok(ObjDumpLineType::Blank);
    }
    let words: Vec<&str> = fields[0].split_whitespace().collect();
    if regex::Regex::new(INSTRUCTION_PATTERN).unwrap().is_match(fields[0]) {
        let first = words.first().ok_or(ParseError::EmptyInput)?;
        let address = hexadecimal(first.trim_end_matches(':'))?;
        let bytes = words[1..].iter().map(|word| byte(word)).collect::<Result<Vec<u8>, _>>()?;
        let instruction = parse_x8664_att_instruction(fields.get(1).copied().unwrap_or(""))?;
        Ok(ObjDumpLineType::Instruction(ObjDumpInstructionLine { address, bytes, instruction }))
    } else if regex::Regex::new(DATA_PATTERN).unwrap().is_match(fields[0]) {
        let first = words.first().ok_or(ParseError::EmptyInput)?;
        let address = hexadecimal(first)?;
        Ok(ObjDumpLineType::Data(ObjDumpDataLine { address, data: words[1..].join(" ") }))
    } else {
        Ok(ObjDumpLineType::Other(content.to_string()))
    }
}

const LISTING: [&str; 64] = [
    "",
    " ",
    "\t",
    "\t\t",
    "#",
    " #",
    "\t#\t",
    "a.out:     file format elf64-x86-64",
    "Disassembly of section .text:",
    "0000000000401000 <_start>:",
    "  401000:\t48 89 e5             \tmov    %rsp,%rbp",
    "  401000: 48 89 e5\tmov %rsp %rbp",
    "  401003: e8 00 00 00 00\tcallq <main>",
    "  401008: 48 8d 44 85 f8\tlea -0x8(%rbp,%rax,4) %rax",
    "  40100d: c3\tretq",
    "  40100e: 66 90\txchg %ax %ax",
    "401010: 0f 1f 44 00 00\tnopl (%rax,%rax,1)",
    "401015:\tnop",
    "401015::\tnop",
    "401015 :\tnop",
    ":401015:\tnop",
    ": 401015\tnop",
    "=> 401015: 90\tnop",
    "=>401015: 90\tnop",
    "+401015: 90\tnop",
    "-401015: 90\tnop",
    "(401015): 90\tnop",
    "é401015: 90\tnop",
    "_401015: 90\tnop",
    "\u{a0}401015: 90\tnop",
    "401015: +90\tnop",
    "401015: -90\tnop",
    "401015: 9\tnop",
    "401015: 090\tnop",
    "401015: 100\tnop",
    "401015: 9g\tnop",
    "401015: 90 \u{3000}c3\tnop",
    "401015: 90",
    "401015: 90\t",
    "401015: 90\t\tnop",
    "401015: 90\tnop\tnop",
    "401015: 90\tmov $zz",
    "401015: 90\tmov (%rax",
    "401015: 90\tnop # note",
    "401015: 90 # note\tnop",
    "40#1015: 90\tnop",
    "ffffffffffffffff: 90\tnop",
    "0ffffffffffffffff: 90\tnop",
    "1ffffffffffffffff: 90\tnop",
    "0000000000601040 00000000 00000000",
    "0000000000601040\t00000000",
    "0000000000601040",
    "0000000000601040:",
    "0000000000601040: 7f",
    "00000000006010400 7f",
    "10000000006010400 7f",
    "000000000060104g 7f",
    "000000000060104 7f",
    " 0000000000601040 7f",
    "+000000000060104 7f",
    "0000000000601040+ 7f",
    "0000000000601040 é  日本\u{2003}x ",
    "FFFFFFFFFFFFFFFF ff",
    "\t401015: 90",
];

#[test]
fn a_listing_reads_as_it_does_plainly() {
    for line in LISTING {
        assert_eq!(parse_objdump_line(line), plainly(line), "{line:?}");
    }
}

#[test]
fn the_listing_holds_lines_of_every_kind() {
    let parsed: Vec<_> = LISTING.iter().map(|line| parse_objdump_line(line)).collect();
    let count = |wanted: fn(&Result<ObjDumpLineType, ParseError>) -> bool| {
        parsed.iter().filter(|result| wanted(result)).count()
    };
    assert!(count(|r| matches!(r, Ok(ObjDumpLineType::Blank))) >= 5);
    assert!(count(|r| matches!(r, Ok(ObjDumpLineType::Instruction(_)))) >= 10);
    assert!(count(|r| matches!(r, Ok(ObjDumpLineType::Data(_)))) >= 5);
    assert!(count(|r| matches!(r, Ok(ObjDumpLineType::Other(_)))) >= 5);
    assert!(count(|r| matches!(r, Err(ParseError::MalformedInteger))) >= 5);
    assert!(count(|r| matches!(r, Err(ParseError::MalformedAddressExpression))) >= 1);
    assert!(count(|r| matches!(r, Err(ParseError::EmptyInput))) >= 2);
}
