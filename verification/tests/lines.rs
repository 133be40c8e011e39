use objdump_att::error::ParseError;
use objdump_att::objdump::line::{
    classify, parse_objdump_line, strip_comment, trim_colons, ObjDumpDataLine,
    ObjDumpInstructionLine, ObjDumpLineType,
};
use objdump_att::objdump::pattern::Shape;
use objdump_att::objdump::x8664_att::opcode::Opcode;
use objdump_att::objdump::x8664_att::operand::Operand;
use objdump_att::objdump::x8664_att::register::Register;
use objdump_att::objdump::x8664_att::X8664ATTInstruction;

const INSTRUCTION: Shape = Shape { instruction: true, data: false };
const DATA: Shape = Shape { instruction: false, data: true };
const BOTH: Shape = Shape { instruction: true, data: true };
const NEITHER: Shape = Shape { instruction: false, data: false };

fn instruction_line(
    address: u64,
    bytes: Vec<u8>,
    opcode: Opcode,
    operands: Vec<Operand>,
    symbol: &str,
) -> ObjDumpLineType {
    ObjDumpLineType::Instruction(ObjDumpInstructionLine {
        address,
        bytes,
        instruction: X8664ATTInstruction { opcode, operands, trailing_symbol: symbol.to_string() },
    })
}

fn data_line(address: u64, data: &str) -> ObjDumpLineType {
    ObjDumpLineType::Data(ObjDumpDataLine { address, data: data.to_string() })
}

fn other(text: &str) -> ObjDumpLineType {
    ObjDumpLineType::Other(text.to_string())
}

fn unknown(text: &str) -> Opcode {
    Opcode::Unknown(text.to_string())
}

#[test]
fn an_empty_line_is_blank() {
    assert_eq!(parse_objdump_line(""), Ok(ObjDumpLineType::Blank));
}

#[test]
fn a_line_of_tabs_is_blank() {
    assert_eq!(parse_objdump_line("\t"), Ok(ObjDumpLineType::Blank));
    assert_eq!(parse_objdump_line("\t\t\t"), Ok(ObjDumpLineType::Blank));
    assert_eq!(parse_objdump_line("\t\t# note"), Ok(ObjDumpLineType::Blank));
}

#[test]
fn a_comment_alone_is_blank() {
    assert_eq!(parse_objdump_line("#"), Ok(ObjDumpLineType::Blank));
    assert_eq!(parse_objdump_line("# 401000: 90\tnop"), Ok(ObjDumpLineType::Blank));
}

#[test]
fn a_comment_after_spaces_leaves_the_spaces() {
    // The comment goes, the three spaces before it stay: they are a first
    // field of no known shape, so the line is kept as it is.
    assert_eq!(parse_objdump_line("   # just a comment"), Ok(other("   ")));
    assert_eq!(parse_objdump_line("   "), Ok(other("   ")));
}

#[test]
fn a_line_is_blank_only_if_every_field_is_empty() {
    assert_eq!(parse_objdump_line("\tnop"), Ok(other("\tnop")));
    assert_eq!(parse_objdump_line("\t\t401000: 90"), Ok(other("\t\t401000: 90")));
}

#[test]
fn an_address_of_any_length_up_to_sixteen_digits() {
    for (text, address) in [
        ("0", 0),
        ("9", 9),
        ("a", 10),
        ("F", 15),
        ("1f", 0x1f),
        ("401000", 0x40_1000),
        ("00401000", 0x40_1000),
        ("DeadBeef", 0xdead_beef),
        ("7fffffffffffffff", 0x7fff_ffff_ffff_ffff),
        ("ffffffffffffffff", u64::MAX),
        ("0000000000000000", 0),
        ("0123456789abcdef", 0x0123_4567_89ab_cdef),
    ] {
        assert_eq!(
            parse_objdump_line(&format!("{text}:\t90")),
            Ok(instruction_line(address, vec![], unknown("90"), vec![], "")),
            "{text}"
        );
    }
}

/// Hexadecimal digits in a fixed, scrambled order.
fn scrambled(length: usize, seed: u64) -> String {
    let digits: Vec<char> = "0123456789abcdefABCDEF".chars().collect();
    let mut state = seed.wrapping_mul(6364136223846793005).wrapping_add(1442695040888963407);
    let mut text = String::new();
    for _ in 0..length {
        state = state.wrapping_mul(6364136223846793005).wrapping_add(1442695040888963407);
        text.push(digits[(state >> 33) as usize % digits.len()]);
    }
    text
}

#[test]
fn addresses_of_every_length_and_many_digits() {
    for length in 1..=16 {
        for seed in 0..40 {
            let text = scrambled(length, seed);
            let address = u64::from_str_radix(&text, 16).unwrap();
            assert_eq!(
                parse_objdump_line(&format!("{text}:\t90")),
                Ok(instruction_line(address, vec![], unknown("90"), vec![], "")),
                "{text}"
            );
        }
    }
}

#[test]
fn data_addresses_of_many_digits() {
    for seed in 0..200 {
        let text = scrambled(16, seed);
        let address = u64::from_str_radix(&text, 16).unwrap();
        assert_eq!(
            parse_objdump_line(&format!("{text} deadbeef")),
            Ok(data_line(address, "deadbeef")),
            "{text}"
        );
    }
}

#[test]
fn a_data_line_of_sixteen_digits() {
    for (text, address) in [
        ("0000000000401000", 0x40_1000),
        ("ffffffffffffffff", u64::MAX),
        ("0000000000000000", 0),
        ("0123456789ABCDEF", 0x0123_4567_89ab_cdef),
    ] {
        assert_eq!(
            parse_objdump_line(&format!("{text} deadbeef")),
            Ok(data_line(address, "deadbeef")),
            "{text}"
        );
    }
}

#[test]
fn an_instruction_line_with_bytes() {
    assert_eq!(
        parse_objdump_line("401000: 55\tpush %rbp"),
        Ok(instruction_line(
            0x40_1000,
            vec![0x55],
            Opcode::Push,
            vec![Operand::Register(Register::Rbp)],
            ""
        ))
    );
    assert_eq!(
        parse_objdump_line("  401001: 48 89 E5 \tmovq %rsp %rbp\tignored"),
        Ok(instruction_line(
            0x40_1001,
            vec![0x48, 0x89, 0xe5],
            Opcode::Movq,
            vec![Operand::Register(Register::Rsp), Operand::Register(Register::Rbp)],
            ""
        ))
    );
}

#[test]
fn the_second_field_is_the_instruction() {
    // With the bytes in a field of their own, the bytes are taken for the
    // instruction.
    assert_eq!(
        parse_objdump_line("  401001:\t48 89 e5\tmovq %rsp %rbp"),
        Err(ParseError::MalformedAddressExpression)
    );
    assert_eq!(
        parse_objdump_line("  401001:\t48\tmovq %rsp %rbp"),
        Ok(instruction_line(0x40_1001, vec![], unknown("48"), vec![], ""))
    );
}

#[test]
fn an_instruction_line_with_symbol_and_comment() {
    assert_eq!(
        parse_objdump_line("40100a: e8 f1 ff ff ff\tcallq <memcpy> # 401000 <memcpy>"),
        Ok(instruction_line(
            0x40_100a,
            vec![0xe8, 0xf1, 0xff, 0xff, 0xff],
            Opcode::Callq,
            vec![],
            "<memcpy>"
        ))
    );
}

#[test]
fn all_the_colons_after_the_address_go() {
    assert_eq!(
        parse_objdump_line("401000::: 90\tnop"),
        Ok(instruction_line(0x40_1000, vec![0x90], Opcode::Nop, vec![], ""))
    );
}

#[test]
fn an_address_may_have_a_plus() {
    assert_eq!(
        parse_objdump_line("+1f: +5\tnop"),
        Ok(instruction_line(0x1f, vec![5], Opcode::Nop, vec![], ""))
    );
}

#[test]
fn a_decorated_address_is_malformed() {
    // The pattern lets characters that belong to no word stand before the
    // address; where they make a word of their own, that word is no address.
    assert_eq!(parse_objdump_line("=> 401000: 90\tnop"), Err(ParseError::MalformedInteger));
    assert_eq!(parse_objdump_line("=>401000: 90\tnop"), Err(ParseError::MalformedInteger));
}

#[test]
fn a_malformed_byte_fails_the_line() {
    assert_eq!(parse_objdump_line("401000: zz\tnop"), Err(ParseError::MalformedInteger));
    assert_eq!(parse_objdump_line("401000: 100\tnop"), Err(ParseError::MalformedInteger));
    assert_eq!(parse_objdump_line("401000: 55 0x48\tnop"), Err(ParseError::MalformedInteger));
    assert_eq!(parse_objdump_line("401000: 55 <sym>\tnop"), Err(ParseError::MalformedInteger));
}

#[test]
fn an_instruction_line_without_instruction_is_empty_input() {
    assert_eq!(parse_objdump_line("401000: 55"), Err(ParseError::EmptyInput));
    assert_eq!(parse_objdump_line("401000: 55\t"), Err(ParseError::EmptyInput));
    assert_eq!(parse_objdump_line("401000: 55\t   \tnop"), Err(ParseError::EmptyInput));
    assert_eq!(parse_objdump_line("401000:"), Err(ParseError::EmptyInput));
}

#[test]
fn the_errors_of_the_instruction_come_through() {
    assert_eq!(parse_objdump_line("401000: 55\tmov $zz"), Err(ParseError::MalformedInteger));
    assert_eq!(
        parse_objdump_line("401000: 55\tmov 8(%rax"),
        Err(ParseError::MalformedAddressExpression)
    );
}

#[test]
fn the_address_is_read_before_the_bytes_and_the_bytes_before_the_instruction() {
    assert_eq!(parse_objdump_line("=> 1: zz\tmov 8(%rax"), Err(ParseError::MalformedInteger));
    assert_eq!(parse_objdump_line("401000: zz\tmov 8(%rax"), Err(ParseError::MalformedInteger));
    assert_eq!(parse_objdump_line("401000: zz"), Err(ParseError::MalformedInteger));
}

#[test]
fn the_instruction_pattern_goes_first() {
    assert_eq!(
        parse_objdump_line("0000000000401000: 90\tnop"),
        Ok(instruction_line(0x40_1000, vec![0x90], Opcode::Nop, vec![], ""))
    );
}

#[test]
fn seventeen_digits_are_no_instruction_address() {
    // Sixteen digits at the start make it a data line, whose first word is
    // then no number of 64 bits.
    assert_eq!(parse_objdump_line("00000000000401000: 90\tnop"), Err(ParseError::MalformedInteger));
    assert_eq!(parse_objdump_line("10000000000401000 90"), Err(ParseError::MalformedInteger));
    assert_eq!(parse_objdump_line("00000000000401000 90"), Ok(data_line(0x40_1000, "90")));
}

#[test]
fn the_words_of_a_data_line_are_joined_by_one_space() {
    assert_eq!(
        parse_objdump_line("0000000000601040 00000000   00000001 \u{a0} 7f454c46"),
        Ok(data_line(0x60_1040, "00000000 00000001 7f454c46"))
    );
    assert_eq!(parse_objdump_line("0000000000601040"), Ok(data_line(0x60_1040, "")));
    assert_eq!(parse_objdump_line("0000000000601040   "), Ok(data_line(0x60_1040, "")));
}

#[test]
fn only_the_first_field_of_a_data_line_counts() {
    assert_eq!(
        parse_objdump_line("0000000000601040 aa bb\tcc dd"),
        Ok(data_line(0x60_1040, "aa bb"))
    );
}

#[test]
fn a_label_line_is_a_data_line() {
    assert_eq!(
        parse_objdump_line("0000000000401000 <main>:"),
        Ok(data_line(0x40_1000, "<main>:"))
    );
}

#[test]
fn a_line_of_no_known_shape_is_kept() {
    for text in [
        "Disassembly of section .text:",
        "a.out:     file format elf64-x86-64",
        "...",
        "401000",
        "401000 90",
        "g01000: 90\tnop",
        "_401000: 90\tnop",
        "x 401000: 90\tnop",
        "000000000040100",
        " 0000000000401000",
    ] {
        assert_eq!(parse_objdump_line(text), Ok(other(text)), "{text}");
    }
}

#[test]
fn the_text_of_another_line_is_without_its_comment() {
    assert_eq!(parse_objdump_line("section .text # code"), Ok(other("section .text ")));
    assert_eq!(parse_objdump_line("a\tb#c#d"), Ok(other("a\tb")));
}

#[test]
fn a_comment_can_cut_a_line_short() {
    assert_eq!(parse_objdump_line("401000: 90 # \tnop"), Err(ParseError::EmptyInput));
    assert_eq!(parse_objdump_line("4010#00: 90\tnop"), Ok(other("4010")));
}

#[test]
fn parsing_twice_gives_equal_lines() {
    for text in [
        "",
        "401000: 55\tpush %rbp",
        "0000000000601040 00000000 00000001",
        "Disassembly of section .text:",
        "401000: zz\tnop",
        "   # just a comment",
    ] {
        assert_eq!(parse_objdump_line(text), parse_objdump_line(text));
    }
}

#[test]
fn one_malformed_line_does_not_touch_the_next() {
    let lines = ["401000: 55\tpush %rbp", "401001: zz\tnop", "401002: c3\tretq"];
    let results: Vec<_> = lines.iter().map(|line| parse_objdump_line(line)).collect();
    assert_eq!(
        results,
        vec![
            Ok(instruction_line(
                0x40_1000,
                vec![0x55],
                Opcode::Push,
                vec![Operand::Register(Register::Rbp)],
                ""
            )),
            Err(ParseError::MalformedInteger),
            Ok(instruction_line(0x40_1002, vec![0xc3], Opcode::Retq, vec![], "")),
        ]
    );
}

#[test]
fn the_comment_is_what_follows_the_first_hash() {
    assert_eq!(strip_comment("mov # a # b"), "mov ");
    assert_eq!(strip_comment("mov"), "mov");
    assert_eq!(strip_comment("#"), "");
    assert_eq!(strip_comment(""), "");
    assert_eq!(strip_comment("é#è"), "é");
}

#[test]
fn colons_are_trimmed_at_the_end_alone() {
    assert_eq!(trim_colons("401000:"), "401000");
    assert_eq!(trim_colons("401000:::"), "401000");
    assert_eq!(trim_colons(":40:10:"), ":40:10");
    assert_eq!(trim_colons("401000"), "401000");
    assert_eq!(trim_colons(":::"), "");
    assert_eq!(trim_colons(""), "");
}

#[test]
fn a_blank_line_is_blank_whatever_the_shape() {
    for shape in [INSTRUCTION, DATA, BOTH, NEITHER] {
        assert_eq!(classify("", shape), Ok(ObjDumpLineType::Blank));
        assert_eq!(classify("\t\t", shape), Ok(ObjDumpLineType::Blank));
    }
}

#[test]
fn the_shape_decides_how_a_line_is_read() {
    let text = "0000000000401000 90\tnop";
    assert_eq!(
        classify(text, INSTRUCTION),
        Ok(instruction_line(0x40_1000, vec![0x90], Opcode::Nop, vec![], ""))
    );
    assert_eq!(
        classify(text, BOTH),
        Ok(instruction_line(0x40_1000, vec![0x90], Opcode::Nop, vec![], ""))
    );
    assert_eq!(classify(text, DATA), Ok(data_line(0x40_1000, "90")));
    assert_eq!(classify(text, NEITHER), Ok(other(text)));
}

#[test]
fn a_first_field_without_words_is_empty_input() {
    assert_eq!(classify("  \tnop", INSTRUCTION), Err(ParseError::EmptyInput));
    assert_eq!(classify("  \tnop", DATA), Err(ParseError::EmptyInput));
    assert_eq!(classify("\tnop", INSTRUCTION), Err(ParseError::EmptyInput));
    assert_eq!(classify("  \tnop", NEITHER), Ok(other("  \tnop")));
}

#[test]
fn a_first_word_that_is_no_address_is_malformed() {
    assert_eq!(classify("main: 90\tnop", INSTRUCTION), Err(ParseError::MalformedInteger));
    assert_eq!(classify(": 90\tnop", INSTRUCTION), Err(ParseError::MalformedInteger));
    assert_eq!(classify("401000: 90", DATA), Err(ParseError::MalformedInteger));
    assert_eq!(classify("10000000000000000 90", DATA), Err(ParseError::MalformedInteger));
}

#[test]
fn classify_does_not_strip_comments() {
    assert_eq!(classify("401000: 90\tnop #", NEITHER), Ok(other("401000: 90\tnop #")));
    assert_eq!(
        classify("401000: 90\tnop #", INSTRUCTION),
        Err(ParseError::MalformedAddressExpression)
    );
}
