use objdump_att::error::ParseError;
use objdump_att::objdump::x8664_att::opcode::Opcode;
use objdump_att::objdump::x8664_att::operand::{AddressExpr, AddressTerm, Operand};
use objdump_att::objdump::x8664_att::register::Register;
use objdump_att::objdump::x8664_att::{parse_x8664_att_instruction, X8664ATTInstruction};

fn instruction(opcode: Opcode, operands: Vec<Operand>, symbol: &str) -> X8664ATTInstruction {
    X8664ATTInstruction { opcode, operands, trailing_symbol: symbol.to_string() }
}

#[test]
fn a_mnemonic_alone() {
    assert_eq!(parse_x8664_att_instruction("retq"), Ok(instruction(Opcode::Retq, vec![], "")));
    assert_eq!(parse_x8664_att_instruction("  nop  "), Ok(instruction(Opcode::Nop, vec![], "")));
}

#[test]
fn an_unknown_mnemonic_is_no_error() {
    assert_eq!(
        parse_x8664_att_instruction("90"),
        Ok(instruction(Opcode::Unknown("90".to_string()), vec![], ""))
    );
    assert_eq!(
        parse_x8664_att_instruction("vpternlogd %rax"),
        Ok(instruction(
            Opcode::Unknown("vpternlogd".to_string()),
            vec![Operand::Register(Register::Rax)],
            ""
        ))
    );
}

#[test]
fn operands_keep_the_order_of_the_text() {
    assert_eq!(
        parse_x8664_att_instruction("movq %rax %rbx"),
        Ok(instruction(
            Opcode::Movq,
            vec![Operand::Register(Register::Rax), Operand::Register(Register::Rbx)],
            ""
        ))
    );
    assert_eq!(
        parse_x8664_att_instruction("movq %rbx %rax"),
        Ok(instruction(
            Opcode::Movq,
            vec![Operand::Register(Register::Rbx), Operand::Register(Register::Rax)],
            ""
        ))
    );
}

#[test]
fn words_are_split_at_whitespace_alone() {
    // A comma stays with the word it is written in.
    assert_eq!(
        parse_x8664_att_instruction("movq %rax, %rbx"),
        Ok(instruction(
            Opcode::Movq,
            vec![
                Operand::Register(Register::Unknown("rax,".to_string())),
                Operand::Register(Register::Rbx)
            ],
            ""
        ))
    );
    assert_eq!(
        parse_x8664_att_instruction("mov\u{a0}$1\u{3000}%rcx\t%rdx"),
        Ok(instruction(
            Opcode::Mov,
            vec![
                Operand::Immediate(1),
                Operand::Register(Register::Rcx),
                Operand::Register(Register::Rdx)
            ],
            ""
        ))
    );
}

#[test]
fn operands_of_each_kind() {
    assert_eq!(
        parse_x8664_att_instruction("lea -0x8(%rbp,%rax,4) $0x10 %rdi"),
        Ok(instruction(
            Opcode::Lea,
            vec![
                Operand::Address(AddressExpr {
                    displacement: Some(0xffff_ffff_ffff_fff8),
                    base: Some(AddressTerm::Register(Register::Rbp)),
                    index: AddressTerm::Register(Register::Rax),
                    scale: Some(4),
                }),
                Operand::Immediate(16),
                Operand::Register(Register::Rdi),
            ],
            ""
        ))
    );
}

#[test]
fn a_symbol_ends_the_operands() {
    assert_eq!(
        parse_x8664_att_instruction("callq <memcpy>"),
        Ok(instruction(Opcode::Callq, vec![], "<memcpy>"))
    );
    assert_eq!(
        parse_x8664_att_instruction("jne %rax <main+0x10>"),
        Ok(instruction(Opcode::Jne, vec![Operand::Register(Register::Rax)], "<main+0x10>"))
    );
    assert_eq!(parse_x8664_att_instruction("jmp <"), Ok(instruction(Opcode::Jmp, vec![], "<")));
}

#[test]
fn what_follows_the_symbol_is_dropped() {
    assert_eq!(
        parse_x8664_att_instruction("callq <memcpy> $zz (broken <other>"),
        Ok(instruction(Opcode::Callq, vec![], "<memcpy>"))
    );
}

#[test]
fn the_mnemonic_is_never_a_symbol() {
    assert_eq!(
        parse_x8664_att_instruction("<main>: %rax"),
        Ok(instruction(
            Opcode::Unknown("<main>:".to_string()),
            vec![Operand::Register(Register::Rax)],
            ""
        ))
    );
}

#[test]
fn a_text_without_words_is_empty_input() {
    assert_eq!(parse_x8664_att_instruction(""), Err(ParseError::EmptyInput));
    assert_eq!(parse_x8664_att_instruction("   "), Err(ParseError::EmptyInput));
    assert_eq!(parse_x8664_att_instruction(" \t\u{2003}\n"), Err(ParseError::EmptyInput));
}

#[test]
fn a_malformed_operand_fails_the_instruction() {
    assert_eq!(parse_x8664_att_instruction("mov $zz %rax"), Err(ParseError::MalformedInteger));
    assert_eq!(
        parse_x8664_att_instruction("mov %rax 0x10(%rbx"),
        Err(ParseError::MalformedAddressExpression)
    );
    assert_eq!(
        parse_x8664_att_instruction("jmp 401000 <main>"),
        Err(ParseError::MalformedAddressExpression)
    );
}

#[test]
fn the_first_malformed_operand_decides() {
    assert_eq!(
        parse_x8664_att_instruction("mov $zz 0x10(%rbx"),
        Err(ParseError::MalformedInteger)
    );
    assert_eq!(
        parse_x8664_att_instruction("mov 0x10(%rbx $zz"),
        Err(ParseError::MalformedAddressExpression)
    );
    assert_eq!(
        parse_x8664_att_instruction("mov 0x10(%rbx <sym>"),
        Err(ParseError::MalformedAddressExpression)
    );
}
