//! A parser for disassembly listings of x86-64 code in AT&T syntax, as
//! `objdump -d` prints them.
//!
//! [`objdump::line::parse_objdump_line`] takes one line of a listing and
//! tells what it is: an instruction with its address and bytes, a line of a
//! data dump, a blank line, or something else. The parts of an instruction
//! line have parsers of their own: [`objdump::x8664_att`] for instructions,
//! opcodes, registers and operands, [`number`] for the numbers in them.
//!
//! The crate is verified with Verus. Each parser has a contract that says,
//! for every text, what comes back: which value, or which error. The
//! contracts are written over sequences of characters, and [`text`] defines
//! the words they are made of. One thing is taken on trust: what the `regex`
//! crate answers when a line is held against the two line patterns; see
//! [`objdump::pattern`].
//!
//! The parsers keep no state. A line that fails gives an error for that line
//! and has no bearing on the next.

pub mod error;
pub mod number;
pub mod objdump;
pub mod text;
