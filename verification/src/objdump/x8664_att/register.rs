//! The sixteen general-purpose 64-bit registers, and a fallback that keeps
//! any other register name as text.
//!
//! A register is named with or without `%` in front: `%rax` and `rax` are
//! the same register, and `%eax` and `eax` the same unknown one.

use vstd::prelude::*;

use vstd::string::*;

use crate::text::{same_text, slice, starts_with};

verus! {

/// A register as an operand names it.
#[derive(Clone, Debug, PartialEq, Eq)]
pub enum Register {
    Rax,
    Rbx,
    Rcx,
    Rdx,
    Rsi,
    Rdi,
    Rbp,
    Rsp,
    R8,
    R9,
    R10,
    R11,
    R12,
    R13,
    R14,
    R15,
    /// A name that is none of the sixteen, as it was written, without the
    /// `%` in front of it.
    Unknown(String),
}

/// A register as a contract sees it: its name, and whether it is one of the
/// sixteen.
pub struct RegisterView {
    pub name: Seq<char>,
    pub known: bool,
}

impl View for Register {
    type V = RegisterView;

    open spec fn view(&self) -> RegisterView {
        RegisterView { name: self.spec_name(), known: !(self is Unknown) }
    }
}

impl Register {
    /// The name of this register, without `%`.
    pub open spec fn spec_name(self) -> Seq<char> {
        match self {
            Register::Rax => "rax"@,
            Register::Rbx => "rbx"@,
            Register::Rcx => "rcx"@,
            Register::Rdx => "rdx"@,
            Register::Rsi => "rsi"@,
            Register::Rdi => "rdi"@,
            Register::Rbp => "rbp"@,
            Register::Rsp => "rsp"@,
            Register::R8 => "r8"@,
            Register::R9 => "r9"@,
            Register::R10 => "r10"@,
            Register::R11 => "r11"@,
            Register::R12 => "r12"@,
            Register::R13 => "r13"@,
            Register::R14 => "r14"@,
            Register::R15 => "r15"@,
            Register::Unknown(text) => text@,
        }
    }

    /// The name of this register, without `%`.
    pub fn name(&self) -> (name: &str)
        ensures
            name@ == self.spec_name(),
    {
        match self {
            Register::Rax => "rax",
            Register::Rbx => "rbx",
            Register::Rcx => "rcx",
            Register::Rdx => "rdx",
            Register::Rsi => "rsi",
            Register::Rdi => "rdi",
            Register::Rbp => "rbp",
            Register::Rsp => "rsp",
            Register::R8 => "r8",
            Register::R9 => "r9",
            Register::R10 => "r10",
            Register::R11 => "r11",
            Register::R12 => "r12",
            Register::R13 => "r13",
            Register::R14 => "r14",
            Register::R15 => "r15",
            Register::Unknown(text) => text.as_str(),
        }
    }

    /// Whether this register has the name `text`.
    pub fn is_named(&self, text: &str) -> (named: bool)
        ensures
            named == (self.spec_name() == text@),
    {
        same_text(self.name(), text)
    }
}

/// Whether `name` is the name of one of the sixteen registers.
pub open spec fn is_register(name: Seq<char>) -> bool {
    exists|r: Register| !(r is Unknown) && #[trigger] r.spec_name() == name
}

/// `token` without the `%` that may stand in front of it.
pub open spec fn bare(token: Seq<char>) -> Seq<char> {
    if token.len() > 0 && token[0] == '%' {
        token.skip(1)
    } else {
        token
    }
}

/// The register that `token` names, with or without `%` in front.
pub open spec fn register(token: Seq<char>) -> RegisterView {
    RegisterView { name: bare(token), known: is_register(bare(token)) }
}

/// No two of the sixteen registers have the same name.
pub proof fn lemma_names_distinct(a: Register, b: Register)
    requires
        !(a is Unknown),
        !(b is Unknown),
        a.spec_name() == b.spec_name(),
    ensures
        a == b,
{
    reveal_strlit("rax");
    reveal_strlit("rbx");
    reveal_strlit("rcx");
    reveal_strlit("rdx");
    reveal_strlit("rsi");
    reveal_strlit("rdi");
    reveal_strlit("rbp");
    reveal_strlit("rsp");
    reveal_strlit("r8");
    reveal_strlit("r9");
    reveal_strlit("r10");
    reveal_strlit("r11");
    reveal_strlit("r12");
    reveal_strlit("r13");
    reveal_strlit("r14");
    reveal_strlit("r15");
    let x = a.spec_name();
    let y = b.spec_name();
    assert(x.len() == y.len());
    assert(x[1] == y[1]);
    assert(x[2] == y[2]);
}

/// Two registers that look alike to a contract are the same register, or
/// both unknown with the same name.
pub proof fn lemma_view_decides(a: Register, b: Register)
    requires
        a@ == b@,
    ensures
        a is Unknown <==> b is Unknown,
        !(a is Unknown) ==> a == b,
        a is Unknown ==> a->Unknown_0@ == b->Unknown_0@,
{
    if !(a is Unknown) {
        lemma_names_distinct(a, b);
    }
}

/// Resolves a register name, written with or without `%` in front. The lookup
/// is exact and case-sensitive, and never fails: a name that is none of the
/// sixteen comes back as [`Register::Unknown`].
pub fn register_of(token: &str) -> (r: Register)
    ensures
        r@ == register(token@),
{
    let name = if starts_with(token, '%') {
        slice(token, 1, token.unicode_len())
    } else {
        token
    };
    if Register::Rax.is_named(name) {
        return Register::Rax;
    }
    if Register::Rbx.is_named(name) {
        return Register::Rbx;
    }
    if Register::Rcx.is_named(name) {
        return Register::Rcx;
    }
    if Register::Rdx.is_named(name) {
        return Register::Rdx;
    }
    if Register::Rsi.is_named(name) {
        return Register::Rsi;
    }
    if Register::Rdi.is_named(name) {
        return Register::Rdi;
    }
    if Register::Rbp.is_named(name) {
        return Register::Rbp;
    }
    if Register::Rsp.is_named(name) {
        return Register::Rsp;
    }
    if Register::R8.is_named(name) {
        return Register::R8;
    }
    if Register::R9.is_named(name) {
        return Register::R9;
    }
    if Register::R10.is_named(name) {
        return Register::R10;
    }
    if Register::R11.is_named(name) {
        return Register::R11;
    }
    if Register::R12.is_named(name) {
        return Register::R12;
    }
    if Register::R13.is_named(name) {
        return Register::R13;
    }
    if Register::R14.is_named(name) {
        return Register::R14;
    }
    if Register::R15.is_named(name) {
        return Register::R15;
    }
    Register::Unknown(name.to_owned())
}

} // verus!
