//! The opcode table: every mnemonic the parser knows, under a name of its own,
//! and a fallback that keeps any other mnemonic as text.
//!
//! A mnemonic is looked up as it is written: `mov` and `movq` are two
//! entries, and `MOV` is none.

use vstd::prelude::*;

use crate::text::same_text;

verus! {

/// The operation of an instruction.
#[derive(Clone, Debug, PartialEq, Eq)]
pub enum Opcode {
    // Data movement.
    Mov,
    Movb,
    Movw,
    Movl,
    Movq,
    Movabs,
    Movsbw,
    Movsbl,
    Movsbq,
    Movswl,
    Movswq,
    Movslq,
    Movzbw,
    Movzbl,
    Movzbq,
    Movzwl,
    Movzwq,
    Cbtw,
    Cwtl,
    Cwtd,
    Cltd,
    Cltq,
    Cqto,
    Xchg,
    Xchgl,
    Xchgq,
    Bswap,
    Push,
    Pushw,
    Pushq,
    Pop,
    Popw,
    Popq,
    Lea,
    Leaw,
    Leal,
    Leaq,
    Xadd,
    Cmpxchg,
    Cmpxchg8b,
    Cmpxchg16b,
    // Conditional moves.
    Cmova,
    Cmovae,
    Cmovb,
    Cmovbe,
    Cmove,
    Cmovne,
    Cmovg,
    Cmovge,
    Cmovl,
    Cmovle,
    Cmovo,
    Cmovno,
    Cmovp,
    Cmovnp,
    Cmovs,
    Cmovns,
    // Integer arithmetic.
    Add,
    Addb,
    Addw,
    Addl,
    Addq,
    Adc,
    Adcl,
    Adcq,
    Sub,
    Subb,
    Subw,
    Subl,
    Subq,
    Sbb,
    Sbbl,
    Sbbq,
    Inc,
    Incb,
    Incw,
    Incl,
    Incq,
    Dec,
    Decb,
    Decw,
    Decl,
    Decq,
    Neg,
    Negl,
    Negq,
    Cmp,
    Cmpb,
    Cmpw,
    Cmpl,
    Cmpq,
    Mul,
    Mull,
    Mulq,
    Imul,
    Imull,
    Imulq,
    Div,
    Divl,
    Divq,
    Idiv,
    Idivl,
    Idivq,
    // Logic.
    And,
    Andb,
    Andw,
    Andl,
    Andq,
    Or,
    Orb,
    Orw,
    Orl,
    Orq,
    Xor,
    Xorb,
    Xorw,
    Xorl,
    Xorq,
    Not,
    Notl,
    Notq,
    Test,
    Testb,
    Testw,
    Testl,
    Testq,
    // Shifts and rotates.
    Shl,
    Shll,
    Shlq,
    Shr,
    Shrl,
    Shrq,
    Sal,
    Sar,
    Sarl,
    Sarq,
    Rol,
    Roll,
    Rolq,
    Ror,
    Rorl,
    Rorq,
    Rcl,
    Rcr,
    Shld,
    Shrd,
    // Bit manipulation.
    Bt,
    Bts,
    Btr,
    Btc,
    Bsf,
    Bsr,
    Popcnt,
    Lzcnt,
    Tzcnt,
    Andn,
    // Control flow.
    Jmp,
    Jmpq,
    Call,
    Callq,
    Ret,
    Retq,
    Leave,
    Leaveq,
    Enter,
    Ja,
    Jae,
    Jb,
    Jbe,
    Je,
    Jne,
    Jg,
    Jge,
    Jl,
    Jle,
    Jo,
    Jno,
    Jp,
    Jnp,
    Js,
    Jns,
    Jrcxz,
    Jecxz,
    Loop,
    Loope,
    Loopne,
    Int,
    Int3,
    Syscall,
    Sysret,
    Iretq,
    Hlt,
    Nop,
    Nopw,
    Nopl,
    Ud2,
    Pause,
    Endbr32,
    Endbr64,
    // Condition bytes.
    Seta,
    Setae,
    Setb,
    Setbe,
    Sete,
    Setne,
    Setg,
    Setge,
    Setl,
    Setle,
    Seto,
    Setno,
    Setp,
    Setnp,
    Sets,
    Setns,
    // String operations.
    Movsb,
    Movsw,
    Movsl,
    Cmpsb,
    Cmpsw,
    Cmpsl,
    Cmpsq,
    Scas,
    Scasb,
    Lods,
    Lodsb,
    Stos,
    Stosb,
    Stosw,
    Stosl,
    Stosq,
    Rep,
    Repz,
    Repnz,
    // Flags.
    Clc,
    Stc,
    Cmc,
    Cld,
    Std,
    Cli,
    Sti,
    Lahf,
    Sahf,
    Pushf,
    Pushfq,
    Popf,
    Popfq,
    // System.
    Cpuid,
    Rdtsc,
    Rdtscp,
    Rdrand,
    Rdseed,
    Xgetbv,
    Lfence,
    Mfence,
    Sfence,
    Clflush,
    Prefetcht0,
    Prefetcht1,
    Prefetcht2,
    Prefetchnta,
    Lock,
    Data16,
    Xsave,
    Xrstor,
    Fxsave,
    Fxrstor,
    Ldmxcsr,
    Stmxcsr,
    Vzeroupper,
    // Scalar and packed floating point.
    Movaps,
    Movups,
    Movapd,
    Movupd,
    Movss,
    Movsd,
    Movd,
    Movhps,
    Movlps,
    Movhpd,
    Movlpd,
    Movmskps,
    Movmskpd,
    Addps,
    Addpd,
    Addss,
    Addsd,
    Subps,
    Subpd,
    Subss,
    Subsd,
    Mulps,
    Mulpd,
    Mulss,
    Mulsd,
    Divps,
    Divpd,
    Divss,
    Divsd,
    Sqrtps,
    Sqrtpd,
    Sqrtss,
    Sqrtsd,
    Maxss,
    Maxsd,
    Minss,
    Minsd,
    Andps,
    Andpd,
    Andnps,
    Andnpd,
    Orps,
    Orpd,
    Xorps,
    Xorpd,
    Cmpps,
    Cmppd,
    Cmpss,
    Cmpsd,
    Comiss,
    Comisd,
    Ucomiss,
    Ucomisd,
    Shufps,
    Shufpd,
    Unpcklps,
    Unpckhps,
    // Conversions.
    Cvtsi2ss,
    Cvtsi2sd,
    Cvtss2sd,
    Cvtsd2ss,
    Cvttss2si,
    Cvttsd2si,
    Cvtdq2ps,
    Cvtdq2pd,
    Cvtps2pd,
    Cvtpd2ps,
    // Packed integers.
    Movdqa,
    Movdqu,
    Paddb,
    Paddw,
    Paddd,
    Paddq,
    Psubb,
    Psubw,
    Psubd,
    Psubq,
    Pmullw,
    Pmulld,
    Pmuludq,
    Pmaddwd,
    Pand,
    Pandn,
    Por,
    Pxor,
    Pcmpeqb,
    Pcmpeqw,
    Pcmpeqd,
    Pcmpgtb,
    Pcmpgtd,
    Psllw,
    Pslld,
    Psllq,
    Psrlw,
    Psrld,
    Psrlq,
    Psraw,
    Psrad,
    Pslldq,
    Psrldq,
    Pshufb,
    Pshufd,
    Palignr,
    Punpcklbw,
    Punpcklwd,
    Punpckldq,
    Punpcklqdq,
    Punpckhbw,
    Punpckhwd,
    Punpckhdq,
    Punpckhqdq,
    Packsswb,
    Packuswb,
    Pmovmskb,
    Ptest,
    /// A mnemonic that the table does not hold, as it was written.
    Unknown(String),
}

/// An opcode as a contract sees it: the mnemonic it stands for, and whether
/// the table holds that mnemonic.
pub struct OpcodeView {
    pub name: Seq<char>,
    pub known: bool,
}

impl View for Opcode {
    type V = OpcodeView;

    open spec fn view(&self) -> OpcodeView {
        OpcodeView { name: self.spec_name(), known: !(self is Unknown) }
    }
}

impl Opcode {
    /// The mnemonic that this opcode stands for.
    #[verifier::opaque]
    pub open spec fn spec_name(self) -> Seq<char> {
        match self {
            Opcode::Mov => "mov"@,
            Opcode::Movb => "movb"@,
            Opcode::Movw => "movw"@,
            Opcode::Movl => "movl"@,
            Opcode::Movq => "movq"@,
            Opcode::Movabs => "movabs"@,
            Opcode::Movsbw => "movsbw"@,
            Opcode::Movsbl => "movsbl"@,
            Opcode::Movsbq => "movsbq"@,
            Opcode::Movswl => "movswl"@,
            Opcode::Movswq => "movswq"@,
            Opcode::Movslq => "movslq"@,
            Opcode::Movzbw => "movzbw"@,
            Opcode::Movzbl => "movzbl"@,
            Opcode::Movzbq => "movzbq"@,
            Opcode::Movzwl => "movzwl"@,
            Opcode::Movzwq => "movzwq"@,
            Opcode::Cbtw => "cbtw"@,
            Opcode::Cwtl => "cwtl"@,
            Opcode::Cwtd => "cwtd"@,
            Opcode::Cltd => "cltd"@,
            Opcode::Cltq => "cltq"@,
            Opcode::Cqto => "cqto"@,
            Opcode::Xchg => "xchg"@,
            Opcode::Xchgl => "xchgl"@,
            Opcode::Xchgq => "xchgq"@,
            Opcode::Bswap => "bswap"@,
            Opcode::Push => "push"@,
            Opcode::Pushw => "pushw"@,
            Opcode::Pushq => "pushq"@,
            Opcode::Pop => "pop"@,
            Opcode::Popw => "popw"@,
            Opcode::Popq => "popq"@,
            Opcode::Lea => "lea"@,
            Opcode::Leaw => "leaw"@,
            Opcode::Leal => "leal"@,
            Opcode::Leaq => "leaq"@,
            Opcode::Xadd => "xadd"@,
            Opcode::Cmpxchg => "cmpxchg"@,
            Opcode::Cmpxchg8b => "cmpxchg8b"@,
            Opcode::Cmpxchg16b => "cmpxchg16b"@,
            Opcode::Cmova => "cmova"@,
            Opcode::Cmovae => "cmovae"@,
            Opcode::Cmovb => "cmovb"@,
            Opcode::Cmovbe => "cmovbe"@,
            Opcode::Cmove => "cmove"@,
            Opcode::Cmovne => "cmovne"@,
            Opcode::Cmovg => "cmovg"@,
            Opcode::Cmovge => "cmovge"@,
            Opcode::Cmovl => "cmovl"@,
            Opcode::Cmovle => "cmovle"@,
            Opcode::Cmovo => "cmovo"@,
            Opcode::Cmovno => "cmovno"@,
            Opcode::Cmovp => "cmovp"@,
            Opcode::Cmovnp => "cmovnp"@,
            Opcode::Cmovs => "cmovs"@,
            Opcode::Cmovns => "cmovns"@,
            Opcode::Add => "add"@,
            Opcode::Addb => "addb"@,
            Opcode::Addw => "addw"@,
            Opcode::Addl => "addl"@,
            Opcode::Addq => "addq"@,
            Opcode::Adc => "adc"@,
            Opcode::Adcl => "adcl"@,
            Opcode::Adcq => "adcq"@,
            Opcode::Sub => "sub"@,
            Opcode::Subb => "subb"@,
            Opcode::Subw => "subw"@,
            Opcode::Subl => "subl"@,
            Opcode::Subq => "subq"@,
            Opcode::Sbb => "sbb"@,
            Opcode::Sbbl => "sbbl"@,
            Opcode::Sbbq => "sbbq"@,
            Opcode::Inc => "inc"@,
            Opcode::Incb => "incb"@,
            Opcode::Incw => "incw"@,
            Opcode::Incl => "incl"@,
            Opcode::Incq => "incq"@,
            Opcode::Dec => "dec"@,
            Opcode::Decb => "decb"@,
            Opcode::Decw => "decw"@,
            Opcode::Decl => "decl"@,
            Opcode::Decq => "decq"@,
            Opcode::Neg => "neg"@,
            Opcode::Negl => "negl"@,
            Opcode::Negq => "negq"@,
            Opcode::Cmp => "cmp"@,
            Opcode::Cmpb => "cmpb"@,
            Opcode::Cmpw => "cmpw"@,
            Opcode::Cmpl => "cmpl"@,
            Opcode::Cmpq => "cmpq"@,
            Opcode::Mul => "mul"@,
            Opcode::Mull => "mull"@,
            Opcode::Mulq => "mulq"@,
            Opcode::Imul => "imul"@,
            Opcode::Imull => "imull"@,
            Opcode::Imulq => "imulq"@,
            Opcode::Div => "div"@,
            Opcode::Divl => "divl"@,
            Opcode::Divq => "divq"@,
            Opcode::Idiv => "idiv"@,
            Opcode::Idivl => "idivl"@,
            Opcode::Idivq => "idivq"@,
            Opcode::And => "and"@,
            Opcode::Andb => "andb"@,
            Opcode::Andw => "andw"@,
            Opcode::Andl => "andl"@,
            Opcode::Andq => "andq"@,
            Opcode::Or => "or"@,
            Opcode::Orb => "orb"@,
            Opcode::Orw => "orw"@,
            Opcode::Orl => "orl"@,
            Opcode::Orq => "orq"@,
            Opcode::Xor => "xor"@,
            Opcode::Xorb => "xorb"@,
            Opcode::Xorw => "xorw"@,
            Opcode::Xorl => "xorl"@,
            Opcode::Xorq => "xorq"@,
            Opcode::Not => "not"@,
            Opcode::Notl => "notl"@,
            Opcode::Notq => "notq"@,
            Opcode::Test => "test"@,
            Opcode::Testb => "testb"@,
            Opcode::Testw => "testw"@,
            Opcode::Testl => "testl"@,
            Opcode::Testq => "testq"@,
            Opcode::Shl => "shl"@,
            Opcode::Shll => "shll"@,
            Opcode::Shlq => "shlq"@,
            Opcode::Shr => "shr"@,
            Opcode::Shrl => "shrl"@,
            Opcode::Shrq => "shrq"@,
            Opcode::Sal => "sal"@,
            Opcode::Sar => "sar"@,
            Opcode::Sarl => "sarl"@,
            Opcode::Sarq => "sarq"@,
            Opcode::Rol => "rol"@,
            Opcode::Roll => "roll"@,
            Opcode::Rolq => "rolq"@,
            Opcode::Ror => "ror"@,
            Opcode::Rorl => "rorl"@,
            Opcode::Rorq => "rorq"@,
            Opcode::Rcl => "rcl"@,
            Opcode::Rcr => "rcr"@,
            Opcode::Shld => "shld"@,
            Opcode::Shrd => "shrd"@,
            Opcode::Bt => "bt"@,
            Opcode::Bts => "bts"@,
            Opcode::Btr => "btr"@,
            Opcode::Btc => "btc"@,
            Opcode::Bsf => "bsf"@,
            Opcode::Bsr => "bsr"@,
            Opcode::Popcnt => "popcnt"@,
            Opcode::Lzcnt => "lzcnt"@,
            Opcode::Tzcnt => "tzcnt"@,
            Opcode::Andn => "andn"@,
            Opcode::Jmp => "jmp"@,
            Opcode::Jmpq => "jmpq"@,
            Opcode::Call => "call"@,
            Opcode::Callq => "callq"@,
            Opcode::Ret => "ret"@,
            Opcode::Retq => "retq"@,
            Opcode::Leave => "leave"@,
            Opcode::Leaveq => "leaveq"@,
            Opcode::Enter => "enter"@,
            Opcode::Ja => "ja"@,
            Opcode::Jae => "jae"@,
            Opcode::Jb => "jb"@,
            Opcode::Jbe => "jbe"@,
            Opcode::Je => "je"@,
            Opcode::Jne => "jne"@,
            Opcode::Jg => "jg"@,
            Opcode::Jge => "jge"@,
            Opcode::Jl => "jl"@,
            Opcode::Jle => "jle"@,
            Opcode::Jo => "jo"@,
            Opcode::Jno => "jno"@,
            Opcode::Jp => "jp"@,
            Opcode::Jnp => "jnp"@,
            Opcode::Js => "js"@,
            Opcode::Jns => "jns"@,
            Opcode::Jrcxz => "jrcxz"@,
            Opcode::Jecxz => "jecxz"@,
            Opcode::Loop => "loop"@,
            Opcode::Loope => "loope"@,
            Opcode::Loopne => "loopne"@,
            Opcode::Int => "int"@,
            Opcode::Int3 => "int3"@,
            Opcode::Syscall => "syscall"@,
            Opcode::Sysret => "sysret"@,
            Opcode::Iretq => "iretq"@,
            Opcode::Hlt => "hlt"@,
            Opcode::Nop => "nop"@,
            Opcode::Nopw => "nopw"@,
            Opcode::Nopl => "nopl"@,
            Opcode::Ud2 => "ud2"@,
            Opcode::Pause => "pause"@,
            Opcode::Endbr32 => "endbr32"@,
            Opcode::Endbr64 => "endbr64"@,
            Opcode::Seta => "seta"@,
            Opcode::Setae => "setae"@,
            Opcode::Setb => "setb"@,
            Opcode::Setbe => "setbe"@,
            Opcode::Sete => "sete"@,
            Opcode::Setne => "setne"@,
            Opcode::Setg => "setg"@,
            Opcode::Setge => "setge"@,
            Opcode::Setl => "setl"@,
            Opcode::Setle => "setle"@,
            Opcode::Seto => "seto"@,
            Opcode::Setno => "setno"@,
            Opcode::Setp => "setp"@,
            Opcode::Setnp => "setnp"@,
            Opcode::Sets => "sets"@,
            Opcode::Setns => "setns"@,
            Opcode::Movsb => "movsb"@,
            Opcode::Movsw => "movsw"@,
            Opcode::Movsl => "movsl"@,
            Opcode::Cmpsb => "cmpsb"@,
            Opcode::Cmpsw => "cmpsw"@,
            Opcode::Cmpsl => "cmpsl"@,
            Opcode::Cmpsq => "cmpsq"@,
            Opcode::Scas => "scas"@,
            Opcode::Scasb => "scasb"@,
            Opcode::Lods => "lods"@,
            Opcode::Lodsb => "lodsb"@,
            Opcode::Stos => "stos"@,
            Opcode::Stosb => "stosb"@,
            Opcode::Stosw => "stosw"@,
            Opcode::Stosl => "stosl"@,
            Opcode::Stosq => "stosq"@,
            Opcode::Rep => "rep"@,
            Opcode::Repz => "repz"@,
            Opcode::Repnz => "repnz"@,
            Opcode::Clc => "clc"@,
            Opcode::Stc => "stc"@,
            Opcode::Cmc => "cmc"@,
            Opcode::Cld => "cld"@,
            Opcode::Std => "std"@,
            Opcode::Cli => "cli"@,
            Opcode::Sti => "sti"@,
            Opcode::Lahf => "lahf"@,
            Opcode::Sahf => "sahf"@,
            Opcode::Pushf => "pushf"@,
            Opcode::Pushfq => "pushfq"@,
            Opcode::Popf => "popf"@,
            Opcode::Popfq => "popfq"@,
            Opcode::Cpuid => "cpuid"@,
            Opcode::Rdtsc => "rdtsc"@,
            Opcode::Rdtscp => "rdtscp"@,
            Opcode::Rdrand => "rdrand"@,
            Opcode::Rdseed => "rdseed"@,
            Opcode::Xgetbv => "xgetbv"@,
            Opcode::Lfence => "lfence"@,
            Opcode::Mfence => "mfence"@,
            Opcode::Sfence => "sfence"@,
            Opcode::Clflush => "clflush"@,
            Opcode::Prefetcht0 => "prefetcht0"@,
            Opcode::Prefetcht1 => "prefetcht1"@,
            Opcode::Prefetcht2 => "prefetcht2"@,
            Opcode::Prefetchnta => "prefetchnta"@,
            Opcode::Lock => "lock"@,
            Opcode::Data16 => "data16"@,
            Opcode::Xsave => "xsave"@,
            Opcode::Xrstor => "xrstor"@,
            Opcode::Fxsave => "fxsave"@,
            Opcode::Fxrstor => "fxrstor"@,
            Opcode::Ldmxcsr => "ldmxcsr"@,
            Opcode::Stmxcsr => "stmxcsr"@,
            Opcode::Vzeroupper => "vzeroupper"@,
            Opcode::Movaps => "movaps"@,
            Opcode::Movups => "movups"@,
            Opcode::Movapd => "movapd"@,
            Opcode::Movupd => "movupd"@,
            Opcode::Movss => "movss"@,
            Opcode::Movsd => "movsd"@,
            Opcode::Movd => "movd"@,
            Opcode::Movhps => "movhps"@,
            Opcode::Movlps => "movlps"@,
            Opcode::Movhpd => "movhpd"@,
            Opcode::Movlpd => "movlpd"@,
            Opcode::Movmskps => "movmskps"@,
            Opcode::Movmskpd => "movmskpd"@,
            Opcode::Addps => "addps"@,
            Opcode::Addpd => "addpd"@,
            Opcode::Addss => "addss"@,
            Opcode::Addsd => "addsd"@,
            Opcode::Subps => "subps"@,
            Opcode::Subpd => "subpd"@,
            Opcode::Subss => "subss"@,
            Opcode::Subsd => "subsd"@,
            Opcode::Mulps => "mulps"@,
            Opcode::Mulpd => "mulpd"@,
            Opcode::Mulss => "mulss"@,
            Opcode::Mulsd => "mulsd"@,
            Opcode::Divps => "divps"@,
            Opcode::Divpd => "divpd"@,
            Opcode::Divss => "divss"@,
            Opcode::Divsd => "divsd"@,
            Opcode::Sqrtps => "sqrtps"@,
            Opcode::Sqrtpd => "sqrtpd"@,
            Opcode::Sqrtss => "sqrtss"@,
            Opcode::Sqrtsd => "sqrtsd"@,
            Opcode::Maxss => "maxss"@,
            Opcode::Maxsd => "maxsd"@,
            Opcode::Minss => "minss"@,
            Opcode::Minsd => "minsd"@,
            Opcode::Andps => "andps"@,
            Opcode::Andpd => "andpd"@,
            Opcode::Andnps => "andnps"@,
            Opcode::Andnpd => "andnpd"@,
            Opcode::Orps => "orps"@,
            Opcode::Orpd => "orpd"@,
            Opcode::Xorps => "xorps"@,
            Opcode::Xorpd => "xorpd"@,
            Opcode::Cmpps => "cmpps"@,
            Opcode::Cmppd => "cmppd"@,
            Opcode::Cmpss => "cmpss"@,
            Opcode::Cmpsd => "cmpsd"@,
            Opcode::Comiss => "comiss"@,
            Opcode::Comisd => "comisd"@,
            Opcode::Ucomiss => "ucomiss"@,
            Opcode::Ucomisd => "ucomisd"@,
            Opcode::Shufps => "shufps"@,
            Opcode::Shufpd => "shufpd"@,
            Opcode::Unpcklps => "unpcklps"@,
            Opcode::Unpckhps => "unpckhps"@,
            Opcode::Cvtsi2ss => "cvtsi2ss"@,
            Opcode::Cvtsi2sd => "cvtsi2sd"@,
            Opcode::Cvtss2sd => "cvtss2sd"@,
            Opcode::Cvtsd2ss => "cvtsd2ss"@,
            Opcode::Cvttss2si => "cvttss2si"@,
            Opcode::Cvttsd2si => "cvttsd2si"@,
            Opcode::Cvtdq2ps => "cvtdq2ps"@,
            Opcode::Cvtdq2pd => "cvtdq2pd"@,
            Opcode::Cvtps2pd => "cvtps2pd"@,
            Opcode::Cvtpd2ps => "cvtpd2ps"@,
            Opcode::Movdqa => "movdqa"@,
            Opcode::Movdqu => "movdqu"@,
            Opcode::Paddb => "paddb"@,
            Opcode::Paddw => "paddw"@,
            Opcode::Paddd => "paddd"@,
            Opcode::Paddq => "paddq"@,
            Opcode::Psubb => "psubb"@,
            Opcode::Psubw => "psubw"@,
            Opcode::Psubd => "psubd"@,
            Opcode::Psubq => "psubq"@,
            Opcode::Pmullw => "pmullw"@,
            Opcode::Pmulld => "pmulld"@,
            Opcode::Pmuludq => "pmuludq"@,
            Opcode::Pmaddwd => "pmaddwd"@,
            Opcode::Pand => "pand"@,
            Opcode::Pandn => "pandn"@,
            Opcode::Por => "por"@,
            Opcode::Pxor => "pxor"@,
            Opcode::Pcmpeqb => "pcmpeqb"@,
            Opcode::Pcmpeqw => "pcmpeqw"@,
            Opcode::Pcmpeqd => "pcmpeqd"@,
            Opcode::Pcmpgtb => "pcmpgtb"@,
            Opcode::Pcmpgtd => "pcmpgtd"@,
            Opcode::Psllw => "psllw"@,
            Opcode::Pslld => "pslld"@,
            Opcode::Psllq => "psllq"@,
            Opcode::Psrlw => "psrlw"@,
            Opcode::Psrld => "psrld"@,
            Opcode::Psrlq => "psrlq"@,
            Opcode::Psraw => "psraw"@,
            Opcode::Psrad => "psrad"@,
            Opcode::Pslldq => "pslldq"@,
            Opcode::Psrldq => "psrldq"@,
            Opcode::Pshufb => "pshufb"@,
            Opcode::Pshufd => "pshufd"@,
            Opcode::Palignr => "palignr"@,
            Opcode::Punpcklbw => "punpcklbw"@,
            Opcode::Punpcklwd => "punpcklwd"@,
            Opcode::Punpckldq => "punpckldq"@,
            Opcode::Punpcklqdq => "punpcklqdq"@,
            Opcode::Punpckhbw => "punpckhbw"@,
            Opcode::Punpckhwd => "punpckhwd"@,
            Opcode::Punpckhdq => "punpckhdq"@,
            Opcode::Punpckhqdq => "punpckhqdq"@,
            Opcode::Packsswb => "packsswb"@,
            Opcode::Packuswb => "packuswb"@,
            Opcode::Pmovmskb => "pmovmskb"@,
            Opcode::Ptest => "ptest"@,
            Opcode::Unknown(text) => text@,
        }
    }

    /// The mnemonic that this opcode stands for.
    pub fn name(&self) -> (name: &str)
        ensures
            name@ == self.spec_name(),
    {
        proof {
            reveal(Opcode::spec_name);
        }
        match self {
            Opcode::Mov => "mov",
            Opcode::Movb => "movb",
            Opcode::Movw => "movw",
            Opcode::Movl => "movl",
            Opcode::Movq => "movq",
            Opcode::Movabs => "movabs",
            Opcode::Movsbw => "movsbw",
            Opcode::Movsbl => "movsbl",
            Opcode::Movsbq => "movsbq",
            Opcode::Movswl => "movswl",
            Opcode::Movswq => "movswq",
            Opcode::Movslq => "movslq",
            Opcode::Movzbw => "movzbw",
            Opcode::Movzbl => "movzbl",
            Opcode::Movzbq => "movzbq",
            Opcode::Movzwl => "movzwl",
            Opcode::Movzwq => "movzwq",
            Opcode::Cbtw => "cbtw",
            Opcode::Cwtl => "cwtl",
            Opcode::Cwtd => "cwtd",
            Opcode::Cltd => "cltd",
            Opcode::Cltq => "cltq",
            Opcode::Cqto => "cqto",
            Opcode::Xchg => "xchg",
            Opcode::Xchgl => "xchgl",
            Opcode::Xchgq => "xchgq",
            Opcode::Bswap => "bswap",
            Opcode::Push => "push",
            Opcode::Pushw => "pushw",
            Opcode::Pushq => "pushq",
            Opcode::Pop => "pop",
            Opcode::Popw => "popw",
            Opcode::Popq => "popq",
            Opcode::Lea => "lea",
            Opcode::Leaw => "leaw",
            Opcode::Leal => "leal",
            Opcode::Leaq => "leaq",
            Opcode::Xadd => "xadd",
            Opcode::Cmpxchg => "cmpxchg",
            Opcode::Cmpxchg8b => "cmpxchg8b",
            Opcode::Cmpxchg16b => "cmpxchg16b",
            Opcode::Cmova => "cmova",
            Opcode::Cmovae => "cmovae",
            Opcode::Cmovb => "cmovb",
            Opcode::Cmovbe => "cmovbe",
            Opcode::Cmove => "cmove",
            Opcode::Cmovne => "cmovne",
            Opcode::Cmovg => "cmovg",
            Opcode::Cmovge => "cmovge",
            Opcode::Cmovl => "cmovl",
            Opcode::Cmovle => "cmovle",
            Opcode::Cmovo => "cmovo",
            Opcode::Cmovno => "cmovno",
            Opcode::Cmovp => "cmovp",
            Opcode::Cmovnp => "cmovnp",
            Opcode::Cmovs => "cmovs",
            Opcode::Cmovns => "cmovns",
            Opcode::Add => "add",
            Opcode::Addb => "addb",
            Opcode::Addw => "addw",
            Opcode::Addl => "addl",
            Opcode::Addq => "addq",
            Opcode::Adc => "adc",
            Opcode::Adcl => "adcl",
            Opcode::Adcq => "adcq",
            Opcode::Sub => "sub",
            Opcode::Subb => "subb",
            Opcode::Subw => "subw",
            Opcode::Subl => "subl",
            Opcode::Subq => "subq",
            Opcode::Sbb => "sbb",
            Opcode::Sbbl => "sbbl",
            Opcode::Sbbq => "sbbq",
            Opcode::Inc => "inc",
            Opcode::Incb => "incb",
            Opcode::Incw => "incw",
            Opcode::Incl => "incl",
            Opcode::Incq => "incq",
            Opcode::Dec => "dec",
            Opcode::Decb => "decb",
            Opcode::Decw => "decw",
            Opcode::Decl => "decl",
            Opcode::Decq => "decq",
            Opcode::Neg => "neg",
            Opcode::Negl => "negl",
            Opcode::Negq => "negq",
            Opcode::Cmp => "cmp",
            Opcode::Cmpb => "cmpb",
            Opcode::Cmpw => "cmpw",
            Opcode::Cmpl => "cmpl",
            Opcode::Cmpq => "cmpq",
            Opcode::Mul => "mul",
            Opcode::Mull => "mull",
            Opcode::Mulq => "mulq",
            Opcode::Imul => "imul",
            Opcode::Imull => "imull",
            Opcode::Imulq => "imulq",
            Opcode::Div => "div",
            Opcode::Divl => "divl",
            Opcode::Divq => "divq",
            Opcode::Idiv => "idiv",
            Opcode::Idivl => "idivl",
            Opcode::Idivq => "idivq",
            Opcode::And => "and",
            Opcode::Andb => "andb",
            Opcode::Andw => "andw",
            Opcode::Andl => "andl",
            Opcode::Andq => "andq",
            Opcode::Or => "or",
            Opcode::Orb => "orb",
            Opcode::Orw => "orw",
            Opcode::Orl => "orl",
            Opcode::Orq => "orq",
            Opcode::Xor => "xor",
            Opcode::Xorb => "xorb",
            Opcode::Xorw => "xorw",
            Opcode::Xorl => "xorl",
            Opcode::Xorq => "xorq",
            Opcode::Not => "not",
            Opcode::Notl => "notl",
            Opcode::Notq => "notq",
            Opcode::Test => "test",
            Opcode::Testb => "testb",
            Opcode::Testw => "testw",
            Opcode::Testl => "testl",
            Opcode::Testq => "testq",
            Opcode::Shl => "shl",
            Opcode::Shll => "shll",
            Opcode::Shlq => "shlq",
            Opcode::Shr => "shr",
            Opcode::Shrl => "shrl",
            Opcode::Shrq => "shrq",
            Opcode::Sal => "sal",
            Opcode::Sar => "sar",
            Opcode::Sarl => "sarl",
            Opcode::Sarq => "sarq",
            Opcode::Rol => "rol",
            Opcode::Roll => "roll",
            Opcode::Rolq => "rolq",
            Opcode::Ror => "ror",
            Opcode::Rorl => "rorl",
            Opcode::Rorq => "rorq",
            Opcode::Rcl => "rcl",
            Opcode::Rcr => "rcr",
            Opcode::Shld => "shld",
            Opcode::Shrd => "shrd",
            Opcode::Bt => "bt",
            Opcode::Bts => "bts",
            Opcode::Btr => "btr",
            Opcode::Btc => "btc",
            Opcode::Bsf => "bsf",
            Opcode::Bsr => "bsr",
            Opcode::Popcnt => "popcnt",
            Opcode::Lzcnt => "lzcnt",
            Opcode::Tzcnt => "tzcnt",
            Opcode::Andn => "andn",
            Opcode::Jmp => "jmp",
            Opcode::Jmpq => "jmpq",
            Opcode::Call => "call",
            Opcode::Callq => "callq",
            Opcode::Ret => "ret",
            Opcode::Retq => "retq",
            Opcode::Leave => "leave",
            Opcode::Leaveq => "leaveq",
            Opcode::Enter => "enter",
            Opcode::Ja => "ja",
            Opcode::Jae => "jae",
            Opcode::Jb => "jb",
            Opcode::Jbe => "jbe",
            Opcode::Je => "je",
            Opcode::Jne => "jne",
            Opcode::Jg => "jg",
            Opcode::Jge => "jge",
            Opcode::Jl => "jl",
            Opcode::Jle => "jle",
            Opcode::Jo => "jo",
            Opcode::Jno => "jno",
            Opcode::Jp => "jp",
            Opcode::Jnp => "jnp",
            Opcode::Js => "js",
            Opcode::Jns => "jns",
            Opcode::Jrcxz => "jrcxz",
            Opcode::Jecxz => "jecxz",
            Opcode::Loop => "loop",
            Opcode::Loope => "loope",
            Opcode::Loopne => "loopne",
            Opcode::Int => "int",
            Opcode::Int3 => "int3",
            Opcode::Syscall => "syscall",
            Opcode::Sysret => "sysret",
            Opcode::Iretq => "iretq",
            Opcode::Hlt => "hlt",
            Opcode::Nop => "nop",
            Opcode::Nopw => "nopw",
            Opcode::Nopl => "nopl",
            Opcode::Ud2 => "ud2",
            Opcode::Pause => "pause",
            Opcode::Endbr32 => "endbr32",
            Opcode::Endbr64 => "endbr64",
            Opcode::Seta => "seta",
            Opcode::Setae => "setae",
            Opcode::Setb => "setb",
            Opcode::Setbe => "setbe",
            Opcode::Sete => "sete",
            Opcode::Setne => "setne",
            Opcode::Setg => "setg",
            Opcode::Setge => "setge",
            Opcode::Setl => "setl",
            Opcode::Setle => "setle",
            Opcode::Seto => "seto",
            Opcode::Setno => "setno",
            Opcode::Setp => "setp",
            Opcode::Setnp => "setnp",
            Opcode::Sets => "sets",
            Opcode::Setns => "setns",
            Opcode::Movsb => "movsb",
            Opcode::Movsw => "movsw",
            Opcode::Movsl => "movsl",
            Opcode::Cmpsb => "cmpsb",
            Opcode::Cmpsw => "cmpsw",
            Opcode::Cmpsl => "cmpsl",
            Opcode::Cmpsq => "cmpsq",
            Opcode::Scas => "scas",
            Opcode::Scasb => "scasb",
            Opcode::Lods => "lods",
            Opcode::Lodsb => "lodsb",
            Opcode::Stos => "stos",
            Opcode::Stosb => "stosb",
            Opcode::Stosw => "stosw",
            Opcode::Stosl => "stosl",
            Opcode::Stosq => "stosq",
            Opcode::Rep => "rep",
            Opcode::Repz => "repz",
            Opcode::Repnz => "repnz",
            Opcode::Clc => "clc",
            Opcode::Stc => "stc",
            Opcode::Cmc => "cmc",
            Opcode::Cld => "cld",
            Opcode::Std => "std",
            Opcode::Cli => "cli",
            Opcode::Sti => "sti",
            Opcode::Lahf => "lahf",
            Opcode::Sahf => "sahf",
            Opcode::Pushf => "pushf",
            Opcode::Pushfq => "pushfq",
            Opcode::Popf => "popf",
            Opcode::Popfq => "popfq",
            Opcode::Cpuid => "cpuid",
            Opcode::Rdtsc => "rdtsc",
            Opcode::Rdtscp => "rdtscp",
            Opcode::Rdrand => "rdrand",
            Opcode::Rdseed => "rdseed",
            Opcode::Xgetbv => "xgetbv",
            Opcode::Lfence => "lfence",
            Opcode::Mfence => "mfence",
            Opcode::Sfence => "sfence",
            Opcode::Clflush => "clflush",
            Opcode::Prefetcht0 => "prefetcht0",
            Opcode::Prefetcht1 => "prefetcht1",
            Opcode::Prefetcht2 => "prefetcht2",
            Opcode::Prefetchnta => "prefetchnta",
            Opcode::Lock => "lock",
            Opcode::Data16 => "data16",
            Opcode::Xsave => "xsave",
            Opcode::Xrstor => "xrstor",
            Opcode::Fxsave => "fxsave",
            Opcode::Fxrstor => "fxrstor",
            Opcode::Ldmxcsr => "ldmxcsr",
            Opcode::Stmxcsr => "stmxcsr",
            Opcode::Vzeroupper => "vzeroupper",
            Opcode::Movaps => "movaps",
            Opcode::Movups => "movups",
            Opcode::Movapd => "movapd",
            Opcode::Movupd => "movupd",
            Opcode::Movss => "movss",
            Opcode::Movsd => "movsd",
            Opcode::Movd => "movd",
            Opcode::Movhps => "movhps",
            Opcode::Movlps => "movlps",
            Opcode::Movhpd => "movhpd",
            Opcode::Movlpd => "movlpd",
            Opcode::Movmskps => "movmskps",
            Opcode::Movmskpd => "movmskpd",
            Opcode::Addps => "addps",
            Opcode::Addpd => "addpd",
            Opcode::Addss => "addss",
            Opcode::Addsd => "addsd",
            Opcode::Subps => "subps",
            Opcode::Subpd => "subpd",
            Opcode::Subss => "subss",
            Opcode::Subsd => "subsd",
            Opcode::Mulps => "mulps",
            Opcode::Mulpd => "mulpd",
            Opcode::Mulss => "mulss",
            Opcode::Mulsd => "mulsd",
            Opcode::Divps => "divps",
            Opcode::Divpd => "divpd",
            Opcode::Divss => "divss",
            Opcode::Divsd => "divsd",
            Opcode::Sqrtps => "sqrtps",
            Opcode::Sqrtpd => "sqrtpd",
            Opcode::Sqrtss => "sqrtss",
            Opcode::Sqrtsd => "sqrtsd",
            Opcode::Maxss => "maxss",
            Opcode::Maxsd => "maxsd",
            Opcode::Minss => "minss",
            Opcode::Minsd => "minsd",
            Opcode::Andps => "andps",
            Opcode::Andpd => "andpd",
            Opcode::Andnps => "andnps",
            Opcode::Andnpd => "andnpd",
            Opcode::Orps => "orps",
            Opcode::Orpd => "orpd",
            Opcode::Xorps => "xorps",
            Opcode::Xorpd => "xorpd",
            Opcode::Cmpps => "cmpps",
            Opcode::Cmppd => "cmppd",
            Opcode::Cmpss => "cmpss",
            Opcode::Cmpsd => "cmpsd",
            Opcode::Comiss => "comiss",
            Opcode::Comisd => "comisd",
            Opcode::Ucomiss => "ucomiss",
            Opcode::Ucomisd => "ucomisd",
            Opcode::Shufps => "shufps",
            Opcode::Shufpd => "shufpd",
            Opcode::Unpcklps => "unpcklps",
            Opcode::Unpckhps => "unpckhps",
            Opcode::Cvtsi2ss => "cvtsi2ss",
            Opcode::Cvtsi2sd => "cvtsi2sd",
            Opcode::Cvtss2sd => "cvtss2sd",
            Opcode::Cvtsd2ss => "cvtsd2ss",
            Opcode::Cvttss2si => "cvttss2si",
            Opcode::Cvttsd2si => "cvttsd2si",
            Opcode::Cvtdq2ps => "cvtdq2ps",
            Opcode::Cvtdq2pd => "cvtdq2pd",
            Opcode::Cvtps2pd => "cvtps2pd",
            Opcode::Cvtpd2ps => "cvtpd2ps",
            Opcode::Movdqa => "movdqa",
            Opcode::Movdqu => "movdqu",
            Opcode::Paddb => "paddb",
            Opcode::Paddw => "paddw",
            Opcode::Paddd => "paddd",
            Opcode::Paddq => "paddq",
            Opcode::Psubb => "psubb",
            Opcode::Psubw => "psubw",
            Opcode::Psubd => "psubd",
            Opcode::Psubq => "psubq",
            Opcode::Pmullw => "pmullw",
            Opcode::Pmulld => "pmulld",
            Opcode::Pmuludq => "pmuludq",
            Opcode::Pmaddwd => "pmaddwd",
            Opcode::Pand => "pand",
            Opcode::Pandn => "pandn",
            Opcode::Por => "por",
            Opcode::Pxor => "pxor",
            Opcode::Pcmpeqb => "pcmpeqb",
            Opcode::Pcmpeqw => "pcmpeqw",
            Opcode::Pcmpeqd => "pcmpeqd",
            Opcode::Pcmpgtb => "pcmpgtb",
            Opcode::Pcmpgtd => "pcmpgtd",
            Opcode::Psllw => "psllw",
            Opcode::Pslld => "pslld",
            Opcode::Psllq => "psllq",
            Opcode::Psrlw => "psrlw",
            Opcode::Psrld => "psrld",
            Opcode::Psrlq => "psrlq",
            Opcode::Psraw => "psraw",
            Opcode::Psrad => "psrad",
            Opcode::Pslldq => "pslldq",
            Opcode::Psrldq => "psrldq",
            Opcode::Pshufb => "pshufb",
            Opcode::Pshufd => "pshufd",
            Opcode::Palignr => "palignr",
            Opcode::Punpcklbw => "punpcklbw",
            Opcode::Punpcklwd => "punpcklwd",
            Opcode::Punpckldq => "punpckldq",
            Opcode::Punpcklqdq => "punpcklqdq",
            Opcode::Punpckhbw => "punpckhbw",
            Opcode::Punpckhwd => "punpckhwd",
            Opcode::Punpckhdq => "punpckhdq",
            Opcode::Punpckhqdq => "punpckhqdq",
            Opcode::Packsswb => "packsswb",
            Opcode::Packuswb => "packuswb",
            Opcode::Pmovmskb => "pmovmskb",
            Opcode::Ptest => "ptest",
            Opcode::Unknown(text) => text.as_str(),
        }
    }

    /// Whether this opcode stands for the mnemonic `text`.
    pub fn is_named(&self, text: &str) -> (named: bool)
        ensures
            named == (self.spec_name() == text@),
    {
        same_text(self.name(), text)
    }
}

/// Whether the table holds the mnemonic `text`.
pub open spec fn is_mnemonic(text: Seq<char>) -> bool {
    exists|op: Opcode| !(op is Unknown) && #[trigger] op.spec_name() == text
}

/// The opcode of the mnemonic `text`: known if the table holds it, and
/// standing for `text` either way.
pub open spec fn opcode(text: Seq<char>) -> OpcodeView {
    OpcodeView { name: text, known: is_mnemonic(text) }
}

/// An unknown opcode stands for the text it keeps.
pub proof fn lemma_unknown_name(text: String)
    ensures
        Opcode::Unknown(text).spec_name() == text@,
{
    reveal(Opcode::spec_name);
}

/// No two entries of the table stand for the same mnemonic.
#[verifier::rlimit(100)]
pub proof fn lemma_names_distinct(a: Opcode, b: Opcode)
    requires
        !(a is Unknown),
        !(b is Unknown),
        a.spec_name() == b.spec_name(),
    ensures
        a == b,
{
    reveal(Opcode::spec_name);
    reveal_strlit("mov");
    reveal_strlit("movb");
    reveal_strlit("movw");
    reveal_strlit("movl");
    reveal_strlit("movq");
    reveal_strlit("movabs");
    reveal_strlit("movsbw");
    reveal_strlit("movsbl");
    reveal_strlit("movsbq");
    reveal_strlit("movswl");
    reveal_strlit("movswq");
    reveal_strlit("movslq");
    reveal_strlit("movzbw");
    reveal_strlit("movzbl");
    reveal_strlit("movzbq");
    reveal_strlit("movzwl");
    reveal_strlit("movzwq");
    reveal_strlit("cbtw");
    reveal_strlit("cwtl");
    reveal_strlit("cwtd");
    reveal_strlit("cltd");
    reveal_strlit("cltq");
    reveal_strlit("cqto");
    reveal_strlit("xchg");
    reveal_strlit("xchgl");
    reveal_strlit("xchgq");
    reveal_strlit("bswap");
    reveal_strlit("push");
    reveal_strlit("pushw");
    reveal_strlit("pushq");
    reveal_strlit("pop");
    reveal_strlit("popw");
    reveal_strlit("popq");
    reveal_strlit("lea");
    reveal_strlit("leaw");
    reveal_strlit("leal");
    reveal_strlit("leaq");
    reveal_strlit("xadd");
    reveal_strlit("cmpxchg");
    reveal_strlit("cmpxchg8b");
    reveal_strlit("cmpxchg16b");
    reveal_strlit("cmova");
    reveal_strlit("cmovae");
    reveal_strlit("cmovb");
    reveal_strlit("cmovbe");
    reveal_strlit("cmove");
    reveal_strlit("cmovne");
    reveal_strlit("cmovg");
    reveal_strlit("cmovge");
    reveal_strlit("cmovl");
    reveal_strlit("cmovle");
    reveal_strlit("cmovo");
    reveal_strlit("cmovno");
    reveal_strlit("cmovp");
    reveal_strlit("cmovnp");
    reveal_strlit("cmovs");
    reveal_strlit("cmovns");
    reveal_strlit("add");
    reveal_strlit("addb");
    reveal_strlit("addw");
    reveal_strlit("addl");
    reveal_strlit("addq");
    reveal_strlit("adc");
    reveal_strlit("adcl");
    reveal_strlit("adcq");
    reveal_strlit("sub");
    reveal_strlit("subb");
    reveal_strlit("subw");
    reveal_strlit("subl");
    reveal_strlit("subq");
    reveal_strlit("sbb");
    reveal_strlit("sbbl");
    reveal_strlit("sbbq");
    reveal_strlit("inc");
    reveal_strlit("incb");
    reveal_strlit("incw");
    reveal_strlit("incl");
    reveal_strlit("incq");
    reveal_strlit("dec");
    reveal_strlit("decb");
    reveal_strlit("decw");
    reveal_strlit("decl");
    reveal_strlit("decq");
    reveal_strlit("neg");
    reveal_strlit("negl");
    reveal_strlit("negq");
    reveal_strlit("cmp");
    reveal_strlit("cmpb");
    reveal_strlit("cmpw");
    reveal_strlit("cmpl");
    reveal_strlit("cmpq");
    reveal_strlit("mul");
    reveal_strlit("mull");
    reveal_strlit("mulq");
    reveal_strlit("imul");
    reveal_strlit("imull");
    reveal_strlit("imulq");
    reveal_strlit("div");
    reveal_strlit("divl");
    reveal_strlit("divq");
    reveal_strlit("idiv");
    reveal_strlit("idivl");
    reveal_strlit("idivq");
    reveal_strlit("and");
    reveal_strlit("andb");
    reveal_strlit("andw");
    reveal_strlit("andl");
    reveal_strlit("andq");
    reveal_strlit("or");
    reveal_strlit("orb");
    reveal_strlit("orw");
    reveal_strlit("orl");
    reveal_strlit("orq");
    reveal_strlit("xor");
    reveal_strlit("xorb");
    reveal_strlit("xorw");
    reveal_strlit("xorl");
    reveal_strlit("xorq");
    reveal_strlit("not");
    reveal_strlit("notl");
    reveal_strlit("notq");
    reveal_strlit("test");
    reveal_strlit("testb");
    reveal_strlit("testw");
    reveal_strlit("testl");
    reveal_strlit("testq");
    reveal_strlit("shl");
    reveal_strlit("shll");
    reveal_strlit("shlq");
    reveal_strlit("shr");
    reveal_strlit("shrl");
    reveal_strlit("shrq");
    reveal_strlit("sal");
    reveal_strlit("sar");
    reveal_strlit("sarl");
    reveal_strlit("sarq");
    reveal_strlit("rol");
    reveal_strlit("roll");
    reveal_strlit("rolq");
    reveal_strlit("ror");
    reveal_strlit("rorl");
    reveal_strlit("rorq");
    reveal_strlit("rcl");
    reveal_strlit("rcr");
    reveal_strlit("shld");
    reveal_strlit("shrd");
    reveal_strlit("bt");
    reveal_strlit("bts");
    reveal_strlit("btr");
    reveal_strlit("btc");
    reveal_strlit("bsf");
    reveal_strlit("bsr");
    reveal_strlit("popcnt");
    reveal_strlit("lzcnt");
    reveal_strlit("tzcnt");
    reveal_strlit("andn");
    reveal_strlit("jmp");
    reveal_strlit("jmpq");
    reveal_strlit("call");
    reveal_strlit("callq");
    reveal_strlit("ret");
    reveal_strlit("retq");
    reveal_strlit("leave");
    reveal_strlit("leaveq");
    reveal_strlit("enter");
    reveal_strlit("ja");
    reveal_strlit("jae");
    reveal_strlit("jb");
    reveal_strlit("jbe");
    reveal_strlit("je");
    reveal_strlit("jne");
    reveal_strlit("jg");
    reveal_strlit("jge");
    reveal_strlit("jl");
    reveal_strlit("jle");
    reveal_strlit("jo");
    reveal_strlit("jno");
    reveal_strlit("jp");
    reveal_strlit("jnp");
    reveal_strlit("js");
    reveal_strlit("jns");
    reveal_strlit("jrcxz");
    reveal_strlit("jecxz");
    reveal_strlit("loop");
    reveal_strlit("loope");
    reveal_strlit("loopne");
    reveal_strlit("int");
    reveal_strlit("int3");
    reveal_strlit("syscall");
    reveal_strlit("sysret");
    reveal_strlit("iretq");
    reveal_strlit("hlt");
    reveal_strlit("nop");
    reveal_strlit("nopw");
    reveal_strlit("nopl");
    reveal_strlit("ud2");
    reveal_strlit("pause");
    reveal_strlit("endbr32");
    reveal_strlit("endbr64");
    reveal_strlit("seta");
    reveal_strlit("setae");
    reveal_strlit("setb");
    reveal_strlit("setbe");
    reveal_strlit("sete");
    reveal_strlit("setne");
    reveal_strlit("setg");
    reveal_strlit("setge");
    reveal_strlit("setl");
    reveal_strlit("setle");
    reveal_strlit("seto");
    reveal_strlit("setno");
    reveal_strlit("setp");
    reveal_strlit("setnp");
    reveal_strlit("sets");
    reveal_strlit("setns");
    reveal_strlit("movsb");
    reveal_strlit("movsw");
    reveal_strlit("movsl");
    reveal_strlit("cmpsb");
    reveal_strlit("cmpsw");
    reveal_strlit("cmpsl");
    reveal_strlit("cmpsq");
    reveal_strlit("scas");
    reveal_strlit("scasb");
    reveal_strlit("lods");
    reveal_strlit("lodsb");
    reveal_strlit("stos");
    reveal_strlit("stosb");
    reveal_strlit("stosw");
    reveal_strlit("stosl");
    reveal_strlit("stosq");
    reveal_strlit("rep");
    reveal_strlit("repz");
    reveal_strlit("repnz");
    reveal_strlit("clc");
    reveal_strlit("stc");
    reveal_strlit("cmc");
    reveal_strlit("cld");
    reveal_strlit("std");
    reveal_strlit("cli");
    reveal_strlit("sti");
    reveal_strlit("lahf");
    reveal_strlit("sahf");
    reveal_strlit("pushf");
    reveal_strlit("pushfq");
    reveal_strlit("popf");
    reveal_strlit("popfq");
    reveal_strlit("cpuid");
    reveal_strlit("rdtsc");
    reveal_strlit("rdtscp");
    reveal_strlit("rdrand");
    reveal_strlit("rdseed");
    reveal_strlit("xgetbv");
    reveal_strlit("lfence");
    reveal_strlit("mfence");
    reveal_strlit("sfence");
    reveal_strlit("clflush");
    reveal_strlit("prefetcht0");
    reveal_strlit("prefetcht1");
    reveal_strlit("prefetcht2");
    reveal_strlit("prefetchnta");
    reveal_strlit("lock");
    reveal_strlit("data16");
    reveal_strlit("xsave");
    reveal_strlit("xrstor");
    reveal_strlit("fxsave");
    reveal_strlit("fxrstor");
    reveal_strlit("ldmxcsr");
    reveal_strlit("stmxcsr");
    reveal_strlit("vzeroupper");
    reveal_strlit("movaps");
    reveal_strlit("movups");
    reveal_strlit("movapd");
    reveal_strlit("movupd");
    reveal_strlit("movss");
    reveal_strlit("movsd");
    reveal_strlit("movd");
    reveal_strlit("movhps");
    reveal_strlit("movlps");
    reveal_strlit("movhpd");
    reveal_strlit("movlpd");
    reveal_strlit("movmskps");
    reveal_strlit("movmskpd");
    reveal_strlit("addps");
    reveal_strlit("addpd");
    reveal_strlit("addss");
    reveal_strlit("addsd");
    reveal_strlit("subps");
    reveal_strlit("subpd");
    reveal_strlit("subss");
    reveal_strlit("subsd");
    reveal_strlit("mulps");
    reveal_strlit("mulpd");
    reveal_strlit("mulss");
    reveal_strlit("mulsd");
    reveal_strlit("divps");
    reveal_strlit("divpd");
    reveal_strlit("divss");
    reveal_strlit("divsd");
    reveal_strlit("sqrtps");
    reveal_strlit("sqrtpd");
    reveal_strlit("sqrtss");
    reveal_strlit("sqrtsd");
    reveal_strlit("maxss");
    reveal_strlit("maxsd");
    reveal_strlit("minss");
    reveal_strlit("minsd");
    reveal_strlit("andps");
    reveal_strlit("andpd");
    reveal_strlit("andnps");
    reveal_strlit("andnpd");
    reveal_strlit("orps");
    reveal_strlit("orpd");
    reveal_strlit("xorps");
    reveal_strlit("xorpd");
    reveal_strlit("cmpps");
    reveal_strlit("cmppd");
    reveal_strlit("cmpss");
    reveal_strlit("cmpsd");
    reveal_strlit("comiss");
    reveal_strlit("comisd");
    reveal_strlit("ucomiss");
    reveal_strlit("ucomisd");
    reveal_strlit("shufps");
    reveal_strlit("shufpd");
    reveal_strlit("unpcklps");
    reveal_strlit("unpckhps");
    reveal_strlit("cvtsi2ss");
    reveal_strlit("cvtsi2sd");
    reveal_strlit("cvtss2sd");
    reveal_strlit("cvtsd2ss");
    reveal_strlit("cvttss2si");
    reveal_strlit("cvttsd2si");
    reveal_strlit("cvtdq2ps");
    reveal_strlit("cvtdq2pd");
    reveal_strlit("cvtps2pd");
    reveal_strlit("cvtpd2ps");
    reveal_strlit("movdqa");
    reveal_strlit("movdqu");
    reveal_strlit("paddb");
    reveal_strlit("paddw");
    reveal_strlit("paddd");
    reveal_strlit("paddq");
    reveal_strlit("psubb");
    reveal_strlit("psubw");
    reveal_strlit("psubd");
    reveal_strlit("psubq");
    reveal_strlit("pmullw");
    reveal_strlit("pmulld");
    reveal_strlit("pmuludq");
    reveal_strlit("pmaddwd");
    reveal_strlit("pand");
    reveal_strlit("pandn");
    reveal_strlit("por");
    reveal_strlit("pxor");
    reveal_strlit("pcmpeqb");
    reveal_strlit("pcmpeqw");
    reveal_strlit("pcmpeqd");
    reveal_strlit("pcmpgtb");
    reveal_strlit("pcmpgtd");
    reveal_strlit("psllw");
    reveal_strlit("pslld");
    reveal_strlit("psllq");
    reveal_strlit("psrlw");
    reveal_strlit("psrld");
    reveal_strlit("psrlq");
    reveal_strlit("psraw");
    reveal_strlit("psrad");
    reveal_strlit("pslldq");
    reveal_strlit("psrldq");
    reveal_strlit("pshufb");
    reveal_strlit("pshufd");
    reveal_strlit("palignr");
    reveal_strlit("punpcklbw");
    reveal_strlit("punpcklwd");
    reveal_strlit("punpckldq");
    reveal_strlit("punpcklqdq");
    reveal_strlit("punpckhbw");
    reveal_strlit("punpckhwd");
    reveal_strlit("punpckhdq");
    reveal_strlit("punpckhqdq");
    reveal_strlit("packsswb");
    reveal_strlit("packuswb");
    reveal_strlit("pmovmskb");
    reveal_strlit("ptest");
    // Equal names agree in length and in each character, and no two entries
    // agree in all of these. The cases go by length to keep each one small.
    let x = a.spec_name();
    let y = b.spec_name();
    assert(x.len() == y.len());
    assert(x[0] == y[0]);
    assert(x[1] == y[1]);
    assert(x[2] == y[2]);
    assert(x[3] == y[3]);
    assert(x[4] == y[4]);
    assert(x[5] == y[5]);
    assert(x[6] == y[6]);
    assert(x[7] == y[7]);
    assert(x[8] == y[8]);
    assert(x[9] == y[9]);
    assert(x[10] == y[10]);
    assert(x.len() == 2 ==> a == b);
    assert(x.len() == 3 ==> a == b);
    assert(x.len() == 4 ==> a == b);
    assert(x.len() == 5 ==> a == b);
    assert(x.len() == 6 ==> a == b);
    assert(x.len() == 7 ==> a == b);
    assert(x.len() == 8 ==> a == b);
    assert(x.len() == 9 ==> a == b);
    assert(x.len() == 10 ==> a == b);
    assert(x.len() == 11 ==> a == b);
}

/// Two opcodes that look alike to a contract are the same entry of the table,
/// or both unknown with the same text.
pub proof fn lemma_view_decides(a: Opcode, b: Opcode)
    requires
        a@ == b@,
    ensures
        a is Unknown <==> b is Unknown,
        !(a is Unknown) ==> a == b,
        a is Unknown ==> a->Unknown_0@ == b->Unknown_0@,
{
    if a is Unknown {
        lemma_unknown_name(a->Unknown_0);
        lemma_unknown_name(b->Unknown_0);
    } else {
        lemma_names_distinct(a, b);
    }
}

/// A mnemonic of the table resolves to its own entry and to no other.
pub proof fn lemma_opcode_of_entry(entry: Opcode)
    requires
        !(entry is Unknown),
    ensures
        opcode(entry.spec_name()) == entry@,
        forall|op: Opcode| op@ == opcode(entry.spec_name()) ==> op == entry,
{
    assert forall|op: Opcode| op@ == opcode(entry.spec_name()) implies op == entry by {
        lemma_view_decides(op, entry);
    }
}

/// A text that is no mnemonic of the table resolves to the unknown opcode
/// that keeps it, letter for letter.
pub proof fn lemma_opcode_of_other(text: Seq<char>, op: Opcode)
    requires
        !is_mnemonic(text),
        op@ == opcode(text),
    ensures
        op is Unknown,
        op->Unknown_0@ == text,
{
    lemma_unknown_name(op->Unknown_0);
}

/// Resolves a mnemonic to its opcode. The lookup is exact and case-sensitive;
/// a mnemonic that the table does not hold comes back as
/// [`Opcode::Unknown`], with the text unchanged.
pub fn opcode_of(mnemonic: &str) -> (op: Opcode)
    ensures
        op@ == opcode(mnemonic@),
{
    if Opcode::Mov.is_named(mnemonic) {
        return Opcode::Mov;
    }
    if Opcode::Movb.is_named(mnemonic) {
        return Opcode::Movb;
    }
    if Opcode::Movw.is_named(mnemonic) {
        return Opcode::Movw;
    }
    if Opcode::Movl.is_named(mnemonic) {
        return Opcode::Movl;
    }
    if Opcode::Movq.is_named(mnemonic) {
        return Opcode::Movq;
    }
    if Opcode::Movabs.is_named(mnemonic) {
        return Opcode::Movabs;
    }
    if Opcode::Movsbw.is_named(mnemonic) {
        return Opcode::Movsbw;
    }
    if Opcode::Movsbl.is_named(mnemonic) {
        return Opcode::Movsbl;
    }
    if Opcode::Movsbq.is_named(mnemonic) {
        return Opcode::Movsbq;
    }
    if Opcode::Movswl.is_named(mnemonic) {
        return Opcode::Movswl;
    }
    if Opcode::Movswq.is_named(mnemonic) {
        return Opcode::Movswq;
    }
    if Opcode::Movslq.is_named(mnemonic) {
        return Opcode::Movslq;
    }
    if Opcode::Movzbw.is_named(mnemonic) {
        return Opcode::Movzbw;
    }
    if Opcode::Movzbl.is_named(mnemonic) {
        return Opcode::Movzbl;
    }
    if Opcode::Movzbq.is_named(mnemonic) {
        return Opcode::Movzbq;
    }
    if Opcode::Movzwl.is_named(mnemonic) {
        return Opcode::Movzwl;
    }
    if Opcode::Movzwq.is_named(mnemonic) {
        return Opcode::Movzwq;
    }
    if Opcode::Cbtw.is_named(mnemonic) {
        return Opcode::Cbtw;
    }
    if Opcode::Cwtl.is_named(mnemonic) {
        return Opcode::Cwtl;
    }
    if Opcode::Cwtd.is_named(mnemonic) {
        return Opcode::Cwtd;
    }
    if Opcode::Cltd.is_named(mnemonic) {
        return Opcode::Cltd;
    }
    if Opcode::Cltq.is_named(mnemonic) {
        return Opcode::Cltq;
    }
    if Opcode::Cqto.is_named(mnemonic) {
        return Opcode::Cqto;
    }
    if Opcode::Xchg.is_named(mnemonic) {
        return Opcode::Xchg;
    }
    if Opcode::Xchgl.is_named(mnemonic) {
        return Opcode::Xchgl;
    }
    if Opcode::Xchgq.is_named(mnemonic) {
        return Opcode::Xchgq;
    }
    if Opcode::Bswap.is_named(mnemonic) {
        return Opcode::Bswap;
    }
    if Opcode::Push.is_named(mnemonic) {
        return Opcode::Push;
    }
    if Opcode::Pushw.is_named(mnemonic) {
        return Opcode::Pushw;
    }
    if Opcode::Pushq.is_named(mnemonic) {
        return Opcode::Pushq;
    }
    if Opcode::Pop.is_named(mnemonic) {
        return Opcode::Pop;
    }
    if Opcode::Popw.is_named(mnemonic) {
        return Opcode::Popw;
    }
    if Opcode::Popq.is_named(mnemonic) {
        return Opcode::Popq;
    }
    if Opcode::Lea.is_named(mnemonic) {
        return Opcode::Lea;
    }
    if Opcode::Leaw.is_named(mnemonic) {
        return Opcode::Leaw;
    }
    if Opcode::Leal.is_named(mnemonic) {
        return Opcode::Leal;
    }
    if Opcode::Leaq.is_named(mnemonic) {
        return Opcode::Leaq;
    }
    if Opcode::Xadd.is_named(mnemonic) {
        return Opcode::Xadd;
    }
    if Opcode::Cmpxchg.is_named(mnemonic) {
        return Opcode::Cmpxchg;
    }
    if Opcode::Cmpxchg8b.is_named(mnemonic) {
        return Opcode::Cmpxchg8b;
    }
    if Opcode::Cmpxchg16b.is_named(mnemonic) {
        return Opcode::Cmpxchg16b;
    }
    if Opcode::Cmova.is_named(mnemonic) {
        return Opcode::Cmova;
    }
    if Opcode::Cmovae.is_named(mnemonic) {
        return Opcode::Cmovae;
    }
    if Opcode::Cmovb.is_named(mnemonic) {
        return Opcode::Cmovb;
    }
    if Opcode::Cmovbe.is_named(mnemonic) {
        return Opcode::Cmovbe;
    }
    if Opcode::Cmove.is_named(mnemonic) {
        return Opcode::Cmove;
    }
    if Opcode::Cmovne.is_named(mnemonic) {
        return Opcode::Cmovne;
    }
    if Opcode::Cmovg.is_named(mnemonic) {
        return Opcode::Cmovg;
    }
    if Opcode::Cmovge.is_named(mnemonic) {
        return Opcode::Cmovge;
    }
    if Opcode::Cmovl.is_named(mnemonic) {
        return Opcode::Cmovl;
    }
    if Opcode::Cmovle.is_named(mnemonic) {
        return Opcode::Cmovle;
    }
    if Opcode::Cmovo.is_named(mnemonic) {
        return Opcode::Cmovo;
    }
    if Opcode::Cmovno.is_named(mnemonic) {
        return Opcode::Cmovno;
    }
    if Opcode::Cmovp.is_named(mnemonic) {
        return Opcode::Cmovp;
    }
    if Opcode::Cmovnp.is_named(mnemonic) {
        return Opcode::Cmovnp;
    }
    if Opcode::Cmovs.is_named(mnemonic) {
        return Opcode::Cmovs;
    }
    if Opcode::Cmovns.is_named(mnemonic) {
        return Opcode::Cmovns;
    }
    if Opcode::Add.is_named(mnemonic) {
        return Opcode::Add;
    }
    if Opcode::Addb.is_named(mnemonic) {
        return Opcode::Addb;
    }
    if Opcode::Addw.is_named(mnemonic) {
        return Opcode::Addw;
    }
    if Opcode::Addl.is_named(mnemonic) {
        return Opcode::Addl;
    }
    if Opcode::Addq.is_named(mnemonic) {
        return Opcode::Addq;
    }
    if Opcode::Adc.is_named(mnemonic) {
        return Opcode::Adc;
    }
    if Opcode::Adcl.is_named(mnemonic) {
        return Opcode::Adcl;
    }
    if Opcode::Adcq.is_named(mnemonic) {
        return Opcode::Adcq;
    }
    if Opcode::Sub.is_named(mnemonic) {
        return Opcode::Sub;
    }
    if Opcode::Subb.is_named(mnemonic) {
        return Opcode::Subb;
    }
    if Opcode::Subw.is_named(mnemonic) {
        return Opcode::Subw;
    }
    if Opcode::Subl.is_named(mnemonic) {
        return Opcode::Subl;
    }
    if Opcode::Subq.is_named(mnemonic) {
        return Opcode::Subq;
    }
    if Opcode::Sbb.is_named(mnemonic) {
        return Opcode::Sbb;
    }
    if Opcode::Sbbl.is_named(mnemonic) {
        return Opcode::Sbbl;
    }
    if Opcode::Sbbq.is_named(mnemonic) {
        return Opcode::Sbbq;
    }
    if Opcode::Inc.is_named(mnemonic) {
        return Opcode::Inc;
    }
    if Opcode::Incb.is_named(mnemonic) {
        return Opcode::Incb;
    }
    if Opcode::Incw.is_named(mnemonic) {
        return Opcode::Incw;
    }
    if Opcode::Incl.is_named(mnemonic) {
        return Opcode::Incl;
    }
    if Opcode::Incq.is_named(mnemonic) {
        return Opcode::Incq;
    }
    if Opcode::Dec.is_named(mnemonic) {
        return Opcode::Dec;
    }
    if Opcode::Decb.is_named(mnemonic) {
        return Opcode::Decb;
    }
    if Opcode::Decw.is_named(mnemonic) {
        return Opcode::Decw;
    }
    if Opcode::Decl.is_named(mnemonic) {
        return Opcode::Decl;
    }
    if Opcode::Decq.is_named(mnemonic) {
        return Opcode::Decq;
    }
    if Opcode::Neg.is_named(mnemonic) {
        return Opcode::Neg;
    }
    if Opcode::Negl.is_named(mnemonic) {
        return Opcode::Negl;
    }
    if Opcode::Negq.is_named(mnemonic) {
        return Opcode::Negq;
    }
    if Opcode::Cmp.is_named(mnemonic) {
        return Opcode::Cmp;
    }
    if Opcode::Cmpb.is_named(mnemonic) {
        return Opcode::Cmpb;
    }
    if Opcode::Cmpw.is_named(mnemonic) {
        return Opcode::Cmpw;
    }
    if Opcode::Cmpl.is_named(mnemonic) {
        return Opcode::Cmpl;
    }
    if Opcode::Cmpq.is_named(mnemonic) {
        return Opcode::Cmpq;
    }
    if Opcode::Mul.is_named(mnemonic) {
        return Opcode::Mul;
    }
    if Opcode::Mull.is_named(mnemonic) {
        return Opcode::Mull;
    }
    if Opcode::Mulq.is_named(mnemonic) {
        return Opcode::Mulq;
    }
    if Opcode::Imul.is_named(mnemonic) {
        return Opcode::Imul;
    }
    if Opcode::Imull.is_named(mnemonic) {
        return Opcode::Imull;
    }
    if Opcode::Imulq.is_named(mnemonic) {
        return Opcode::Imulq;
    }
    if Opcode::Div.is_named(mnemonic) {
        return Opcode::Div;
    }
    if Opcode::Divl.is_named(mnemonic) {
        return Opcode::Divl;
    }
    if Opcode::Divq.is_named(mnemonic) {
        return Opcode::Divq;
    }
    if Opcode::Idiv.is_named(mnemonic) {
        return Opcode::Idiv;
    }
    if Opcode::Idivl.is_named(mnemonic) {
        return Opcode::Idivl;
    }
    if Opcode::Idivq.is_named(mnemonic) {
        return Opcode::Idivq;
    }
    if Opcode::And.is_named(mnemonic) {
        return Opcode::And;
    }
    if Opcode::Andb.is_named(mnemonic) {
        return Opcode::Andb;
    }
    if Opcode::Andw.is_named(mnemonic) {
        return Opcode::Andw;
    }
    if Opcode::Andl.is_named(mnemonic) {
        return Opcode::Andl;
    }
    if Opcode::Andq.is_named(mnemonic) {
        return Opcode::Andq;
    }
    if Opcode::Or.is_named(mnemonic) {
        return Opcode::Or;
    }
    if Opcode::Orb.is_named(mnemonic) {
        return Opcode::Orb;
    }
    if Opcode::Orw.is_named(mnemonic) {
        return Opcode::Orw;
    }
    if Opcode::Orl.is_named(mnemonic) {
        return Opcode::Orl;
    }
    if Opcode::Orq.is_named(mnemonic) {
        return Opcode::Orq;
    }
    if Opcode::Xor.is_named(mnemonic) {
        return Opcode::Xor;
    }
    if Opcode::Xorb.is_named(mnemonic) {
        return Opcode::Xorb;
    }
    if Opcode::Xorw.is_named(mnemonic) {
        return Opcode::Xorw;
    }
    if Opcode::Xorl.is_named(mnemonic) {
        return Opcode::Xorl;
    }
    if Opcode::Xorq.is_named(mnemonic) {
        return Opcode::Xorq;
    }
    if Opcode::Not.is_named(mnemonic) {
        return Opcode::Not;
    }
    if Opcode::Notl.is_named(mnemonic) {
        return Opcode::Notl;
    }
    if Opcode::Notq.is_named(mnemonic) {
        return Opcode::Notq;
    }
    if Opcode::Test.is_named(mnemonic) {
        return Opcode::Test;
    }
    if Opcode::Testb.is_named(mnemonic) {
        return Opcode::Testb;
    }
    if Opcode::Testw.is_named(mnemonic) {
        return Opcode::Testw;
    }
    if Opcode::Testl.is_named(mnemonic) {
        return Opcode::Testl;
    }
    if Opcode::Testq.is_named(mnemonic) {
        return Opcode::Testq;
    }
    if Opcode::Shl.is_named(mnemonic) {
        return Opcode::Shl;
    }
    if Opcode::Shll.is_named(mnemonic) {
        return Opcode::Shll;
    }
    if Opcode::Shlq.is_named(mnemonic) {
        return Opcode::Shlq;
    }
    if Opcode::Shr.is_named(mnemonic) {
        return Opcode::Shr;
    }
    if Opcode::Shrl.is_named(mnemonic) {
        return Opcode::Shrl;
    }
    if Opcode::Shrq.is_named(mnemonic) {
        return Opcode::Shrq;
    }
    if Opcode::Sal.is_named(mnemonic) {
        return Opcode::Sal;
    }
    if Opcode::Sar.is_named(mnemonic) {
        return Opcode::Sar;
    }
    if Opcode::Sarl.is_named(mnemonic) {
        return Opcode::Sarl;
    }
    if Opcode::Sarq.is_named(mnemonic) {
        return Opcode::Sarq;
    }
    if Opcode::Rol.is_named(mnemonic) {
        return Opcode::Rol;
    }
    if Opcode::Roll.is_named(mnemonic) {
        return Opcode::Roll;
    }
    if Opcode::Rolq.is_named(mnemonic) {
        return Opcode::Rolq;
    }
    if Opcode::Ror.is_named(mnemonic) {
        return Opcode::Ror;
    }
    if Opcode::Rorl.is_named(mnemonic) {
        return Opcode::Rorl;
    }
    if Opcode::Rorq.is_named(mnemonic) {
        return Opcode::Rorq;
    }
    if Opcode::Rcl.is_named(mnemonic) {
        return Opcode::Rcl;
    }
    if Opcode::Rcr.is_named(mnemonic) {
        return Opcode::Rcr;
    }
    if Opcode::Shld.is_named(mnemonic) {
        return Opcode::Shld;
    }
    if Opcode::Shrd.is_named(mnemonic) {
        return Opcode::Shrd;
    }
    if Opcode::Bt.is_named(mnemonic) {
        return Opcode::Bt;
    }
    if Opcode::Bts.is_named(mnemonic) {
        return Opcode::Bts;
    }
    if Opcode::Btr.is_named(mnemonic) {
        return Opcode::Btr;
    }
    if Opcode::Btc.is_named(mnemonic) {
        return Opcode::Btc;
    }
    if Opcode::Bsf.is_named(mnemonic) {
        return Opcode::Bsf;
    }
    if Opcode::Bsr.is_named(mnemonic) {
        return Opcode::Bsr;
    }
    if Opcode::Popcnt.is_named(mnemonic) {
        return Opcode::Popcnt;
    }
    if Opcode::Lzcnt.is_named(mnemonic) {
        return Opcode::Lzcnt;
    }
    if Opcode::Tzcnt.is_named(mnemonic) {
        return Opcode::Tzcnt;
    }
    if Opcode::Andn.is_named(mnemonic) {
        return Opcode::Andn;
    }
    if Opcode::Jmp.is_named(mnemonic) {
        return Opcode::Jmp;
    }
    if Opcode::Jmpq.is_named(mnemonic) {
        return Opcode::Jmpq;
    }
    if Opcode::Call.is_named(mnemonic) {
        return Opcode::Call;
    }
    if Opcode::Callq.is_named(mnemonic) {
        return Opcode::Callq;
    }
    if Opcode::Ret.is_named(mnemonic) {
        return Opcode::Ret;
    }
    if Opcode::Retq.is_named(mnemonic) {
        return Opcode::Retq;
    }
    if Opcode::Leave.is_named(mnemonic) {
        return Opcode::Leave;
    }
    if Opcode::Leaveq.is_named(mnemonic) {
        return Opcode::Leaveq;
    }
    if Opcode::Enter.is_named(mnemonic) {
        return Opcode::Enter;
    }
    if Opcode::Ja.is_named(mnemonic) {
        return Opcode::Ja;
    }
    if Opcode::Jae.is_named(mnemonic) {
        return Opcode::Jae;
    }
    if Opcode::Jb.is_named(mnemonic) {
        return Opcode::Jb;
    }
    if Opcode::Jbe.is_named(mnemonic) {
        return Opcode::Jbe;
    }
    if Opcode::Je.is_named(mnemonic) {
        return Opcode::Je;
    }
    if Opcode::Jne.is_named(mnemonic) {
        return Opcode::Jne;
    }
    if Opcode::Jg.is_named(mnemonic) {
        return Opcode::Jg;
    }
    if Opcode::Jge.is_named(mnemonic) {
        return Opcode::Jge;
    }
    if Opcode::Jl.is_named(mnemonic) {
        return Opcode::Jl;
    }
    if Opcode::Jle.is_named(mnemonic) {
        return Opcode::Jle;
    }
    if Opcode::Jo.is_named(mnemonic) {
        return Opcode::Jo;
    }
    if Opcode::Jno.is_named(mnemonic) {
        return Opcode::Jno;
    }
    if Opcode::Jp.is_named(mnemonic) {
        return Opcode::Jp;
    }
    if Opcode::Jnp.is_named(mnemonic) {
        return Opcode::Jnp;
    }
    if Opcode::Js.is_named(mnemonic) {
        return Opcode::Js;
    }
    if Opcode::Jns.is_named(mnemonic) {
        return Opcode::Jns;
    }
    if Opcode::Jrcxz.is_named(mnemonic) {
        return Opcode::Jrcxz;
    }
    if Opcode::Jecxz.is_named(mnemonic) {
        return Opcode::Jecxz;
    }
    if Opcode::Loop.is_named(mnemonic) {
        return Opcode::Loop;
    }
    if Opcode::Loope.is_named(mnemonic) {
        return Opcode::Loope;
    }
    if Opcode::Loopne.is_named(mnemonic) {
        return Opcode::Loopne;
    }
    if Opcode::Int.is_named(mnemonic) {
        return Opcode::Int;
    }
    if Opcode::Int3.is_named(mnemonic) {
        return Opcode::Int3;
    }
    if Opcode::Syscall.is_named(mnemonic) {
        return Opcode::Syscall;
    }
    if Opcode::Sysret.is_named(mnemonic) {
        return Opcode::Sysret;
    }
    if Opcode::Iretq.is_named(mnemonic) {
        return Opcode::Iretq;
    }
    if Opcode::Hlt.is_named(mnemonic) {
        return Opcode::Hlt;
    }
    if Opcode::Nop.is_named(mnemonic) {
        return Opcode::Nop;
    }
    if Opcode::Nopw.is_named(mnemonic) {
        return Opcode::Nopw;
    }
    if Opcode::Nopl.is_named(mnemonic) {
        return Opcode::Nopl;
    }
    if Opcode::Ud2.is_named(mnemonic) {
        return Opcode::Ud2;
    }
    if Opcode::Pause.is_named(mnemonic) {
        return Opcode::Pause;
    }
    if Opcode::Endbr32.is_named(mnemonic) {
        return Opcode::Endbr32;
    }
    if Opcode::Endbr64.is_named(mnemonic) {
        return Opcode::Endbr64;
    }
    if Opcode::Seta.is_named(mnemonic) {
        return Opcode::Seta;
    }
    if Opcode::Setae.is_named(mnemonic) {
        return Opcode::Setae;
    }
    if Opcode::Setb.is_named(mnemonic) {
        return Opcode::Setb;
    }
    if Opcode::Setbe.is_named(mnemonic) {
        return Opcode::Setbe;
    }
    if Opcode::Sete.is_named(mnemonic) {
        return Opcode::Sete;
    }
    if Opcode::Setne.is_named(mnemonic) {
        return Opcode::Setne;
    }
    if Opcode::Setg.is_named(mnemonic) {
        return Opcode::Setg;
    }
    if Opcode::Setge.is_named(mnemonic) {
        return Opcode::Setge;
    }
    if Opcode::Setl.is_named(mnemonic) {
        return Opcode::Setl;
    }
    if Opcode::Setle.is_named(mnemonic) {
        return Opcode::Setle;
    }
    if Opcode::Seto.is_named(mnemonic) {
        return Opcode::Seto;
    }
    if Opcode::Setno.is_named(mnemonic) {
        return Opcode::Setno;
    }
    if Opcode::Setp.is_named(mnemonic) {
        return Opcode::Setp;
    }
    if Opcode::Setnp.is_named(mnemonic) {
        return Opcode::Setnp;
    }
    if Opcode::Sets.is_named(mnemonic) {
        return Opcode::Sets;
    }
    if Opcode::Setns.is_named(mnemonic) {
        return Opcode::Setns;
    }
    if Opcode::Movsb.is_named(mnemonic) {
        return Opcode::Movsb;
    }
    if Opcode::Movsw.is_named(mnemonic) {
        return Opcode::Movsw;
    }
    if Opcode::Movsl.is_named(mnemonic) {
        return Opcode::Movsl;
    }
    if Opcode::Cmpsb.is_named(mnemonic) {
        return Opcode::Cmpsb;
    }
    if Opcode::Cmpsw.is_named(mnemonic) {
        return Opcode::Cmpsw;
    }
    if Opcode::Cmpsl.is_named(mnemonic) {
        return Opcode::Cmpsl;
    }
    if Opcode::Cmpsq.is_named(mnemonic) {
        return Opcode::Cmpsq;
    }
    if Opcode::Scas.is_named(mnemonic) {
        return Opcode::Scas;
    }
    if Opcode::Scasb.is_named(mnemonic) {
        return Opcode::Scasb;
    }
    if Opcode::Lods.is_named(mnemonic) {
        return Opcode::Lods;
    }
    if Opcode::Lodsb.is_named(mnemonic) {
        return Opcode::Lodsb;
    }
    if Opcode::Stos.is_named(mnemonic) {
        return Opcode::Stos;
    }
    if Opcode::Stosb.is_named(mnemonic) {
        return Opcode::Stosb;
    }
    if Opcode::Stosw.is_named(mnemonic) {
        return Opcode::Stosw;
    }
    if Opcode::Stosl.is_named(mnemonic) {
        return Opcode::Stosl;
    }
    if Opcode::Stosq.is_named(mnemonic) {
        return Opcode::Stosq;
    }
    if Opcode::Rep.is_named(mnemonic) {
        return Opcode::Rep;
    }
    if Opcode::Repz.is_named(mnemonic) {
        return Opcode::Repz;
    }
    if Opcode::Repnz.is_named(mnemonic) {
        return Opcode::Repnz;
    }
    if Opcode::Clc.is_named(mnemonic) {
        return Opcode::Clc;
    }
    if Opcode::Stc.is_named(mnemonic) {
        return Opcode::Stc;
    }
    if Opcode::Cmc.is_named(mnemonic) {
        return Opcode::Cmc;
    }
    if Opcode::Cld.is_named(mnemonic) {
        return Opcode::Cld;
    }
    if Opcode::Std.is_named(mnemonic) {
        return Opcode::Std;
    }
    if Opcode::Cli.is_named(mnemonic) {
        return Opcode::Cli;
    }
    if Opcode::Sti.is_named(mnemonic) {
        return Opcode::Sti;
    }
    if Opcode::Lahf.is_named(mnemonic) {
        return Opcode::Lahf;
    }
    if Opcode::Sahf.is_named(mnemonic) {
        return Opcode::Sahf;
    }
    if Opcode::Pushf.is_named(mnemonic) {
        return Opcode::Pushf;
    }
    if Opcode::Pushfq.is_named(mnemonic) {
        return Opcode::Pushfq;
    }
    if Opcode::Popf.is_named(mnemonic) {
        return Opcode::Popf;
    }
    if Opcode::Popfq.is_named(mnemonic) {
        return Opcode::Popfq;
    }
    if Opcode::Cpuid.is_named(mnemonic) {
        return Opcode::Cpuid;
    }
    if Opcode::Rdtsc.is_named(mnemonic) {
        return Opcode::Rdtsc;
    }
    if Opcode::Rdtscp.is_named(mnemonic) {
        return Opcode::Rdtscp;
    }
    if Opcode::Rdrand.is_named(mnemonic) {
        return Opcode::Rdrand;
    }
    if Opcode::Rdseed.is_named(mnemonic) {
        return Opcode::Rdseed;
    }
    if Opcode::Xgetbv.is_named(mnemonic) {
        return Opcode::Xgetbv;
    }
    if Opcode::Lfence.is_named(mnemonic) {
        return Opcode::Lfence;
    }
    if Opcode::Mfence.is_named(mnemonic) {
        return Opcode::Mfence;
    }
    if Opcode::Sfence.is_named(mnemonic) {
        return Opcode::Sfence;
    }
    if Opcode::Clflush.is_named(mnemonic) {
        return Opcode::Clflush;
    }
    if Opcode::Prefetcht0.is_named(mnemonic) {
        return Opcode::Prefetcht0;
    }
    if Opcode::Prefetcht1.is_named(mnemonic) {
        return Opcode::Prefetcht1;
    }
    if Opcode::Prefetcht2.is_named(mnemonic) {
        return Opcode::Prefetcht2;
    }
    if Opcode::Prefetchnta.is_named(mnemonic) {
        return Opcode::Prefetchnta;
    }
    if Opcode::Lock.is_named(mnemonic) {
        return Opcode::Lock;
    }
    if Opcode::Data16.is_named(mnemonic) {
        return Opcode::Data16;
    }
    if Opcode::Xsave.is_named(mnemonic) {
        return Opcode::Xsave;
    }
    if Opcode::Xrstor.is_named(mnemonic) {
        return Opcode::Xrstor;
    }
    if Opcode::Fxsave.is_named(mnemonic) {
        return Opcode::Fxsave;
    }
    if Opcode::Fxrstor.is_named(mnemonic) {
        return Opcode::Fxrstor;
    }
    if Opcode::Ldmxcsr.is_named(mnemonic) {
        return Opcode::Ldmxcsr;
    }
    if Opcode::Stmxcsr.is_named(mnemonic) {
        return Opcode::Stmxcsr;
    }
    if Opcode::Vzeroupper.is_named(mnemonic) {
        return Opcode::Vzeroupper;
    }
    if Opcode::Movaps.is_named(mnemonic) {
        return Opcode::Movaps;
    }
    if Opcode::Movups.is_named(mnemonic) {
        return Opcode::Movups;
    }
    if Opcode::Movapd.is_named(mnemonic) {
        return Opcode::Movapd;
    }
    if Opcode::Movupd.is_named(mnemonic) {
        return Opcode::Movupd;
    }
    if Opcode::Movss.is_named(mnemonic) {
        return Opcode::Movss;
    }
    if Opcode::Movsd.is_named(mnemonic) {
        return Opcode::Movsd;
    }
    if Opcode::Movd.is_named(mnemonic) {
        return Opcode::Movd;
    }
    if Opcode::Movhps.is_named(mnemonic) {
        return Opcode::Movhps;
    }
    if Opcode::Movlps.is_named(mnemonic) {
        return Opcode::Movlps;
    }
    if Opcode::Movhpd.is_named(mnemonic) {
        return Opcode::Movhpd;
    }
    if Opcode::Movlpd.is_named(mnemonic) {
        return Opcode::Movlpd;
    }
    if Opcode::Movmskps.is_named(mnemonic) {
        return Opcode::Movmskps;
    }
    if Opcode::Movmskpd.is_named(mnemonic) {
        return Opcode::Movmskpd;
    }
    if Opcode::Addps.is_named(mnemonic) {
        return Opcode::Addps;
    }
    if Opcode::Addpd.is_named(mnemonic) {
        return Opcode::Addpd;
    }
    if Opcode::Addss.is_named(mnemonic) {
        return Opcode::Addss;
    }
    if Opcode::Addsd.is_named(mnemonic) {
        return Opcode::Addsd;
    }
    if Opcode::Subps.is_named(mnemonic) {
        return Opcode::Subps;
    }
    if Opcode::Subpd.is_named(mnemonic) {
        return Opcode::Subpd;
    }
    if Opcode::Subss.is_named(mnemonic) {
        return Opcode::Subss;
    }
    if Opcode::Subsd.is_named(mnemonic) {
        return Opcode::Subsd;
    }
    if Opcode::Mulps.is_named(mnemonic) {
        return Opcode::Mulps;
    }
    if Opcode::Mulpd.is_named(mnemonic) {
        return Opcode::Mulpd;
    }
    if Opcode::Mulss.is_named(mnemonic) {
        return Opcode::Mulss;
    }
    if Opcode::Mulsd.is_named(mnemonic) {
        return Opcode::Mulsd;
    }
    if Opcode::Divps.is_named(mnemonic) {
        return Opcode::Divps;
    }
    if Opcode::Divpd.is_named(mnemonic) {
        return Opcode::Divpd;
    }
    if Opcode::Divss.is_named(mnemonic) {
        return Opcode::Divss;
    }
    if Opcode::Divsd.is_named(mnemonic) {
        return Opcode::Divsd;
    }
    if Opcode::Sqrtps.is_named(mnemonic) {
        return Opcode::Sqrtps;
    }
    if Opcode::Sqrtpd.is_named(mnemonic) {
        return Opcode::Sqrtpd;
    }
    if Opcode::Sqrtss.is_named(mnemonic) {
        return Opcode::Sqrtss;
    }
    if Opcode::Sqrtsd.is_named(mnemonic) {
        return Opcode::Sqrtsd;
    }
    if Opcode::Maxss.is_named(mnemonic) {
        return Opcode::Maxss;
    }
    if Opcode::Maxsd.is_named(mnemonic) {
        return Opcode::Maxsd;
    }
    if Opcode::Minss.is_named(mnemonic) {
        return Opcode::Minss;
    }
    if Opcode::Minsd.is_named(mnemonic) {
        return Opcode::Minsd;
    }
    if Opcode::Andps.is_named(mnemonic) {
        return Opcode::Andps;
    }
    if Opcode::Andpd.is_named(mnemonic) {
        return Opcode::Andpd;
    }
    if Opcode::Andnps.is_named(mnemonic) {
        return Opcode::Andnps;
    }
    if Opcode::Andnpd.is_named(mnemonic) {
        return Opcode::Andnpd;
    }
    if Opcode::Orps.is_named(mnemonic) {
        return Opcode::Orps;
    }
    if Opcode::Orpd.is_named(mnemonic) {
        return Opcode::Orpd;
    }
    if Opcode::Xorps.is_named(mnemonic) {
        return Opcode::Xorps;
    }
    if Opcode::Xorpd.is_named(mnemonic) {
        return Opcode::Xorpd;
    }
    if Opcode::Cmpps.is_named(mnemonic) {
        return Opcode::Cmpps;
    }
    if Opcode::Cmppd.is_named(mnemonic) {
        return Opcode::Cmppd;
    }
    if Opcode::Cmpss.is_named(mnemonic) {
        return Opcode::Cmpss;
    }
    if Opcode::Cmpsd.is_named(mnemonic) {
        return Opcode::Cmpsd;
    }
    if Opcode::Comiss.is_named(mnemonic) {
        return Opcode::Comiss;
    }
    if Opcode::Comisd.is_named(mnemonic) {
        return Opcode::Comisd;
    }
    if Opcode::Ucomiss.is_named(mnemonic) {
        return Opcode::Ucomiss;
    }
    if Opcode::Ucomisd.is_named(mnemonic) {
        return Opcode::Ucomisd;
    }
    if Opcode::Shufps.is_named(mnemonic) {
        return Opcode::Shufps;
    }
    if Opcode::Shufpd.is_named(mnemonic) {
        return Opcode::Shufpd;
    }
    if Opcode::Unpcklps.is_named(mnemonic) {
        return Opcode::Unpcklps;
    }
    if Opcode::Unpckhps.is_named(mnemonic) {
        return Opcode::Unpckhps;
    }
    if Opcode::Cvtsi2ss.is_named(mnemonic) {
        return Opcode::Cvtsi2ss;
    }
    if Opcode::Cvtsi2sd.is_named(mnemonic) {
        return Opcode::Cvtsi2sd;
    }
    if Opcode::Cvtss2sd.is_named(mnemonic) {
        return Opcode::Cvtss2sd;
    }
    if Opcode::Cvtsd2ss.is_named(mnemonic) {
        return Opcode::Cvtsd2ss;
    }
    if Opcode::Cvttss2si.is_named(mnemonic) {
        return Opcode::Cvttss2si;
    }
    if Opcode::Cvttsd2si.is_named(mnemonic) {
        return Opcode::Cvttsd2si;
    }
    if Opcode::Cvtdq2ps.is_named(mnemonic) {
        return Opcode::Cvtdq2ps;
    }
    if Opcode::Cvtdq2pd.is_named(mnemonic) {
        return Opcode::Cvtdq2pd;
    }
    if Opcode::Cvtps2pd.is_named(mnemonic) {
        return Opcode::Cvtps2pd;
    }
    if Opcode::Cvtpd2ps.is_named(mnemonic) {
        return Opcode::Cvtpd2ps;
    }
    if Opcode::Movdqa.is_named(mnemonic) {
        return Opcode::Movdqa;
    }
    if Opcode::Movdqu.is_named(mnemonic) {
        return Opcode::Movdqu;
    }
    if Opcode::Paddb.is_named(mnemonic) {
        return Opcode::Paddb;
    }
    if Opcode::Paddw.is_named(mnemonic) {
        return Opcode::Paddw;
    }
    if Opcode::Paddd.is_named(mnemonic) {
        return Opcode::Paddd;
    }
    if Opcode::Paddq.is_named(mnemonic) {
        return Opcode::Paddq;
    }
    if Opcode::Psubb.is_named(mnemonic) {
        return Opcode::Psubb;
    }
    if Opcode::Psubw.is_named(mnemonic) {
        return Opcode::Psubw;
    }
    if Opcode::Psubd.is_named(mnemonic) {
        return Opcode::Psubd;
    }
    if Opcode::Psubq.is_named(mnemonic) {
        return Opcode::Psubq;
    }
    if Opcode::Pmullw.is_named(mnemonic) {
        return Opcode::Pmullw;
    }
    if Opcode::Pmulld.is_named(mnemonic) {
        return Opcode::Pmulld;
    }
    if Opcode::Pmuludq.is_named(mnemonic) {
        return Opcode::Pmuludq;
    }
    if Opcode::Pmaddwd.is_named(mnemonic) {
        return Opcode::Pmaddwd;
    }
    if Opcode::Pand.is_named(mnemonic) {
        return Opcode::Pand;
    }
    if Opcode::Pandn.is_named(mnemonic) {
        return Opcode::Pandn;
    }
    if Opcode::Por.is_named(mnemonic) {
        return Opcode::Por;
    }
    if Opcode::Pxor.is_named(mnemonic) {
        return Opcode::Pxor;
    }
    if Opcode::Pcmpeqb.is_named(mnemonic) {
        return Opcode::Pcmpeqb;
    }
    if Opcode::Pcmpeqw.is_named(mnemonic) {
        return Opcode::Pcmpeqw;
    }
    if Opcode::Pcmpeqd.is_named(mnemonic) {
        return Opcode::Pcmpeqd;
    }
    if Opcode::Pcmpgtb.is_named(mnemonic) {
        return Opcode::Pcmpgtb;
    }
    if Opcode::Pcmpgtd.is_named(mnemonic) {
        return Opcode::Pcmpgtd;
    }
    if Opcode::Psllw.is_named(mnemonic) {
        return Opcode::Psllw;
    }
    if Opcode::Pslld.is_named(mnemonic) {
        return Opcode::Pslld;
    }
    if Opcode::Psllq.is_named(mnemonic) {
        return Opcode::Psllq;
    }
    if Opcode::Psrlw.is_named(mnemonic) {
        return Opcode::Psrlw;
    }
    if Opcode::Psrld.is_named(mnemonic) {
        return Opcode::Psrld;
    }
    if Opcode::Psrlq.is_named(mnemonic) {
        return Opcode::Psrlq;
    }
    if Opcode::Psraw.is_named(mnemonic) {
        return Opcode::Psraw;
    }
    if Opcode::Psrad.is_named(mnemonic) {
        return Opcode::Psrad;
    }
    if Opcode::Pslldq.is_named(mnemonic) {
        return Opcode::Pslldq;
    }
    if Opcode::Psrldq.is_named(mnemonic) {
        return Opcode::Psrldq;
    }
    if Opcode::Pshufb.is_named(mnemonic) {
        return Opcode::Pshufb;
    }
    if Opcode::Pshufd.is_named(mnemonic) {
        return Opcode::Pshufd;
    }
    if Opcode::Palignr.is_named(mnemonic) {
        return Opcode::Palignr;
    }
    if Opcode::Punpcklbw.is_named(mnemonic) {
        return Opcode::Punpcklbw;
    }
    if Opcode::Punpcklwd.is_named(mnemonic) {
        return Opcode::Punpcklwd;
    }
    if Opcode::Punpckldq.is_named(mnemonic) {
        return Opcode::Punpckldq;
    }
    if Opcode::Punpcklqdq.is_named(mnemonic) {
        return Opcode::Punpcklqdq;
    }
    if Opcode::Punpckhbw.is_named(mnemonic) {
        return Opcode::Punpckhbw;
    }
    if Opcode::Punpckhwd.is_named(mnemonic) {
        return Opcode::Punpckhwd;
    }
    if Opcode::Punpckhdq.is_named(mnemonic) {
        return Opcode::Punpckhdq;
    }
    if Opcode::Punpckhqdq.is_named(mnemonic) {
        return Opcode::Punpckhqdq;
    }
    if Opcode::Packsswb.is_named(mnemonic) {
        return Opcode::Packsswb;
    }
    if Opcode::Packuswb.is_named(mnemonic) {
        return Opcode::Packuswb;
    }
    if Opcode::Pmovmskb.is_named(mnemonic) {
        return Opcode::Pmovmskb;
    }
    if Opcode::Ptest.is_named(mnemonic) {
        return Opcode::Ptest;
    }
    let text = mnemonic.to_owned();
    proof {
        lemma_unknown_name(text);
    }
    Opcode::Unknown(text)
}

} // verus!
