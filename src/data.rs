//! The vocabulary of the language (verbs, registers, keywords,
//! prepositions) and the classification of one lexical span into a token.

use vstd::prelude::*;


use crate::memory::{mem_of, mem_text, Memory};
use crate::text::{is_ws, i64_value, int_text, is_canonical_int, lemma_int_text_round_trip, parse_i64, push_int, str_eq};
use crate::tokenizer::Loc;


verus! {
/// An instruction, spelled as an English verb.
#[derive(Clone, Copy, Debug, PartialEq, Eq, Structural)]
pub enum Verb {
    Add,
    Substract,
    Multiply,
    Divide,
    Move,
    Jump,
    And,
    Or,
    Xor,
    Not,
    Negate,
    ShiftRight,
    ShiftLeft,
    Call,
    Compare,
    LoadEffectiveAddress,
    Return,
    Leave,
    NoOperation,
    SystemCall,
    Halt,
    Define,
}

/// The verb that a span spells, if any (a few verbs have two spellings).
pub open spec fn verb_of(s: Seq<char>) -> Option<Verb> {
    if s == "add"@ {
        Some(Verb::Add)
    }     else if s == "substract"@ {
        Some(Verb::Substract)
    }     else if s == "subtract"@ {
        Some(Verb::Substract)
    }     else if s == "multiply"@ {
        Some(Verb::Multiply)
    }     else if s == "divide"@ {
        Some(Verb::Divide)
    }     else if s == "move"@ {
        Some(Verb::Move)
    }     else if s == "jump"@ {
        Some(Verb::Jump)
    }     else if s == "and"@ {
        Some(Verb::And)
    }     else if s == "or"@ {
        Some(Verb::Or)
    }     else if s == "xor"@ {
        Some(Verb::Xor)
    }     else if s == "not"@ {
        Some(Verb::Not)
    }     else if s == "negate"@ {
        Some(Verb::Negate)
    }     else if s == "shift-right"@ {
        Some(Verb::ShiftRight)
    }     else if s == "shift-left"@ {
        Some(Verb::ShiftLeft)
    }     else if s == "call"@ {
        Some(Verb::Call)
    }     else if s == "compare"@ {
        Some(Verb::Compare)
    }     else if s == "load-effective-address"@ {
        Some(Verb::LoadEffectiveAddress)
    }     else if s == "load-effective-adress"@ {
        Some(Verb::LoadEffectiveAddress)
    }     else if s == "return"@ {
        Some(Verb::Return)
    }     else if s == "leave"@ {
        Some(Verb::Leave)
    }     else if s == "no-operation"@ {
        Some(Verb::NoOperation)
    }     else if s == "system-call"@ {
        Some(Verb::SystemCall)
    }     else if s == "systemcall"@ {
        Some(Verb::SystemCall)
    }     else if s == "halt"@ {
        Some(Verb::Halt)
    }     else if s == "define"@ {
        Some(Verb::Define)
    } else {
        None
    }
}

impl Verb {
    /// The spelling of the verb in source text.
    pub open spec fn spec_word(self) -> Seq<char> {
        match self {
            Verb::Add => "add"@,
            Verb::Substract => "substract"@,
            Verb::Multiply => "multiply"@,
            Verb::Divide => "divide"@,
            Verb::Move => "move"@,
            Verb::Jump => "jump"@,
            Verb::And => "and"@,
            Verb::Or => "or"@,
            Verb::Xor => "xor"@,
            Verb::Not => "not"@,
            Verb::Negate => "negate"@,
            Verb::ShiftRight => "shift-right"@,
            Verb::ShiftLeft => "shift-left"@,
            Verb::Call => "call"@,
            Verb::Compare => "compare"@,
            Verb::LoadEffectiveAddress => "load-effective-address"@,
            Verb::Return => "return"@,
            Verb::Leave => "leave"@,
            Verb::NoOperation => "no-operation"@,
            Verb::SystemCall => "system-call"@,
            Verb::Halt => "halt"@,
            Verb::Define => "define"@,
        }
    }

    /// The assembly mnemonic of the verb.
    pub open spec fn spec_mnemonic(self) -> Seq<char> {
        match self {
            Verb::Add => "add"@,
            Verb::Substract => "sub"@,
            Verb::Multiply => "imul"@,
            Verb::Divide => "idiv"@,
            Verb::Move => "mov"@,
            Verb::Jump => "jmp"@,
            Verb::And => "and"@,
            Verb::Or => "or"@,
            Verb::Xor => "xor"@,
            Verb::Not => "not"@,
            Verb::Negate => "neg"@,
            Verb::ShiftRight => "shr"@,
            Verb::ShiftLeft => "shl"@,
            Verb::Call => "call"@,
            Verb::Compare => "cmp"@,
            Verb::LoadEffectiveAddress => "lea"@,
            Verb::Return => "ret"@,
            Verb::Leave => "leave"@,
            Verb::NoOperation => "nop"@,
            Verb::SystemCall => "syscall"@,
            Verb::Halt => "hlt"@,
            Verb::Define => "def"@,
        }
    }

    /// The verb spelled by `token`.
    pub fn parse(token: &str) -> (r: Option<Verb>)
        ensures
            r == verb_of(token@),
    {
        if str_eq(token, "add") {
            Some(Verb::Add)
        } else if str_eq(token, "substract") {
            Some(Verb::Substract)
        } else if str_eq(token, "subtract") {
            Some(Verb::Substract)
        } else if str_eq(token, "multiply") {
            Some(Verb::Multiply)
        } else if str_eq(token, "divide") {
            Some(Verb::Divide)
        } else if str_eq(token, "move") {
            Some(Verb::Move)
        } else if str_eq(token, "jump") {
            Some(Verb::Jump)
        } else if str_eq(token, "and") {
            Some(Verb::And)
        } else if str_eq(token, "or") {
            Some(Verb::Or)
        } else if str_eq(token, "xor") {
            Some(Verb::Xor)
        } else if str_eq(token, "not") {
            Some(Verb::Not)
        } else if str_eq(token, "negate") {
            Some(Verb::Negate)
        } else if str_eq(token, "shift-right") {
            Some(Verb::ShiftRight)
        } else if str_eq(token, "shift-left") {
            Some(Verb::ShiftLeft)
        } else if str_eq(token, "call") {
            Some(Verb::Call)
        } else if str_eq(token, "compare") {
            Some(Verb::Compare)
        } else if str_eq(token, "load-effective-address") {
            Some(Verb::LoadEffectiveAddress)
        } else if str_eq(token, "load-effective-adress") {
            Some(Verb::LoadEffectiveAddress)
        } else if str_eq(token, "return") {
            Some(Verb::Return)
        } else if str_eq(token, "leave") {
            Some(Verb::Leave)
        } else if str_eq(token, "no-operation") {
            Some(Verb::NoOperation)
        } else if str_eq(token, "system-call") {
            Some(Verb::SystemCall)
        } else if str_eq(token, "systemcall") {
            Some(Verb::SystemCall)
        } else if str_eq(token, "halt") {
            Some(Verb::Halt)
        } else if str_eq(token, "define") {
            Some(Verb::Define)
        } else {
            None
        }
    }

    /// The spelling of the verb in source text.
    pub fn word(self) -> (r: &'static str)
        ensures
            r@ == self.spec_word(),
    {
        match self {
            Verb::Add => "add",
            Verb::Substract => "substract",
            Verb::Multiply => "multiply",
            Verb::Divide => "divide",
            Verb::Move => "move",
            Verb::Jump => "jump",
            Verb::And => "and",
            Verb::Or => "or",
            Verb::Xor => "xor",
            Verb::Not => "not",
            Verb::Negate => "negate",
            Verb::ShiftRight => "shift-right",
            Verb::ShiftLeft => "shift-left",
            Verb::Call => "call",
            Verb::Compare => "compare",
            Verb::LoadEffectiveAddress => "load-effective-address",
            Verb::Return => "return",
            Verb::Leave => "leave",
            Verb::NoOperation => "no-operation",
            Verb::SystemCall => "system-call",
            Verb::Halt => "halt",
            Verb::Define => "define",
        }
    }

    /// The assembly mnemonic of the verb.
    pub fn mnemonic(self) -> (r: &'static str)
        ensures
            r@ == self.spec_mnemonic(),
    {
        match self {
            Verb::Add => "add",
            Verb::Substract => "sub",
            Verb::Multiply => "imul",
            Verb::Divide => "idiv",
            Verb::Move => "mov",
            Verb::Jump => "jmp",
            Verb::And => "and",
            Verb::Or => "or",
            Verb::Xor => "xor",
            Verb::Not => "not",
            Verb::Negate => "neg",
            Verb::ShiftRight => "shr",
            Verb::ShiftLeft => "shl",
            Verb::Call => "call",
            Verb::Compare => "cmp",
            Verb::LoadEffectiveAddress => "lea",
            Verb::Return => "ret",
            Verb::Leave => "leave",
            Verb::NoOperation => "nop",
            Verb::SystemCall => "syscall",
            Verb::Halt => "hlt",
            Verb::Define => "def",
        }
    }
}

/// A general-purpose or vector register.
#[derive(Clone, Copy, Debug, PartialEq, Eq, Structural)]
pub enum Register {
    Al,
    Bl,
    Cl,
    Dl,
    Dil,
    Sil,
    Bpl,
    Spl,
    R8b,
    R9b,
    R10b,
    R11b,
    R12b,
    R13b,
    R14b,
    R15b,
    Ax,
    Bx,
    Cx,
    Dx,
    Di,
    Si,
    Bp,
    Sp,
    R8w,
    R9w,
    R10w,
    R11w,
    R12w,
    R13w,
    R14w,
    R15w,
    Eax,
    Ebx,
    Ecx,
    Edx,
    Edi,
    Esi,
    Ebp,
    Esp,
    R8d,
    R9d,
    R10d,
    R11d,
    R12d,
    R13d,
    R14d,
    R15d,
    Rax,
    Rbx,
    Rcx,
    Rdx,
    Rdi,
    Rsi,
    Rbp,
    Rsp,
    R8,
    R9,
    R10,
    R11,
    R12,
    R13,
    R14,
    R15,
    Xmm0,
    Xmm1,
    Xmm2,
    Xmm3,
    Xmm4,
    Xmm5,
    Xmm6,
    Xmm7,
}

/// The register that a span names, if any.
pub open spec fn register_of(s: Seq<char>) -> Option<Register> {
    if s == "al"@ {
        Some(Register::Al)
    }     else if s == "bl"@ {
        Some(Register::Bl)
    }     else if s == "cl"@ {
        Some(Register::Cl)
    }     else if s == "dl"@ {
        Some(Register::Dl)
    }     else if s == "dil"@ {
        Some(Register::Dil)
    }     else if s == "sil"@ {
        Some(Register::Sil)
    }     else if s == "bpl"@ {
        Some(Register::Bpl)
    }     else if s == "spl"@ {
        Some(Register::Spl)
    }     else if s == "r8b"@ {
        Some(Register::R8b)
    }     else if s == "r9b"@ {
        Some(Register::R9b)
    }     else if s == "r10b"@ {
        Some(Register::R10b)
    }     else if s == "r11b"@ {
        Some(Register::R11b)
    }     else if s == "r12b"@ {
        Some(Register::R12b)
    }     else if s == "r13b"@ {
        Some(Register::R13b)
    }     else if s == "r14b"@ {
        Some(Register::R14b)
    }     else if s == "r15b"@ {
        Some(Register::R15b)
    }     else if s == "ax"@ {
        Some(Register::Ax)
    }     else if s == "bx"@ {
        Some(Register::Bx)
    }     else if s == "cx"@ {
        Some(Register::Cx)
    }     else if s == "dx"@ {
        Some(Register::Dx)
    }     else if s == "di"@ {
        Some(Register::Di)
    }     else if s == "si"@ {
        Some(Register::Si)
    }     else if s == "bp"@ {
        Some(Register::Bp)
    }     else if s == "sp"@ {
        Some(Register::Sp)
    }     else if s == "r8w"@ {
        Some(Register::R8w)
    }     else if s == "r9w"@ {
        Some(Register::R9w)
    }     else if s == "r10w"@ {
        Some(Register::R10w)
    }     else if s == "r11w"@ {
        Some(Register::R11w)
    }     else if s == "r12w"@ {
        Some(Register::R12w)
    }     else if s == "r13w"@ {
        Some(Register::R13w)
    }     else if s == "r14w"@ {
        Some(Register::R14w)
    }     else if s == "r15w"@ {
        Some(Register::R15w)
    }     else if s == "eax"@ {
        Some(Register::Eax)
    }     else if s == "ebx"@ {
        Some(Register::Ebx)
    }     else if s == "ecx"@ {
        Some(Register::Ecx)
    }     else if s == "edx"@ {
        Some(Register::Edx)
    }     else if s == "edi"@ {
        Some(Register::Edi)
    }     else if s == "esi"@ {
        Some(Register::Esi)
    }     else if s == "ebp"@ {
        Some(Register::Ebp)
    }     else if s == "esp"@ {
        Some(Register::Esp)
    }     else if s == "r8d"@ {
        Some(Register::R8d)
    }     else if s == "r9d"@ {
        Some(Register::R9d)
    }     else if s == "r10d"@ {
        Some(Register::R10d)
    }     else if s == "r11d"@ {
        Some(Register::R11d)
    }     else if s == "r12d"@ {
        Some(Register::R12d)
    }     else if s == "r13d"@ {
        Some(Register::R13d)
    }     else if s == "r14d"@ {
        Some(Register::R14d)
    }     else if s == "r15d"@ {
        Some(Register::R15d)
    }     else if s == "rax"@ {
        Some(Register::Rax)
    }     else if s == "rbx"@ {
        Some(Register::Rbx)
    }     else if s == "rcx"@ {
        Some(Register::Rcx)
    }     else if s == "rdx"@ {
        Some(Register::Rdx)
    }     else if s == "rdi"@ {
        Some(Register::Rdi)
    }     else if s == "rsi"@ {
        Some(Register::Rsi)
    }     else if s == "rbp"@ {
        Some(Register::Rbp)
    }     else if s == "rsp"@ {
        Some(Register::Rsp)
    }     else if s == "r8"@ {
        Some(Register::R8)
    }     else if s == "r9"@ {
        Some(Register::R9)
    }     else if s == "r10"@ {
        Some(Register::R10)
    }     else if s == "r11"@ {
        Some(Register::R11)
    }     else if s == "r12"@ {
        Some(Register::R12)
    }     else if s == "r13"@ {
        Some(Register::R13)
    }     else if s == "r14"@ {
        Some(Register::R14)
    }     else if s == "r15"@ {
        Some(Register::R15)
    }     else if s == "xmm0"@ {
        Some(Register::Xmm0)
    }     else if s == "xmm1"@ {
        Some(Register::Xmm1)
    }     else if s == "xmm2"@ {
        Some(Register::Xmm2)
    }     else if s == "xmm3"@ {
        Some(Register::Xmm3)
    }     else if s == "xmm4"@ {
        Some(Register::Xmm4)
    }     else if s == "xmm5"@ {
        Some(Register::Xmm5)
    }     else if s == "xmm6"@ {
        Some(Register::Xmm6)
    }     else if s == "xmm7"@ {
        Some(Register::Xmm7)
    } else {
        None
    }
}

impl Register {
    /// The register's name in source and assembly text.
    pub open spec fn spec_name(self) -> Seq<char> {
        match self {
            Register::Al => "al"@,
            Register::Bl => "bl"@,
            Register::Cl => "cl"@,
            Register::Dl => "dl"@,
            Register::Dil => "dil"@,
            Register::Sil => "sil"@,
            Register::Bpl => "bpl"@,
            Register::Spl => "spl"@,
            Register::R8b => "r8b"@,
            Register::R9b => "r9b"@,
            Register::R10b => "r10b"@,
            Register::R11b => "r11b"@,
            Register::R12b => "r12b"@,
            Register::R13b => "r13b"@,
            Register::R14b => "r14b"@,
            Register::R15b => "r15b"@,
            Register::Ax => "ax"@,
            Register::Bx => "bx"@,
            Register::Cx => "cx"@,
            Register::Dx => "dx"@,
            Register::Di => "di"@,
            Register::Si => "si"@,
            Register::Bp => "bp"@,
            Register::Sp => "sp"@,
            Register::R8w => "r8w"@,
            Register::R9w => "r9w"@,
            Register::R10w => "r10w"@,
            Register::R11w => "r11w"@,
            Register::R12w => "r12w"@,
            Register::R13w => "r13w"@,
            Register::R14w => "r14w"@,
            Register::R15w => "r15w"@,
            Register::Eax => "eax"@,
            Register::Ebx => "ebx"@,
            Register::Ecx => "ecx"@,
            Register::Edx => "edx"@,
            Register::Edi => "edi"@,
            Register::Esi => "esi"@,
            Register::Ebp => "ebp"@,
            Register::Esp => "esp"@,
            Register::R8d => "r8d"@,
            Register::R9d => "r9d"@,
            Register::R10d => "r10d"@,
            Register::R11d => "r11d"@,
            Register::R12d => "r12d"@,
            Register::R13d => "r13d"@,
            Register::R14d => "r14d"@,
            Register::R15d => "r15d"@,
            Register::Rax => "rax"@,
            Register::Rbx => "rbx"@,
            Register::Rcx => "rcx"@,
            Register::Rdx => "rdx"@,
            Register::Rdi => "rdi"@,
            Register::Rsi => "rsi"@,
            Register::Rbp => "rbp"@,
            Register::Rsp => "rsp"@,
            Register::R8 => "r8"@,
            Register::R9 => "r9"@,
            Register::R10 => "r10"@,
            Register::R11 => "r11"@,
            Register::R12 => "r12"@,
            Register::R13 => "r13"@,
            Register::R14 => "r14"@,
            Register::R15 => "r15"@,
            Register::Xmm0 => "xmm0"@,
            Register::Xmm1 => "xmm1"@,
            Register::Xmm2 => "xmm2"@,
            Register::Xmm3 => "xmm3"@,
            Register::Xmm4 => "xmm4"@,
            Register::Xmm5 => "xmm5"@,
            Register::Xmm6 => "xmm6"@,
            Register::Xmm7 => "xmm7"@,
        }
    }

    /// The register's width in bits.
    pub open spec fn width(self) -> u32 {
        match self {
            Register::Al | Register::Bl | Register::Cl | Register::Dl | Register::Dil | Register::Sil | Register::Bpl | Register::Spl | Register::R8b | Register::R9b | Register::R10b | Register::R11b | Register::R12b | Register::R13b | Register::R14b | Register::R15b => 8,
            Register::Ax | Register::Bx | Register::Cx | Register::Dx | Register::Di | Register::Si | Register::Bp | Register::Sp | Register::R8w | Register::R9w | Register::R10w | Register::R11w | Register::R12w | Register::R13w | Register::R14w | Register::R15w => 16,
            Register::Eax | Register::Ebx | Register::Ecx | Register::Edx | Register::Edi | Register::Esi | Register::Ebp | Register::Esp | Register::R8d | Register::R9d | Register::R10d | Register::R11d | Register::R12d | Register::R13d | Register::R14d | Register::R15d => 32,
            Register::Rax | Register::Rbx | Register::Rcx | Register::Rdx | Register::Rdi | Register::Rsi | Register::Rbp | Register::Rsp | Register::R8 | Register::R9 | Register::R10 | Register::R11 | Register::R12 | Register::R13 | Register::R14 | Register::R15 => 64,
            Register::Xmm0 | Register::Xmm1 | Register::Xmm2 | Register::Xmm3 | Register::Xmm4 | Register::Xmm5 | Register::Xmm6 | Register::Xmm7 => 128,
        }
    }

    /// The register named by `token`.
    pub fn parse(token: &str) -> (r: Option<Register>)
        ensures
            r == register_of(token@),
    {
        if str_eq(token, "al") {
            Some(Register::Al)
        } else if str_eq(token, "bl") {
            Some(Register::Bl)
        } else if str_eq(token, "cl") {
            Some(Register::Cl)
        } else if str_eq(token, "dl") {
            Some(Register::Dl)
        } else if str_eq(token, "dil") {
            Some(Register::Dil)
        } else if str_eq(token, "sil") {
            Some(Register::Sil)
        } else if str_eq(token, "bpl") {
            Some(Register::Bpl)
        } else if str_eq(token, "spl") {
            Some(Register::Spl)
        } else if str_eq(token, "r8b") {
            Some(Register::R8b)
        } else if str_eq(token, "r9b") {
            Some(Register::R9b)
        } else if str_eq(token, "r10b") {
            Some(Register::R10b)
        } else if str_eq(token, "r11b") {
            Some(Register::R11b)
        } else if str_eq(token, "r12b") {
            Some(Register::R12b)
        } else if str_eq(token, "r13b") {
            Some(Register::R13b)
        } else if str_eq(token, "r14b") {
            Some(Register::R14b)
        } else if str_eq(token, "r15b") {
            Some(Register::R15b)
        } else if str_eq(token, "ax") {
            Some(Register::Ax)
        } else if str_eq(token, "bx") {
            Some(Register::Bx)
        } else if str_eq(token, "cx") {
            Some(Register::Cx)
        } else if str_eq(token, "dx") {
            Some(Register::Dx)
        } else if str_eq(token, "di") {
            Some(Register::Di)
        } else if str_eq(token, "si") {
            Some(Register::Si)
        } else if str_eq(token, "bp") {
            Some(Register::Bp)
        } else if str_eq(token, "sp") {
            Some(Register::Sp)
        } else if str_eq(token, "r8w") {
            Some(Register::R8w)
        } else if str_eq(token, "r9w") {
            Some(Register::R9w)
        } else if str_eq(token, "r10w") {
            Some(Register::R10w)
        } else if str_eq(token, "r11w") {
            Some(Register::R11w)
        } else if str_eq(token, "r12w") {
            Some(Register::R12w)
        } else if str_eq(token, "r13w") {
            Some(Register::R13w)
        } else if str_eq(token, "r14w") {
            Some(Register::R14w)
        } else if str_eq(token, "r15w") {
            Some(Register::R15w)
        } else if str_eq(token, "eax") {
            Some(Register::Eax)
        } else if str_eq(token, "ebx") {
            Some(Register::Ebx)
        } else if str_eq(token, "ecx") {
            Some(Register::Ecx)
        } else if str_eq(token, "edx") {
            Some(Register::Edx)
        } else if str_eq(token, "edi") {
            Some(Register::Edi)
        } else if str_eq(token, "esi") {
            Some(Register::Esi)
        } else if str_eq(token, "ebp") {
            Some(Register::Ebp)
        } else if str_eq(token, "esp") {
            Some(Register::Esp)
        } else if str_eq(token, "r8d") {
            Some(Register::R8d)
        } else if str_eq(token, "r9d") {
            Some(Register::R9d)
        } else if str_eq(token, "r10d") {
            Some(Register::R10d)
        } else if str_eq(token, "r11d") {
            Some(Register::R11d)
        } else if str_eq(token, "r12d") {
            Some(Register::R12d)
        } else if str_eq(token, "r13d") {
            Some(Register::R13d)
        } else if str_eq(token, "r14d") {
            Some(Register::R14d)
        } else if str_eq(token, "r15d") {
            Some(Register::R15d)
        } else if str_eq(token, "rax") {
            Some(Register::Rax)
        } else if str_eq(token, "rbx") {
            Some(Register::Rbx)
        } else if str_eq(token, "rcx") {
            Some(Register::Rcx)
        } else if str_eq(token, "rdx") {
            Some(Register::Rdx)
        } else if str_eq(token, "rdi") {
            Some(Register::Rdi)
        } else if str_eq(token, "rsi") {
            Some(Register::Rsi)
        } else if str_eq(token, "rbp") {
            Some(Register::Rbp)
        } else if str_eq(token, "rsp") {
            Some(Register::Rsp)
        } else if str_eq(token, "r8") {
            Some(Register::R8)
        } else if str_eq(token, "r9") {
            Some(Register::R9)
        } else if str_eq(token, "r10") {
            Some(Register::R10)
        } else if str_eq(token, "r11") {
            Some(Register::R11)
        } else if str_eq(token, "r12") {
            Some(Register::R12)
        } else if str_eq(token, "r13") {
            Some(Register::R13)
        } else if str_eq(token, "r14") {
            Some(Register::R14)
        } else if str_eq(token, "r15") {
            Some(Register::R15)
        } else if str_eq(token, "xmm0") {
            Some(Register::Xmm0)
        } else if str_eq(token, "xmm1") {
            Some(Register::Xmm1)
        } else if str_eq(token, "xmm2") {
            Some(Register::Xmm2)
        } else if str_eq(token, "xmm3") {
            Some(Register::Xmm3)
        } else if str_eq(token, "xmm4") {
            Some(Register::Xmm4)
        } else if str_eq(token, "xmm5") {
            Some(Register::Xmm5)
        } else if str_eq(token, "xmm6") {
            Some(Register::Xmm6)
        } else if str_eq(token, "xmm7") {
            Some(Register::Xmm7)
        } else {
            None
        }
    }

    /// The register's name in source and assembly text.
    pub fn name(self) -> (r: &'static str)
        ensures
            r@ == self.spec_name(),
    {
        match self {
            Register::Al => "al",
            Register::Bl => "bl",
            Register::Cl => "cl",
            Register::Dl => "dl",
            Register::Dil => "dil",
            Register::Sil => "sil",
            Register::Bpl => "bpl",
            Register::Spl => "spl",
            Register::R8b => "r8b",
            Register::R9b => "r9b",
            Register::R10b => "r10b",
            Register::R11b => "r11b",
            Register::R12b => "r12b",
            Register::R13b => "r13b",
            Register::R14b => "r14b",
            Register::R15b => "r15b",
            Register::Ax => "ax",
            Register::Bx => "bx",
            Register::Cx => "cx",
            Register::Dx => "dx",
            Register::Di => "di",
            Register::Si => "si",
            Register::Bp => "bp",
            Register::Sp => "sp",
            Register::R8w => "r8w",
            Register::R9w => "r9w",
            Register::R10w => "r10w",
            Register::R11w => "r11w",
            Register::R12w => "r12w",
            Register::R13w => "r13w",
            Register::R14w => "r14w",
            Register::R15w => "r15w",
            Register::Eax => "eax",
            Register::Ebx => "ebx",
            Register::Ecx => "ecx",
            Register::Edx => "edx",
            Register::Edi => "edi",
            Register::Esi => "esi",
            Register::Ebp => "ebp",
            Register::Esp => "esp",
            Register::R8d => "r8d",
            Register::R9d => "r9d",
            Register::R10d => "r10d",
            Register::R11d => "r11d",
            Register::R12d => "r12d",
            Register::R13d => "r13d",
            Register::R14d => "r14d",
            Register::R15d => "r15d",
            Register::Rax => "rax",
            Register::Rbx => "rbx",
            Register::Rcx => "rcx",
            Register::Rdx => "rdx",
            Register::Rdi => "rdi",
            Register::Rsi => "rsi",
            Register::Rbp => "rbp",
            Register::Rsp => "rsp",
            Register::R8 => "r8",
            Register::R9 => "r9",
            Register::R10 => "r10",
            Register::R11 => "r11",
            Register::R12 => "r12",
            Register::R13 => "r13",
            Register::R14 => "r14",
            Register::R15 => "r15",
            Register::Xmm0 => "xmm0",
            Register::Xmm1 => "xmm1",
            Register::Xmm2 => "xmm2",
            Register::Xmm3 => "xmm3",
            Register::Xmm4 => "xmm4",
            Register::Xmm5 => "xmm5",
            Register::Xmm6 => "xmm6",
            Register::Xmm7 => "xmm7",
        }
    }

    /// The register's width in bits.
    pub fn bits(self) -> (r: u32)
        ensures
            r == self.width(),
    {
        match self {
            Register::Al | Register::Bl | Register::Cl | Register::Dl | Register::Dil | Register::Sil | Register::Bpl | Register::Spl | Register::R8b | Register::R9b | Register::R10b | Register::R11b | Register::R12b | Register::R13b | Register::R14b | Register::R15b => 8,
            Register::Ax | Register::Bx | Register::Cx | Register::Dx | Register::Di | Register::Si | Register::Bp | Register::Sp | Register::R8w | Register::R9w | Register::R10w | Register::R11w | Register::R12w | Register::R13w | Register::R14w | Register::R15w => 16,
            Register::Eax | Register::Ebx | Register::Ecx | Register::Edx | Register::Edi | Register::Esi | Register::Ebp | Register::Esp | Register::R8d | Register::R9d | Register::R10d | Register::R11d | Register::R12d | Register::R13d | Register::R14d | Register::R15d => 32,
            Register::Rax | Register::Rbx | Register::Rcx | Register::Rdx | Register::Rdi | Register::Rsi | Register::Rbp | Register::Rsp | Register::R8 | Register::R9 | Register::R10 | Register::R11 | Register::R12 | Register::R13 | Register::R14 | Register::R15 => 64,
            Register::Xmm0 | Register::Xmm1 | Register::Xmm2 | Register::Xmm3 | Register::Xmm4 | Register::Xmm5 | Register::Xmm6 | Register::Xmm7 => 128,
        }
    }

    /// The width in bits of the register named by `token`, if it names one.
    pub fn size(token: &str) -> (r: Option<u32>)
        ensures
            r == register_size_of(token@),
    {
        match Register::parse(token) {
            Some(reg) => Some(reg.bits()),
            None => None,
        }
    }

    /// Whether `token` names a register.
    pub fn is_reg(token: &str) -> (r: bool)
        ensures
            r == register_of(token@) is Some,
    {
        Register::parse(token).is_some()
    }
}

/// The width in bits of the register that a span names, if it names one.
pub open spec fn register_size_of(s: Seq<char>) -> Option<u32> {
    match register_of(s) {
        Some(reg) => Some(reg.width()),
        None => None,
    }
}

/// A keyword: a float width, an extension mode or a comparison.
#[derive(Clone, Copy, Debug, PartialEq, Eq, Structural)]
pub enum Keyword {
    SinglePrecisionFloat,
    DoublePrecisionFloat,
    Signed,
    ZeroExtended,
    Equal,
    NotEqual,
    Less,
    LessEqual,
    Greater,
    GreaterEqual,
}

/// The keyword that a span spells, if any.
pub open spec fn keyword_of(s: Seq<char>) -> Option<Keyword> {
    if s == "single-precision-float"@ {
        Some(Keyword::SinglePrecisionFloat)
    }     else if s == "double-precision-float"@ {
        Some(Keyword::DoublePrecisionFloat)
    }     else if s == "signed"@ {
        Some(Keyword::Signed)
    }     else if s == "zero-extended"@ {
        Some(Keyword::ZeroExtended)
    }     else if s == "="@ {
        Some(Keyword::Equal)
    }     else if s == "!="@ {
        Some(Keyword::NotEqual)
    }     else if s == "<"@ {
        Some(Keyword::Less)
    }     else if s == "<="@ {
        Some(Keyword::LessEqual)
    }     else if s == ">"@ {
        Some(Keyword::Greater)
    }     else if s == ">="@ {
        Some(Keyword::GreaterEqual)
    } else {
        None
    }
}

impl Keyword {
    /// The spelling of the keyword in source text.
    pub open spec fn spec_word(self) -> Seq<char> {
        match self {
            Keyword::SinglePrecisionFloat => "single-precision-float"@,
            Keyword::DoublePrecisionFloat => "double-precision-float"@,
            Keyword::Signed => "signed"@,
            Keyword::ZeroExtended => "zero-extended"@,
            Keyword::Equal => "="@,
            Keyword::NotEqual => "!="@,
            Keyword::Less => "<"@,
            Keyword::LessEqual => "<="@,
            Keyword::Greater => ">"@,
            Keyword::GreaterEqual => ">="@,
        }
    }

    /// The keyword spelled by `token`.
    pub fn parse(token: &str) -> (r: Option<Keyword>)
        ensures
            r == keyword_of(token@),
    {
        if str_eq(token, "single-precision-float") {
            Some(Keyword::SinglePrecisionFloat)
        } else if str_eq(token, "double-precision-float") {
            Some(Keyword::DoublePrecisionFloat)
        } else if str_eq(token, "signed") {
            Some(Keyword::Signed)
        } else if str_eq(token, "zero-extended") {
            Some(Keyword::ZeroExtended)
        } else if str_eq(token, "=") {
            Some(Keyword::Equal)
        } else if str_eq(token, "!=") {
            Some(Keyword::NotEqual)
        } else if str_eq(token, "<") {
            Some(Keyword::Less)
        } else if str_eq(token, "<=") {
            Some(Keyword::LessEqual)
        } else if str_eq(token, ">") {
            Some(Keyword::Greater)
        } else if str_eq(token, ">=") {
            Some(Keyword::GreaterEqual)
        } else {
            None
        }
    }

    /// The spelling of the keyword in source text.
    pub fn word(self) -> (r: &'static str)
        ensures
            r@ == self.spec_word(),
    {
        match self {
            Keyword::SinglePrecisionFloat => "single-precision-float",
            Keyword::DoublePrecisionFloat => "double-precision-float",
            Keyword::Signed => "signed",
            Keyword::ZeroExtended => "zero-extended",
            Keyword::Equal => "=",
            Keyword::NotEqual => "!=",
            Keyword::Less => "<",
            Keyword::LessEqual => "<=",
            Keyword::Greater => ">",
            Keyword::GreaterEqual => ">=",
        }
    }
}

/// A preposition that introduces a modifier phrase.
#[derive(Clone, Copy, Debug, PartialEq, Eq, Structural)]
pub enum Preposition {
    To,
    From,
    By,
    As,
    With,
    If,
}

/// The preposition that a span spells, if any.
pub open spec fn preposition_of(s: Seq<char>) -> Option<Preposition> {
    if s == "to"@ {
        Some(Preposition::To)
    }     else if s == "from"@ {
        Some(Preposition::From)
    }     else if s == "by"@ {
        Some(Preposition::By)
    }     else if s == "as"@ {
        Some(Preposition::As)
    }     else if s == "with"@ {
        Some(Preposition::With)
    }     else if s == "if"@ {
        Some(Preposition::If)
    } else {
        None
    }
}

impl Preposition {
    /// The spelling of the preposition in source text.
    pub open spec fn spec_word(self) -> Seq<char> {
        match self {
            Preposition::To => "to"@,
            Preposition::From => "from"@,
            Preposition::By => "by"@,
            Preposition::As => "as"@,
            Preposition::With => "with"@,
            Preposition::If => "if"@,
        }
    }

    /// The preposition spelled by `token`.
    pub fn parse(token: &str) -> (r: Option<Preposition>)
        ensures
            r == preposition_of(token@),
    {
        if str_eq(token, "to") {
            Some(Preposition::To)
        } else if str_eq(token, "from") {
            Some(Preposition::From)
        } else if str_eq(token, "by") {
            Some(Preposition::By)
        } else if str_eq(token, "as") {
            Some(Preposition::As)
        } else if str_eq(token, "with") {
            Some(Preposition::With)
        } else if str_eq(token, "if") {
            Some(Preposition::If)
        } else {
            None
        }
    }

    /// The spelling of the preposition in source text.
    pub fn word(self) -> (r: &'static str)
        ensures
            r@ == self.spec_word(),
    {
        match self {
            Preposition::To => "to",
            Preposition::From => "from",
            Preposition::By => "by",
            Preposition::As => "as",
            Preposition::With => "with",
            Preposition::If => "if",
        }
    }
}

} // verus!

verus! {

/// A token: what a span of source text is.
#[derive(Clone, Copy, Debug)]
pub enum Data<'a> {
    Verb(Verb),
    Register(Register),
    Preposition(Preposition),
    Immediate(i64),
    /// The text of a memory operand, `@[` through `]`, not yet read.
    RawMemory(&'a str),
    Memory(Memory),
    Label(&'a str),
    /// `:`, which ends a label definition.
    LabelDef,
    /// `#`, which marks a label.
    LabelSpecial,
    Keyword(Keyword),
}

/// `Data` with its texts as sequences.
pub enum DataView {
    Verb(Verb),
    Register(Register),
    Preposition(Preposition),
    Immediate(i64),
    RawMemory(Seq<char>),
    Memory(Memory),
    Label(Seq<char>),
    LabelDef,
    LabelSpecial,
    Keyword(Keyword),
}

impl<'a> View for Data<'a> {
    type V = DataView;

    open spec fn view(&self) -> DataView {
        match *self {
            Data::Verb(v) => DataView::Verb(v),
            Data::Register(r) => DataView::Register(r),
            Data::Preposition(p) => DataView::Preposition(p),
            Data::Immediate(n) => DataView::Immediate(n),
            Data::RawMemory(t) => DataView::RawMemory(t@),
            Data::Memory(m) => DataView::Memory(m),
            Data::Label(l) => DataView::Label(l@),
            Data::LabelDef => DataView::LabelDef,
            Data::LabelSpecial => DataView::LabelSpecial,
            Data::Keyword(k) => DataView::Keyword(k),
        }
    }
}

/// What a span is, the first of these that fits: a memory operand (it
/// starts with `@[`), `:`, `#`, a verb, a register, an integer, a keyword,
/// a preposition; anything else is a label.
pub open spec fn classify(s: Seq<char>) -> DataView {
    if s.len() >= 2 && s[0] == '@' && s[1] == '[' {
        DataView::RawMemory(s)
    } else if s == ":"@ {
        DataView::LabelDef
    } else if s == "#"@ {
        DataView::LabelSpecial
    } else if verb_of(s) is Some {
        DataView::Verb(verb_of(s)->0)
    } else if register_of(s) is Some {
        DataView::Register(register_of(s)->0)
    } else if i64_value(s) is Some {
        DataView::Immediate(i64_value(s)->0)
    } else if keyword_of(s) is Some {
        DataView::Keyword(keyword_of(s)->0)
    } else if preposition_of(s) is Some {
        DataView::Preposition(preposition_of(s)->0)
    } else {
        DataView::Label(s)
    }
}

/// The text of a token: its source spelling, or for an operand its
/// assembly text.
pub open spec fn token_text(d: DataView) -> Seq<char> {
    match d {
        DataView::Verb(v) => v.spec_word(),
        DataView::Register(r) => r.spec_name(),
        DataView::Preposition(p) => p.spec_word(),
        DataView::Immediate(n) => int_text(n as int),
        DataView::RawMemory(t) => t,
        DataView::Memory(m) => mem_text(m),
        DataView::Label(l) => l,
        DataView::LabelDef => ":"@,
        DataView::LabelSpecial => "#"@,
        DataView::Keyword(k) => k.spec_word(),
    }
}

/// The token as an object of a verb or preposition: immediates, registers,
/// labels, keywords and read memory operands are objects as they are, the
/// raw text of a memory operand once it reads as one; nothing else is.
pub open spec fn object_of(d: DataView) -> Option<DataView> {
    match d {
        DataView::Immediate(_)
        | DataView::Register(_)
        | DataView::Label(_)
        | DataView::Keyword(_)
        | DataView::Memory(_) => Some(d),
        DataView::RawMemory(t) => match mem_of(t) {
            Some(m) => Some(DataView::Memory(m)),
            None => None,
        },
        _ => None,
    }
}

/// Whether `n` fits in a signed integer of `bits` bits.
pub open spec fn fits_signed(n: int, bits: nat) -> bool {
    -vstd::arithmetic::power2::pow2((bits - 1) as nat) <= n < vstd::arithmetic::power2::pow2((bits - 1) as nat)
}

/// The width of an immediate: the smallest of 8, 16, 32 and 64 bits whose
/// signed range holds it.
pub open spec fn imm_size(n: int) -> u32 {
    if -128 <= n < 128 {
        8
    } else if -32768 <= n < 32768 {
        16
    } else if -2147483648 <= n < 2147483648 {
        32
    } else {
        64
    }
}

/// The width of an operand in bits; 0 where it has none or it is unknown.
pub open spec fn operand_size(d: DataView) -> u32 {
    match d {
        DataView::Register(r) => r.width(),
        DataView::Immediate(n) => imm_size(n as int),
        DataView::Memory(m) => m.size,
        _ => 0,
    }
}

impl<'a> Data<'a> {
    /// Classifies one span of source text.
    pub fn parse(token: &'a str) -> (r: Data<'a>)
        ensures
            r@ == classify(token@),
    {
        let n = token.unicode_len();
        if n >= 2 && token.get_char(0) == '@' && token.get_char(1) == '[' {
            return Data::RawMemory(token);
        }
        if str_eq(token, ":") {
            return Data::LabelDef;
        }
        if str_eq(token, "#") {
            return Data::LabelSpecial;
        }
        if let Some(v) = Verb::parse(token) {
            return Data::Verb(v);
        }
        if let Some(r) = Register::parse(token) {
            return Data::Register(r);
        }
        if let Some(i) = parse_i64(token) {
            return Data::Immediate(i);
        }
        if let Some(k) = Keyword::parse(token) {
            return Data::Keyword(k);
        }
        if let Some(p) = Preposition::parse(token) {
            return Data::Preposition(p);
        }
        Data::Label(token)
    }

    /// The register, if the token is one.
    pub fn reg(self) -> (r: Result<Register, ()>)
        ensures
            match self {
                Data::Register(g) => r == Ok::<Register, ()>(g),
                _ => r is Err,
            },
    {
        match self {
            Data::Register(g) => Ok(g),
            _ => Err(()),
        }
    }

    /// The value, if the token is an immediate.
    pub fn imm(self) -> (r: Result<i64, ()>)
        ensures
            match self {
                Data::Immediate(n) => r == Ok::<i64, ()>(n),
                _ => r is Err,
            },
    {
        match self {
            Data::Immediate(n) => Ok(n),
            _ => Err(()),
        }
    }

    /// The raw text, if the token is a memory operand not yet read.
    pub fn mem(self) -> (r: Option<&'a str>)
        ensures
            match self {
                Data::RawMemory(t) => r == Some(t),
                _ => r is None,
            },
    {
        match self {
            Data::RawMemory(t) => Some(t),
            _ => None,
        }
    }

    /// The text of the token (see `token_text`).
    pub fn to_text(&self) -> (r: String)
        ensures
            r@ == token_text(self@),
    {
        match *self {
            Data::Verb(v) => String::from_str(v.word()),
            Data::Register(r) => String::from_str(r.name()),
            Data::Preposition(p) => String::from_str(p.word()),
            Data::Immediate(n) => {
                let mut out = String::new();
                push_int(n, &mut out);
                assert(out@ =~= int_text(n as int));
                out
            },
            Data::RawMemory(t) => String::from_str(t),
            Data::Memory(m) => m.to_text(),
            Data::Label(l) => String::from_str(l),
            Data::LabelDef => String::from_str(":"),
            Data::LabelSpecial => String::from_str("#"),
            Data::Keyword(k) => String::from_str(k.word()),
        }
    }
}

/// A token with the place where it starts.
#[derive(Clone, Copy, Debug)]
pub struct DataSet<'a> {
    pub data: Data<'a>,
    pub loc: Loc<'a>,
}

impl<'a> DataSet<'a> {
    /// Classifies `token`, which starts at `loc`.
    pub fn new(token: &'a str, loc: Loc<'a>) -> (r: DataSet<'a>)
        ensures
            r.data@ == classify(token@),
            r.loc == loc,
    {
        DataSet { data: Data::parse(token), loc }
    }

    /// The token as an object (see `object_of`), at the same place.
    pub fn expect_object(self) -> (r: Option<DataSet<'a>>)
        ensures
            match r {
                Some(d) => object_of(self.data@) == Some(d.data@) && d.loc == self.loc,
                None => object_of(self.data@) is None,
            },
    {
        match self.data {
            Data::Immediate(_)
            | Data::Keyword(_)
            | Data::Label(_)
            | Data::Register(_)
            | Data::Memory(_) => Some(self),
            Data::RawMemory(text) => match Memory::new().parse(text) {
                Some(m) => {
                    assert(mem_of(text@) matches Some(k) && k.size == 0);
                    Some(DataSet { data: Data::Memory(m), loc: self.loc })
                },
                None => None,
            },
            _ => None,
        }
    }

    /// The width of the token as an operand (see `operand_size`).
    pub fn size(&self) -> (r: u32)
        ensures
            r == operand_size(self.data@),
    {
        match self.data {
            Data::Register(reg) => reg.bits(),
            Data::Immediate(n) => {
                if -128 <= n && n < 128 {
                    8
                } else if -32768 <= n && n < 32768 {
                    16
                } else if -2147483648 <= n && n < 2147483648 {
                    32
                } else {
                    64
                }
            },
            Data::Memory(m) => m.size,
            _ => 0,
        }
    }

    /// The token, if it is a register.
    pub fn expect_register(self) -> (r: Option<DataSet<'a>>)
        ensures
            r == (if self.data is Register {
                Some(self)
            } else {
                None
            }),
    {
        match self.data {
            Data::Register(_) => Some(self),
            _ => None,
        }
    }

    /// The token, if it is a label.
    pub fn expect_label(self) -> (r: Option<DataSet<'a>>)
        ensures
            r == (if self.data is Label {
                Some(self)
            } else {
                None
            }),
    {
        match self.data {
            Data::Label(_) => Some(self),
            _ => None,
        }
    }

    /// Whether the token is a memory operand, read or not.
    pub fn is_memory(&self) -> (r: bool)
        ensures
            r == (self.data is RawMemory || self.data is Memory),
    {
        match self.data {
            Data::RawMemory(_) | Data::Memory(_) => true,
            _ => false,
        }
    }

    /// Whether the token is a register.
    pub fn is_register(&self) -> (r: bool)
        ensures
            r == self.data is Register,
    {
        match self.data {
            Data::Register(_) => true,
            _ => false,
        }
    }
}

/// Every register has a width of 8, 16, 32, 64 or 128 bits, and that
/// width depends on its name alone.
pub proof fn lemma_register_size(s: Seq<char>)
    requires
        register_of(s) is Some,
    ensures
        register_size_of(s) matches Some(w) && (w == 8 || w == 16 || w == 32 || w == 64 || w
            == 128),
{
}

/// The register that a span names has that span as its name.
pub proof fn lemma_register_of_name(s: Seq<char>)
    requires
        register_of(s) is Some,
    ensures
        (register_of(s)->0).spec_name() == s,
{
}

/// The length and first four characters of a register name, which tell
/// all register names apart.
pub open spec fn name_key(s: Seq<char>) -> (int, char, char, char, char) {
    (
        s.len() as int,
        if s.len() > 0 { s[0] } else { ' ' },
        if s.len() > 1 { s[1] } else { ' ' },
        if s.len() > 2 { s[2] } else { ' ' },
        if s.len() > 3 { s[3] } else { ' ' },
    )
}

proof fn lemma_register_name_keys()
    ensures
        name_key("al"@) == (2int, 'a', 'l', ' ', ' '),
        name_key("bl"@) == (2int, 'b', 'l', ' ', ' '),
        name_key("cl"@) == (2int, 'c', 'l', ' ', ' '),
        name_key("dl"@) == (2int, 'd', 'l', ' ', ' '),
        name_key("dil"@) == (3int, 'd', 'i', 'l', ' '),
        name_key("sil"@) == (3int, 's', 'i', 'l', ' '),
        name_key("bpl"@) == (3int, 'b', 'p', 'l', ' '),
        name_key("spl"@) == (3int, 's', 'p', 'l', ' '),
        name_key("r8b"@) == (3int, 'r', '8', 'b', ' '),
        name_key("r9b"@) == (3int, 'r', '9', 'b', ' '),
        name_key("r10b"@) == (4int, 'r', '1', '0', 'b'),
        name_key("r11b"@) == (4int, 'r', '1', '1', 'b'),
        name_key("r12b"@) == (4int, 'r', '1', '2', 'b'),
        name_key("r13b"@) == (4int, 'r', '1', '3', 'b'),
        name_key("r14b"@) == (4int, 'r', '1', '4', 'b'),
        name_key("r15b"@) == (4int, 'r', '1', '5', 'b'),
        name_key("ax"@) == (2int, 'a', 'x', ' ', ' '),
        name_key("bx"@) == (2int, 'b', 'x', ' ', ' '),
        name_key("cx"@) == (2int, 'c', 'x', ' ', ' '),
        name_key("dx"@) == (2int, 'd', 'x', ' ', ' '),
        name_key("di"@) == (2int, 'd', 'i', ' ', ' '),
        name_key("si"@) == (2int, 's', 'i', ' ', ' '),
        name_key("bp"@) == (2int, 'b', 'p', ' ', ' '),
        name_key("sp"@) == (2int, 's', 'p', ' ', ' '),
        name_key("r8w"@) == (3int, 'r', '8', 'w', ' '),
        name_key("r9w"@) == (3int, 'r', '9', 'w', ' '),
        name_key("r10w"@) == (4int, 'r', '1', '0', 'w'),
        name_key("r11w"@) == (4int, 'r', '1', '1', 'w'),
        name_key("r12w"@) == (4int, 'r', '1', '2', 'w'),
        name_key("r13w"@) == (4int, 'r', '1', '3', 'w'),
        name_key("r14w"@) == (4int, 'r', '1', '4', 'w'),
        name_key("r15w"@) == (4int, 'r', '1', '5', 'w'),
        name_key("eax"@) == (3int, 'e', 'a', 'x', ' '),
        name_key("ebx"@) == (3int, 'e', 'b', 'x', ' '),
        name_key("ecx"@) == (3int, 'e', 'c', 'x', ' '),
        name_key("edx"@) == (3int, 'e', 'd', 'x', ' '),
        name_key("edi"@) == (3int, 'e', 'd', 'i', ' '),
        name_key("esi"@) == (3int, 'e', 's', 'i', ' '),
        name_key("ebp"@) == (3int, 'e', 'b', 'p', ' '),
        name_key("esp"@) == (3int, 'e', 's', 'p', ' '),
        name_key("r8d"@) == (3int, 'r', '8', 'd', ' '),
        name_key("r9d"@) == (3int, 'r', '9', 'd', ' '),
        name_key("r10d"@) == (4int, 'r', '1', '0', 'd'),
        name_key("r11d"@) == (4int, 'r', '1', '1', 'd'),
        name_key("r12d"@) == (4int, 'r', '1', '2', 'd'),
        name_key("r13d"@) == (4int, 'r', '1', '3', 'd'),
        name_key("r14d"@) == (4int, 'r', '1', '4', 'd'),
        name_key("r15d"@) == (4int, 'r', '1', '5', 'd'),
        name_key("rax"@) == (3int, 'r', 'a', 'x', ' '),
        name_key("rbx"@) == (3int, 'r', 'b', 'x', ' '),
        name_key("rcx"@) == (3int, 'r', 'c', 'x', ' '),
        name_key("rdx"@) == (3int, 'r', 'd', 'x', ' '),
        name_key("rdi"@) == (3int, 'r', 'd', 'i', ' '),
        name_key("rsi"@) == (3int, 'r', 's', 'i', ' '),
        name_key("rbp"@) == (3int, 'r', 'b', 'p', ' '),
        name_key("rsp"@) == (3int, 'r', 's', 'p', ' '),
        name_key("r8"@) == (2int, 'r', '8', ' ', ' '),
        name_key("r9"@) == (2int, 'r', '9', ' ', ' '),
        name_key("r10"@) == (3int, 'r', '1', '0', ' '),
        name_key("r11"@) == (3int, 'r', '1', '1', ' '),
        name_key("r12"@) == (3int, 'r', '1', '2', ' '),
        name_key("r13"@) == (3int, 'r', '1', '3', ' '),
        name_key("r14"@) == (3int, 'r', '1', '4', ' '),
        name_key("r15"@) == (3int, 'r', '1', '5', ' '),
        name_key("xmm0"@) == (4int, 'x', 'm', 'm', '0'),
        name_key("xmm1"@) == (4int, 'x', 'm', 'm', '1'),
        name_key("xmm2"@) == (4int, 'x', 'm', 'm', '2'),
        name_key("xmm3"@) == (4int, 'x', 'm', 'm', '3'),
        name_key("xmm4"@) == (4int, 'x', 'm', 'm', '4'),
        name_key("xmm5"@) == (4int, 'x', 'm', 'm', '5'),
        name_key("xmm6"@) == (4int, 'x', 'm', 'm', '6'),
        name_key("xmm7"@) == (4int, 'x', 'm', 'm', '7'),
{
    reveal_strlit("al");
    reveal_strlit("bl");
    reveal_strlit("cl");
    reveal_strlit("dl");
    reveal_strlit("dil");
    reveal_strlit("sil");
    reveal_strlit("bpl");
    reveal_strlit("spl");
    reveal_strlit("r8b");
    reveal_strlit("r9b");
    reveal_strlit("r10b");
    reveal_strlit("r11b");
    reveal_strlit("r12b");
    reveal_strlit("r13b");
    reveal_strlit("r14b");
    reveal_strlit("r15b");
    reveal_strlit("ax");
    reveal_strlit("bx");
    reveal_strlit("cx");
    reveal_strlit("dx");
    reveal_strlit("di");
    reveal_strlit("si");
    reveal_strlit("bp");
    reveal_strlit("sp");
    reveal_strlit("r8w");
    reveal_strlit("r9w");
    reveal_strlit("r10w");
    reveal_strlit("r11w");
    reveal_strlit("r12w");
    reveal_strlit("r13w");
    reveal_strlit("r14w");
    reveal_strlit("r15w");
    reveal_strlit("eax");
    reveal_strlit("ebx");
    reveal_strlit("ecx");
    reveal_strlit("edx");
    reveal_strlit("edi");
    reveal_strlit("esi");
    reveal_strlit("ebp");
    reveal_strlit("esp");
    reveal_strlit("r8d");
    reveal_strlit("r9d");
    reveal_strlit("r10d");
    reveal_strlit("r11d");
    reveal_strlit("r12d");
    reveal_strlit("r13d");
    reveal_strlit("r14d");
    reveal_strlit("r15d");
    reveal_strlit("rax");
    reveal_strlit("rbx");
    reveal_strlit("rcx");
    reveal_strlit("rdx");
    reveal_strlit("rdi");
    reveal_strlit("rsi");
    reveal_strlit("rbp");
    reveal_strlit("rsp");
    reveal_strlit("r8");
    reveal_strlit("r9");
    reveal_strlit("r10");
    reveal_strlit("r11");
    reveal_strlit("r12");
    reveal_strlit("r13");
    reveal_strlit("r14");
    reveal_strlit("r15");
    reveal_strlit("xmm0");
    reveal_strlit("xmm1");
    reveal_strlit("xmm2");
    reveal_strlit("xmm3");
    reveal_strlit("xmm4");
    reveal_strlit("xmm5");
    reveal_strlit("xmm6");
    reveal_strlit("xmm7");
    assert(name_key("al"@) == (2int, 'a', 'l', ' ', ' '));
    assert(name_key("bl"@) == (2int, 'b', 'l', ' ', ' '));
    assert(name_key("cl"@) == (2int, 'c', 'l', ' ', ' '));
    assert(name_key("dl"@) == (2int, 'd', 'l', ' ', ' '));
    assert(name_key("dil"@) == (3int, 'd', 'i', 'l', ' '));
    assert(name_key("sil"@) == (3int, 's', 'i', 'l', ' '));
    assert(name_key("bpl"@) == (3int, 'b', 'p', 'l', ' '));
    assert(name_key("spl"@) == (3int, 's', 'p', 'l', ' '));
    assert(name_key("r8b"@) == (3int, 'r', '8', 'b', ' '));
    assert(name_key("r9b"@) == (3int, 'r', '9', 'b', ' '));
    assert(name_key("r10b"@) == (4int, 'r', '1', '0', 'b'));
    assert(name_key("r11b"@) == (4int, 'r', '1', '1', 'b'));
    assert(name_key("r12b"@) == (4int, 'r', '1', '2', 'b'));
    assert(name_key("r13b"@) == (4int, 'r', '1', '3', 'b'));
    assert(name_key("r14b"@) == (4int, 'r', '1', '4', 'b'));
    assert(name_key("r15b"@) == (4int, 'r', '1', '5', 'b'));
    assert(name_key("ax"@) == (2int, 'a', 'x', ' ', ' '));
    assert(name_key("bx"@) == (2int, 'b', 'x', ' ', ' '));
    assert(name_key("cx"@) == (2int, 'c', 'x', ' ', ' '));
    assert(name_key("dx"@) == (2int, 'd', 'x', ' ', ' '));
    assert(name_key("di"@) == (2int, 'd', 'i', ' ', ' '));
    assert(name_key("si"@) == (2int, 's', 'i', ' ', ' '));
    assert(name_key("bp"@) == (2int, 'b', 'p', ' ', ' '));
    assert(name_key("sp"@) == (2int, 's', 'p', ' ', ' '));
    assert(name_key("r8w"@) == (3int, 'r', '8', 'w', ' '));
    assert(name_key("r9w"@) == (3int, 'r', '9', 'w', ' '));
    assert(name_key("r10w"@) == (4int, 'r', '1', '0', 'w'));
    assert(name_key("r11w"@) == (4int, 'r', '1', '1', 'w'));
    assert(name_key("r12w"@) == (4int, 'r', '1', '2', 'w'));
    assert(name_key("r13w"@) == (4int, 'r', '1', '3', 'w'));
    assert(name_key("r14w"@) == (4int, 'r', '1', '4', 'w'));
    assert(name_key("r15w"@) == (4int, 'r', '1', '5', 'w'));
    assert(name_key("eax"@) == (3int, 'e', 'a', 'x', ' '));
    assert(name_key("ebx"@) == (3int, 'e', 'b', 'x', ' '));
    assert(name_key("ecx"@) == (3int, 'e', 'c', 'x', ' '));
    assert(name_key("edx"@) == (3int, 'e', 'd', 'x', ' '));
    assert(name_key("edi"@) == (3int, 'e', 'd', 'i', ' '));
    assert(name_key("esi"@) == (3int, 'e', 's', 'i', ' '));
    assert(name_key("ebp"@) == (3int, 'e', 'b', 'p', ' '));
    assert(name_key("esp"@) == (3int, 'e', 's', 'p', ' '));
    assert(name_key("r8d"@) == (3int, 'r', '8', 'd', ' '));
    assert(name_key("r9d"@) == (3int, 'r', '9', 'd', ' '));
    assert(name_key("r10d"@) == (4int, 'r', '1', '0', 'd'));
    assert(name_key("r11d"@) == (4int, 'r', '1', '1', 'd'));
    assert(name_key("r12d"@) == (4int, 'r', '1', '2', 'd'));
    assert(name_key("r13d"@) == (4int, 'r', '1', '3', 'd'));
    assert(name_key("r14d"@) == (4int, 'r', '1', '4', 'd'));
    assert(name_key("r15d"@) == (4int, 'r', '1', '5', 'd'));
    assert(name_key("rax"@) == (3int, 'r', 'a', 'x', ' '));
    assert(name_key("rbx"@) == (3int, 'r', 'b', 'x', ' '));
    assert(name_key("rcx"@) == (3int, 'r', 'c', 'x', ' '));
    assert(name_key("rdx"@) == (3int, 'r', 'd', 'x', ' '));
    assert(name_key("rdi"@) == (3int, 'r', 'd', 'i', ' '));
    assert(name_key("rsi"@) == (3int, 'r', 's', 'i', ' '));
    assert(name_key("rbp"@) == (3int, 'r', 'b', 'p', ' '));
    assert(name_key("rsp"@) == (3int, 'r', 's', 'p', ' '));
    assert(name_key("r8"@) == (2int, 'r', '8', ' ', ' '));
    assert(name_key("r9"@) == (2int, 'r', '9', ' ', ' '));
    assert(name_key("r10"@) == (3int, 'r', '1', '0', ' '));
    assert(name_key("r11"@) == (3int, 'r', '1', '1', ' '));
    assert(name_key("r12"@) == (3int, 'r', '1', '2', ' '));
    assert(name_key("r13"@) == (3int, 'r', '1', '3', ' '));
    assert(name_key("r14"@) == (3int, 'r', '1', '4', ' '));
    assert(name_key("r15"@) == (3int, 'r', '1', '5', ' '));
    assert(name_key("xmm0"@) == (4int, 'x', 'm', 'm', '0'));
    assert(name_key("xmm1"@) == (4int, 'x', 'm', 'm', '1'));
    assert(name_key("xmm2"@) == (4int, 'x', 'm', 'm', '2'));
    assert(name_key("xmm3"@) == (4int, 'x', 'm', 'm', '3'));
    assert(name_key("xmm4"@) == (4int, 'x', 'm', 'm', '4'));
    assert(name_key("xmm5"@) == (4int, 'x', 'm', 'm', '5'));
    assert(name_key("xmm6"@) == (4int, 'x', 'm', 'm', '6'));
    assert(name_key("xmm7"@) == (4int, 'x', 'm', 'm', '7'));
}

/// No register name is spelled like a verb, `:` or `#`.
proof fn lemma_other_word_keys()
    ensures
        name_key("add"@) == (3int, 'a', 'd', 'd', ' '),
        name_key("substract"@) == (9int, 's', 'u', 'b', 's'),
        name_key("subtract"@) == (8int, 's', 'u', 'b', 't'),
        name_key("multiply"@) == (8int, 'm', 'u', 'l', 't'),
        name_key("divide"@) == (6int, 'd', 'i', 'v', 'i'),
        name_key("move"@) == (4int, 'm', 'o', 'v', 'e'),
        name_key("jump"@) == (4int, 'j', 'u', 'm', 'p'),
        name_key("and"@) == (3int, 'a', 'n', 'd', ' '),
        name_key("or"@) == (2int, 'o', 'r', ' ', ' '),
        name_key("xor"@) == (3int, 'x', 'o', 'r', ' '),
        name_key("not"@) == (3int, 'n', 'o', 't', ' '),
        name_key("negate"@) == (6int, 'n', 'e', 'g', 'a'),
        name_key("shift-right"@) == (11int, 's', 'h', 'i', 'f'),
        name_key("shift-left"@) == (10int, 's', 'h', 'i', 'f'),
        name_key("call"@) == (4int, 'c', 'a', 'l', 'l'),
        name_key("compare"@) == (7int, 'c', 'o', 'm', 'p'),
        name_key("load-effective-address"@) == (22int, 'l', 'o', 'a', 'd'),
        name_key("load-effective-adress"@) == (21int, 'l', 'o', 'a', 'd'),
        name_key("return"@) == (6int, 'r', 'e', 't', 'u'),
        name_key("leave"@) == (5int, 'l', 'e', 'a', 'v'),
        name_key("no-operation"@) == (12int, 'n', 'o', '-', 'o'),
        name_key("system-call"@) == (11int, 's', 'y', 's', 't'),
        name_key("systemcall"@) == (10int, 's', 'y', 's', 't'),
        name_key("halt"@) == (4int, 'h', 'a', 'l', 't'),
        name_key("define"@) == (6int, 'd', 'e', 'f', 'i'),
        name_key(":"@) == (1int, ':', ' ', ' ', ' '),
        name_key("#"@) == (1int, '#', ' ', ' ', ' '),
{
    reveal_strlit("add");
    reveal_strlit("substract");
    reveal_strlit("subtract");
    reveal_strlit("multiply");
    reveal_strlit("divide");
    reveal_strlit("move");
    reveal_strlit("jump");
    reveal_strlit("and");
    reveal_strlit("or");
    reveal_strlit("xor");
    reveal_strlit("not");
    reveal_strlit("negate");
    reveal_strlit("shift-right");
    reveal_strlit("shift-left");
    reveal_strlit("call");
    reveal_strlit("compare");
    reveal_strlit("load-effective-address");
    reveal_strlit("load-effective-adress");
    reveal_strlit("return");
    reveal_strlit("leave");
    reveal_strlit("no-operation");
    reveal_strlit("system-call");
    reveal_strlit("systemcall");
    reveal_strlit("halt");
    reveal_strlit("define");
    reveal_strlit(":");
    reveal_strlit("#");
    assert(name_key("add"@) == (3int, 'a', 'd', 'd', ' '));
    assert(name_key("substract"@) == (9int, 's', 'u', 'b', 's'));
    assert(name_key("subtract"@) == (8int, 's', 'u', 'b', 't'));
    assert(name_key("multiply"@) == (8int, 'm', 'u', 'l', 't'));
    assert(name_key("divide"@) == (6int, 'd', 'i', 'v', 'i'));
    assert(name_key("move"@) == (4int, 'm', 'o', 'v', 'e'));
    assert(name_key("jump"@) == (4int, 'j', 'u', 'm', 'p'));
    assert(name_key("and"@) == (3int, 'a', 'n', 'd', ' '));
    assert(name_key("or"@) == (2int, 'o', 'r', ' ', ' '));
    assert(name_key("xor"@) == (3int, 'x', 'o', 'r', ' '));
    assert(name_key("not"@) == (3int, 'n', 'o', 't', ' '));
    assert(name_key("negate"@) == (6int, 'n', 'e', 'g', 'a'));
    assert(name_key("shift-right"@) == (11int, 's', 'h', 'i', 'f'));
    assert(name_key("shift-left"@) == (10int, 's', 'h', 'i', 'f'));
    assert(name_key("call"@) == (4int, 'c', 'a', 'l', 'l'));
    assert(name_key("compare"@) == (7int, 'c', 'o', 'm', 'p'));
    assert(name_key("load-effective-address"@) == (22int, 'l', 'o', 'a', 'd'));
    assert(name_key("load-effective-adress"@) == (21int, 'l', 'o', 'a', 'd'));
    assert(name_key("return"@) == (6int, 'r', 'e', 't', 'u'));
    assert(name_key("leave"@) == (5int, 'l', 'e', 'a', 'v'));
    assert(name_key("no-operation"@) == (12int, 'n', 'o', '-', 'o'));
    assert(name_key("system-call"@) == (11int, 's', 'y', 's', 't'));
    assert(name_key("systemcall"@) == (10int, 's', 'y', 's', 't'));
    assert(name_key("halt"@) == (4int, 'h', 'a', 'l', 't'));
    assert(name_key("define"@) == (6int, 'd', 'e', 'f', 'i'));
    assert(name_key(":"@) == (1int, ':', ' ', ' ', ' '));
    assert(name_key("#"@) == (1int, '#', ' ', ' ', ' '));
}

/// Each register's name reads back as that register: no two registers
/// share a name.
#[verifier::rlimit(100)]
pub proof fn lemma_register_name_parses(r: Register)
    ensures
        register_of(r.spec_name()) == Some(r),
{
    lemma_register_name_keys();
    match r {
        Register::Al => {},
        Register::Bl => {},
        Register::Cl => {},
        Register::Dl => {},
        Register::Dil => {},
        Register::Sil => {},
        Register::Bpl => {},
        Register::Spl => {},
        Register::R8b => {},
        Register::R9b => {},
        Register::R10b => {},
        Register::R11b => {},
        Register::R12b => {},
        Register::R13b => {},
        Register::R14b => {},
        Register::R15b => {},
        Register::Ax => {},
        Register::Bx => {},
        Register::Cx => {},
        Register::Dx => {},
        Register::Di => {},
        Register::Si => {},
        Register::Bp => {},
        Register::Sp => {},
        Register::R8w => {},
        Register::R9w => {},
        Register::R10w => {},
        Register::R11w => {},
        Register::R12w => {},
        Register::R13w => {},
        Register::R14w => {},
        Register::R15w => {},
        Register::Eax => {},
        Register::Ebx => {},
        Register::Ecx => {},
        Register::Edx => {},
        Register::Edi => {},
        Register::Esi => {},
        Register::Ebp => {},
        Register::Esp => {},
        Register::R8d => {},
        Register::R9d => {},
        Register::R10d => {},
        Register::R11d => {},
        Register::R12d => {},
        Register::R13d => {},
        Register::R14d => {},
        Register::R15d => {},
        Register::Rax => {},
        Register::Rbx => {},
        Register::Rcx => {},
        Register::Rdx => {},
        Register::Rdi => {},
        Register::Rsi => {},
        Register::Rbp => {},
        Register::Rsp => {},
        Register::R8 => {},
        Register::R9 => {},
        Register::R10 => {},
        Register::R11 => {},
        Register::R12 => {},
        Register::R13 => {},
        Register::R14 => {},
        Register::R15 => {},
        Register::Xmm0 => {},
        Register::Xmm1 => {},
        Register::Xmm2 => {},
        Register::Xmm3 => {},
        Register::Xmm4 => {},
        Register::Xmm5 => {},
        Register::Xmm6 => {},
        Register::Xmm7 => {},
    }
}

/// A span names a register of width `w` exactly when it is the name of a
/// register of that width: 8 bits for the byte registers, 16 for the word
/// registers, 32 and 64 for the double and quad word registers, 128 for the
/// vector registers.
pub proof fn lemma_register_size_class(s: Seq<char>, w: u32)
    ensures
        register_size_of(s) == Some(w) <==> exists|r: Register| r.width() == w && r.spec_name() == s,
{
    if register_size_of(s) == Some(w) {
        lemma_register_of_name(s);
        let r = register_of(s)->0;
        assert(r.width() == w && r.spec_name() == s);
    }
    if exists|r: Register| r.width() == w && r.spec_name() == s {
        let r = choose|r: Register| r.width() == w && r.spec_name() == s;
        lemma_register_name_parses(r);
    }
}

/// The width of an immediate is the smallest of 8, 16, 32 and 64 bits
/// whose signed range holds it.
pub proof fn lemma_imm_size_smallest(n: i64)
    ensures
        fits_signed(n as int, imm_size(n as int) as nat),
        forall|b: nat|
            (b == 8 || b == 16 || b == 32 || b == 64) && b < imm_size(n as int) ==> !fits_signed(
                n as int,
                b,
            ),
{
    vstd::arithmetic::power2::lemma2_to64();
    vstd::arithmetic::power2::lemma2_to64_rest();
    assert(fits_signed(n as int, 8) == (-128 <= n < 128));
    assert(fits_signed(n as int, 16) == (-32768 <= n < 32768));
    assert(fits_signed(n as int, 32) == (-2147483648 <= n < 2147483648));
    assert(fits_signed(n as int, 64));
}

/// Writing back the token read from a span gives the span again, where the
/// token is a register, a label, or an integer in canonical form (no `+`,
/// no leading zero, no `-0`).
pub proof fn lemma_token_round_trip(s: Seq<char>)
    requires
        classify(s) is Register || classify(s) is Label || (classify(s) is Immediate
            && is_canonical_int(s)),
    ensures
        token_text(classify(s)) == s,
{
    if classify(s) is Immediate {
        lemma_int_text_round_trip(s);
    }
}

/// Every register name is a plain word that reads as that register: it is
/// not empty, holds no whitespace, `:` or `#`, does not start with `@[`, and
/// is no verb.
#[verifier::rlimit(100)]
pub proof fn lemma_register_name_token(r: Register)
    ensures
        r.spec_name().len() > 0,
        forall|k: int|
            0 <= k < r.spec_name().len() ==> !is_ws(#[trigger] r.spec_name()[k]) && r.spec_name()[k]
                != ':' && r.spec_name()[k] != '#',
        r.spec_name()[0] != '@',
        classify(r.spec_name()) == DataView::Register(r),
{
    lemma_register_name_keys();
    lemma_other_word_keys();
    lemma_register_name_parses(r);
    match r {
        Register::Al => {},
        Register::Bl => {},
        Register::Cl => {},
        Register::Dl => {},
        Register::Dil => {},
        Register::Sil => {},
        Register::Bpl => {},
        Register::Spl => {},
        Register::R8b => {},
        Register::R9b => {},
        Register::R10b => {},
        Register::R11b => {},
        Register::R12b => {},
        Register::R13b => {},
        Register::R14b => {},
        Register::R15b => {},
        Register::Ax => {},
        Register::Bx => {},
        Register::Cx => {},
        Register::Dx => {},
        Register::Di => {},
        Register::Si => {},
        Register::Bp => {},
        Register::Sp => {},
        Register::R8w => {},
        Register::R9w => {},
        Register::R10w => {},
        Register::R11w => {},
        Register::R12w => {},
        Register::R13w => {},
        Register::R14w => {},
        Register::R15w => {},
        Register::Eax => {},
        Register::Ebx => {},
        Register::Ecx => {},
        Register::Edx => {},
        Register::Edi => {},
        Register::Esi => {},
        Register::Ebp => {},
        Register::Esp => {},
        Register::R8d => {},
        Register::R9d => {},
        Register::R10d => {},
        Register::R11d => {},
        Register::R12d => {},
        Register::R13d => {},
        Register::R14d => {},
        Register::R15d => {},
        Register::Rax => {},
        Register::Rbx => {},
        Register::Rcx => {},
        Register::Rdx => {},
        Register::Rdi => {},
        Register::Rsi => {},
        Register::Rbp => {},
        Register::Rsp => {},
        Register::R8 => {},
        Register::R9 => {},
        Register::R10 => {},
        Register::R11 => {},
        Register::R12 => {},
        Register::R13 => {},
        Register::R14 => {},
        Register::R15 => {},
        Register::Xmm0 => {},
        Register::Xmm1 => {},
        Register::Xmm2 => {},
        Register::Xmm3 => {},
        Register::Xmm4 => {},
        Register::Xmm5 => {},
        Register::Xmm6 => {},
        Register::Xmm7 => {},
    }
}

} // verus!
