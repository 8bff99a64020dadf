//! Register names: which slice of which base register a name stands for.

use vstd::prelude::*;
use vstd::string::*;

verus! {

/// Canonical 64-bit storage locations in the register frame.
///
/// Aliases like `eax`, `ax`, `al`, and `ah` all map to `BaseReg::Rax`, each to a slice of it.
#[derive(Debug, Clone, Copy, PartialEq, Eq, Structural)]
pub enum BaseReg {
    /// Accumulator register.
    Rax,
    /// Base register.
    Rbx,
    /// Counter register.
    Rcx,
    /// Data register.
    Rdx,
    /// Source index register.
    Rsi,
    /// Destination index register.
    Rdi,
    /// Base pointer.
    Rbp,
    /// Stack pointer.
    Rsp,
    /// Extended general-purpose register 8.
    R8,
    /// Extended general-purpose register 9.
    R9,
    /// Extended general-purpose register 10.
    R10,
    /// Extended general-purpose register 11.
    R11,
    /// Extended general-purpose register 12.
    R12,
    /// Extended general-purpose register 13.
    R13,
    /// Extended general-purpose register 14.
    R14,
    /// Extended general-purpose register 15.
    R15,
    /// Instruction pointer (program counter on x86-64).
    Rip,
    /// Flags register (condition and control flags).
    Rflags,
}

/// The slices of a base register that have names.
pub enum Slice {
    /// Bits `0..64`.
    Qword,
    /// Bits `0..32`.
    Dword,
    /// Bits `0..16`.
    Word,
    /// Bits `0..8`.
    LowByte,
    /// Bits `8..16`.
    HighByte,
}

impl Slice {
    /// How many bits the slice has.
    pub open spec fn bits(self) -> nat {
        match self {
            Slice::Qword => 64,
            Slice::Dword => 32,
            Slice::Word => 16,
            Slice::LowByte => 8,
            Slice::HighByte => 8,
        }
    }

    /// Where in the base register the slice starts.
    pub open spec fn lsb(self) -> nat {
        if self is HighByte {
            8
        } else {
            0
        }
    }

    /// The value of the slice in a base register that holds `raw`.
    pub open spec fn of(self, raw: u64) -> u64 {
        match self {
            Slice::Qword => raw,
            Slice::Dword => (raw % 0x1_0000_0000) as u64,
            Slice::Word => (raw % 0x1_0000) as u64,
            Slice::LowByte => (raw % 0x100) as u64,
            Slice::HighByte => (raw / 0x100 % 0x100) as u64,
        }
    }

    /// `raw` with this slice of it set to the low bits of `value`, and no other bit changed.
    pub open spec fn insert(self, raw: u64, value: u64) -> u64 {
        match self {
            Slice::Qword => value,
            Slice::Dword => (raw - raw % 0x1_0000_0000 + value % 0x1_0000_0000) as u64,
            Slice::Word => (raw - raw % 0x1_0000 + value % 0x1_0000) as u64,
            Slice::LowByte => (raw - raw % 0x100 + value % 0x100) as u64,
            Slice::HighByte => (raw - raw / 0x100 % 0x100 * 0x100 + value % 0x100 * 0x100) as u64,
        }
    }
}

/// Whether a write to this slice clears the bits above it: so it is for the 32-bit slices of the
/// general-purpose registers.
pub open spec fn zero_extends(base: BaseReg, slice: Slice) -> bool {
    slice is Dword && base != BaseReg::Rflags
}

/// What a base register that holds `raw` holds after a write of `value` to a slice of it.
pub open spec fn written(base: BaseReg, slice: Slice, raw: u64, value: u64) -> u64 {
    if zero_extends(base, slice) {
        slice.of(value)
    } else {
        slice.insert(raw, value)
    }
}

/// The name of a slice of a base register, where it has one.
pub open spec fn alias_name(base: BaseReg, slice: Slice) -> Option<Seq<char>> {
    match base {
        BaseReg::Rax => match slice {
            Slice::Qword => Some("rax"@),
            Slice::Dword => Some("eax"@),
            Slice::Word => Some("ax"@),
            Slice::LowByte => Some("al"@),
            Slice::HighByte => Some("ah"@),
        },
        BaseReg::Rbx => match slice {
            Slice::Qword => Some("rbx"@),
            Slice::Dword => Some("ebx"@),
            Slice::Word => Some("bx"@),
            Slice::LowByte => Some("bl"@),
            Slice::HighByte => Some("bh"@),
        },
        BaseReg::Rcx => match slice {
            Slice::Qword => Some("rcx"@),
            Slice::Dword => Some("ecx"@),
            Slice::Word => Some("cx"@),
            Slice::LowByte => Some("cl"@),
            Slice::HighByte => Some("ch"@),
        },
        BaseReg::Rdx => match slice {
            Slice::Qword => Some("rdx"@),
            Slice::Dword => Some("edx"@),
            Slice::Word => Some("dx"@),
            Slice::LowByte => Some("dl"@),
            Slice::HighByte => Some("dh"@),
        },
        BaseReg::Rsi => match slice {
            Slice::Qword => Some("rsi"@),
            Slice::Dword => Some("esi"@),
            Slice::Word => Some("si"@),
            Slice::LowByte => Some("sil"@),
            _ => None,
        },
        BaseReg::Rdi => match slice {
            Slice::Qword => Some("rdi"@),
            Slice::Dword => Some("edi"@),
            Slice::Word => Some("di"@),
            Slice::LowByte => Some("dil"@),
            _ => None,
        },
        BaseReg::Rbp => match slice {
            Slice::Qword => Some("rbp"@),
            Slice::Dword => Some("ebp"@),
            Slice::Word => Some("bp"@),
            Slice::LowByte => Some("bpl"@),
            _ => None,
        },
        BaseReg::Rsp => match slice {
            Slice::Qword => Some("rsp"@),
            Slice::Dword => Some("esp"@),
            Slice::Word => Some("sp"@),
            Slice::LowByte => Some("spl"@),
            _ => None,
        },
        BaseReg::R8 => match slice {
            Slice::Qword => Some("r8"@),
            Slice::Dword => Some("r8d"@),
            Slice::Word => Some("r8w"@),
            Slice::LowByte => Some("r8b"@),
            _ => None,
        },
        BaseReg::R9 => match slice {
            Slice::Qword => Some("r9"@),
            Slice::Dword => Some("r9d"@),
            Slice::Word => Some("r9w"@),
            Slice::LowByte => Some("r9b"@),
            _ => None,
        },
        BaseReg::R10 => match slice {
            Slice::Qword => Some("r10"@),
            Slice::Dword => Some("r10d"@),
            Slice::Word => Some("r10w"@),
            Slice::LowByte => Some("r10b"@),
            _ => None,
        },
        BaseReg::R11 => match slice {
            Slice::Qword => Some("r11"@),
            Slice::Dword => Some("r11d"@),
            Slice::Word => Some("r11w"@),
            Slice::LowByte => Some("r11b"@),
            _ => None,
        },
        BaseReg::R12 => match slice {
            Slice::Qword => Some("r12"@),
            Slice::Dword => Some("r12d"@),
            Slice::Word => Some("r12w"@),
            Slice::LowByte => Some("r12b"@),
            _ => None,
        },
        BaseReg::R13 => match slice {
            Slice::Qword => Some("r13"@),
            Slice::Dword => Some("r13d"@),
            Slice::Word => Some("r13w"@),
            Slice::LowByte => Some("r13b"@),
            _ => None,
        },
        BaseReg::R14 => match slice {
            Slice::Qword => Some("r14"@),
            Slice::Dword => Some("r14d"@),
            Slice::Word => Some("r14w"@),
            Slice::LowByte => Some("r14b"@),
            _ => None,
        },
        BaseReg::R15 => match slice {
            Slice::Qword => Some("r15"@),
            Slice::Dword => Some("r15d"@),
            Slice::Word => Some("r15w"@),
            Slice::LowByte => Some("r15b"@),
            _ => None,
        },
        BaseReg::Rip => match slice {
            Slice::Qword => Some("rip"@),
            _ => None,
        },
        BaseReg::Rflags => match slice {
            Slice::Qword => Some("rflags"@),
            Slice::Dword => Some("eflags"@),
            _ => None,
        },
    }
}

/// An ASCII upper case letter in lower case; every other character as it is.
pub open spec fn lower_char(c: char) -> char {
    if 'A' <= c <= 'Z' {
        (c as u32 + 32) as char
    } else {
        c
    }
}

/// `text` with its ASCII letters in lower case.
pub open spec fn lowercase(text: Seq<char>) -> Seq<char> {
    text.map_values(|c: char| lower_char(c))
}

/// `name` names this slice of this base register, in whatever case its letters are.
pub open spec fn names(name: Seq<char>, base: BaseReg, slice: Slice) -> bool {
    alias_name(base, slice) == Some(lowercase(name))
}

/// `name` names nothing.
pub open spec fn names_nothing(name: Seq<char>) -> bool {
    forall|base: BaseReg, slice: Slice| !#[trigger] names(name, base, slice)
}

/// Declarative mapping from a textual register name to a bit range in a base register.
#[derive(Debug, Clone, Copy, PartialEq, Eq)]
pub struct RegisterSpec {
    /// Canonical lowercase alias returned to callers.
    pub name: &'static str,
    /// Underlying 64-bit storage register in the frame.
    pub base: BaseReg,
    /// Width of this alias in bits.
    pub bits: u8,
    /// Least significant bit offset inside `base`.
    pub lsb: u8,
    /// Whether writing this alias must zero-extend the full 64-bit base register.
    ///
    /// On x86-64 this is true for 32-bit writes like `eax`, `r8d`, etc.
    pub zero_extend_64: bool,
}

impl RegisterSpec {
    /// This is the entry of a slice of a base register.
    pub open spec fn describes(self, base: BaseReg, slice: Slice) -> bool {
        &&& alias_name(base, slice) == Some(self.name@)
        &&& self.base == base
        &&& self.bits == slice.bits()
        &&& self.lsb == slice.lsb()
        &&& self.zero_extend_64 == zero_extends(base, slice)
    }

    /// Put the parts of an entry together.
    pub fn new(
        name: &'static str,
        base: BaseReg,
        bits: u8,
        lsb: u8,
        zero_extend_64: bool,
    ) -> (spec: Self)
        ensures
            spec == (RegisterSpec { name, base, bits, lsb, zero_extend_64 }),
    {
        RegisterSpec { name, base, bits, lsb, zero_extend_64 }
    }
}

/// No two slices have the same name.
pub proof fn alias_names_are_distinct(
    base1: BaseReg,
    slice1: Slice,
    base2: BaseReg,
    slice2: Slice,
)
    requires
        alias_name(base1, slice1) is Some,
        alias_name(base1, slice1) == alias_name(base2, slice2),
    ensures
        base1 == base2,
        slice1 == slice2,
{
    reveal_strlit("rax");
    reveal_strlit("eax");
    reveal_strlit("ax");
    reveal_strlit("al");
    reveal_strlit("ah");
    reveal_strlit("rbx");
    reveal_strlit("ebx");
    reveal_strlit("bx");
    reveal_strlit("bl");
    reveal_strlit("bh");
    reveal_strlit("rcx");
    reveal_strlit("ecx");
    reveal_strlit("cx");
    reveal_strlit("cl");
    reveal_strlit("ch");
    reveal_strlit("rdx");
    reveal_strlit("edx");
    reveal_strlit("dx");
    reveal_strlit("dl");
    reveal_strlit("dh");
    reveal_strlit("rsi");
    reveal_strlit("esi");
    reveal_strlit("si");
    reveal_strlit("sil");
    reveal_strlit("rdi");
    reveal_strlit("edi");
    reveal_strlit("di");
    reveal_strlit("dil");
    reveal_strlit("rbp");
    reveal_strlit("ebp");
    reveal_strlit("bp");
    reveal_strlit("bpl");
    reveal_strlit("rsp");
    reveal_strlit("esp");
    reveal_strlit("sp");
    reveal_strlit("spl");
    reveal_strlit("r8");
    reveal_strlit("r8d");
    reveal_strlit("r8w");
    reveal_strlit("r8b");
    reveal_strlit("r9");
    reveal_strlit("r9d");
    reveal_strlit("r9w");
    reveal_strlit("r9b");
    reveal_strlit("r10");
    reveal_strlit("r10d");
    reveal_strlit("r10w");
    reveal_strlit("r10b");
    reveal_strlit("r11");
    reveal_strlit("r11d");
    reveal_strlit("r11w");
    reveal_strlit("r11b");
    reveal_strlit("r12");
    reveal_strlit("r12d");
    reveal_strlit("r12w");
    reveal_strlit("r12b");
    reveal_strlit("r13");
    reveal_strlit("r13d");
    reveal_strlit("r13w");
    reveal_strlit("r13b");
    reveal_strlit("r14");
    reveal_strlit("r14d");
    reveal_strlit("r14w");
    reveal_strlit("r14b");
    reveal_strlit("r15");
    reveal_strlit("r15d");
    reveal_strlit("r15w");
    reveal_strlit("r15b");
    reveal_strlit("rip");
    reveal_strlit("rflags");
    reveal_strlit("eflags");
    let name1 = alias_name(base1, slice1).unwrap();
    let name2 = alias_name(base2, slice2).unwrap();
    assert(name1.len() == name2.len());
    assert(name1[0] == name2[0]);
    assert(name1[1] == name2[1]);
    assert(name1.len() > 2 ==> name1[2] == name2[2]);
    assert(name1.len() > 3 ==> name1[3] == name2[3]);
}

/// Whether `name`, in lower case, is `alias`.
fn is_alias(name: &str, alias: &str) -> (result: bool)
    ensures
        result == (lowercase(name@) == alias@),
{
    let len = name.unicode_len();
    if len != alias.unicode_len() {
        assert(lowercase(name@).len() != alias@.len());
        return false;
    }
    let mut i: usize = 0;
    while i < len
        invariant
            i <= len,
            len == name@.len(),
            len == alias@.len(),
            forall|j: int| 0 <= j < i ==> lower_char(name@[j]) == alias@[j],
        decreases len - i,
    {
        let c = name.get_char(i);
        let wanted = alias.get_char(i);
        let same = if 'A' <= c && c <= 'Z' {
            c as u32 + 32 == wanted as u32
        } else {
            c == wanted
        };
        if !same {
            assert(lowercase(name@)[i as int] != alias@[i as int]);
            return false;
        }
        i += 1;
    }
    assert(lowercase(name@) =~= alias@);
    true
}

/// The slice of this width at this offset.
spec fn slice_at(bits: u8, lsb: u8) -> Slice {
    if lsb == 8 {
        Slice::HighByte
    } else if bits == 64 {
        Slice::Qword
    } else if bits == 32 {
        Slice::Dword
    } else if bits == 16 {
        Slice::Word
    } else {
        Slice::LowByte
    }
}

/// `result` is the entry of what `name` names, or nothing where it names nothing.
pub open spec fn finds(name: Seq<char>, result: Option<RegisterSpec>) -> bool {
    &&& forall|base: BaseReg, slice: Slice| #[trigger]
        names(name, base, slice) ==> (result matches Some(spec) && spec.describes(base, slice))
    &&& names_nothing(name) ==> result is None
}

/// Resolve a register/alias name into a [`RegisterSpec`], whatever the case of its ASCII letters.
#[verifier::rlimit(60)]
#[verifier::spinoff_prover]
pub fn spec_by_name(name: &str) -> (result: Option<RegisterSpec>)
    ensures
        finds(name@, result),
{
    let result = if is_alias(name, "rax") {
        Some(RegisterSpec::new("rax", BaseReg::Rax, 64, 0, false))
    } else if is_alias(name, "eax") {
        Some(RegisterSpec::new("eax", BaseReg::Rax, 32, 0, true))
    } else if is_alias(name, "ax") {
        Some(RegisterSpec::new("ax", BaseReg::Rax, 16, 0, false))
    } else if is_alias(name, "al") {
        Some(RegisterSpec::new("al", BaseReg::Rax, 8, 0, false))
    } else if is_alias(name, "ah") {
        Some(RegisterSpec::new("ah", BaseReg::Rax, 8, 8, false))
    } else if is_alias(name, "rbx") {
        Some(RegisterSpec::new("rbx", BaseReg::Rbx, 64, 0, false))
    } else if is_alias(name, "ebx") {
        Some(RegisterSpec::new("ebx", BaseReg::Rbx, 32, 0, true))
    } else if is_alias(name, "bx") {
        Some(RegisterSpec::new("bx", BaseReg::Rbx, 16, 0, false))
    } else if is_alias(name, "bl") {
        Some(RegisterSpec::new("bl", BaseReg::Rbx, 8, 0, false))
    } else if is_alias(name, "bh") {
        Some(RegisterSpec::new("bh", BaseReg::Rbx, 8, 8, false))
    } else if is_alias(name, "rcx") {
        Some(RegisterSpec::new("rcx", BaseReg::Rcx, 64, 0, false))
    } else if is_alias(name, "ecx") {
        Some(RegisterSpec::new("ecx", BaseReg::Rcx, 32, 0, true))
    } else if is_alias(name, "cx") {
        Some(RegisterSpec::new("cx", BaseReg::Rcx, 16, 0, false))
    } else if is_alias(name, "cl") {
        Some(RegisterSpec::new("cl", BaseReg::Rcx, 8, 0, false))
    } else if is_alias(name, "ch") {
        Some(RegisterSpec::new("ch", BaseReg::Rcx, 8, 8, false))
    } else if is_alias(name, "rdx") {
        Some(RegisterSpec::new("rdx", BaseReg::Rdx, 64, 0, false))
    } else if is_alias(name, "edx") {
        Some(RegisterSpec::new("edx", BaseReg::Rdx, 32, 0, true))
    } else if is_alias(name, "dx") {
        Some(RegisterSpec::new("dx", BaseReg::Rdx, 16, 0, false))
    } else if is_alias(name, "dl") {
        Some(RegisterSpec::new("dl", BaseReg::Rdx, 8, 0, false))
    } else if is_alias(name, "dh") {
        Some(RegisterSpec::new("dh", BaseReg::Rdx, 8, 8, false))
    } else if is_alias(name, "rsi") {
        Some(RegisterSpec::new("rsi", BaseReg::Rsi, 64, 0, false))
    } else if is_alias(name, "esi") {
        Some(RegisterSpec::new("esi", BaseReg::Rsi, 32, 0, true))
    } else if is_alias(name, "si") {
        Some(RegisterSpec::new("si", BaseReg::Rsi, 16, 0, false))
    } else if is_alias(name, "sil") {
        Some(RegisterSpec::new("sil", BaseReg::Rsi, 8, 0, false))
    } else if is_alias(name, "rdi") {
        Some(RegisterSpec::new("rdi", BaseReg::Rdi, 64, 0, false))
    } else if is_alias(name, "edi") {
        Some(RegisterSpec::new("edi", BaseReg::Rdi, 32, 0, true))
    } else if is_alias(name, "di") {
        Some(RegisterSpec::new("di", BaseReg::Rdi, 16, 0, false))
    } else if is_alias(name, "dil") {
        Some(RegisterSpec::new("dil", BaseReg::Rdi, 8, 0, false))
    } else if is_alias(name, "rbp") {
        Some(RegisterSpec::new("rbp", BaseReg::Rbp, 64, 0, false))
    } else if is_alias(name, "ebp") {
        Some(RegisterSpec::new("ebp", BaseReg::Rbp, 32, 0, true))
    } else if is_alias(name, "bp") {
        Some(RegisterSpec::new("bp", BaseReg::Rbp, 16, 0, false))
    } else if is_alias(name, "bpl") {
        Some(RegisterSpec::new("bpl", BaseReg::Rbp, 8, 0, false))
    } else if is_alias(name, "rsp") {
        Some(RegisterSpec::new("rsp", BaseReg::Rsp, 64, 0, false))
    } else if is_alias(name, "esp") {
        Some(RegisterSpec::new("esp", BaseReg::Rsp, 32, 0, true))
    } else if is_alias(name, "sp") {
        Some(RegisterSpec::new("sp", BaseReg::Rsp, 16, 0, false))
    } else if is_alias(name, "spl") {
        Some(RegisterSpec::new("spl", BaseReg::Rsp, 8, 0, false))
    } else if is_alias(name, "r8") {
        Some(RegisterSpec::new("r8", BaseReg::R8, 64, 0, false))
    } else if is_alias(name, "r8d") {
        Some(RegisterSpec::new("r8d", BaseReg::R8, 32, 0, true))
    } else if is_alias(name, "r8w") {
        Some(RegisterSpec::new("r8w", BaseReg::R8, 16, 0, false))
    } else if is_alias(name, "r8b") {
        Some(RegisterSpec::new("r8b", BaseReg::R8, 8, 0, false))
    } else if is_alias(name, "r9") {
        Some(RegisterSpec::new("r9", BaseReg::R9, 64, 0, false))
    } else if is_alias(name, "r9d") {
        Some(RegisterSpec::new("r9d", BaseReg::R9, 32, 0, true))
    } else if is_alias(name, "r9w") {
        Some(RegisterSpec::new("r9w", BaseReg::R9, 16, 0, false))
    } else if is_alias(name, "r9b") {
        Some(RegisterSpec::new("r9b", BaseReg::R9, 8, 0, false))
    } else if is_alias(name, "r10") {
        Some(RegisterSpec::new("r10", BaseReg::R10, 64, 0, false))
    } else if is_alias(name, "r10d") {
        Some(RegisterSpec::new("r10d", BaseReg::R10, 32, 0, true))
    } else if is_alias(name, "r10w") {
        Some(RegisterSpec::new("r10w", BaseReg::R10, 16, 0, false))
    } else if is_alias(name, "r10b") {
        Some(RegisterSpec::new("r10b", BaseReg::R10, 8, 0, false))
    } else if is_alias(name, "r11") {
        Some(RegisterSpec::new("r11", BaseReg::R11, 64, 0, false))
    } else if is_alias(name, "r11d") {
        Some(RegisterSpec::new("r11d", BaseReg::R11, 32, 0, true))
    } else if is_alias(name, "r11w") {
        Some(RegisterSpec::new("r11w", BaseReg::R11, 16, 0, false))
    } else if is_alias(name, "r11b") {
        Some(RegisterSpec::new("r11b", BaseReg::R11, 8, 0, false))
    } else if is_alias(name, "r12") {
        Some(RegisterSpec::new("r12", BaseReg::R12, 64, 0, false))
    } else if is_alias(name, "r12d") {
        Some(RegisterSpec::new("r12d", BaseReg::R12, 32, 0, true))
    } else if is_alias(name, "r12w") {
        Some(RegisterSpec::new("r12w", BaseReg::R12, 16, 0, false))
    } else if is_alias(name, "r12b") {
        Some(RegisterSpec::new("r12b", BaseReg::R12, 8, 0, false))
    } else if is_alias(name, "r13") {
        Some(RegisterSpec::new("r13", BaseReg::R13, 64, 0, false))
    } else if is_alias(name, "r13d") {
        Some(RegisterSpec::new("r13d", BaseReg::R13, 32, 0, true))
    } else if is_alias(name, "r13w") {
        Some(RegisterSpec::new("r13w", BaseReg::R13, 16, 0, false))
    } else if is_alias(name, "r13b") {
        Some(RegisterSpec::new("r13b", BaseReg::R13, 8, 0, false))
    } else if is_alias(name, "r14") {
        Some(RegisterSpec::new("r14", BaseReg::R14, 64, 0, false))
    } else if is_alias(name, "r14d") {
        Some(RegisterSpec::new("r14d", BaseReg::R14, 32, 0, true))
    } else if is_alias(name, "r14w") {
        Some(RegisterSpec::new("r14w", BaseReg::R14, 16, 0, false))
    } else if is_alias(name, "r14b") {
        Some(RegisterSpec::new("r14b", BaseReg::R14, 8, 0, false))
    } else if is_alias(name, "r15") {
        Some(RegisterSpec::new("r15", BaseReg::R15, 64, 0, false))
    } else if is_alias(name, "r15d") {
        Some(RegisterSpec::new("r15d", BaseReg::R15, 32, 0, true))
    } else if is_alias(name, "r15w") {
        Some(RegisterSpec::new("r15w", BaseReg::R15, 16, 0, false))
    } else if is_alias(name, "r15b") {
        Some(RegisterSpec::new("r15b", BaseReg::R15, 8, 0, false))
    } else if is_alias(name, "rip") {
        Some(RegisterSpec::new("rip", BaseReg::Rip, 64, 0, false))
    } else if is_alias(name, "rflags") {
        Some(RegisterSpec::new("rflags", BaseReg::Rflags, 64, 0, false))
    } else if is_alias(name, "eflags") {
        Some(RegisterSpec::new("eflags", BaseReg::Rflags, 32, 0, false))
    } else {
        None
    };
    proof {
        match result {
            Some(spec) => {
                let found = slice_at(spec.bits, spec.lsb);
                assert(spec.describes(spec.base, found));
                assert(names(name@, spec.base, found));
                assert forall|base: BaseReg, slice: Slice| #[trigger]
                    names(name@, base, slice) implies spec.describes(base, slice) by {
                    alias_names_are_distinct(base, slice, spec.base, found);
                }
            },
            None => {
                assert(names_nothing(name@));
            },
        }
    }
    result
}

} // verus!
