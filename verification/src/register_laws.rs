//! What reading and writing a register by name does, register by register.

use crate::aliases::{spec_by_name, BaseReg, RegisterSpec};
#[allow(unused_imports)]
use crate::aliases::{alias_name, finds, lower_char, lowercase, names, names_nothing, written, Slice};
use crate::domain::{DebugError, RegisterValue};
use crate::registers::{
    base_value, read_all_gpr, read_register, set_base_value, write_register, UserRegs,
};
#[allow(unused_imports)]
use crate::registers::{read_gives, reads_as, write_gives};
use vstd::prelude::*;

verus! {

/// Every name is in lower case.
#[verifier::spinoff_prover]
proof fn lemma_own_name(base: BaseReg, slice: Slice)
    ensures
        alias_name(base, slice) matches Some(name) ==> names(name, base, slice),
{
    reveal_strlit("rax");
    reveal_strlit("rbx");
    reveal_strlit("rcx");
    reveal_strlit("rdx");
    reveal_strlit("rsi");
    reveal_strlit("rdi");
    reveal_strlit("rbp");
    reveal_strlit("rsp");
    reveal_strlit("r8");
    reveal_strlit("r9");
    reveal_strlit("r10");
    reveal_strlit("r11");
    reveal_strlit("r12");
    reveal_strlit("r13");
    reveal_strlit("r14");
    reveal_strlit("r15");
    reveal_strlit("rip");
    reveal_strlit("rflags");
    reveal_strlit("eax");
    reveal_strlit("ebx");
    reveal_strlit("ecx");
    reveal_strlit("edx");
    reveal_strlit("esi");
    reveal_strlit("edi");
    reveal_strlit("ebp");
    reveal_strlit("esp");
    reveal_strlit("r8d");
    reveal_strlit("r9d");
    reveal_strlit("r10d");
    reveal_strlit("r11d");
    reveal_strlit("r12d");
    reveal_strlit("r13d");
    reveal_strlit("r14d");
    reveal_strlit("r15d");
    reveal_strlit("ax");
    reveal_strlit("bx");
    reveal_strlit("cx");
    reveal_strlit("dx");
    reveal_strlit("si");
    reveal_strlit("di");
    reveal_strlit("bp");
    reveal_strlit("sp");
    reveal_strlit("r8w");
    reveal_strlit("r9w");
    reveal_strlit("r10w");
    reveal_strlit("r11w");
    reveal_strlit("r12w");
    reveal_strlit("r13w");
    reveal_strlit("r14w");
    reveal_strlit("r15w");
    reveal_strlit("al");
    reveal_strlit("bl");
    reveal_strlit("cl");
    reveal_strlit("dl");
    reveal_strlit("sil");
    reveal_strlit("dil");
    reveal_strlit("bpl");
    reveal_strlit("spl");
    reveal_strlit("r8b");
    reveal_strlit("r9b");
    reveal_strlit("r10b");
    reveal_strlit("r11b");
    reveal_strlit("r12b");
    reveal_strlit("r13b");
    reveal_strlit("r14b");
    reveal_strlit("r15b");
    reveal_strlit("ah");
    reveal_strlit("bh");
    reveal_strlit("ch");
    reveal_strlit("dh");
    reveal_strlit("eflags");
    if let Some(name) = alias_name(base, slice) {
        assert(lowercase(name) =~= name);
    }
}

/// A frame with another value in one base register, field by field.
proof fn lemma_replaced(regs: UserRegs, base: BaseReg, value: u64, after: UserRegs)
    requires
        regs.replaces(base, value, after),
    ensures
        match base {
            BaseReg::Rax => after == (UserRegs { rax: value, ..regs }),
            BaseReg::Rbx => after == (UserRegs { rbx: value, ..regs }),
            BaseReg::Rcx => after == (UserRegs { rcx: value, ..regs }),
            BaseReg::Rdx => after == (UserRegs { rdx: value, ..regs }),
            BaseReg::Rsi => after == (UserRegs { rsi: value, ..regs }),
            BaseReg::Rdi => after == (UserRegs { rdi: value, ..regs }),
            BaseReg::Rbp => after == (UserRegs { rbp: value, ..regs }),
            BaseReg::Rsp => after == (UserRegs { rsp: value, ..regs }),
            BaseReg::R8 => after == (UserRegs { r8: value, ..regs }),
            BaseReg::R9 => after == (UserRegs { r9: value, ..regs }),
            BaseReg::R10 => after == (UserRegs { r10: value, ..regs }),
            BaseReg::R11 => after == (UserRegs { r11: value, ..regs }),
            BaseReg::R12 => after == (UserRegs { r12: value, ..regs }),
            BaseReg::R13 => after == (UserRegs { r13: value, ..regs }),
            BaseReg::R14 => after == (UserRegs { r14: value, ..regs }),
            BaseReg::R15 => after == (UserRegs { r15: value, ..regs }),
            BaseReg::Rip => after == (UserRegs { rip: value, ..regs }),
            BaseReg::Rflags => after == (UserRegs { eflags: value, ..regs }),
        },
{
    assert(BaseReg::Rax != base ==> after.get(BaseReg::Rax) == regs.get(BaseReg::Rax));
    assert(BaseReg::Rbx != base ==> after.get(BaseReg::Rbx) == regs.get(BaseReg::Rbx));
    assert(BaseReg::Rcx != base ==> after.get(BaseReg::Rcx) == regs.get(BaseReg::Rcx));
    assert(BaseReg::Rdx != base ==> after.get(BaseReg::Rdx) == regs.get(BaseReg::Rdx));
    assert(BaseReg::Rsi != base ==> after.get(BaseReg::Rsi) == regs.get(BaseReg::Rsi));
    assert(BaseReg::Rdi != base ==> after.get(BaseReg::Rdi) == regs.get(BaseReg::Rdi));
    assert(BaseReg::Rbp != base ==> after.get(BaseReg::Rbp) == regs.get(BaseReg::Rbp));
    assert(BaseReg::Rsp != base ==> after.get(BaseReg::Rsp) == regs.get(BaseReg::Rsp));
    assert(BaseReg::R8 != base ==> after.get(BaseReg::R8) == regs.get(BaseReg::R8));
    assert(BaseReg::R9 != base ==> after.get(BaseReg::R9) == regs.get(BaseReg::R9));
    assert(BaseReg::R10 != base ==> after.get(BaseReg::R10) == regs.get(BaseReg::R10));
    assert(BaseReg::R11 != base ==> after.get(BaseReg::R11) == regs.get(BaseReg::R11));
    assert(BaseReg::R12 != base ==> after.get(BaseReg::R12) == regs.get(BaseReg::R12));
    assert(BaseReg::R13 != base ==> after.get(BaseReg::R13) == regs.get(BaseReg::R13));
    assert(BaseReg::R14 != base ==> after.get(BaseReg::R14) == regs.get(BaseReg::R14));
    assert(BaseReg::R15 != base ==> after.get(BaseReg::R15) == regs.get(BaseReg::R15));
    assert(BaseReg::Rip != base ==> after.get(BaseReg::Rip) == regs.get(BaseReg::Rip));
    assert(BaseReg::Rflags != base ==> after.get(BaseReg::Rflags) == regs.get(BaseReg::Rflags));
    assert(after.rest()[0] == regs.rest()[0]);
    assert(after.rest()[1] == regs.rest()[1]);
    assert(after.rest()[2] == regs.rest()[2]);
    assert(after.rest()[3] == regs.rest()[3]);
    assert(after.rest()[4] == regs.rest()[4]);
    assert(after.rest()[5] == regs.rest()[5]);
    assert(after.rest()[6] == regs.rest()[6]);
    assert(after.rest()[7] == regs.rest()[7]);
    assert(after.rest()[8] == regs.rest()[8]);
}

/// A write under the name of a slice.
proof fn lemma_write(
    regs: UserRegs,
    name: Seq<char>,
    value: u64,
    after: UserRegs,
    result: Result<RegisterValue, DebugError>,
    base: BaseReg,
    slice: Slice,
)
    requires
        write_gives(regs, name, value, after, result),
        alias_name(base, slice) == Some(name),
    ensures
        regs.replaces(base, written(base, slice, regs.get(base), value), after),
{
    lemma_own_name(base, slice);
    assert(names(name, base, slice));
}

/// A read under the name of a slice.
proof fn lemma_read(
    regs: UserRegs,
    name: Seq<char>,
    result: Result<RegisterValue, DebugError>,
    base: BaseReg,
    slice: Slice,
)
    requires
        read_gives(regs, name, result),
        alias_name(base, slice) == Some(name),
    ensures
        result matches Ok(read) && reads_as(read, regs, base, slice),
{
    lemma_own_name(base, slice);
    assert(names(name, base, slice));
}

/// A write under a 64-bit name puts the value into the register, whatever it held, and changes
/// nothing else.
#[verifier::spinoff_prover]
pub proof fn a_64_bit_write_replaces_the_register(
    regs: &mut UserRegs,
    name: &str,
    value: u64,
    result: Result<RegisterValue, DebugError>,
)
    requires
        call_ensures(write_register, (regs, name, value), result),
    ensures
        name@ == "rax"@ ==> *final(regs) == (UserRegs {
            rax: value,
            ..*old(regs)
        }),
        name@ == "rbx"@ ==> *final(regs) == (UserRegs {
            rbx: value,
            ..*old(regs)
        }),
        name@ == "rcx"@ ==> *final(regs) == (UserRegs {
            rcx: value,
            ..*old(regs)
        }),
        name@ == "rdx"@ ==> *final(regs) == (UserRegs {
            rdx: value,
            ..*old(regs)
        }),
        name@ == "rsi"@ ==> *final(regs) == (UserRegs {
            rsi: value,
            ..*old(regs)
        }),
        name@ == "rdi"@ ==> *final(regs) == (UserRegs {
            rdi: value,
            ..*old(regs)
        }),
        name@ == "rbp"@ ==> *final(regs) == (UserRegs {
            rbp: value,
            ..*old(regs)
        }),
        name@ == "rsp"@ ==> *final(regs) == (UserRegs {
            rsp: value,
            ..*old(regs)
        }),
        name@ == "r8"@ ==> *final(regs) == (UserRegs {
            r8: value,
            ..*old(regs)
        }),
        name@ == "r9"@ ==> *final(regs) == (UserRegs {
            r9: value,
            ..*old(regs)
        }),
        name@ == "r10"@ ==> *final(regs) == (UserRegs {
            r10: value,
            ..*old(regs)
        }),
        name@ == "r11"@ ==> *final(regs) == (UserRegs {
            r11: value,
            ..*old(regs)
        }),
        name@ == "r12"@ ==> *final(regs) == (UserRegs {
            r12: value,
            ..*old(regs)
        }),
        name@ == "r13"@ ==> *final(regs) == (UserRegs {
            r13: value,
            ..*old(regs)
        }),
        name@ == "r14"@ ==> *final(regs) == (UserRegs {
            r14: value,
            ..*old(regs)
        }),
        name@ == "r15"@ ==> *final(regs) == (UserRegs {
            r15: value,
            ..*old(regs)
        }),
        name@ == "rip"@ ==> *final(regs) == (UserRegs {
            rip: value,
            ..*old(regs)
        }),
        name@ == "rflags"@ ==> *final(regs) == (UserRegs {
            eflags: value,
            ..*old(regs)
        }),
{
    let before = *old(regs);
    let after = *final(regs);
    if name@ == "rax"@ {
        lemma_write(before, name@, value, after, result, BaseReg::Rax, Slice::Qword);
        lemma_replaced(before, BaseReg::Rax, after.rax, after);
    }
    if name@ == "rbx"@ {
        lemma_write(before, name@, value, after, result, BaseReg::Rbx, Slice::Qword);
        lemma_replaced(before, BaseReg::Rbx, after.rbx, after);
    }
    if name@ == "rcx"@ {
        lemma_write(before, name@, value, after, result, BaseReg::Rcx, Slice::Qword);
        lemma_replaced(before, BaseReg::Rcx, after.rcx, after);
    }
    if name@ == "rdx"@ {
        lemma_write(before, name@, value, after, result, BaseReg::Rdx, Slice::Qword);
        lemma_replaced(before, BaseReg::Rdx, after.rdx, after);
    }
    if name@ == "rsi"@ {
        lemma_write(before, name@, value, after, result, BaseReg::Rsi, Slice::Qword);
        lemma_replaced(before, BaseReg::Rsi, after.rsi, after);
    }
    if name@ == "rdi"@ {
        lemma_write(before, name@, value, after, result, BaseReg::Rdi, Slice::Qword);
        lemma_replaced(before, BaseReg::Rdi, after.rdi, after);
    }
    if name@ == "rbp"@ {
        lemma_write(before, name@, value, after, result, BaseReg::Rbp, Slice::Qword);
        lemma_replaced(before, BaseReg::Rbp, after.rbp, after);
    }
    if name@ == "rsp"@ {
        lemma_write(before, name@, value, after, result, BaseReg::Rsp, Slice::Qword);
        lemma_replaced(before, BaseReg::Rsp, after.rsp, after);
    }
    if name@ == "r8"@ {
        lemma_write(before, name@, value, after, result, BaseReg::R8, Slice::Qword);
        lemma_replaced(before, BaseReg::R8, after.r8, after);
    }
    if name@ == "r9"@ {
        lemma_write(before, name@, value, after, result, BaseReg::R9, Slice::Qword);
        lemma_replaced(before, BaseReg::R9, after.r9, after);
    }
    if name@ == "r10"@ {
        lemma_write(before, name@, value, after, result, BaseReg::R10, Slice::Qword);
        lemma_replaced(before, BaseReg::R10, after.r10, after);
    }
    if name@ == "r11"@ {
        lemma_write(before, name@, value, after, result, BaseReg::R11, Slice::Qword);
        lemma_replaced(before, BaseReg::R11, after.r11, after);
    }
    if name@ == "r12"@ {
        lemma_write(before, name@, value, after, result, BaseReg::R12, Slice::Qword);
        lemma_replaced(before, BaseReg::R12, after.r12, after);
    }
    if name@ == "r13"@ {
        lemma_write(before, name@, value, after, result, BaseReg::R13, Slice::Qword);
        lemma_replaced(before, BaseReg::R13, after.r13, after);
    }
    if name@ == "r14"@ {
        lemma_write(before, name@, value, after, result, BaseReg::R14, Slice::Qword);
        lemma_replaced(before, BaseReg::R14, after.r14, after);
    }
    if name@ == "r15"@ {
        lemma_write(before, name@, value, after, result, BaseReg::R15, Slice::Qword);
        lemma_replaced(before, BaseReg::R15, after.r15, after);
    }
    if name@ == "rip"@ {
        lemma_write(before, name@, value, after, result, BaseReg::Rip, Slice::Qword);
        lemma_replaced(before, BaseReg::Rip, after.rip, after);
    }
    if name@ == "rflags"@ {
        lemma_write(before, name@, value, after, result, BaseReg::Rflags, Slice::Qword);
        lemma_replaced(before, BaseReg::Rflags, after.eflags, after);
    }
}

/// A write under the 32-bit name of a general-purpose register leaves the value modulo `2^32` in the
/// whole register, whatever it held, and changes nothing else.
#[verifier::spinoff_prover]
pub proof fn a_32_bit_write_clears_the_upper_half(
    regs: &mut UserRegs,
    name: &str,
    value: u64,
    result: Result<RegisterValue, DebugError>,
)
    requires
        call_ensures(write_register, (regs, name, value), result),
    ensures
        name@ == "eax"@ ==> *final(regs) == (UserRegs {
            rax: (value % 0x1_0000_0000) as u64,
            ..*old(regs)
        }),
        name@ == "ebx"@ ==> *final(regs) == (UserRegs {
            rbx: (value % 0x1_0000_0000) as u64,
            ..*old(regs)
        }),
        name@ == "ecx"@ ==> *final(regs) == (UserRegs {
            rcx: (value % 0x1_0000_0000) as u64,
            ..*old(regs)
        }),
        name@ == "edx"@ ==> *final(regs) == (UserRegs {
            rdx: (value % 0x1_0000_0000) as u64,
            ..*old(regs)
        }),
        name@ == "esi"@ ==> *final(regs) == (UserRegs {
            rsi: (value % 0x1_0000_0000) as u64,
            ..*old(regs)
        }),
        name@ == "edi"@ ==> *final(regs) == (UserRegs {
            rdi: (value % 0x1_0000_0000) as u64,
            ..*old(regs)
        }),
        name@ == "ebp"@ ==> *final(regs) == (UserRegs {
            rbp: (value % 0x1_0000_0000) as u64,
            ..*old(regs)
        }),
        name@ == "esp"@ ==> *final(regs) == (UserRegs {
            rsp: (value % 0x1_0000_0000) as u64,
            ..*old(regs)
        }),
        name@ == "r8d"@ ==> *final(regs) == (UserRegs {
            r8: (value % 0x1_0000_0000) as u64,
            ..*old(regs)
        }),
        name@ == "r9d"@ ==> *final(regs) == (UserRegs {
            r9: (value % 0x1_0000_0000) as u64,
            ..*old(regs)
        }),
        name@ == "r10d"@ ==> *final(regs) == (UserRegs {
            r10: (value % 0x1_0000_0000) as u64,
            ..*old(regs)
        }),
        name@ == "r11d"@ ==> *final(regs) == (UserRegs {
            r11: (value % 0x1_0000_0000) as u64,
            ..*old(regs)
        }),
        name@ == "r12d"@ ==> *final(regs) == (UserRegs {
            r12: (value % 0x1_0000_0000) as u64,
            ..*old(regs)
        }),
        name@ == "r13d"@ ==> *final(regs) == (UserRegs {
            r13: (value % 0x1_0000_0000) as u64,
            ..*old(regs)
        }),
        name@ == "r14d"@ ==> *final(regs) == (UserRegs {
            r14: (value % 0x1_0000_0000) as u64,
            ..*old(regs)
        }),
        name@ == "r15d"@ ==> *final(regs) == (UserRegs {
            r15: (value % 0x1_0000_0000) as u64,
            ..*old(regs)
        }),
{
    let before = *old(regs);
    let after = *final(regs);
    if name@ == "eax"@ {
        lemma_write(before, name@, value, after, result, BaseReg::Rax, Slice::Dword);
        lemma_replaced(before, BaseReg::Rax, after.rax, after);
    }
    if name@ == "ebx"@ {
        lemma_write(before, name@, value, after, result, BaseReg::Rbx, Slice::Dword);
        lemma_replaced(before, BaseReg::Rbx, after.rbx, after);
    }
    if name@ == "ecx"@ {
        lemma_write(before, name@, value, after, result, BaseReg::Rcx, Slice::Dword);
        lemma_replaced(before, BaseReg::Rcx, after.rcx, after);
    }
    if name@ == "edx"@ {
        lemma_write(before, name@, value, after, result, BaseReg::Rdx, Slice::Dword);
        lemma_replaced(before, BaseReg::Rdx, after.rdx, after);
    }
    if name@ == "esi"@ {
        lemma_write(before, name@, value, after, result, BaseReg::Rsi, Slice::Dword);
        lemma_replaced(before, BaseReg::Rsi, after.rsi, after);
    }
    if name@ == "edi"@ {
        lemma_write(before, name@, value, after, result, BaseReg::Rdi, Slice::Dword);
        lemma_replaced(before, BaseReg::Rdi, after.rdi, after);
    }
    if name@ == "ebp"@ {
        lemma_write(before, name@, value, after, result, BaseReg::Rbp, Slice::Dword);
        lemma_replaced(before, BaseReg::Rbp, after.rbp, after);
    }
    if name@ == "esp"@ {
        lemma_write(before, name@, value, after, result, BaseReg::Rsp, Slice::Dword);
        lemma_replaced(before, BaseReg::Rsp, after.rsp, after);
    }
    if name@ == "r8d"@ {
        lemma_write(before, name@, value, after, result, BaseReg::R8, Slice::Dword);
        lemma_replaced(before, BaseReg::R8, after.r8, after);
    }
    if name@ == "r9d"@ {
        lemma_write(before, name@, value, after, result, BaseReg::R9, Slice::Dword);
        lemma_replaced(before, BaseReg::R9, after.r9, after);
    }
    if name@ == "r10d"@ {
        lemma_write(before, name@, value, after, result, BaseReg::R10, Slice::Dword);
        lemma_replaced(before, BaseReg::R10, after.r10, after);
    }
    if name@ == "r11d"@ {
        lemma_write(before, name@, value, after, result, BaseReg::R11, Slice::Dword);
        lemma_replaced(before, BaseReg::R11, after.r11, after);
    }
    if name@ == "r12d"@ {
        lemma_write(before, name@, value, after, result, BaseReg::R12, Slice::Dword);
        lemma_replaced(before, BaseReg::R12, after.r12, after);
    }
    if name@ == "r13d"@ {
        lemma_write(before, name@, value, after, result, BaseReg::R13, Slice::Dword);
        lemma_replaced(before, BaseReg::R13, after.r13, after);
    }
    if name@ == "r14d"@ {
        lemma_write(before, name@, value, after, result, BaseReg::R14, Slice::Dword);
        lemma_replaced(before, BaseReg::R14, after.r14, after);
    }
    if name@ == "r15d"@ {
        lemma_write(before, name@, value, after, result, BaseReg::R15, Slice::Dword);
        lemma_replaced(before, BaseReg::R15, after.r15, after);
    }
}

/// A write under the 32-bit name of the flags keeps the upper half, and changes nothing else.
#[verifier::spinoff_prover]
pub proof fn a_write_of_eflags_keeps_the_upper_half(
    regs: &mut UserRegs,
    name: &str,
    value: u64,
    result: Result<RegisterValue, DebugError>,
)
    requires
        call_ensures(write_register, (regs, name, value), result),
    ensures
        name@ == "eflags"@ ==> *final(regs) == (UserRegs {
            eflags: (old(regs).eflags - old(regs).eflags % 0x1_0000_0000 + value % 0x1_0000_0000) as u64,
            ..*old(regs)
        }),
{
    let before = *old(regs);
    let after = *final(regs);
    if name@ == "eflags"@ {
        lemma_write(before, name@, value, after, result, BaseReg::Rflags, Slice::Dword);
        lemma_replaced(before, BaseReg::Rflags, after.eflags, after);
    }
}

/// A write under the 16-bit name sets its bits to the low bits of the value, keeps the other bits of
/// the register, and changes nothing else.
#[verifier::spinoff_prover]
pub proof fn a_16_bit_write_keeps_the_other_bits(
    regs: &mut UserRegs,
    name: &str,
    value: u64,
    result: Result<RegisterValue, DebugError>,
)
    requires
        call_ensures(write_register, (regs, name, value), result),
    ensures
        name@ == "ax"@ ==> *final(regs) == (UserRegs {
            rax: (old(regs).rax - old(regs).rax % 0x1_0000 + value % 0x1_0000) as u64,
            ..*old(regs)
        }),
        name@ == "bx"@ ==> *final(regs) == (UserRegs {
            rbx: (old(regs).rbx - old(regs).rbx % 0x1_0000 + value % 0x1_0000) as u64,
            ..*old(regs)
        }),
        name@ == "cx"@ ==> *final(regs) == (UserRegs {
            rcx: (old(regs).rcx - old(regs).rcx % 0x1_0000 + value % 0x1_0000) as u64,
            ..*old(regs)
        }),
        name@ == "dx"@ ==> *final(regs) == (UserRegs {
            rdx: (old(regs).rdx - old(regs).rdx % 0x1_0000 + value % 0x1_0000) as u64,
            ..*old(regs)
        }),
        name@ == "si"@ ==> *final(regs) == (UserRegs {
            rsi: (old(regs).rsi - old(regs).rsi % 0x1_0000 + value % 0x1_0000) as u64,
            ..*old(regs)
        }),
        name@ == "di"@ ==> *final(regs) == (UserRegs {
            rdi: (old(regs).rdi - old(regs).rdi % 0x1_0000 + value % 0x1_0000) as u64,
            ..*old(regs)
        }),
        name@ == "bp"@ ==> *final(regs) == (UserRegs {
            rbp: (old(regs).rbp - old(regs).rbp % 0x1_0000 + value % 0x1_0000) as u64,
            ..*old(regs)
        }),
        name@ == "sp"@ ==> *final(regs) == (UserRegs {
            rsp: (old(regs).rsp - old(regs).rsp % 0x1_0000 + value % 0x1_0000) as u64,
            ..*old(regs)
        }),
        name@ == "r8w"@ ==> *final(regs) == (UserRegs {
            r8: (old(regs).r8 - old(regs).r8 % 0x1_0000 + value % 0x1_0000) as u64,
            ..*old(regs)
        }),
        name@ == "r9w"@ ==> *final(regs) == (UserRegs {
            r9: (old(regs).r9 - old(regs).r9 % 0x1_0000 + value % 0x1_0000) as u64,
            ..*old(regs)
        }),
        name@ == "r10w"@ ==> *final(regs) == (UserRegs {
            r10: (old(regs).r10 - old(regs).r10 % 0x1_0000 + value % 0x1_0000) as u64,
            ..*old(regs)
        }),
        name@ == "r11w"@ ==> *final(regs) == (UserRegs {
            r11: (old(regs).r11 - old(regs).r11 % 0x1_0000 + value % 0x1_0000) as u64,
            ..*old(regs)
        }),
        name@ == "r12w"@ ==> *final(regs) == (UserRegs {
            r12: (old(regs).r12 - old(regs).r12 % 0x1_0000 + value % 0x1_0000) as u64,
            ..*old(regs)
        }),
        name@ == "r13w"@ ==> *final(regs) == (UserRegs {
            r13: (old(regs).r13 - old(regs).r13 % 0x1_0000 + value % 0x1_0000) as u64,
            ..*old(regs)
        }),
        name@ == "r14w"@ ==> *final(regs) == (UserRegs {
            r14: (old(regs).r14 - old(regs).r14 % 0x1_0000 + value % 0x1_0000) as u64,
            ..*old(regs)
        }),
        name@ == "r15w"@ ==> *final(regs) == (UserRegs {
            r15: (old(regs).r15 - old(regs).r15 % 0x1_0000 + value % 0x1_0000) as u64,
            ..*old(regs)
        }),
{
    let before = *old(regs);
    let after = *final(regs);
    if name@ == "ax"@ {
        lemma_write(before, name@, value, after, result, BaseReg::Rax, Slice::Word);
        lemma_replaced(before, BaseReg::Rax, after.rax, after);
    }
    if name@ == "bx"@ {
        lemma_write(before, name@, value, after, result, BaseReg::Rbx, Slice::Word);
        lemma_replaced(before, BaseReg::Rbx, after.rbx, after);
    }
    if name@ == "cx"@ {
        lemma_write(before, name@, value, after, result, BaseReg::Rcx, Slice::Word);
        lemma_replaced(before, BaseReg::Rcx, after.rcx, after);
    }
    if name@ == "dx"@ {
        lemma_write(before, name@, value, after, result, BaseReg::Rdx, Slice::Word);
        lemma_replaced(before, BaseReg::Rdx, after.rdx, after);
    }
    if name@ == "si"@ {
        lemma_write(before, name@, value, after, result, BaseReg::Rsi, Slice::Word);
        lemma_replaced(before, BaseReg::Rsi, after.rsi, after);
    }
    if name@ == "di"@ {
        lemma_write(before, name@, value, after, result, BaseReg::Rdi, Slice::Word);
        lemma_replaced(before, BaseReg::Rdi, after.rdi, after);
    }
    if name@ == "bp"@ {
        lemma_write(before, name@, value, after, result, BaseReg::Rbp, Slice::Word);
        lemma_replaced(before, BaseReg::Rbp, after.rbp, after);
    }
    if name@ == "sp"@ {
        lemma_write(before, name@, value, after, result, BaseReg::Rsp, Slice::Word);
        lemma_replaced(before, BaseReg::Rsp, after.rsp, after);
    }
    if name@ == "r8w"@ {
        lemma_write(before, name@, value, after, result, BaseReg::R8, Slice::Word);
        lemma_replaced(before, BaseReg::R8, after.r8, after);
    }
    if name@ == "r9w"@ {
        lemma_write(before, name@, value, after, result, BaseReg::R9, Slice::Word);
        lemma_replaced(before, BaseReg::R9, after.r9, after);
    }
    if name@ == "r10w"@ {
        lemma_write(before, name@, value, after, result, BaseReg::R10, Slice::Word);
        lemma_replaced(before, BaseReg::R10, after.r10, after);
    }
    if name@ == "r11w"@ {
        lemma_write(before, name@, value, after, result, BaseReg::R11, Slice::Word);
        lemma_replaced(before, BaseReg::R11, after.r11, after);
    }
    if name@ == "r12w"@ {
        lemma_write(before, name@, value, after, result, BaseReg::R12, Slice::Word);
        lemma_replaced(before, BaseReg::R12, after.r12, after);
    }
    if name@ == "r13w"@ {
        lemma_write(before, name@, value, after, result, BaseReg::R13, Slice::Word);
        lemma_replaced(before, BaseReg::R13, after.r13, after);
    }
    if name@ == "r14w"@ {
        lemma_write(before, name@, value, after, result, BaseReg::R14, Slice::Word);
        lemma_replaced(before, BaseReg::R14, after.r14, after);
    }
    if name@ == "r15w"@ {
        lemma_write(before, name@, value, after, result, BaseReg::R15, Slice::Word);
        lemma_replaced(before, BaseReg::R15, after.r15, after);
    }
}

/// A write under the name of a low byte sets its bits to the low bits of the value, keeps the other bits of
/// the register, and changes nothing else.
#[verifier::spinoff_prover]
pub proof fn a_low_byte_write_keeps_the_other_bits(
    regs: &mut UserRegs,
    name: &str,
    value: u64,
    result: Result<RegisterValue, DebugError>,
)
    requires
        call_ensures(write_register, (regs, name, value), result),
    ensures
        name@ == "al"@ ==> *final(regs) == (UserRegs {
            rax: (old(regs).rax - old(regs).rax % 0x100 + value % 0x100) as u64,
            ..*old(regs)
        }),
        name@ == "bl"@ ==> *final(regs) == (UserRegs {
            rbx: (old(regs).rbx - old(regs).rbx % 0x100 + value % 0x100) as u64,
            ..*old(regs)
        }),
        name@ == "cl"@ ==> *final(regs) == (UserRegs {
            rcx: (old(regs).rcx - old(regs).rcx % 0x100 + value % 0x100) as u64,
            ..*old(regs)
        }),
        name@ == "dl"@ ==> *final(regs) == (UserRegs {
            rdx: (old(regs).rdx - old(regs).rdx % 0x100 + value % 0x100) as u64,
            ..*old(regs)
        }),
        name@ == "sil"@ ==> *final(regs) == (UserRegs {
            rsi: (old(regs).rsi - old(regs).rsi % 0x100 + value % 0x100) as u64,
            ..*old(regs)
        }),
        name@ == "dil"@ ==> *final(regs) == (UserRegs {
            rdi: (old(regs).rdi - old(regs).rdi % 0x100 + value % 0x100) as u64,
            ..*old(regs)
        }),
        name@ == "bpl"@ ==> *final(regs) == (UserRegs {
            rbp: (old(regs).rbp - old(regs).rbp % 0x100 + value % 0x100) as u64,
            ..*old(regs)
        }),
        name@ == "spl"@ ==> *final(regs) == (UserRegs {
            rsp: (old(regs).rsp - old(regs).rsp % 0x100 + value % 0x100) as u64,
            ..*old(regs)
        }),
        name@ == "r8b"@ ==> *final(regs) == (UserRegs {
            r8: (old(regs).r8 - old(regs).r8 % 0x100 + value % 0x100) as u64,
            ..*old(regs)
        }),
        name@ == "r9b"@ ==> *final(regs) == (UserRegs {
            r9: (old(regs).r9 - old(regs).r9 % 0x100 + value % 0x100) as u64,
            ..*old(regs)
        }),
        name@ == "r10b"@ ==> *final(regs) == (UserRegs {
            r10: (old(regs).r10 - old(regs).r10 % 0x100 + value % 0x100) as u64,
            ..*old(regs)
        }),
        name@ == "r11b"@ ==> *final(regs) == (UserRegs {
            r11: (old(regs).r11 - old(regs).r11 % 0x100 + value % 0x100) as u64,
            ..*old(regs)
        }),
        name@ == "r12b"@ ==> *final(regs) == (UserRegs {
            r12: (old(regs).r12 - old(regs).r12 % 0x100 + value % 0x100) as u64,
            ..*old(regs)
        }),
        name@ == "r13b"@ ==> *final(regs) == (UserRegs {
            r13: (old(regs).r13 - old(regs).r13 % 0x100 + value % 0x100) as u64,
            ..*old(regs)
        }),
        name@ == "r14b"@ ==> *final(regs) == (UserRegs {
            r14: (old(regs).r14 - old(regs).r14 % 0x100 + value % 0x100) as u64,
            ..*old(regs)
        }),
        name@ == "r15b"@ ==> *final(regs) == (UserRegs {
            r15: (old(regs).r15 - old(regs).r15 % 0x100 + value % 0x100) as u64,
            ..*old(regs)
        }),
{
    let before = *old(regs);
    let after = *final(regs);
    if name@ == "al"@ {
        lemma_write(before, name@, value, after, result, BaseReg::Rax, Slice::LowByte);
        lemma_replaced(before, BaseReg::Rax, after.rax, after);
    }
    if name@ == "bl"@ {
        lemma_write(before, name@, value, after, result, BaseReg::Rbx, Slice::LowByte);
        lemma_replaced(before, BaseReg::Rbx, after.rbx, after);
    }
    if name@ == "cl"@ {
        lemma_write(before, name@, value, after, result, BaseReg::Rcx, Slice::LowByte);
        lemma_replaced(before, BaseReg::Rcx, after.rcx, after);
    }
    if name@ == "dl"@ {
        lemma_write(before, name@, value, after, result, BaseReg::Rdx, Slice::LowByte);
        lemma_replaced(before, BaseReg::Rdx, after.rdx, after);
    }
    if name@ == "sil"@ {
        lemma_write(before, name@, value, after, result, BaseReg::Rsi, Slice::LowByte);
        lemma_replaced(before, BaseReg::Rsi, after.rsi, after);
    }
    if name@ == "dil"@ {
        lemma_write(before, name@, value, after, result, BaseReg::Rdi, Slice::LowByte);
        lemma_replaced(before, BaseReg::Rdi, after.rdi, after);
    }
    if name@ == "bpl"@ {
        lemma_write(before, name@, value, after, result, BaseReg::Rbp, Slice::LowByte);
        lemma_replaced(before, BaseReg::Rbp, after.rbp, after);
    }
    if name@ == "spl"@ {
        lemma_write(before, name@, value, after, result, BaseReg::Rsp, Slice::LowByte);
        lemma_replaced(before, BaseReg::Rsp, after.rsp, after);
    }
    if name@ == "r8b"@ {
        lemma_write(before, name@, value, after, result, BaseReg::R8, Slice::LowByte);
        lemma_replaced(before, BaseReg::R8, after.r8, after);
    }
    if name@ == "r9b"@ {
        lemma_write(before, name@, value, after, result, BaseReg::R9, Slice::LowByte);
        lemma_replaced(before, BaseReg::R9, after.r9, after);
    }
    if name@ == "r10b"@ {
        lemma_write(before, name@, value, after, result, BaseReg::R10, Slice::LowByte);
        lemma_replaced(before, BaseReg::R10, after.r10, after);
    }
    if name@ == "r11b"@ {
        lemma_write(before, name@, value, after, result, BaseReg::R11, Slice::LowByte);
        lemma_replaced(before, BaseReg::R11, after.r11, after);
    }
    if name@ == "r12b"@ {
        lemma_write(before, name@, value, after, result, BaseReg::R12, Slice::LowByte);
        lemma_replaced(before, BaseReg::R12, after.r12, after);
    }
    if name@ == "r13b"@ {
        lemma_write(before, name@, value, after, result, BaseReg::R13, Slice::LowByte);
        lemma_replaced(before, BaseReg::R13, after.r13, after);
    }
    if name@ == "r14b"@ {
        lemma_write(before, name@, value, after, result, BaseReg::R14, Slice::LowByte);
        lemma_replaced(before, BaseReg::R14, after.r14, after);
    }
    if name@ == "r15b"@ {
        lemma_write(before, name@, value, after, result, BaseReg::R15, Slice::LowByte);
        lemma_replaced(before, BaseReg::R15, after.r15, after);
    }
}

/// A write under the name of a high byte sets its bits to the low bits of the value, keeps the other bits of
/// the register, and changes nothing else.
#[verifier::spinoff_prover]
pub proof fn a_high_byte_write_keeps_the_other_bits(
    regs: &mut UserRegs,
    name: &str,
    value: u64,
    result: Result<RegisterValue, DebugError>,
)
    requires
        call_ensures(write_register, (regs, name, value), result),
    ensures
        name@ == "ah"@ ==> *final(regs) == (UserRegs {
            rax: (old(regs).rax - old(regs).rax / 0x100 % 0x100 * 0x100 + value % 0x100 * 0x100) as u64,
            ..*old(regs)
        }),
        name@ == "bh"@ ==> *final(regs) == (UserRegs {
            rbx: (old(regs).rbx - old(regs).rbx / 0x100 % 0x100 * 0x100 + value % 0x100 * 0x100) as u64,
            ..*old(regs)
        }),
        name@ == "ch"@ ==> *final(regs) == (UserRegs {
            rcx: (old(regs).rcx - old(regs).rcx / 0x100 % 0x100 * 0x100 + value % 0x100 * 0x100) as u64,
            ..*old(regs)
        }),
        name@ == "dh"@ ==> *final(regs) == (UserRegs {
            rdx: (old(regs).rdx - old(regs).rdx / 0x100 % 0x100 * 0x100 + value % 0x100 * 0x100) as u64,
            ..*old(regs)
        }),
{
    let before = *old(regs);
    let after = *final(regs);
    if name@ == "ah"@ {
        lemma_write(before, name@, value, after, result, BaseReg::Rax, Slice::HighByte);
        lemma_replaced(before, BaseReg::Rax, after.rax, after);
    }
    if name@ == "bh"@ {
        lemma_write(before, name@, value, after, result, BaseReg::Rbx, Slice::HighByte);
        lemma_replaced(before, BaseReg::Rbx, after.rbx, after);
    }
    if name@ == "ch"@ {
        lemma_write(before, name@, value, after, result, BaseReg::Rcx, Slice::HighByte);
        lemma_replaced(before, BaseReg::Rcx, after.rcx, after);
    }
    if name@ == "dh"@ {
        lemma_write(before, name@, value, after, result, BaseReg::Rdx, Slice::HighByte);
        lemma_replaced(before, BaseReg::Rdx, after.rdx, after);
    }
}

/// A read under a 64-bit name gives the whole register.
#[verifier::spinoff_prover]
pub proof fn a_64_bit_read_gives_the_register(
    regs: &UserRegs,
    name: &str,
    result: Result<RegisterValue, DebugError>,
)
    requires
        call_ensures(read_register, (regs, name), result),
    ensures
        name@ == "rax"@ ==> (result matches Ok(read) && read.name@ == "rax"@ && read.bits == 64
            && read.value == regs.rax),
        name@ == "rbx"@ ==> (result matches Ok(read) && read.name@ == "rbx"@ && read.bits == 64
            && read.value == regs.rbx),
        name@ == "rcx"@ ==> (result matches Ok(read) && read.name@ == "rcx"@ && read.bits == 64
            && read.value == regs.rcx),
        name@ == "rdx"@ ==> (result matches Ok(read) && read.name@ == "rdx"@ && read.bits == 64
            && read.value == regs.rdx),
        name@ == "rsi"@ ==> (result matches Ok(read) && read.name@ == "rsi"@ && read.bits == 64
            && read.value == regs.rsi),
        name@ == "rdi"@ ==> (result matches Ok(read) && read.name@ == "rdi"@ && read.bits == 64
            && read.value == regs.rdi),
        name@ == "rbp"@ ==> (result matches Ok(read) && read.name@ == "rbp"@ && read.bits == 64
            && read.value == regs.rbp),
        name@ == "rsp"@ ==> (result matches Ok(read) && read.name@ == "rsp"@ && read.bits == 64
            && read.value == regs.rsp),
        name@ == "r8"@ ==> (result matches Ok(read) && read.name@ == "r8"@ && read.bits == 64
            && read.value == regs.r8),
        name@ == "r9"@ ==> (result matches Ok(read) && read.name@ == "r9"@ && read.bits == 64
            && read.value == regs.r9),
        name@ == "r10"@ ==> (result matches Ok(read) && read.name@ == "r10"@ && read.bits == 64
            && read.value == regs.r10),
        name@ == "r11"@ ==> (result matches Ok(read) && read.name@ == "r11"@ && read.bits == 64
            && read.value == regs.r11),
        name@ == "r12"@ ==> (result matches Ok(read) && read.name@ == "r12"@ && read.bits == 64
            && read.value == regs.r12),
        name@ == "r13"@ ==> (result matches Ok(read) && read.name@ == "r13"@ && read.bits == 64
            && read.value == regs.r13),
        name@ == "r14"@ ==> (result matches Ok(read) && read.name@ == "r14"@ && read.bits == 64
            && read.value == regs.r14),
        name@ == "r15"@ ==> (result matches Ok(read) && read.name@ == "r15"@ && read.bits == 64
            && read.value == regs.r15),
        name@ == "rip"@ ==> (result matches Ok(read) && read.name@ == "rip"@ && read.bits == 64
            && read.value == regs.rip),
        name@ == "rflags"@ ==> (result matches Ok(read) && read.name@ == "rflags"@ && read.bits == 64
            && read.value == regs.eflags),
{
    if name@ == "rax"@ {
        lemma_read(*regs, name@, result, BaseReg::Rax, Slice::Qword);
    }
    if name@ == "rbx"@ {
        lemma_read(*regs, name@, result, BaseReg::Rbx, Slice::Qword);
    }
    if name@ == "rcx"@ {
        lemma_read(*regs, name@, result, BaseReg::Rcx, Slice::Qword);
    }
    if name@ == "rdx"@ {
        lemma_read(*regs, name@, result, BaseReg::Rdx, Slice::Qword);
    }
    if name@ == "rsi"@ {
        lemma_read(*regs, name@, result, BaseReg::Rsi, Slice::Qword);
    }
    if name@ == "rdi"@ {
        lemma_read(*regs, name@, result, BaseReg::Rdi, Slice::Qword);
    }
    if name@ == "rbp"@ {
        lemma_read(*regs, name@, result, BaseReg::Rbp, Slice::Qword);
    }
    if name@ == "rsp"@ {
        lemma_read(*regs, name@, result, BaseReg::Rsp, Slice::Qword);
    }
    if name@ == "r8"@ {
        lemma_read(*regs, name@, result, BaseReg::R8, Slice::Qword);
    }
    if name@ == "r9"@ {
        lemma_read(*regs, name@, result, BaseReg::R9, Slice::Qword);
    }
    if name@ == "r10"@ {
        lemma_read(*regs, name@, result, BaseReg::R10, Slice::Qword);
    }
    if name@ == "r11"@ {
        lemma_read(*regs, name@, result, BaseReg::R11, Slice::Qword);
    }
    if name@ == "r12"@ {
        lemma_read(*regs, name@, result, BaseReg::R12, Slice::Qword);
    }
    if name@ == "r13"@ {
        lemma_read(*regs, name@, result, BaseReg::R13, Slice::Qword);
    }
    if name@ == "r14"@ {
        lemma_read(*regs, name@, result, BaseReg::R14, Slice::Qword);
    }
    if name@ == "r15"@ {
        lemma_read(*regs, name@, result, BaseReg::R15, Slice::Qword);
    }
    if name@ == "rip"@ {
        lemma_read(*regs, name@, result, BaseReg::Rip, Slice::Qword);
    }
    if name@ == "rflags"@ {
        lemma_read(*regs, name@, result, BaseReg::Rflags, Slice::Qword);
    }
}

/// A read under a 32-bit name gives the lower half of the register.
#[verifier::spinoff_prover]
pub proof fn a_32_bit_read_gives_the_lower_half(
    regs: &UserRegs,
    name: &str,
    result: Result<RegisterValue, DebugError>,
)
    requires
        call_ensures(read_register, (regs, name), result),
    ensures
        name@ == "eax"@ ==> (result matches Ok(read) && read.name@ == "eax"@ && read.bits == 32
            && read.value == regs.rax % 0x1_0000_0000),
        name@ == "ebx"@ ==> (result matches Ok(read) && read.name@ == "ebx"@ && read.bits == 32
            && read.value == regs.rbx % 0x1_0000_0000),
        name@ == "ecx"@ ==> (result matches Ok(read) && read.name@ == "ecx"@ && read.bits == 32
            && read.value == regs.rcx % 0x1_0000_0000),
        name@ == "edx"@ ==> (result matches Ok(read) && read.name@ == "edx"@ && read.bits == 32
            && read.value == regs.rdx % 0x1_0000_0000),
        name@ == "esi"@ ==> (result matches Ok(read) && read.name@ == "esi"@ && read.bits == 32
            && read.value == regs.rsi % 0x1_0000_0000),
        name@ == "edi"@ ==> (result matches Ok(read) && read.name@ == "edi"@ && read.bits == 32
            && read.value == regs.rdi % 0x1_0000_0000),
        name@ == "ebp"@ ==> (result matches Ok(read) && read.name@ == "ebp"@ && read.bits == 32
            && read.value == regs.rbp % 0x1_0000_0000),
        name@ == "esp"@ ==> (result matches Ok(read) && read.name@ == "esp"@ && read.bits == 32
            && read.value == regs.rsp % 0x1_0000_0000),
        name@ == "r8d"@ ==> (result matches Ok(read) && read.name@ == "r8d"@ && read.bits == 32
            && read.value == regs.r8 % 0x1_0000_0000),
        name@ == "r9d"@ ==> (result matches Ok(read) && read.name@ == "r9d"@ && read.bits == 32
            && read.value == regs.r9 % 0x1_0000_0000),
        name@ == "r10d"@ ==> (result matches Ok(read) && read.name@ == "r10d"@ && read.bits == 32
            && read.value == regs.r10 % 0x1_0000_0000),
        name@ == "r11d"@ ==> (result matches Ok(read) && read.name@ == "r11d"@ && read.bits == 32
            && read.value == regs.r11 % 0x1_0000_0000),
        name@ == "r12d"@ ==> (result matches Ok(read) && read.name@ == "r12d"@ && read.bits == 32
            && read.value == regs.r12 % 0x1_0000_0000),
        name@ == "r13d"@ ==> (result matches Ok(read) && read.name@ == "r13d"@ && read.bits == 32
            && read.value == regs.r13 % 0x1_0000_0000),
        name@ == "r14d"@ ==> (result matches Ok(read) && read.name@ == "r14d"@ && read.bits == 32
            && read.value == regs.r14 % 0x1_0000_0000),
        name@ == "r15d"@ ==> (result matches Ok(read) && read.name@ == "r15d"@ && read.bits == 32
            && read.value == regs.r15 % 0x1_0000_0000),
        name@ == "eflags"@ ==> (result matches Ok(read) && read.name@ == "eflags"@ && read.bits == 32
            && read.value == regs.eflags % 0x1_0000_0000),
{
    if name@ == "eax"@ {
        lemma_read(*regs, name@, result, BaseReg::Rax, Slice::Dword);
    }
    if name@ == "ebx"@ {
        lemma_read(*regs, name@, result, BaseReg::Rbx, Slice::Dword);
    }
    if name@ == "ecx"@ {
        lemma_read(*regs, name@, result, BaseReg::Rcx, Slice::Dword);
    }
    if name@ == "edx"@ {
        lemma_read(*regs, name@, result, BaseReg::Rdx, Slice::Dword);
    }
    if name@ == "esi"@ {
        lemma_read(*regs, name@, result, BaseReg::Rsi, Slice::Dword);
    }
    if name@ == "edi"@ {
        lemma_read(*regs, name@, result, BaseReg::Rdi, Slice::Dword);
    }
    if name@ == "ebp"@ {
        lemma_read(*regs, name@, result, BaseReg::Rbp, Slice::Dword);
    }
    if name@ == "esp"@ {
        lemma_read(*regs, name@, result, BaseReg::Rsp, Slice::Dword);
    }
    if name@ == "r8d"@ {
        lemma_read(*regs, name@, result, BaseReg::R8, Slice::Dword);
    }
    if name@ == "r9d"@ {
        lemma_read(*regs, name@, result, BaseReg::R9, Slice::Dword);
    }
    if name@ == "r10d"@ {
        lemma_read(*regs, name@, result, BaseReg::R10, Slice::Dword);
    }
    if name@ == "r11d"@ {
        lemma_read(*regs, name@, result, BaseReg::R11, Slice::Dword);
    }
    if name@ == "r12d"@ {
        lemma_read(*regs, name@, result, BaseReg::R12, Slice::Dword);
    }
    if name@ == "r13d"@ {
        lemma_read(*regs, name@, result, BaseReg::R13, Slice::Dword);
    }
    if name@ == "r14d"@ {
        lemma_read(*regs, name@, result, BaseReg::R14, Slice::Dword);
    }
    if name@ == "r15d"@ {
        lemma_read(*regs, name@, result, BaseReg::R15, Slice::Dword);
    }
    if name@ == "eflags"@ {
        lemma_read(*regs, name@, result, BaseReg::Rflags, Slice::Dword);
    }
}

/// A read under a 16-bit name gives the low word of the register.
#[verifier::spinoff_prover]
pub proof fn a_16_bit_read_gives_the_low_word(
    regs: &UserRegs,
    name: &str,
    result: Result<RegisterValue, DebugError>,
)
    requires
        call_ensures(read_register, (regs, name), result),
    ensures
        name@ == "ax"@ ==> (result matches Ok(read) && read.name@ == "ax"@ && read.bits == 16
            && read.value == regs.rax % 0x1_0000),
        name@ == "bx"@ ==> (result matches Ok(read) && read.name@ == "bx"@ && read.bits == 16
            && read.value == regs.rbx % 0x1_0000),
        name@ == "cx"@ ==> (result matches Ok(read) && read.name@ == "cx"@ && read.bits == 16
            && read.value == regs.rcx % 0x1_0000),
        name@ == "dx"@ ==> (result matches Ok(read) && read.name@ == "dx"@ && read.bits == 16
            && read.value == regs.rdx % 0x1_0000),
        name@ == "si"@ ==> (result matches Ok(read) && read.name@ == "si"@ && read.bits == 16
            && read.value == regs.rsi % 0x1_0000),
        name@ == "di"@ ==> (result matches Ok(read) && read.name@ == "di"@ && read.bits == 16
            && read.value == regs.rdi % 0x1_0000),
        name@ == "bp"@ ==> (result matches Ok(read) && read.name@ == "bp"@ && read.bits == 16
            && read.value == regs.rbp % 0x1_0000),
        name@ == "sp"@ ==> (result matches Ok(read) && read.name@ == "sp"@ && read.bits == 16
            && read.value == regs.rsp % 0x1_0000),
        name@ == "r8w"@ ==> (result matches Ok(read) && read.name@ == "r8w"@ && read.bits == 16
            && read.value == regs.r8 % 0x1_0000),
        name@ == "r9w"@ ==> (result matches Ok(read) && read.name@ == "r9w"@ && read.bits == 16
            && read.value == regs.r9 % 0x1_0000),
        name@ == "r10w"@ ==> (result matches Ok(read) && read.name@ == "r10w"@ && read.bits == 16
            && read.value == regs.r10 % 0x1_0000),
        name@ == "r11w"@ ==> (result matches Ok(read) && read.name@ == "r11w"@ && read.bits == 16
            && read.value == regs.r11 % 0x1_0000),
        name@ == "r12w"@ ==> (result matches Ok(read) && read.name@ == "r12w"@ && read.bits == 16
            && read.value == regs.r12 % 0x1_0000),
        name@ == "r13w"@ ==> (result matches Ok(read) && read.name@ == "r13w"@ && read.bits == 16
            && read.value == regs.r13 % 0x1_0000),
        name@ == "r14w"@ ==> (result matches Ok(read) && read.name@ == "r14w"@ && read.bits == 16
            && read.value == regs.r14 % 0x1_0000),
        name@ == "r15w"@ ==> (result matches Ok(read) && read.name@ == "r15w"@ && read.bits == 16
            && read.value == regs.r15 % 0x1_0000),
{
    if name@ == "ax"@ {
        lemma_read(*regs, name@, result, BaseReg::Rax, Slice::Word);
    }
    if name@ == "bx"@ {
        lemma_read(*regs, name@, result, BaseReg::Rbx, Slice::Word);
    }
    if name@ == "cx"@ {
        lemma_read(*regs, name@, result, BaseReg::Rcx, Slice::Word);
    }
    if name@ == "dx"@ {
        lemma_read(*regs, name@, result, BaseReg::Rdx, Slice::Word);
    }
    if name@ == "si"@ {
        lemma_read(*regs, name@, result, BaseReg::Rsi, Slice::Word);
    }
    if name@ == "di"@ {
        lemma_read(*regs, name@, result, BaseReg::Rdi, Slice::Word);
    }
    if name@ == "bp"@ {
        lemma_read(*regs, name@, result, BaseReg::Rbp, Slice::Word);
    }
    if name@ == "sp"@ {
        lemma_read(*regs, name@, result, BaseReg::Rsp, Slice::Word);
    }
    if name@ == "r8w"@ {
        lemma_read(*regs, name@, result, BaseReg::R8, Slice::Word);
    }
    if name@ == "r9w"@ {
        lemma_read(*regs, name@, result, BaseReg::R9, Slice::Word);
    }
    if name@ == "r10w"@ {
        lemma_read(*regs, name@, result, BaseReg::R10, Slice::Word);
    }
    if name@ == "r11w"@ {
        lemma_read(*regs, name@, result, BaseReg::R11, Slice::Word);
    }
    if name@ == "r12w"@ {
        lemma_read(*regs, name@, result, BaseReg::R12, Slice::Word);
    }
    if name@ == "r13w"@ {
        lemma_read(*regs, name@, result, BaseReg::R13, Slice::Word);
    }
    if name@ == "r14w"@ {
        lemma_read(*regs, name@, result, BaseReg::R14, Slice::Word);
    }
    if name@ == "r15w"@ {
        lemma_read(*regs, name@, result, BaseReg::R15, Slice::Word);
    }
}

/// A read under the name of a low byte gives the lowest byte of the register.
#[verifier::spinoff_prover]
pub proof fn a_low_byte_read_gives_bits_0_to_7(
    regs: &UserRegs,
    name: &str,
    result: Result<RegisterValue, DebugError>,
)
    requires
        call_ensures(read_register, (regs, name), result),
    ensures
        name@ == "al"@ ==> (result matches Ok(read) && read.name@ == "al"@ && read.bits == 8
            && read.value == regs.rax % 0x100),
        name@ == "bl"@ ==> (result matches Ok(read) && read.name@ == "bl"@ && read.bits == 8
            && read.value == regs.rbx % 0x100),
        name@ == "cl"@ ==> (result matches Ok(read) && read.name@ == "cl"@ && read.bits == 8
            && read.value == regs.rcx % 0x100),
        name@ == "dl"@ ==> (result matches Ok(read) && read.name@ == "dl"@ && read.bits == 8
            && read.value == regs.rdx % 0x100),
        name@ == "sil"@ ==> (result matches Ok(read) && read.name@ == "sil"@ && read.bits == 8
            && read.value == regs.rsi % 0x100),
        name@ == "dil"@ ==> (result matches Ok(read) && read.name@ == "dil"@ && read.bits == 8
            && read.value == regs.rdi % 0x100),
        name@ == "bpl"@ ==> (result matches Ok(read) && read.name@ == "bpl"@ && read.bits == 8
            && read.value == regs.rbp % 0x100),
        name@ == "spl"@ ==> (result matches Ok(read) && read.name@ == "spl"@ && read.bits == 8
            && read.value == regs.rsp % 0x100),
        name@ == "r8b"@ ==> (result matches Ok(read) && read.name@ == "r8b"@ && read.bits == 8
            && read.value == regs.r8 % 0x100),
        name@ == "r9b"@ ==> (result matches Ok(read) && read.name@ == "r9b"@ && read.bits == 8
            && read.value == regs.r9 % 0x100),
        name@ == "r10b"@ ==> (result matches Ok(read) && read.name@ == "r10b"@ && read.bits == 8
            && read.value == regs.r10 % 0x100),
        name@ == "r11b"@ ==> (result matches Ok(read) && read.name@ == "r11b"@ && read.bits == 8
            && read.value == regs.r11 % 0x100),
        name@ == "r12b"@ ==> (result matches Ok(read) && read.name@ == "r12b"@ && read.bits == 8
            && read.value == regs.r12 % 0x100),
        name@ == "r13b"@ ==> (result matches Ok(read) && read.name@ == "r13b"@ && read.bits == 8
            && read.value == regs.r13 % 0x100),
        name@ == "r14b"@ ==> (result matches Ok(read) && read.name@ == "r14b"@ && read.bits == 8
            && read.value == regs.r14 % 0x100),
        name@ == "r15b"@ ==> (result matches Ok(read) && read.name@ == "r15b"@ && read.bits == 8
            && read.value == regs.r15 % 0x100),
{
    if name@ == "al"@ {
        lemma_read(*regs, name@, result, BaseReg::Rax, Slice::LowByte);
    }
    if name@ == "bl"@ {
        lemma_read(*regs, name@, result, BaseReg::Rbx, Slice::LowByte);
    }
    if name@ == "cl"@ {
        lemma_read(*regs, name@, result, BaseReg::Rcx, Slice::LowByte);
    }
    if name@ == "dl"@ {
        lemma_read(*regs, name@, result, BaseReg::Rdx, Slice::LowByte);
    }
    if name@ == "sil"@ {
        lemma_read(*regs, name@, result, BaseReg::Rsi, Slice::LowByte);
    }
    if name@ == "dil"@ {
        lemma_read(*regs, name@, result, BaseReg::Rdi, Slice::LowByte);
    }
    if name@ == "bpl"@ {
        lemma_read(*regs, name@, result, BaseReg::Rbp, Slice::LowByte);
    }
    if name@ == "spl"@ {
        lemma_read(*regs, name@, result, BaseReg::Rsp, Slice::LowByte);
    }
    if name@ == "r8b"@ {
        lemma_read(*regs, name@, result, BaseReg::R8, Slice::LowByte);
    }
    if name@ == "r9b"@ {
        lemma_read(*regs, name@, result, BaseReg::R9, Slice::LowByte);
    }
    if name@ == "r10b"@ {
        lemma_read(*regs, name@, result, BaseReg::R10, Slice::LowByte);
    }
    if name@ == "r11b"@ {
        lemma_read(*regs, name@, result, BaseReg::R11, Slice::LowByte);
    }
    if name@ == "r12b"@ {
        lemma_read(*regs, name@, result, BaseReg::R12, Slice::LowByte);
    }
    if name@ == "r13b"@ {
        lemma_read(*regs, name@, result, BaseReg::R13, Slice::LowByte);
    }
    if name@ == "r14b"@ {
        lemma_read(*regs, name@, result, BaseReg::R14, Slice::LowByte);
    }
    if name@ == "r15b"@ {
        lemma_read(*regs, name@, result, BaseReg::R15, Slice::LowByte);
    }
}

/// A read under the name of a high byte gives the byte above the lowest one.
#[verifier::spinoff_prover]
pub proof fn a_high_byte_read_gives_bits_8_to_15(
    regs: &UserRegs,
    name: &str,
    result: Result<RegisterValue, DebugError>,
)
    requires
        call_ensures(read_register, (regs, name), result),
    ensures
        name@ == "ah"@ ==> (result matches Ok(read) && read.name@ == "ah"@ && read.bits == 8
            && read.value == regs.rax / 0x100 % 0x100),
        name@ == "bh"@ ==> (result matches Ok(read) && read.name@ == "bh"@ && read.bits == 8
            && read.value == regs.rbx / 0x100 % 0x100),
        name@ == "ch"@ ==> (result matches Ok(read) && read.name@ == "ch"@ && read.bits == 8
            && read.value == regs.rcx / 0x100 % 0x100),
        name@ == "dh"@ ==> (result matches Ok(read) && read.name@ == "dh"@ && read.bits == 8
            && read.value == regs.rdx / 0x100 % 0x100),
{
    if name@ == "ah"@ {
        lemma_read(*regs, name@, result, BaseReg::Rax, Slice::HighByte);
    }
    if name@ == "bh"@ {
        lemma_read(*regs, name@, result, BaseReg::Rbx, Slice::HighByte);
    }
    if name@ == "ch"@ {
        lemma_read(*regs, name@, result, BaseReg::Rcx, Slice::HighByte);
    }
    if name@ == "dh"@ {
        lemma_read(*regs, name@, result, BaseReg::Rdx, Slice::HighByte);
    }
}

/// The list of the canonical registers shows each of them in full, in this order.
pub proof fn the_list_shows_every_register(regs: &UserRegs, values: Vec<RegisterValue>)
    requires
        call_ensures(read_all_gpr, (regs,), values),
    ensures
        values@.len() == 18,
        forall|i: int| 0 <= i < 18 ==> (#[trigger] values@[i]).bits == 64,
        values@[0].name@ == "rax"@ && values@[0].value == regs.rax,
        values@[1].name@ == "rbx"@ && values@[1].value == regs.rbx,
        values@[2].name@ == "rcx"@ && values@[2].value == regs.rcx,
        values@[3].name@ == "rdx"@ && values@[3].value == regs.rdx,
        values@[4].name@ == "rsi"@ && values@[4].value == regs.rsi,
        values@[5].name@ == "rdi"@ && values@[5].value == regs.rdi,
        values@[6].name@ == "rbp"@ && values@[6].value == regs.rbp,
        values@[7].name@ == "rsp"@ && values@[7].value == regs.rsp,
        values@[8].name@ == "r8"@ && values@[8].value == regs.r8,
        values@[9].name@ == "r9"@ && values@[9].value == regs.r9,
        values@[10].name@ == "r10"@ && values@[10].value == regs.r10,
        values@[11].name@ == "r11"@ && values@[11].value == regs.r11,
        values@[12].name@ == "r12"@ && values@[12].value == regs.r12,
        values@[13].name@ == "r13"@ && values@[13].value == regs.r13,
        values@[14].name@ == "r14"@ && values@[14].value == regs.r14,
        values@[15].name@ == "r15"@ && values@[15].value == regs.r15,
        values@[16].name@ == "rip"@ && values@[16].value == regs.rip,
        values@[17].name@ == "rflags"@ && values@[17].value == regs.eflags,
{
    assert(reads_as(values@[0], *regs, crate::registers::canonical_order()[0], Slice::Qword));
    assert(reads_as(values@[1], *regs, crate::registers::canonical_order()[1], Slice::Qword));
    assert(reads_as(values@[2], *regs, crate::registers::canonical_order()[2], Slice::Qword));
    assert(reads_as(values@[3], *regs, crate::registers::canonical_order()[3], Slice::Qword));
    assert(reads_as(values@[4], *regs, crate::registers::canonical_order()[4], Slice::Qword));
    assert(reads_as(values@[5], *regs, crate::registers::canonical_order()[5], Slice::Qword));
    assert(reads_as(values@[6], *regs, crate::registers::canonical_order()[6], Slice::Qword));
    assert(reads_as(values@[7], *regs, crate::registers::canonical_order()[7], Slice::Qword));
    assert(reads_as(values@[8], *regs, crate::registers::canonical_order()[8], Slice::Qword));
    assert(reads_as(values@[9], *regs, crate::registers::canonical_order()[9], Slice::Qword));
    assert(reads_as(values@[10], *regs, crate::registers::canonical_order()[10], Slice::Qword));
    assert(reads_as(values@[11], *regs, crate::registers::canonical_order()[11], Slice::Qword));
    assert(reads_as(values@[12], *regs, crate::registers::canonical_order()[12], Slice::Qword));
    assert(reads_as(values@[13], *regs, crate::registers::canonical_order()[13], Slice::Qword));
    assert(reads_as(values@[14], *regs, crate::registers::canonical_order()[14], Slice::Qword));
    assert(reads_as(values@[15], *regs, crate::registers::canonical_order()[15], Slice::Qword));
    assert(reads_as(values@[16], *regs, crate::registers::canonical_order()[16], Slice::Qword));
    assert(reads_as(values@[17], *regs, crate::registers::canonical_order()[17], Slice::Qword));
}

/// What a write gives is what a read under the same name gives afterwards, and that is the value
/// cut to the width of the name.
pub proof fn a_read_gives_back_the_write(
    regs: &mut UserRegs,
    name: &str,
    value: u64,
    wrote: Result<RegisterValue, DebugError>,
    read: Result<RegisterValue, DebugError>,
)
    requires
        call_ensures(write_register, (regs, name, value), wrote),
        call_ensures(read_register, (&*final(regs), name), read),
    ensures
        wrote is Ok == read is Ok,
        wrote matches Ok(updated) ==> {
            let found = read->Ok_0;
            &&& found.name@ == updated.name@
            &&& found.bits == updated.bits
            &&& found.value == updated.value
        },
        wrote matches Ok(updated) ==> {
            &&& updated.bits == 64 ==> updated.value == value
            &&& updated.bits == 32 ==> updated.value == value % 0x1_0000_0000
            &&& updated.bits == 16 ==> updated.value == value % 0x1_0000
            &&& updated.bits == 8 ==> updated.value == value % 0x100
            &&& updated.bits == 64 || updated.bits == 32 || updated.bits == 16 || updated.bits == 8
        },
{
    if names_nothing(name@) {
    } else {
        let (base, slice) = choose|base: BaseReg, slice: Slice| #[trigger]
            names(name@, base, slice);
        crate::registers::read_gives_back_the_write(
            *old(regs),
            *final(regs),
            base,
            slice,
            value,
            wrote->Ok_0,
        );
        vstd::arithmetic::power2::lemma2_to64();
    }
}

/// A name that is refused is given back as it was written, and nothing is changed. A name that is
/// taken is that of the register, up to the case of its ASCII letters.
pub proof fn a_name_is_taken_or_given_back(
    regs: &mut UserRegs,
    name: &str,
    value: u64,
    result: Result<RegisterValue, DebugError>,
)
    requires
        call_ensures(write_register, (regs, name, value), result),
    ensures
        match result {
            Err(error) => {
                &&& error matches DebugError::UnknownRegister(unknown) && unknown@ == name@
                &&& *final(regs) == *old(regs)
            },
            Ok(updated) => {
                &&& updated.name@.len() == name@.len()
                &&& forall|i: int|
                    0 <= i < name@.len() ==> (#[trigger] updated.name@[i] == name@[i] || ('A'
                        <= name@[i] <= 'Z' && updated.name@[i] as int == name@[i] as int + 32))
            },
        },
{
    if !names_nothing(name@) {
        let (base, slice) = choose|base: BaseReg, slice: Slice| #[trigger]
            names(name@, base, slice);
        let updated = result->Ok_0;
        assert(updated.name@ == lowercase(name@));
        assert forall|i: int| 0 <= i < name@.len() implies (#[trigger] updated.name@[i] == name@[i]
            || ('A' <= name@[i] <= 'Z' && updated.name@[i] as int == name@[i] as int + 32)) by {
            assert(updated.name@[i] == lower_char(name@[i]));
        }
    }
}

/// Two names that differ only in the case of ASCII letters name the same: a read under either gives
/// the same.
pub proof fn the_case_of_a_name_does_not_matter(
    regs: &UserRegs,
    name: &str,
    other: &str,
    one: Result<RegisterValue, DebugError>,
    two: Result<RegisterValue, DebugError>,
)
    requires
        call_ensures(read_register, (regs, name), one),
        call_ensures(read_register, (regs, other), two),
        name@.len() == other@.len(),
        forall|i: int|
            0 <= i < name@.len() ==> (#[trigger] name@[i] == other@[i] || ('A' <= name@[i] <= 'Z'
                && other@[i] as int == name@[i] as int + 32)),
    ensures
        one is Ok == two is Ok,
        one matches Ok(value) ==> {
            let same = two->Ok_0;
            value.name@ == same.name@ && value.bits == same.bits && value.value == same.value
        },
{
    assert forall|i: int| 0 <= i < name@.len() implies lowercase(name@)[i] == lowercase(other@)[i] by {
        assert(name@[i] == other@[i] || other@[i] as int == name@[i] as int + 32);
    }
    assert(lowercase(name@) =~= lowercase(other@));
    if names_nothing(name@) {
        assert forall|base: BaseReg, slice: Slice| !#[trigger] names(other@, base, slice) by {
            assert(!names(name@, base, slice));
        }
    } else {
        let (base, slice) = choose|base: BaseReg, slice: Slice| #[trigger]
            names(name@, base, slice);
        assert(names(other@, base, slice));
    }
}

/// There are no other names: a read that succeeds gives one of these, with its width.
#[verifier::spinoff_prover]
pub proof fn there_are_no_other_registers(
    regs: &UserRegs,
    name: &str,
    result: Result<RegisterValue, DebugError>,
)
    requires
        call_ensures(read_register, (regs, name), result),
        result is Ok,
    ensures
        ({
            let read = result->Ok_0;
            ||| read.name@ == "rax"@ && read.bits == 64
            ||| read.name@ == "rbx"@ && read.bits == 64
            ||| read.name@ == "rcx"@ && read.bits == 64
            ||| read.name@ == "rdx"@ && read.bits == 64
            ||| read.name@ == "rsi"@ && read.bits == 64
            ||| read.name@ == "rdi"@ && read.bits == 64
            ||| read.name@ == "rbp"@ && read.bits == 64
            ||| read.name@ == "rsp"@ && read.bits == 64
            ||| read.name@ == "r8"@ && read.bits == 64
            ||| read.name@ == "r9"@ && read.bits == 64
            ||| read.name@ == "r10"@ && read.bits == 64
            ||| read.name@ == "r11"@ && read.bits == 64
            ||| read.name@ == "r12"@ && read.bits == 64
            ||| read.name@ == "r13"@ && read.bits == 64
            ||| read.name@ == "r14"@ && read.bits == 64
            ||| read.name@ == "r15"@ && read.bits == 64
            ||| read.name@ == "rip"@ && read.bits == 64
            ||| read.name@ == "rflags"@ && read.bits == 64
            ||| read.name@ == "eax"@ && read.bits == 32
            ||| read.name@ == "ebx"@ && read.bits == 32
            ||| read.name@ == "ecx"@ && read.bits == 32
            ||| read.name@ == "edx"@ && read.bits == 32
            ||| read.name@ == "esi"@ && read.bits == 32
            ||| read.name@ == "edi"@ && read.bits == 32
            ||| read.name@ == "ebp"@ && read.bits == 32
            ||| read.name@ == "esp"@ && read.bits == 32
            ||| read.name@ == "r8d"@ && read.bits == 32
            ||| read.name@ == "r9d"@ && read.bits == 32
            ||| read.name@ == "r10d"@ && read.bits == 32
            ||| read.name@ == "r11d"@ && read.bits == 32
            ||| read.name@ == "r12d"@ && read.bits == 32
            ||| read.name@ == "r13d"@ && read.bits == 32
            ||| read.name@ == "r14d"@ && read.bits == 32
            ||| read.name@ == "r15d"@ && read.bits == 32
            ||| read.name@ == "ax"@ && read.bits == 16
            ||| read.name@ == "bx"@ && read.bits == 16
            ||| read.name@ == "cx"@ && read.bits == 16
            ||| read.name@ == "dx"@ && read.bits == 16
            ||| read.name@ == "si"@ && read.bits == 16
            ||| read.name@ == "di"@ && read.bits == 16
            ||| read.name@ == "bp"@ && read.bits == 16
            ||| read.name@ == "sp"@ && read.bits == 16
            ||| read.name@ == "r8w"@ && read.bits == 16
            ||| read.name@ == "r9w"@ && read.bits == 16
            ||| read.name@ == "r10w"@ && read.bits == 16
            ||| read.name@ == "r11w"@ && read.bits == 16
            ||| read.name@ == "r12w"@ && read.bits == 16
            ||| read.name@ == "r13w"@ && read.bits == 16
            ||| read.name@ == "r14w"@ && read.bits == 16
            ||| read.name@ == "r15w"@ && read.bits == 16
            ||| read.name@ == "al"@ && read.bits == 8
            ||| read.name@ == "bl"@ && read.bits == 8
            ||| read.name@ == "cl"@ && read.bits == 8
            ||| read.name@ == "dl"@ && read.bits == 8
            ||| read.name@ == "sil"@ && read.bits == 8
            ||| read.name@ == "dil"@ && read.bits == 8
            ||| read.name@ == "bpl"@ && read.bits == 8
            ||| read.name@ == "spl"@ && read.bits == 8
            ||| read.name@ == "r8b"@ && read.bits == 8
            ||| read.name@ == "r9b"@ && read.bits == 8
            ||| read.name@ == "r10b"@ && read.bits == 8
            ||| read.name@ == "r11b"@ && read.bits == 8
            ||| read.name@ == "r12b"@ && read.bits == 8
            ||| read.name@ == "r13b"@ && read.bits == 8
            ||| read.name@ == "r14b"@ && read.bits == 8
            ||| read.name@ == "r15b"@ && read.bits == 8
            ||| read.name@ == "ah"@ && read.bits == 8
            ||| read.name@ == "bh"@ && read.bits == 8
            ||| read.name@ == "ch"@ && read.bits == 8
            ||| read.name@ == "dh"@ && read.bits == 8
            ||| read.name@ == "eflags"@ && read.bits == 32
        }),
{
    let (base, slice) = choose|base: BaseReg, slice: Slice| #[trigger] names(name@, base, slice);
    assert(names(name@, base, slice));
    assert(reads_as(result->Ok_0, *regs, base, slice));
    match base {
        BaseReg::Rax => match slice {
            Slice::Qword => {},
            Slice::Dword => {},
            Slice::Word => {},
            Slice::LowByte => {},
            Slice::HighByte => {},
        },
        BaseReg::Rbx => match slice {
            Slice::Qword => {},
            Slice::Dword => {},
            Slice::Word => {},
            Slice::LowByte => {},
            Slice::HighByte => {},
        },
        BaseReg::Rcx => match slice {
            Slice::Qword => {},
            Slice::Dword => {},
            Slice::Word => {},
            Slice::LowByte => {},
            Slice::HighByte => {},
        },
        BaseReg::Rdx => match slice {
            Slice::Qword => {},
            Slice::Dword => {},
            Slice::Word => {},
            Slice::LowByte => {},
            Slice::HighByte => {},
        },
        BaseReg::Rsi => match slice {
            Slice::Qword => {},
            Slice::Dword => {},
            Slice::Word => {},
            Slice::LowByte => {},
            Slice::HighByte => {},
        },
        BaseReg::Rdi => match slice {
            Slice::Qword => {},
            Slice::Dword => {},
            Slice::Word => {},
            Slice::LowByte => {},
            Slice::HighByte => {},
        },
        BaseReg::Rbp => match slice {
            Slice::Qword => {},
            Slice::Dword => {},
            Slice::Word => {},
            Slice::LowByte => {},
            Slice::HighByte => {},
        },
        BaseReg::Rsp => match slice {
            Slice::Qword => {},
            Slice::Dword => {},
            Slice::Word => {},
            Slice::LowByte => {},
            Slice::HighByte => {},
        },
        BaseReg::R8 => match slice {
            Slice::Qword => {},
            Slice::Dword => {},
            Slice::Word => {},
            Slice::LowByte => {},
            Slice::HighByte => {},
        },
        BaseReg::R9 => match slice {
            Slice::Qword => {},
            Slice::Dword => {},
            Slice::Word => {},
            Slice::LowByte => {},
            Slice::HighByte => {},
        },
        BaseReg::R10 => match slice {
            Slice::Qword => {},
            Slice::Dword => {},
            Slice::Word => {},
            Slice::LowByte => {},
            Slice::HighByte => {},
        },
        BaseReg::R11 => match slice {
            Slice::Qword => {},
            Slice::Dword => {},
            Slice::Word => {},
            Slice::LowByte => {},
            Slice::HighByte => {},
        },
        BaseReg::R12 => match slice {
            Slice::Qword => {},
            Slice::Dword => {},
            Slice::Word => {},
            Slice::LowByte => {},
            Slice::HighByte => {},
        },
        BaseReg::R13 => match slice {
            Slice::Qword => {},
            Slice::Dword => {},
            Slice::Word => {},
            Slice::LowByte => {},
            Slice::HighByte => {},
        },
        BaseReg::R14 => match slice {
            Slice::Qword => {},
            Slice::Dword => {},
            Slice::Word => {},
            Slice::LowByte => {},
            Slice::HighByte => {},
        },
        BaseReg::R15 => match slice {
            Slice::Qword => {},
            Slice::Dword => {},
            Slice::Word => {},
            Slice::LowByte => {},
            Slice::HighByte => {},
        },
        BaseReg::Rip => match slice {
            Slice::Qword => {},
            Slice::Dword => {},
            Slice::Word => {},
            Slice::LowByte => {},
            Slice::HighByte => {},
        },
        BaseReg::Rflags => match slice {
            Slice::Qword => {},
            Slice::Dword => {},
            Slice::Word => {},
            Slice::LowByte => {},
            Slice::HighByte => {},
        },
    }
}

/// The base registers are the fields of the frame that they are named after.
pub proof fn base_registers_are_fields(regs: &UserRegs, base: BaseReg, value: u64)
    requires
        call_ensures(base_value, (regs, base), value),
    ensures
        base == BaseReg::Rax ==> value == regs.rax,
        base == BaseReg::Rbx ==> value == regs.rbx,
        base == BaseReg::Rcx ==> value == regs.rcx,
        base == BaseReg::Rdx ==> value == regs.rdx,
        base == BaseReg::Rsi ==> value == regs.rsi,
        base == BaseReg::Rdi ==> value == regs.rdi,
        base == BaseReg::Rbp ==> value == regs.rbp,
        base == BaseReg::Rsp ==> value == regs.rsp,
        base == BaseReg::R8 ==> value == regs.r8,
        base == BaseReg::R9 ==> value == regs.r9,
        base == BaseReg::R10 ==> value == regs.r10,
        base == BaseReg::R11 ==> value == regs.r11,
        base == BaseReg::R12 ==> value == regs.r12,
        base == BaseReg::R13 ==> value == regs.r13,
        base == BaseReg::R14 ==> value == regs.r14,
        base == BaseReg::R15 ==> value == regs.r15,
        base == BaseReg::Rip ==> value == regs.rip,
        base == BaseReg::Rflags ==> value == regs.eflags,
{
}

/// To set a base register is to set the field of the frame that it is named after, and no other.
pub proof fn setting_a_base_register_sets_its_field(regs: &mut UserRegs, base: BaseReg, value: u64)
    requires
        call_ensures(set_base_value, (regs, base, value), ()),
    ensures
        base == BaseReg::Rax ==> *final(regs) == (UserRegs { rax: value, ..*old(regs) }),
        base == BaseReg::Rbx ==> *final(regs) == (UserRegs { rbx: value, ..*old(regs) }),
        base == BaseReg::Rcx ==> *final(regs) == (UserRegs { rcx: value, ..*old(regs) }),
        base == BaseReg::Rdx ==> *final(regs) == (UserRegs { rdx: value, ..*old(regs) }),
        base == BaseReg::Rsi ==> *final(regs) == (UserRegs { rsi: value, ..*old(regs) }),
        base == BaseReg::Rdi ==> *final(regs) == (UserRegs { rdi: value, ..*old(regs) }),
        base == BaseReg::Rbp ==> *final(regs) == (UserRegs { rbp: value, ..*old(regs) }),
        base == BaseReg::Rsp ==> *final(regs) == (UserRegs { rsp: value, ..*old(regs) }),
        base == BaseReg::R8 ==> *final(regs) == (UserRegs { r8: value, ..*old(regs) }),
        base == BaseReg::R9 ==> *final(regs) == (UserRegs { r9: value, ..*old(regs) }),
        base == BaseReg::R10 ==> *final(regs) == (UserRegs { r10: value, ..*old(regs) }),
        base == BaseReg::R11 ==> *final(regs) == (UserRegs { r11: value, ..*old(regs) }),
        base == BaseReg::R12 ==> *final(regs) == (UserRegs { r12: value, ..*old(regs) }),
        base == BaseReg::R13 ==> *final(regs) == (UserRegs { r13: value, ..*old(regs) }),
        base == BaseReg::R14 ==> *final(regs) == (UserRegs { r14: value, ..*old(regs) }),
        base == BaseReg::R15 ==> *final(regs) == (UserRegs { r15: value, ..*old(regs) }),
        base == BaseReg::Rip ==> *final(regs) == (UserRegs { rip: value, ..*old(regs) }),
        base == BaseReg::Rflags ==> *final(regs) == (UserRegs { eflags: value, ..*old(regs) }),
{
    lemma_replaced(*old(regs), base, value, *final(regs));
}

/// The entry of the name of a slice.
proof fn lemma_entry(name: &str, result: Option<RegisterSpec>, base: BaseReg, slice: Slice)
    requires
        call_ensures(spec_by_name, (name,), result),
        alias_name(base, slice) == Some(name@),
    ensures
        result matches Some(entry) && entry.describes(base, slice),
{
    lemma_own_name(base, slice);
    assert(names(name@, base, slice));
}

/// The entry of a 64 bit name says which bits of which register it stands for, and whether a
/// write clears the bits above them.
#[verifier::spinoff_prover]
pub proof fn the_entry_of_a_64_bit_name(name: &str, result: Option<RegisterSpec>)
    requires
        call_ensures(spec_by_name, (name,), result),
    ensures
        name@ == "rax"@ ==> (result matches Some(entry) && entry.name@ == "rax"@ && entry.base
            == BaseReg::Rax && entry.bits == 64 && entry.lsb == 0 && entry.zero_extend_64 == false),
        name@ == "rbx"@ ==> (result matches Some(entry) && entry.name@ == "rbx"@ && entry.base
            == BaseReg::Rbx && entry.bits == 64 && entry.lsb == 0 && entry.zero_extend_64 == false),
        name@ == "rcx"@ ==> (result matches Some(entry) && entry.name@ == "rcx"@ && entry.base
            == BaseReg::Rcx && entry.bits == 64 && entry.lsb == 0 && entry.zero_extend_64 == false),
        name@ == "rdx"@ ==> (result matches Some(entry) && entry.name@ == "rdx"@ && entry.base
            == BaseReg::Rdx && entry.bits == 64 && entry.lsb == 0 && entry.zero_extend_64 == false),
        name@ == "rsi"@ ==> (result matches Some(entry) && entry.name@ == "rsi"@ && entry.base
            == BaseReg::Rsi && entry.bits == 64 && entry.lsb == 0 && entry.zero_extend_64 == false),
        name@ == "rdi"@ ==> (result matches Some(entry) && entry.name@ == "rdi"@ && entry.base
            == BaseReg::Rdi && entry.bits == 64 && entry.lsb == 0 && entry.zero_extend_64 == false),
        name@ == "rbp"@ ==> (result matches Some(entry) && entry.name@ == "rbp"@ && entry.base
            == BaseReg::Rbp && entry.bits == 64 && entry.lsb == 0 && entry.zero_extend_64 == false),
        name@ == "rsp"@ ==> (result matches Some(entry) && entry.name@ == "rsp"@ && entry.base
            == BaseReg::Rsp && entry.bits == 64 && entry.lsb == 0 && entry.zero_extend_64 == false),
        name@ == "r8"@ ==> (result matches Some(entry) && entry.name@ == "r8"@ && entry.base
            == BaseReg::R8 && entry.bits == 64 && entry.lsb == 0 && entry.zero_extend_64 == false),
        name@ == "r9"@ ==> (result matches Some(entry) && entry.name@ == "r9"@ && entry.base
            == BaseReg::R9 && entry.bits == 64 && entry.lsb == 0 && entry.zero_extend_64 == false),
        name@ == "r10"@ ==> (result matches Some(entry) && entry.name@ == "r10"@ && entry.base
            == BaseReg::R10 && entry.bits == 64 && entry.lsb == 0 && entry.zero_extend_64 == false),
        name@ == "r11"@ ==> (result matches Some(entry) && entry.name@ == "r11"@ && entry.base
            == BaseReg::R11 && entry.bits == 64 && entry.lsb == 0 && entry.zero_extend_64 == false),
        name@ == "r12"@ ==> (result matches Some(entry) && entry.name@ == "r12"@ && entry.base
            == BaseReg::R12 && entry.bits == 64 && entry.lsb == 0 && entry.zero_extend_64 == false),
        name@ == "r13"@ ==> (result matches Some(entry) && entry.name@ == "r13"@ && entry.base
            == BaseReg::R13 && entry.bits == 64 && entry.lsb == 0 && entry.zero_extend_64 == false),
        name@ == "r14"@ ==> (result matches Some(entry) && entry.name@ == "r14"@ && entry.base
            == BaseReg::R14 && entry.bits == 64 && entry.lsb == 0 && entry.zero_extend_64 == false),
        name@ == "r15"@ ==> (result matches Some(entry) && entry.name@ == "r15"@ && entry.base
            == BaseReg::R15 && entry.bits == 64 && entry.lsb == 0 && entry.zero_extend_64 == false),
        name@ == "rip"@ ==> (result matches Some(entry) && entry.name@ == "rip"@ && entry.base
            == BaseReg::Rip && entry.bits == 64 && entry.lsb == 0 && entry.zero_extend_64 == false),
        name@ == "rflags"@ ==> (result matches Some(entry) && entry.name@ == "rflags"@ && entry.base
            == BaseReg::Rflags && entry.bits == 64 && entry.lsb == 0 && entry.zero_extend_64 == false),
{
    if name@ == "rax"@ {
        lemma_entry(name, result, BaseReg::Rax, Slice::Qword);
    }
    if name@ == "rbx"@ {
        lemma_entry(name, result, BaseReg::Rbx, Slice::Qword);
    }
    if name@ == "rcx"@ {
        lemma_entry(name, result, BaseReg::Rcx, Slice::Qword);
    }
    if name@ == "rdx"@ {
        lemma_entry(name, result, BaseReg::Rdx, Slice::Qword);
    }
    if name@ == "rsi"@ {
        lemma_entry(name, result, BaseReg::Rsi, Slice::Qword);
    }
    if name@ == "rdi"@ {
        lemma_entry(name, result, BaseReg::Rdi, Slice::Qword);
    }
    if name@ == "rbp"@ {
        lemma_entry(name, result, BaseReg::Rbp, Slice::Qword);
    }
    if name@ == "rsp"@ {
        lemma_entry(name, result, BaseReg::Rsp, Slice::Qword);
    }
    if name@ == "r8"@ {
        lemma_entry(name, result, BaseReg::R8, Slice::Qword);
    }
    if name@ == "r9"@ {
        lemma_entry(name, result, BaseReg::R9, Slice::Qword);
    }
    if name@ == "r10"@ {
        lemma_entry(name, result, BaseReg::R10, Slice::Qword);
    }
    if name@ == "r11"@ {
        lemma_entry(name, result, BaseReg::R11, Slice::Qword);
    }
    if name@ == "r12"@ {
        lemma_entry(name, result, BaseReg::R12, Slice::Qword);
    }
    if name@ == "r13"@ {
        lemma_entry(name, result, BaseReg::R13, Slice::Qword);
    }
    if name@ == "r14"@ {
        lemma_entry(name, result, BaseReg::R14, Slice::Qword);
    }
    if name@ == "r15"@ {
        lemma_entry(name, result, BaseReg::R15, Slice::Qword);
    }
    if name@ == "rip"@ {
        lemma_entry(name, result, BaseReg::Rip, Slice::Qword);
    }
    if name@ == "rflags"@ {
        lemma_entry(name, result, BaseReg::Rflags, Slice::Qword);
    }
}

/// The entry of a 32 bit name says which bits of which register it stands for, and whether a
/// write clears the bits above them.
#[verifier::spinoff_prover]
pub proof fn the_entry_of_a_32_bit_name(name: &str, result: Option<RegisterSpec>)
    requires
        call_ensures(spec_by_name, (name,), result),
    ensures
        name@ == "eax"@ ==> (result matches Some(entry) && entry.name@ == "eax"@ && entry.base
            == BaseReg::Rax && entry.bits == 32 && entry.lsb == 0 && entry.zero_extend_64 == true),
        name@ == "ebx"@ ==> (result matches Some(entry) && entry.name@ == "ebx"@ && entry.base
            == BaseReg::Rbx && entry.bits == 32 && entry.lsb == 0 && entry.zero_extend_64 == true),
        name@ == "ecx"@ ==> (result matches Some(entry) && entry.name@ == "ecx"@ && entry.base
            == BaseReg::Rcx && entry.bits == 32 && entry.lsb == 0 && entry.zero_extend_64 == true),
        name@ == "edx"@ ==> (result matches Some(entry) && entry.name@ == "edx"@ && entry.base
            == BaseReg::Rdx && entry.bits == 32 && entry.lsb == 0 && entry.zero_extend_64 == true),
        name@ == "esi"@ ==> (result matches Some(entry) && entry.name@ == "esi"@ && entry.base
            == BaseReg::Rsi && entry.bits == 32 && entry.lsb == 0 && entry.zero_extend_64 == true),
        name@ == "edi"@ ==> (result matches Some(entry) && entry.name@ == "edi"@ && entry.base
            == BaseReg::Rdi && entry.bits == 32 && entry.lsb == 0 && entry.zero_extend_64 == true),
        name@ == "ebp"@ ==> (result matches Some(entry) && entry.name@ == "ebp"@ && entry.base
            == BaseReg::Rbp && entry.bits == 32 && entry.lsb == 0 && entry.zero_extend_64 == true),
        name@ == "esp"@ ==> (result matches Some(entry) && entry.name@ == "esp"@ && entry.base
            == BaseReg::Rsp && entry.bits == 32 && entry.lsb == 0 && entry.zero_extend_64 == true),
        name@ == "r8d"@ ==> (result matches Some(entry) && entry.name@ == "r8d"@ && entry.base
            == BaseReg::R8 && entry.bits == 32 && entry.lsb == 0 && entry.zero_extend_64 == true),
        name@ == "r9d"@ ==> (result matches Some(entry) && entry.name@ == "r9d"@ && entry.base
            == BaseReg::R9 && entry.bits == 32 && entry.lsb == 0 && entry.zero_extend_64 == true),
        name@ == "r10d"@ ==> (result matches Some(entry) && entry.name@ == "r10d"@ && entry.base
            == BaseReg::R10 && entry.bits == 32 && entry.lsb == 0 && entry.zero_extend_64 == true),
        name@ == "r11d"@ ==> (result matches Some(entry) && entry.name@ == "r11d"@ && entry.base
            == BaseReg::R11 && entry.bits == 32 && entry.lsb == 0 && entry.zero_extend_64 == true),
        name@ == "r12d"@ ==> (result matches Some(entry) && entry.name@ == "r12d"@ && entry.base
            == BaseReg::R12 && entry.bits == 32 && entry.lsb == 0 && entry.zero_extend_64 == true),
        name@ == "r13d"@ ==> (result matches Some(entry) && entry.name@ == "r13d"@ && entry.base
            == BaseReg::R13 && entry.bits == 32 && entry.lsb == 0 && entry.zero_extend_64 == true),
        name@ == "r14d"@ ==> (result matches Some(entry) && entry.name@ == "r14d"@ && entry.base
            == BaseReg::R14 && entry.bits == 32 && entry.lsb == 0 && entry.zero_extend_64 == true),
        name@ == "r15d"@ ==> (result matches Some(entry) && entry.name@ == "r15d"@ && entry.base
            == BaseReg::R15 && entry.bits == 32 && entry.lsb == 0 && entry.zero_extend_64 == true),
        name@ == "eflags"@ ==> (result matches Some(entry) && entry.name@ == "eflags"@ && entry.base
            == BaseReg::Rflags && entry.bits == 32 && entry.lsb == 0 && entry.zero_extend_64 == false),
{
    if name@ == "eax"@ {
        lemma_entry(name, result, BaseReg::Rax, Slice::Dword);
    }
    if name@ == "ebx"@ {
        lemma_entry(name, result, BaseReg::Rbx, Slice::Dword);
    }
    if name@ == "ecx"@ {
        lemma_entry(name, result, BaseReg::Rcx, Slice::Dword);
    }
    if name@ == "edx"@ {
        lemma_entry(name, result, BaseReg::Rdx, Slice::Dword);
    }
    if name@ == "esi"@ {
        lemma_entry(name, result, BaseReg::Rsi, Slice::Dword);
    }
    if name@ == "edi"@ {
        lemma_entry(name, result, BaseReg::Rdi, Slice::Dword);
    }
    if name@ == "ebp"@ {
        lemma_entry(name, result, BaseReg::Rbp, Slice::Dword);
    }
    if name@ == "esp"@ {
        lemma_entry(name, result, BaseReg::Rsp, Slice::Dword);
    }
    if name@ == "r8d"@ {
        lemma_entry(name, result, BaseReg::R8, Slice::Dword);
    }
    if name@ == "r9d"@ {
        lemma_entry(name, result, BaseReg::R9, Slice::Dword);
    }
    if name@ == "r10d"@ {
        lemma_entry(name, result, BaseReg::R10, Slice::Dword);
    }
    if name@ == "r11d"@ {
        lemma_entry(name, result, BaseReg::R11, Slice::Dword);
    }
    if name@ == "r12d"@ {
        lemma_entry(name, result, BaseReg::R12, Slice::Dword);
    }
    if name@ == "r13d"@ {
        lemma_entry(name, result, BaseReg::R13, Slice::Dword);
    }
    if name@ == "r14d"@ {
        lemma_entry(name, result, BaseReg::R14, Slice::Dword);
    }
    if name@ == "r15d"@ {
        lemma_entry(name, result, BaseReg::R15, Slice::Dword);
    }
    if name@ == "eflags"@ {
        lemma_entry(name, result, BaseReg::Rflags, Slice::Dword);
    }
}

/// The entry of a 16 bit name says which bits of which register it stands for, and whether a
/// write clears the bits above them.
#[verifier::spinoff_prover]
pub proof fn the_entry_of_a_16_bit_name(name: &str, result: Option<RegisterSpec>)
    requires
        call_ensures(spec_by_name, (name,), result),
    ensures
        name@ == "ax"@ ==> (result matches Some(entry) && entry.name@ == "ax"@ && entry.base
            == BaseReg::Rax && entry.bits == 16 && entry.lsb == 0 && entry.zero_extend_64 == false),
        name@ == "bx"@ ==> (result matches Some(entry) && entry.name@ == "bx"@ && entry.base
            == BaseReg::Rbx && entry.bits == 16 && entry.lsb == 0 && entry.zero_extend_64 == false),
        name@ == "cx"@ ==> (result matches Some(entry) && entry.name@ == "cx"@ && entry.base
            == BaseReg::Rcx && entry.bits == 16 && entry.lsb == 0 && entry.zero_extend_64 == false),
        name@ == "dx"@ ==> (result matches Some(entry) && entry.name@ == "dx"@ && entry.base
            == BaseReg::Rdx && entry.bits == 16 && entry.lsb == 0 && entry.zero_extend_64 == false),
        name@ == "si"@ ==> (result matches Some(entry) && entry.name@ == "si"@ && entry.base
            == BaseReg::Rsi && entry.bits == 16 && entry.lsb == 0 && entry.zero_extend_64 == false),
        name@ == "di"@ ==> (result matches Some(entry) && entry.name@ == "di"@ && entry.base
            == BaseReg::Rdi && entry.bits == 16 && entry.lsb == 0 && entry.zero_extend_64 == false),
        name@ == "bp"@ ==> (result matches Some(entry) && entry.name@ == "bp"@ && entry.base
            == BaseReg::Rbp && entry.bits == 16 && entry.lsb == 0 && entry.zero_extend_64 == false),
        name@ == "sp"@ ==> (result matches Some(entry) && entry.name@ == "sp"@ && entry.base
            == BaseReg::Rsp && entry.bits == 16 && entry.lsb == 0 && entry.zero_extend_64 == false),
        name@ == "r8w"@ ==> (result matches Some(entry) && entry.name@ == "r8w"@ && entry.base
            == BaseReg::R8 && entry.bits == 16 && entry.lsb == 0 && entry.zero_extend_64 == false),
        name@ == "r9w"@ ==> (result matches Some(entry) && entry.name@ == "r9w"@ && entry.base
            == BaseReg::R9 && entry.bits == 16 && entry.lsb == 0 && entry.zero_extend_64 == false),
        name@ == "r10w"@ ==> (result matches Some(entry) && entry.name@ == "r10w"@ && entry.base
            == BaseReg::R10 && entry.bits == 16 && entry.lsb == 0 && entry.zero_extend_64 == false),
        name@ == "r11w"@ ==> (result matches Some(entry) && entry.name@ == "r11w"@ && entry.base
            == BaseReg::R11 && entry.bits == 16 && entry.lsb == 0 && entry.zero_extend_64 == false),
        name@ == "r12w"@ ==> (result matches Some(entry) && entry.name@ == "r12w"@ && entry.base
            == BaseReg::R12 && entry.bits == 16 && entry.lsb == 0 && entry.zero_extend_64 == false),
        name@ == "r13w"@ ==> (result matches Some(entry) && entry.name@ == "r13w"@ && entry.base
            == BaseReg::R13 && entry.bits == 16 && entry.lsb == 0 && entry.zero_extend_64 == false),
        name@ == "r14w"@ ==> (result matches Some(entry) && entry.name@ == "r14w"@ && entry.base
            == BaseReg::R14 && entry.bits == 16 && entry.lsb == 0 && entry.zero_extend_64 == false),
        name@ == "r15w"@ ==> (result matches Some(entry) && entry.name@ == "r15w"@ && entry.base
            == BaseReg::R15 && entry.bits == 16 && entry.lsb == 0 && entry.zero_extend_64 == false),
{
    if name@ == "ax"@ {
        lemma_entry(name, result, BaseReg::Rax, Slice::Word);
    }
    if name@ == "bx"@ {
        lemma_entry(name, result, BaseReg::Rbx, Slice::Word);
    }
    if name@ == "cx"@ {
        lemma_entry(name, result, BaseReg::Rcx, Slice::Word);
    }
    if name@ == "dx"@ {
        lemma_entry(name, result, BaseReg::Rdx, Slice::Word);
    }
    if name@ == "si"@ {
        lemma_entry(name, result, BaseReg::Rsi, Slice::Word);
    }
    if name@ == "di"@ {
        lemma_entry(name, result, BaseReg::Rdi, Slice::Word);
    }
    if name@ == "bp"@ {
        lemma_entry(name, result, BaseReg::Rbp, Slice::Word);
    }
    if name@ == "sp"@ {
        lemma_entry(name, result, BaseReg::Rsp, Slice::Word);
    }
    if name@ == "r8w"@ {
        lemma_entry(name, result, BaseReg::R8, Slice::Word);
    }
    if name@ == "r9w"@ {
        lemma_entry(name, result, BaseReg::R9, Slice::Word);
    }
    if name@ == "r10w"@ {
        lemma_entry(name, result, BaseReg::R10, Slice::Word);
    }
    if name@ == "r11w"@ {
        lemma_entry(name, result, BaseReg::R11, Slice::Word);
    }
    if name@ == "r12w"@ {
        lemma_entry(name, result, BaseReg::R12, Slice::Word);
    }
    if name@ == "r13w"@ {
        lemma_entry(name, result, BaseReg::R13, Slice::Word);
    }
    if name@ == "r14w"@ {
        lemma_entry(name, result, BaseReg::R14, Slice::Word);
    }
    if name@ == "r15w"@ {
        lemma_entry(name, result, BaseReg::R15, Slice::Word);
    }
}

/// The entry of a low byte says which bits of which register it stands for, and whether a
/// write clears the bits above them.
#[verifier::spinoff_prover]
pub proof fn the_entry_of_a_low_byte(name: &str, result: Option<RegisterSpec>)
    requires
        call_ensures(spec_by_name, (name,), result),
    ensures
        name@ == "al"@ ==> (result matches Some(entry) && entry.name@ == "al"@ && entry.base
            == BaseReg::Rax && entry.bits == 8 && entry.lsb == 0 && entry.zero_extend_64 == false),
        name@ == "bl"@ ==> (result matches Some(entry) && entry.name@ == "bl"@ && entry.base
            == BaseReg::Rbx && entry.bits == 8 && entry.lsb == 0 && entry.zero_extend_64 == false),
        name@ == "cl"@ ==> (result matches Some(entry) && entry.name@ == "cl"@ && entry.base
            == BaseReg::Rcx && entry.bits == 8 && entry.lsb == 0 && entry.zero_extend_64 == false),
        name@ == "dl"@ ==> (result matches Some(entry) && entry.name@ == "dl"@ && entry.base
            == BaseReg::Rdx && entry.bits == 8 && entry.lsb == 0 && entry.zero_extend_64 == false),
        name@ == "sil"@ ==> (result matches Some(entry) && entry.name@ == "sil"@ && entry.base
            == BaseReg::Rsi && entry.bits == 8 && entry.lsb == 0 && entry.zero_extend_64 == false),
        name@ == "dil"@ ==> (result matches Some(entry) && entry.name@ == "dil"@ && entry.base
            == BaseReg::Rdi && entry.bits == 8 && entry.lsb == 0 && entry.zero_extend_64 == false),
        name@ == "bpl"@ ==> (result matches Some(entry) && entry.name@ == "bpl"@ && entry.base
            == BaseReg::Rbp && entry.bits == 8 && entry.lsb == 0 && entry.zero_extend_64 == false),
        name@ == "spl"@ ==> (result matches Some(entry) && entry.name@ == "spl"@ && entry.base
            == BaseReg::Rsp && entry.bits == 8 && entry.lsb == 0 && entry.zero_extend_64 == false),
        name@ == "r8b"@ ==> (result matches Some(entry) && entry.name@ == "r8b"@ && entry.base
            == BaseReg::R8 && entry.bits == 8 && entry.lsb == 0 && entry.zero_extend_64 == false),
        name@ == "r9b"@ ==> (result matches Some(entry) && entry.name@ == "r9b"@ && entry.base
            == BaseReg::R9 && entry.bits == 8 && entry.lsb == 0 && entry.zero_extend_64 == false),
        name@ == "r10b"@ ==> (result matches Some(entry) && entry.name@ == "r10b"@ && entry.base
            == BaseReg::R10 && entry.bits == 8 && entry.lsb == 0 && entry.zero_extend_64 == false),
        name@ == "r11b"@ ==> (result matches Some(entry) && entry.name@ == "r11b"@ && entry.base
            == BaseReg::R11 && entry.bits == 8 && entry.lsb == 0 && entry.zero_extend_64 == false),
        name@ == "r12b"@ ==> (result matches Some(entry) && entry.name@ == "r12b"@ && entry.base
            == BaseReg::R12 && entry.bits == 8 && entry.lsb == 0 && entry.zero_extend_64 == false),
        name@ == "r13b"@ ==> (result matches Some(entry) && entry.name@ == "r13b"@ && entry.base
            == BaseReg::R13 && entry.bits == 8 && entry.lsb == 0 && entry.zero_extend_64 == false),
        name@ == "r14b"@ ==> (result matches Some(entry) && entry.name@ == "r14b"@ && entry.base
            == BaseReg::R14 && entry.bits == 8 && entry.lsb == 0 && entry.zero_extend_64 == false),
        name@ == "r15b"@ ==> (result matches Some(entry) && entry.name@ == "r15b"@ && entry.base
            == BaseReg::R15 && entry.bits == 8 && entry.lsb == 0 && entry.zero_extend_64 == false),
{
    if name@ == "al"@ {
        lemma_entry(name, result, BaseReg::Rax, Slice::LowByte);
    }
    if name@ == "bl"@ {
        lemma_entry(name, result, BaseReg::Rbx, Slice::LowByte);
    }
    if name@ == "cl"@ {
        lemma_entry(name, result, BaseReg::Rcx, Slice::LowByte);
    }
    if name@ == "dl"@ {
        lemma_entry(name, result, BaseReg::Rdx, Slice::LowByte);
    }
    if name@ == "sil"@ {
        lemma_entry(name, result, BaseReg::Rsi, Slice::LowByte);
    }
    if name@ == "dil"@ {
        lemma_entry(name, result, BaseReg::Rdi, Slice::LowByte);
    }
    if name@ == "bpl"@ {
        lemma_entry(name, result, BaseReg::Rbp, Slice::LowByte);
    }
    if name@ == "spl"@ {
        lemma_entry(name, result, BaseReg::Rsp, Slice::LowByte);
    }
    if name@ == "r8b"@ {
        lemma_entry(name, result, BaseReg::R8, Slice::LowByte);
    }
    if name@ == "r9b"@ {
        lemma_entry(name, result, BaseReg::R9, Slice::LowByte);
    }
    if name@ == "r10b"@ {
        lemma_entry(name, result, BaseReg::R10, Slice::LowByte);
    }
    if name@ == "r11b"@ {
        lemma_entry(name, result, BaseReg::R11, Slice::LowByte);
    }
    if name@ == "r12b"@ {
        lemma_entry(name, result, BaseReg::R12, Slice::LowByte);
    }
    if name@ == "r13b"@ {
        lemma_entry(name, result, BaseReg::R13, Slice::LowByte);
    }
    if name@ == "r14b"@ {
        lemma_entry(name, result, BaseReg::R14, Slice::LowByte);
    }
    if name@ == "r15b"@ {
        lemma_entry(name, result, BaseReg::R15, Slice::LowByte);
    }
}

/// The entry of a high byte says which bits of which register it stands for, and whether a
/// write clears the bits above them.
#[verifier::spinoff_prover]
pub proof fn the_entry_of_a_high_byte(name: &str, result: Option<RegisterSpec>)
    requires
        call_ensures(spec_by_name, (name,), result),
    ensures
        name@ == "ah"@ ==> (result matches Some(entry) && entry.name@ == "ah"@ && entry.base
            == BaseReg::Rax && entry.bits == 8 && entry.lsb == 8 && entry.zero_extend_64 == false),
        name@ == "bh"@ ==> (result matches Some(entry) && entry.name@ == "bh"@ && entry.base
            == BaseReg::Rbx && entry.bits == 8 && entry.lsb == 8 && entry.zero_extend_64 == false),
        name@ == "ch"@ ==> (result matches Some(entry) && entry.name@ == "ch"@ && entry.base
            == BaseReg::Rcx && entry.bits == 8 && entry.lsb == 8 && entry.zero_extend_64 == false),
        name@ == "dh"@ ==> (result matches Some(entry) && entry.name@ == "dh"@ && entry.base
            == BaseReg::Rdx && entry.bits == 8 && entry.lsb == 8 && entry.zero_extend_64 == false),
{
    if name@ == "ah"@ {
        lemma_entry(name, result, BaseReg::Rax, Slice::HighByte);
    }
    if name@ == "bh"@ {
        lemma_entry(name, result, BaseReg::Rbx, Slice::HighByte);
    }
    if name@ == "ch"@ {
        lemma_entry(name, result, BaseReg::Rcx, Slice::HighByte);
    }
    if name@ == "dh"@ {
        lemma_entry(name, result, BaseReg::Rdx, Slice::HighByte);
    }
}

} // verus!
