//! x86_64 register aliases over the Linux register frame.
//!
//! This module translates user-facing register names (`rax`, `eax`, `ah`, `rip`, `rflags`, ...)
//! to bit-slices of the registers in [`UserRegs`] and applies architecture-correct writes.
//!
//! Where these names and their meaning come from:
//! - AMD64 architecture manuals (general-purpose registers, `RIP`, and `RFLAGS`).
//! - Linux `struct user_regs_struct`, which `ptrace(PTRACE_GETREGS/SETREGS)` exchanges.
//! - x86-64 rule: writing a 32-bit GPR alias (for example `eax`) zero-extends the full 64-bit base.

use crate::aliases::{spec_by_name, BaseReg, RegisterSpec};
#[allow(unused_imports)]
use crate::aliases::{alias_name, lowercase, names, names_nothing, written, zero_extends, Slice};
use crate::domain::{DebugError, RegisterValue};
#[allow(unused_imports)]
use crate::text::{digits, hex_digits_fit, zero_padded};
#[allow(unused_imports)]
use vstd::arithmetic::power2::{lemma2_to64, lemma2_to64_rest, lemma_pow2_pos, pow2};
#[allow(unused_imports)]
use vstd::bits::{lemma_u64_low_bits_mask_is_mod, lemma_u64_shr_is_div, low_bits_mask};
use vstd::prelude::*;
use vstd::string::*;

verus! {

/// The register frame of a stopped thread, field for field as Linux `user_regs_struct` has it.
#[derive(Debug, Clone, Copy, PartialEq, Eq, Structural)]
pub struct UserRegs {
    pub r15: u64,
    pub r14: u64,
    pub r13: u64,
    pub r12: u64,
    pub rbp: u64,
    pub rbx: u64,
    pub r11: u64,
    pub r10: u64,
    pub r9: u64,
    pub r8: u64,
    pub rax: u64,
    pub rcx: u64,
    pub rdx: u64,
    pub rsi: u64,
    pub rdi: u64,
    pub orig_rax: u64,
    pub rip: u64,
    pub cs: u64,
    pub eflags: u64,
    pub rsp: u64,
    pub ss: u64,
    pub fs_base: u64,
    pub gs_base: u64,
    pub ds: u64,
    pub es: u64,
    pub fs: u64,
    pub gs: u64,
}

impl Default for UserRegs {
    /// The frame that is zero throughout.
    fn default() -> (regs: Self)
        ensures
            forall|base: BaseReg| #[trigger] regs.get(base) == 0,
            regs.rest() == Seq::new(9, |i: int| 0u64),
    {
        let regs = UserRegs {
            r15: 0,
            r14: 0,
            r13: 0,
            r12: 0,
            rbp: 0,
            rbx: 0,
            r11: 0,
            r10: 0,
            r9: 0,
            r8: 0,
            rax: 0,
            rcx: 0,
            rdx: 0,
            rsi: 0,
            rdi: 0,
            orig_rax: 0,
            rip: 0,
            cs: 0,
            eflags: 0,
            rsp: 0,
            ss: 0,
            fs_base: 0,
            gs_base: 0,
            ds: 0,
            es: 0,
            fs: 0,
            gs: 0,
        };
        assert(regs.rest() =~= Seq::new(9, |i: int| 0u64));
        regs
    }
}

impl UserRegs {
    /// The full 64-bit value of a base register.
    pub open spec fn get(self, base: BaseReg) -> u64 {
        match base {
            BaseReg::Rax => self.rax,
            BaseReg::Rbx => self.rbx,
            BaseReg::Rcx => self.rcx,
            BaseReg::Rdx => self.rdx,
            BaseReg::Rsi => self.rsi,
            BaseReg::Rdi => self.rdi,
            BaseReg::Rbp => self.rbp,
            BaseReg::Rsp => self.rsp,
            BaseReg::R8 => self.r8,
            BaseReg::R9 => self.r9,
            BaseReg::R10 => self.r10,
            BaseReg::R11 => self.r11,
            BaseReg::R12 => self.r12,
            BaseReg::R13 => self.r13,
            BaseReg::R14 => self.r14,
            BaseReg::R15 => self.r15,
            BaseReg::Rip => self.rip,
            BaseReg::Rflags => self.eflags,
        }
    }

    /// What the frame holds besides the base registers.
    pub open spec fn rest(self) -> Seq<u64> {
        seq![
            self.orig_rax,
            self.cs,
            self.ss,
            self.fs_base,
            self.gs_base,
            self.ds,
            self.es,
            self.fs,
            self.gs,
        ]
    }

    /// `after` is this frame with `value` in `base`, and nothing else changed.
    pub open spec fn replaces(self, base: BaseReg, value: u64, after: UserRegs) -> bool {
        &&& after.get(base) == value
        &&& forall|other: BaseReg| other != base ==> #[trigger] after.get(other) == self.get(other)
        &&& after.rest() == self.rest()
    }
}

/// Read full 64-bit value of a canonical base register from the frame.
pub fn base_value(regs: &UserRegs, base: BaseReg) -> (value: u64)
    ensures
        value == regs.get(base),
{
    match base {
        BaseReg::Rax => regs.rax,
        BaseReg::Rbx => regs.rbx,
        BaseReg::Rcx => regs.rcx,
        BaseReg::Rdx => regs.rdx,
        BaseReg::Rsi => regs.rsi,
        BaseReg::Rdi => regs.rdi,
        BaseReg::Rbp => regs.rbp,
        BaseReg::Rsp => regs.rsp,
        BaseReg::R8 => regs.r8,
        BaseReg::R9 => regs.r9,
        BaseReg::R10 => regs.r10,
        BaseReg::R11 => regs.r11,
        BaseReg::R12 => regs.r12,
        BaseReg::R13 => regs.r13,
        BaseReg::R14 => regs.r14,
        BaseReg::R15 => regs.r15,
        BaseReg::Rip => regs.rip,
        BaseReg::Rflags => regs.eflags,
    }
}

/// Write full 64-bit value of a canonical base register into the frame.
pub fn set_base_value(regs: &mut UserRegs, base: BaseReg, value: u64)
    ensures
        old(regs).replaces(base, value, *final(regs)),
{
    match base {
        BaseReg::Rax => regs.rax = value,
        BaseReg::Rbx => regs.rbx = value,
        BaseReg::Rcx => regs.rcx = value,
        BaseReg::Rdx => regs.rdx = value,
        BaseReg::Rsi => regs.rsi = value,
        BaseReg::Rdi => regs.rdi = value,
        BaseReg::Rbp => regs.rbp = value,
        BaseReg::Rsp => regs.rsp = value,
        BaseReg::R8 => regs.r8 = value,
        BaseReg::R9 => regs.r9 = value,
        BaseReg::R10 => regs.r10 = value,
        BaseReg::R11 => regs.r11 = value,
        BaseReg::R12 => regs.r12 = value,
        BaseReg::R13 => regs.r13 = value,
        BaseReg::R14 => regs.r14 = value,
        BaseReg::R15 => regs.r15 = value,
        BaseReg::Rip => regs.rip = value,
        BaseReg::Rflags => regs.eflags = value,
    }
    assert(regs.rest() =~= old(regs).rest());
}

/// Build a `bits`-wide low-bit mask.
pub fn bit_mask(bits: u8) -> (mask: u64)
    requires
        bits <= 64,
    ensures
        mask == pow2(bits as nat) - 1,
{
    proof {
        lemma2_to64_rest();
    }
    match bits {
        64 => u64::MAX,
        0 => {
            proof {
                lemma2_to64();
            }
            0
        },
        n => {
            proof {
                vstd::bits::lemma_u64_pow2_no_overflow(n as nat);
                vstd::bits::lemma_u64_shl_is_mul(1, n as u64);
                lemma_pow2_pos(n as nat);
            }
            (1_u64 << n) - 1
        },
    }
}

/// Extract `bits` at offset `lsb` from a raw 64-bit base value.
pub fn extract_value(raw: u64, bits: u8, lsb: u8) -> (value: u64)
    requires
        bits <= 64,
        lsb < 64,
    ensures
        value as nat == (raw as nat / pow2(lsb as nat)) % pow2(bits as nat),
{
    let mask = bit_mask(bits);
    let shifted = raw >> lsb;
    proof {
        lemma_u64_shr_is_div(raw, lsb as u64);
        if bits == 64 {
            lemma2_to64();
            assert(shifted & 0xFFFF_FFFF_FFFF_FFFF == shifted) by (bit_vector);
            assert(shifted as nat % 0x1_0000_0000_0000_0000 == shifted);
        } else {
            lemma_u64_low_bits_mask_is_mod(shifted, bits as nat);
            vstd::bits::lemma_u64_pow2_no_overflow(bits as nat);
        }
    }
    shifted & mask
}

/// A slice of a base register, as its width and offset give it.
proof fn lemma_slice_of(raw: u64, slice: Slice)
    ensures
        slice.of(raw) as nat == (raw as nat / pow2(slice.lsb())) % pow2(slice.bits()),
{
    lemma2_to64();
    match slice {
        Slice::Qword => {
            assert((raw as nat / 1) % 0x1_0000_0000_0000_0000 == raw);
        },
        Slice::Dword => {
            assert((raw as nat / 1) % 0x1_0000_0000 == raw % 0x1_0000_0000);
        },
        Slice::Word => {
            assert((raw as nat / 1) % 0x1_0000 == raw % 0x1_0000);
        },
        Slice::LowByte => {
            assert((raw as nat / 1) % 0x100 == raw % 0x100);
        },
        Slice::HighByte => {
            assert((raw as nat / 0x100) % 0x100 == raw / 0x100 % 0x100);
        },
    }
}

/// Clearing the field of a slice and setting it anew inserts the slice.
proof fn lemma_insert(slice: Slice, raw: u64, value: u64, mask: u64, lsb: u8)
    requires
        mask == pow2(slice.bits()) - 1,
        lsb == slice.lsb(),
    ensures
        slice.insert(raw, value) == (raw & !((mask << lsb) as u64)) | (((value & mask) << lsb)
            as u64),
        slice.lsb() == 0 ==> slice.of(value) == value & mask,
{
    lemma2_to64();
    lemma2_to64_rest();
    match slice {
        Slice::Qword => {
            assert(value == (raw & !(0xFFFF_FFFF_FFFF_FFFFu64 << 0u8)) | ((value
                & 0xFFFF_FFFF_FFFF_FFFF) << 0u8)) by (bit_vector);
            assert(value & mask == value) by (bit_vector)
                requires
                    mask == 0xFFFF_FFFF_FFFF_FFFF,
            ;
        },
        Slice::Dword => {
            assert(raw - raw % 0x1_0000_0000 + value % 0x1_0000_0000 == (raw & !(0xFFFF_FFFFu64
                << 0u8)) | ((value & 0xFFFF_FFFF) << 0u8)) by (bit_vector);
            assert(value & 0xFFFF_FFFF == value % 0x1_0000_0000) by (bit_vector);
        },
        Slice::Word => {
            assert(raw - raw % 0x1_0000 + value % 0x1_0000 == (raw & !(0xFFFFu64 << 0u8)) | ((value
                & 0xFFFF) << 0u8)) by (bit_vector);
            assert(value & 0xFFFF == value % 0x1_0000) by (bit_vector);
        },
        Slice::LowByte => {
            assert(raw - raw % 0x100 + value % 0x100 == (raw & !(0xFFu64 << 0u8)) | ((value & 0xFF)
                << 0u8)) by (bit_vector);
            assert(value & 0xFF == value % 0x100) by (bit_vector);
        },
        Slice::HighByte => {
            assert(raw - raw / 0x100 % 0x100 * 0x100 + value % 0x100 * 0x100 == (raw & !(0xFFu64
                << 8u8)) | ((value & 0xFF) << 8u8)) by (bit_vector);
            assert(value & 0xFF == value % 0x100) by (bit_vector);
        },
    }
}

/// The value that reading this slice of this base register gives.
pub open spec fn reads_as(
    value: RegisterValue,
    regs: UserRegs,
    base: BaseReg,
    slice: Slice,
) -> bool {
    &&& alias_name(base, slice) == Some(value.name@)
    &&& value.bits == slice.bits()
    &&& value.value == slice.of(regs.get(base))
}

/// Reading the register `name` gives `result`: the value of the alias of this name, in any case, or
/// an error where there is none.
pub open spec fn read_gives(
    regs: UserRegs,
    name: Seq<char>,
    result: Result<RegisterValue, DebugError>,
) -> bool {
    &&& forall|base: BaseReg, slice: Slice| #[trigger]
        names(name, base, slice) ==> (result matches Ok(value) && reads_as(
            value,
            regs,
            base,
            slice,
        ))
    &&& names_nothing(name) ==> (result matches Err(DebugError::UnknownRegister(unknown))
        && unknown@ == name)
}

/// Writing `value` to the register `name` makes `after` of `regs` and gives `result`: what the
/// alias then reads as, or an error where there is none, and then nothing is written.
pub open spec fn write_gives(
    regs: UserRegs,
    name: Seq<char>,
    value: u64,
    after: UserRegs,
    result: Result<RegisterValue, DebugError>,
) -> bool {
    &&& forall|base: BaseReg, slice: Slice| #[trigger]
        names(name, base, slice) ==> {
            &&& regs.replaces(base, written(base, slice, regs.get(base), value), after)
            &&& result matches Ok(updated) && reads_as(updated, after, base, slice)
        }
    &&& names_nothing(name) ==> {
        &&& after == regs
        &&& result matches Err(DebugError::UnknownRegister(unknown)) && unknown@ == name
    }
}

/// Read one register alias from a register frame.
///
/// Examples:
/// - `read_register(regs, "rax")` -> full 64-bit accumulator.
/// - `read_register(regs, "ah")` -> bits `8..15` of `rax`.
/// - `read_register(regs, "rip")` -> current instruction pointer.
pub fn read_register(regs: &UserRegs, name: &str) -> (result: Result<RegisterValue, DebugError>)
    ensures
        read_gives(*regs, name@, result),
{
    let spec = match spec_by_name(name) {
        Some(spec) => spec,
        None => return Err(DebugError::UnknownRegister(name.to_owned())),
    };
    assert(!names_nothing(name@));
    let ghost (base, slice) = choose|base: BaseReg, slice: Slice| #[trigger]
        names(name@, base, slice);
    assert(spec.describes(base, slice));
    let raw = base_value(regs, spec.base);
    let value = RegisterValue {
        name: spec.name,
        bits: spec.bits,
        value: extract_value(raw, spec.bits, spec.lsb),
    };
    proof {
        assert forall|base: BaseReg, slice: Slice| #[trigger]
            names(name@, base, slice) implies reads_as(value, *regs, base, slice) by {
            lemma_slice_of(raw, slice);
        }
    }
    Ok(value)
}

/// Write one register alias in a register frame, and read it back.
///
/// Semantics follow x86-64 rules:
/// - 64-bit alias write (for example `rax`) replaces the whole base register.
/// - 32-bit alias write with `zero_extend_64=true` (for example `eax`) clears upper 32 bits.
/// - Partial aliases (for example `ah`, `al`, `ax`) update only their bit range.
pub fn write_register(regs: &mut UserRegs, name: &str, value: u64) -> (result: Result<
    RegisterValue,
    DebugError,
>)
    ensures
        write_gives(*old(regs), name@, value, *final(regs), result),
{
    let spec = match spec_by_name(name) {
        Some(spec) => spec,
        None => return Err(DebugError::UnknownRegister(name.to_owned())),
    };
    assert(!names_nothing(name@));
    let ghost (base, slice) = choose|base: BaseReg, slice: Slice| #[trigger]
        names(name@, base, slice);
    assert(spec.describes(base, slice));

    let mask = bit_mask(spec.bits);
    let truncated = value & mask;
    let raw = base_value(regs, spec.base);

    let whole_register_write = (spec.zero_extend_64 && spec.bits == 32 && spec.lsb == 0) || (
    spec.bits == 64 && spec.lsb == 0);
    let updated = if whole_register_write {
        truncated
    } else {
        let field_mask = mask << spec.lsb;
        (raw & !field_mask) | (truncated << spec.lsb)
    };

    set_base_value(regs, spec.base, updated);

    let result = RegisterValue {
        name: spec.name,
        bits: spec.bits,
        value: extract_value(updated, spec.bits, spec.lsb),
    };
    proof {
        assert forall|base: BaseReg, slice: Slice| #[trigger] names(name@, base, slice) implies {
            &&& updated == written(base, slice, raw, value)
            &&& reads_as(result, *regs, base, slice)
        } by {
            lemma_insert(slice, raw, value, mask, spec.lsb);
            lemma_slice_of(updated, slice);
        }
    }
    Ok(result)
}

/// The base registers in the order in which they are listed.
pub open spec fn canonical_order() -> Seq<BaseReg> {
    seq![
        BaseReg::Rax,
        BaseReg::Rbx,
        BaseReg::Rcx,
        BaseReg::Rdx,
        BaseReg::Rsi,
        BaseReg::Rdi,
        BaseReg::Rbp,
        BaseReg::Rsp,
        BaseReg::R8,
        BaseReg::R9,
        BaseReg::R10,
        BaseReg::R11,
        BaseReg::R12,
        BaseReg::R13,
        BaseReg::R14,
        BaseReg::R15,
        BaseReg::Rip,
        BaseReg::Rflags,
    ]
}

/// The entries of the base registers themselves, in the order in which they are listed.
fn canonical_gprs() -> (specs: Vec<RegisterSpec>)
    ensures
        specs@.len() == canonical_order().len(),
        forall|i: int|
            0 <= i < specs@.len() ==> (#[trigger] specs@[i]).describes(
                canonical_order()[i],
                Slice::Qword,
            ),
{
    vec![
        RegisterSpec::new("rax", BaseReg::Rax, 64, 0, false),
        RegisterSpec::new("rbx", BaseReg::Rbx, 64, 0, false),
        RegisterSpec::new("rcx", BaseReg::Rcx, 64, 0, false),
        RegisterSpec::new("rdx", BaseReg::Rdx, 64, 0, false),
        RegisterSpec::new("rsi", BaseReg::Rsi, 64, 0, false),
        RegisterSpec::new("rdi", BaseReg::Rdi, 64, 0, false),
        RegisterSpec::new("rbp", BaseReg::Rbp, 64, 0, false),
        RegisterSpec::new("rsp", BaseReg::Rsp, 64, 0, false),
        RegisterSpec::new("r8", BaseReg::R8, 64, 0, false),
        RegisterSpec::new("r9", BaseReg::R9, 64, 0, false),
        RegisterSpec::new("r10", BaseReg::R10, 64, 0, false),
        RegisterSpec::new("r11", BaseReg::R11, 64, 0, false),
        RegisterSpec::new("r12", BaseReg::R12, 64, 0, false),
        RegisterSpec::new("r13", BaseReg::R13, 64, 0, false),
        RegisterSpec::new("r14", BaseReg::R14, 64, 0, false),
        RegisterSpec::new("r15", BaseReg::R15, 64, 0, false),
        RegisterSpec::new("rip", BaseReg::Rip, 64, 0, false),
        RegisterSpec::new("rflags", BaseReg::Rflags, 64, 0, false),
    ]
}

/// `values` are the base registers, each in full, in the order in which they are listed.
pub open spec fn shows_all(regs: UserRegs, values: Seq<RegisterValue>) -> bool {
    &&& values.len() == canonical_order().len()
    &&& forall|i: int|
        0 <= i < values.len() ==> reads_as(
            #[trigger] values[i],
            regs,
            canonical_order()[i],
            Slice::Qword,
        )
}

/// Read the canonical 64-bit GPR set (`rax..r15`, `rip`, `rflags`).
///
/// This intentionally returns canonical base registers only (not every alias).
pub fn read_all_gpr(regs: &UserRegs) -> (values: Vec<RegisterValue>)
    ensures
        shows_all(*regs, values@),
{
    let specs = canonical_gprs();
    let mut out: Vec<RegisterValue> = Vec::with_capacity(specs.len());
    let mut i: usize = 0;
    while i < specs.len()
        invariant
            i <= specs@.len(),
            out@.len() == i,
            specs@.len() == canonical_order().len(),
            forall|j: int|
                0 <= j < specs@.len() ==> (#[trigger] specs@[j]).describes(
                    canonical_order()[j],
                    Slice::Qword,
                ),
            forall|j: int|
                0 <= j < i ==> reads_as(
                    #[trigger] out@[j],
                    *regs,
                    canonical_order()[j],
                    Slice::Qword,
                ),
        decreases specs@.len() - i,
    {
        let spec = specs[i];
        let raw = base_value(regs, spec.base);
        out.push(RegisterValue { name: spec.name, bits: spec.bits, value: raw });
        i += 1;
    }
    out
}

/// Bit `i` of `x`.
pub open spec fn bit(x: u64, i: u64) -> bool {
    (x >> i) & 1 == 1
}

/// A write to a slice sets the bits of the slice to the low bits of the value, bit for bit. Every
/// other bit of the base register stays as it is, or is cleared where the write zero-extends.
#[verifier::spinoff_prover]
pub proof fn write_sets_exactly_its_bits(
    base: BaseReg,
    slice: Slice,
    raw: u64,
    value: u64,
    i: u64,
)
    requires
        i < 64,
    ensures
        slice.lsb() <= i < slice.lsb() + slice.bits() ==> bit(
            written(base, slice, raw, value),
            i,
        ) == bit(value, (i - slice.lsb()) as u64),
        !(slice.lsb() <= i < slice.lsb() + slice.bits()) ==> bit(
            written(base, slice, raw, value),
            i,
        ) == (!zero_extends(base, slice) && bit(raw, i)),
{
    let after = written(base, slice, raw, value);
    match slice {
        Slice::Qword => {},
        Slice::Dword => {
            if zero_extends(base, slice) {
                assert((after >> i) & 1 == if i < 32 {
                    (value >> i) & 1
                } else {
                    0
                }) by (bit_vector)
                    requires
                        after == value % 0x1_0000_0000,
                        i < 64,
                ;
            } else {
                assert((after >> i) & 1 == if i < 32 {
                    (value >> i) & 1
                } else {
                    (raw >> i) & 1
                }) by (bit_vector)
                    requires
                        after == raw - raw % 0x1_0000_0000 + value % 0x1_0000_0000,
                        i < 64,
                ;
            }
        },
        Slice::Word => {
            assert((after >> i) & 1 == if i < 16 {
                (value >> i) & 1
            } else {
                (raw >> i) & 1
            }) by (bit_vector)
                requires
                    after == raw - raw % 0x1_0000 + value % 0x1_0000,
                    i < 64,
            ;
        },
        Slice::LowByte => {
            assert((after >> i) & 1 == if i < 8 {
                (value >> i) & 1
            } else {
                (raw >> i) & 1
            }) by (bit_vector)
                requires
                    after == raw - raw % 0x100 + value % 0x100,
                    i < 64,
            ;
        },
        Slice::HighByte => {
            let j = if i >= 8 { (i - 8) as u64 } else { 0 };
            assert((after >> i) & 1 == if 8 <= i && i < 16 {
                (value >> j) & 1
            } else {
                (raw >> i) & 1
            }) by (bit_vector)
                requires
                    after == raw - raw / 0x100 % 0x100 * 0x100 + value % 0x100 * 0x100,
                    j == if i >= 8 { i - 8 } else { 0 },
                    i < 64,
            ;
        },
    }
}

/// A slice is read bit for bit: bit `i` of what is read is the bit of the base register that is
/// `i` above the start of the slice, and there is nothing above the width of the slice.
pub proof fn read_takes_exactly_its_bits(slice: Slice, raw: u64, i: u64)
    requires
        i < 64,
    ensures
        bit(slice.of(raw), i) == (i < slice.bits() && bit(raw, (i + slice.lsb()) as u64)),
        slice.of(raw) < pow2(slice.bits()),
{
    lemma2_to64();
    let value = slice.of(raw);
    match slice {
        Slice::Qword => {},
        Slice::Dword => {
            assert((value >> i) & 1 == if i < 32 { (raw >> i) & 1 } else { 0 }) by (bit_vector)
                requires
                    value == raw % 0x1_0000_0000,
                    i < 64,
            ;
        },
        Slice::Word => {
            assert((value >> i) & 1 == if i < 16 { (raw >> i) & 1 } else { 0 }) by (bit_vector)
                requires
                    value == raw % 0x1_0000,
                    i < 64,
            ;
        },
        Slice::LowByte => {
            assert((value >> i) & 1 == if i < 8 { (raw >> i) & 1 } else { 0 }) by (bit_vector)
                requires
                    value == raw % 0x100,
                    i < 64,
            ;
        },
        Slice::HighByte => {
            let j = (i + 8) as u64;
            assert((value >> i) & 1 == if i < 8 { (raw >> j) & 1 } else { 0 }) by (bit_vector)
                requires
                    value == raw / 0x100 % 0x100,
                    i < 64,
                    j == i + 8,
            ;
        },
    }
}

/// What is written to a slice, cut to the width of the slice, is what the slice then holds.
#[verifier::spinoff_prover]
proof fn lemma_slice_of_written(base: BaseReg, slice: Slice, raw: u64, value: u64)
    ensures
        slice.of(written(base, slice, raw, value)) as nat == value as nat % pow2(slice.bits()),
{
    assert(pow2(8) == 0x100 && pow2(16) == 0x1_0000 && pow2(32) == 0x1_0000_0000 && pow2(64)
        == 0x1_0000_0000_0000_0000) by {
        lemma2_to64();
    }
    let after = written(base, slice, raw, value);
    match slice {
        Slice::Qword => {
            assert(value as nat % 0x1_0000_0000_0000_0000 == value);
        },
        Slice::Dword => {
            assert(raw - raw % 0x1_0000_0000 + value % 0x1_0000_0000 <= 0xFFFF_FFFF_FFFF_FFFF) by (bit_vector);
            assert(raw - raw % 0x1_0000_0000 + value % 0x1_0000_0000 >= 0) by (bit_vector);
            if !zero_extends(base, slice) {
                assert(after == raw - raw % 0x1_0000_0000 + value % 0x1_0000_0000);
                assert(after % 0x1_0000_0000 == value % 0x1_0000_0000) by (bit_vector)
                    requires
                        after == raw - raw % 0x1_0000_0000 + value % 0x1_0000_0000,
                ;
            }
        },
        Slice::Word => {
            assert(raw - raw % 0x1_0000 + value % 0x1_0000 <= 0xFFFF_FFFF_FFFF_FFFF) by (bit_vector);
            assert(raw - raw % 0x1_0000 + value % 0x1_0000 >= 0) by (bit_vector);
            if !zero_extends(base, slice) {
                assert(after == raw - raw % 0x1_0000 + value % 0x1_0000);
                assert(after % 0x1_0000 == value % 0x1_0000) by (bit_vector)
                    requires
                        after == raw - raw % 0x1_0000 + value % 0x1_0000,
                ;
            }
        },
        Slice::LowByte => {
            assert(raw - raw % 0x100 + value % 0x100 <= 0xFFFF_FFFF_FFFF_FFFF) by (bit_vector);
            assert(raw - raw % 0x100 + value % 0x100 >= 0) by (bit_vector);
            if !zero_extends(base, slice) {
                assert(after == raw - raw % 0x100 + value % 0x100);
                assert(after % 0x100 == value % 0x100) by (bit_vector)
                    requires
                        after == raw - raw % 0x100 + value % 0x100,
                ;
            }
        },
        Slice::HighByte => {
            assert(raw - raw / 0x100 % 0x100 * 0x100 + value % 0x100 * 0x100 <= 0xFFFF_FFFF_FFFF_FFFF) by (bit_vector);
            assert(raw - raw / 0x100 % 0x100 * 0x100 + value % 0x100 * 0x100 >= 0) by (bit_vector);
            if !zero_extends(base, slice) {
                assert(after == raw - raw / 0x100 % 0x100 * 0x100 + value % 0x100 * 0x100);
                assert(after / 0x100 % 0x100 == value % 0x100) by (bit_vector)
                    requires
                        after == raw - raw / 0x100 % 0x100 * 0x100 + value % 0x100 * 0x100,
                ;
            }
        },
    }
}

/// What is written under a name is read back under it, cut to the width of the slice.
pub proof fn read_gives_back_the_write(
    before: UserRegs,
    after: UserRegs,
    base: BaseReg,
    slice: Slice,
    value: u64,
    read: RegisterValue,
)
    requires
        before.replaces(base, written(base, slice, before.get(base), value), after),
        reads_as(read, after, base, slice),
    ensures
        read.bits == slice.bits(),
        read.value as nat == value as nat % pow2(slice.bits()),
{
    lemma_slice_of_written(base, slice, before.get(base), value);
}

/// A write to one base register is not seen through any name of another.
pub proof fn other_registers_read_as_before(
    before: UserRegs,
    after: UserRegs,
    base: BaseReg,
    value: u64,
    other: BaseReg,
    slice: Slice,
    read: RegisterValue,
)
    requires
        before.replaces(base, value, after),
        other != base,
    ensures
        reads_as(read, after, other, slice) == reads_as(read, before, other, slice),
{
}

/// Writing back what was read changes nothing, unless the write zero-extends over bits that are
/// set.
pub proof fn writing_back_the_read_changes_nothing(base: BaseReg, slice: Slice, raw: u64)
    requires
        zero_extends(base, slice) ==> raw < 0x1_0000_0000,
    ensures
        written(base, slice, raw, slice.of(raw)) == raw,
{
    let value = slice.of(raw);
    if slice is HighByte {
        assert(raw - raw / 0x100 % 0x100 * 0x100 + value % 0x100 * 0x100 == raw) by (bit_vector)
            requires
                value == raw / 0x100 % 0x100,
        ;
    }
}

/// The two bytes that have names are independent of each other: a write to one is not seen
/// through the other.
pub proof fn byte_aliases_are_independent(base: BaseReg, raw: u64, value: u64)
    ensures
        Slice::HighByte.of(written(base, Slice::LowByte, raw, value)) == Slice::HighByte.of(raw),
        Slice::LowByte.of(written(base, Slice::HighByte, raw, value)) == Slice::LowByte.of(raw),
{
    assert(((raw - raw % 0x100 + value % 0x100) as u64) / 0x100 % 0x100 == raw / 0x100 % 0x100)
        by (bit_vector);
    assert(((raw - raw / 0x100 % 0x100 * 0x100 + value % 0x100 * 0x100) as u64) % 0x100 == raw
        % 0x100) by (bit_vector);
}

/// A name means the same whatever the case of its letters.
pub proof fn names_ignore_case(name: Seq<char>, other: Seq<char>, base: BaseReg, slice: Slice)
    requires
        lowercase(name) == lowercase(other),
    ensures
        names(name, base, slice) == names(other, base, slice),
        names(lowercase(name), base, slice) == names(name, base, slice),
{
    assert(lowercase(lowercase(name)) =~= lowercase(name));
}

/// A register is printed in hexadecimal with as many digits as its width takes, neither more nor
/// fewer.
pub proof fn registers_print_at_their_width(
    value: RegisterValue,
    regs: UserRegs,
    base: BaseReg,
    slice: Slice,
)
    requires
        reads_as(value, regs, base, slice),
    ensures
        zero_padded(digits(value.value as nat, 16), ((value.bits + 3) / 4) as nat).len() == (
        value.bits + 3) / 4,
{
    assert(value.value < pow2(slice.bits())) by {
        lemma2_to64();
    }
    hex_digits_fit(value.value as nat, slice.bits());
}

/// The names of the base registers are in lower case.
proof fn lemma_canonical_names(base: BaseReg)
    ensures
        alias_name(base, Slice::Qword) matches Some(name) && names(name, base, Slice::Qword),
{
    reveal_strlit("rax");
    reveal_strlit("rbx");
    reveal_strlit("rcx");
    reveal_strlit("rdx");
    reveal_strlit("rsi");
    reveal_strlit("rdi");
    reveal_strlit("rbp");
    reveal_strlit("rsp");
    reveal_strlit("r8");
    reveal_strlit("r9");
    reveal_strlit("r10");
    reveal_strlit("r11");
    reveal_strlit("r12");
    reveal_strlit("r13");
    reveal_strlit("r14");
    reveal_strlit("r15");
    reveal_strlit("rip");
    reveal_strlit("rflags");
    let name = alias_name(base, Slice::Qword)->0;
    assert(lowercase(name) =~= name);
}

/// The list of the canonical registers and the read of a single one agree.
pub proof fn the_list_agrees_with_single_reads(
    regs: UserRegs,
    values: Seq<RegisterValue>,
    i: int,
    result: Result<RegisterValue, DebugError>,
)
    requires
        shows_all(regs, values),
        0 <= i < values.len(),
        read_gives(regs, values[i].name@, result),
    ensures
        result matches Ok(value) && value.name@ == values[i].name@ && value.bits == values[i].bits
            && value.value == values[i].value,
{
    let base = canonical_order()[i];
    lemma_canonical_names(base);
    assert(reads_as(values[i], regs, base, Slice::Qword));
    assert(names(values[i].name@, base, Slice::Qword));
}

} // verus!
