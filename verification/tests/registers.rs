use dbg_rs::aliases::{spec_by_name, BaseReg, RegisterSpec};
use dbg_rs::domain::DebugError;
use dbg_rs::registers::{
    base_value, bit_mask, extract_value, read_all_gpr, read_register, set_base_value,
    write_register, UserRegs,
};

fn empty_regs() -> UserRegs {
    UserRegs::default()
}

#[test]
fn eax_write_zero_extends_rax() {
    let mut regs = empty_regs();
    regs.rax = 0xFFFF_0000_1111_2222;

    write_register(&mut regs, "eax", 0xAABB_CCDD).expect("eax write should work");

    let rax = read_register(&regs, "rax").expect("rax read should work");
    assert_eq!(rax.value, 0x0000_0000_AABB_CCDD);
}

#[test]
fn ah_write_updates_only_high_byte_of_low_word() {
    let mut regs = empty_regs();
    regs.rax = 0x1122_3344_5566_7788;

    write_register(&mut regs, "ah", 0xAB).expect("ah write should work");

    let rax = read_register(&regs, "rax").expect("rax read should work");
    assert_eq!(rax.value, 0x1122_3344_5566_AB88);
}

#[test]
fn read_aliases_match_expected_slices() {
    let mut regs = empty_regs();
    regs.rax = 0x1122_3344_5566_7788;

    assert_eq!(read_register(&regs, "eax").expect("eax").value, 0x5566_7788);
    assert_eq!(read_register(&regs, "ax").expect("ax").value, 0x7788);
    assert_eq!(read_register(&regs, "al").expect("al").value, 0x88);
    assert_eq!(read_register(&regs, "ah").expect("ah").value, 0x77);
}

#[test]
fn unknown_register_fails() {
    let regs = empty_regs();
    let err = read_register(&regs, "totally_fake_reg").expect_err("must fail");
    assert!(err.to_string().contains("unknown register"));
}

#[test]
fn every_name_reads_back_what_was_written() {
    let names = [
        ("rax", 64), ("eax", 32), ("ax", 16), ("al", 8), ("ah", 8),
        ("rbx", 64), ("ebx", 32), ("bx", 16), ("bl", 8), ("bh", 8),
        ("rcx", 64), ("ecx", 32), ("cx", 16), ("cl", 8), ("ch", 8),
        ("rdx", 64), ("edx", 32), ("dx", 16), ("dl", 8), ("dh", 8),
        ("rsi", 64), ("esi", 32), ("si", 16), ("sil", 8),
        ("rdi", 64), ("edi", 32), ("di", 16), ("dil", 8),
        ("rbp", 64), ("ebp", 32), ("bp", 16), ("bpl", 8),
        ("rsp", 64), ("esp", 32), ("sp", 16), ("spl", 8),
        ("r8", 64), ("r8d", 32), ("r8w", 16), ("r8b", 8),
        ("r15", 64), ("r15d", 32), ("r15w", 16), ("r15b", 8),
        ("rip", 64), ("rflags", 64),
    ];
    for (name, bits) in names {
        let mut regs = empty_regs();
        let wrote = write_register(&mut regs, name, 0xF1E2_D3C4_B5A6_9788).expect(name);
        let mask = if bits == 64 { u64::MAX } else { (1u64 << bits) - 1 };
        assert_eq!(wrote.value, 0xF1E2_D3C4_B5A6_9788 & mask, "{name}");
        assert_eq!(wrote.name, name);
        assert_eq!(wrote.bits, bits);
        let read = read_register(&regs, name).expect(name);
        assert_eq!(read, wrote);
        let shouted = read_register(&regs, &name.to_uppercase()).expect(name);
        assert_eq!(shouted, wrote);
    }
}

#[test]
fn a_write_leaves_the_other_registers_alone() {
    let mut regs = empty_regs();
    regs.rbx = 7;
    regs.orig_rax = 8;
    regs.cs = 9;
    let before = regs;
    write_register(&mut regs, "cl", 0x1FF).expect("cl");
    assert_eq!(regs, UserRegs { rcx: 0xFF, ..before });
    write_register(&mut regs, "CH", 0x12).expect("ch");
    assert_eq!(regs, UserRegs { rcx: 0x12FF, ..before });
    assert!(matches!(
        write_register(&mut regs, "zmm0", 1),
        Err(DebugError::UnknownRegister(name)) if name == "zmm0"
    ));
    assert_eq!(regs, UserRegs { rcx: 0x12FF, ..before });
}

#[test]
fn writing_eax_back_can_clear_bits() {
    let mut regs = empty_regs();
    regs.rax = 0x1_0000_0001;
    let eax = read_register(&regs, "eax").expect("eax").value;
    write_register(&mut regs, "eax", eax).expect("eax");
    assert_eq!(regs.rax, 1);
    regs.rax = 0x1_0000_0001;
    let ax = read_register(&regs, "ax").expect("ax").value;
    write_register(&mut regs, "ax", ax).expect("ax");
    assert_eq!(regs.rax, 0x1_0000_0001);
}

#[test]
fn the_canonical_registers_come_in_order() {
    let mut regs = empty_regs();
    regs.rip = 0x40_1000;
    regs.eflags = 0x246;
    regs.r15 = u64::MAX;
    let all = read_all_gpr(&regs);
    let names: Vec<&str> = all.iter().map(|reg| reg.name).collect();
    assert_eq!(
        names,
        [
            "rax", "rbx", "rcx", "rdx", "rsi", "rdi", "rbp", "rsp", "r8", "r9", "r10", "r11",
            "r12", "r13", "r14", "r15", "rip", "rflags"
        ]
    );
    assert!(all.iter().all(|reg| reg.bits == 64));
    assert_eq!(all[15].value, u64::MAX);
    assert_eq!(all[16].value, 0x40_1000);
    assert_eq!(all[17].value, 0x246);
    for reg in &all {
        assert_eq!(read_register(&regs, reg.name).expect(reg.name), *reg);
    }
}

#[test]
fn slices_are_cut_by_width_and_place() {
    assert_eq!(bit_mask(0), 0);
    assert_eq!(bit_mask(8), 0xFF);
    assert_eq!(bit_mask(63), u64::MAX >> 1);
    assert_eq!(bit_mask(64), u64::MAX);
    assert_eq!(extract_value(0x1122_3344, 8, 8), 0x33);
    assert_eq!(extract_value(u64::MAX, 64, 0), u64::MAX);
}

#[test]
fn entries_say_where_an_alias_lies() {
    let ah = spec_by_name("ah").expect("ah");
    assert_eq!((ah.name, ah.bits, ah.lsb, ah.zero_extend_64), ("ah", 8, 8, false));
    assert_eq!(ah.base, BaseReg::Rax);
    let r9d = spec_by_name("R9D").expect("r9d");
    assert_eq!((r9d.name, r9d.bits, r9d.lsb, r9d.zero_extend_64), ("r9d", 32, 0, true));
    assert!(spec_by_name("").is_none());
    assert!(spec_by_name("raxx").is_none());
    let made = RegisterSpec::new("cl", BaseReg::Rcx, 8, 0, false);
    assert_eq!((made.name, made.bits, made.lsb), ("cl", 8, 0));
}

#[test]
fn base_registers_are_set_and_read() {
    let mut regs = empty_regs();
    set_base_value(&mut regs, BaseReg::Rflags, 0x202);
    assert_eq!(regs.eflags, 0x202);
    assert_eq!(base_value(&regs, BaseReg::Rflags), 0x202);
    assert_eq!(base_value(&regs, BaseReg::Rip), 0);
}
