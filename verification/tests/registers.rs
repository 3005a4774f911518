use pcemu::cpu286::registers::{
    Flags as Flags286, Registers as Registers286, SegmentRegister,
};
use pcemu::cpu8086::alu::{
    adc16, add16, add8, compare16, compare8, dec16, dec8, inc16, inc8, logic16, logic8, mul16,
    parity_even, pzs16, pzs8, shift8_by, shl8, shr8, sub16, sub8,
};
use pcemu::cpu8086::registers::{Flags, Reg16, Reg8, Registers, SegReg};

#[test]
fn registers_start_at_the_reset_vector() {
    let regs = Registers::new();
    assert_eq!(regs.ip, 0xfff0);
    assert_eq!(regs.gprs, [0; 8]);
    assert_eq!(regs.seg_regs, [0, 0xf000, 0, 0]);
    assert_eq!(regs.flags.bits(), 0);
}

#[test]
fn segment_write_then_read_gives_the_selector_back() {
    for value in 0..=0xffffu16 {
        let mut regs = Registers::new();
        regs.writeseg16(SegReg::CS, value);
        assert_eq!(regs.readseg16(SegReg::CS), value);
        assert_eq!(regs.readseg16(SegReg::ES), 0);
        assert_eq!(regs.readseg16(SegReg::SS), 0);
        assert_eq!(regs.readseg16(SegReg::DS), 0);
    }
}

#[test]
fn each_segment_register_has_its_own_slot() {
    let mut regs = Registers::new();
    regs.writeseg16(SegReg::ES, 1);
    regs.writeseg16(SegReg::CS, 2);
    regs.writeseg16(SegReg::SS, 3);
    regs.writeseg16(SegReg::DS, 4);
    assert_eq!(regs.seg_regs, [1, 2, 3, 4]);
}

#[test]
fn byte_registers_are_halves_of_the_word_registers() {
    let mut regs = Registers::new();
    regs.write16(Reg16::AX, 0x1234);
    assert_eq!(regs.read8(Reg8::AL), 0x34);
    assert_eq!(regs.read8(Reg8::AH), 0x12);
    regs.write8(Reg8::AL, 0xff);
    assert_eq!(regs.read16(Reg16::AX), 0x12ff);
    regs.write8(Reg8::AH, 0x00);
    assert_eq!(regs.read16(Reg16::AX), 0x00ff);
    regs.write8(Reg8::CH, 0xab);
    regs.write8(Reg8::CL, 0xcd);
    regs.write8(Reg8::DH, 0x01);
    regs.write8(Reg8::DL, 0x02);
    regs.write8(Reg8::BH, 0x03);
    regs.write8(Reg8::BL, 0x04);
    assert_eq!(regs.read16(Reg16::CX), 0xabcd);
    assert_eq!(regs.read16(Reg16::DX), 0x0102);
    assert_eq!(regs.read16(Reg16::BX), 0x0304);
    assert_eq!(regs.gprs, [0x00ff, 0xabcd, 0x0102, 0x0304, 0, 0, 0, 0]);
}

#[test]
fn word_registers_read_back_what_was_written() {
    let regs16 = [
        Reg16::AX,
        Reg16::CX,
        Reg16::DX,
        Reg16::BX,
        Reg16::SP,
        Reg16::BP,
        Reg16::SI,
        Reg16::DI,
    ];
    let mut regs = Registers::new();
    for (i, reg) in regs16.iter().enumerate() {
        regs.write16(*reg, 0x1000 + i as u16);
    }
    for (i, reg) in regs16.iter().enumerate() {
        assert_eq!(regs.read16(*reg), 0x1000 + i as u16);
        assert_eq!(regs.gprs[i], 0x1000 + i as u16);
    }
}

#[test]
fn flags_word_reads_with_its_fixed_bits() {
    let mut regs = Registers::new();
    assert_eq!(regs.read16(Reg16::FLAGS), 0xf002);
    regs.write16(Reg16::FLAGS, 0x0fff);
    // bits 3 and 5 have no name
    assert_eq!(regs.flags.bits(), 0x0fd7);
    assert_eq!(regs.read16(Reg16::FLAGS), 0xffd7);
    regs.write16(Reg16::FLAGS, 0x0000);
    assert_eq!(regs.flags.bits(), 0);
    assert_eq!(regs.read16(Reg16::FLAGS), 0xf002);
}

#[test]
fn register_numbers() {
    assert_eq!(Reg8::from_num(0), Some(Reg8::AL));
    assert_eq!(Reg8::from_num(4), Some(Reg8::AH));
    assert_eq!(Reg8::from_num(7), Some(Reg8::BH));
    assert_eq!(Reg8::from_num(8), None);
    assert_eq!(Reg16::from_num(0), Some(Reg16::AX));
    assert_eq!(Reg16::from_num(4), Some(Reg16::SP));
    assert_eq!(Reg16::from_num(7), Some(Reg16::DI));
    assert_eq!(Reg16::from_num(8), Some(Reg16::FLAGS));
    assert_eq!(Reg16::from_num(9), None);
    assert_eq!(SegReg::from_num(0), Some(SegReg::ES));
    assert_eq!(SegReg::from_num(1), Some(SegReg::CS));
    assert_eq!(SegReg::from_num(2), Some(SegReg::SS));
    assert_eq!(SegReg::from_num(3), Some(SegReg::DS));
    assert_eq!(SegReg::from_num(4), None);
}

#[test]
fn flags_behave_as_a_set_of_bits() {
    let mut flags = Flags::empty();
    assert_eq!(flags.bits(), 0);
    assert!(!flags.contains(Flags::CARRY));
    flags.set(Flags::CARRY, true);
    flags.set(Flags::ZERO, true);
    assert_eq!(flags.bits(), 0x0041);
    assert!(flags.contains(Flags::CARRY));
    assert!(flags.contains(Flags::ZERO));
    assert!(!flags.contains(Flags::SIGN));
    flags.set(Flags::CARRY, false);
    assert_eq!(flags.bits(), 0x0040);
    flags.insert(Flags::OVERFLOW);
    flags.remove(Flags::ZERO);
    assert_eq!(flags.bits(), 0x0800);
    assert_eq!(Flags::all().bits(), 0xffd7);
    assert_eq!(Flags::default().bits(), 0xf002);
    assert_eq!(Flags::from_bits_truncate(0xffff).bits(), 0xffd7);
    assert_eq!(Flags::from_bits(0x0041), Some(Flags { bits: 0x0041 }));
    assert_eq!(Flags::from_bits(0x0008), None);
    assert_eq!(Flags::from_bits(0x0020), None);
}

#[test]
fn add_then_sub_recovers_the_first_operand() {
    for a in 0..=0xffu8 {
        for b in 0..=0xffu8 {
            let (sum, after_add) = add8(Flags::empty(), a, b);
            assert_eq!(sum, a.wrapping_add(b));
            let (back, after_sub) = sub8(after_add, sum, b);
            assert_eq!(back, a);
            assert_eq!(after_sub, compare8(after_add, sum, b));
        }
    }
}

#[test]
fn add_then_sub_recovers_words() {
    for (a, b) in [
        (0u16, 0u16),
        (0xffff, 1),
        (0x8000, 0x8000),
        (0x1234, 0xfedc),
        (0x7fff, 0x7fff),
    ] {
        let (sum, after_add) = add16(Flags::empty(), a, b);
        let (back, after_sub) = sub16(after_add, sum, b);
        assert_eq!(back, a);
        assert_eq!(after_sub, compare16(after_add, sum, b));
    }
}

#[test]
fn add8_flag_rules() {
    // 0xff + 0x01 = 0x00: zero, even parity, nibble carry; the operand's
    // high bit is clear, so no carry is seen
    let (r, f) = add8(Flags::empty(), 0xff, 0x01);
    assert_eq!(r, 0);
    assert_eq!(f.bits(), Flags::ZERO | Flags::PARITY | Flags::ADJUST);
    // 0x01 + 0xff = 0x00: the operand's high bit exceeds the result's
    let (r, f) = add8(Flags::empty(), 0x01, 0xff);
    assert_eq!(r, 0);
    assert_eq!(
        f.bits(),
        Flags::ZERO | Flags::PARITY | Flags::ADJUST | Flags::CARRY
    );
    // 0x80 + 0x80 = 0x00: signs agree and differ from the result's
    let (r, f) = add8(Flags::empty(), 0x80, 0x80);
    assert_eq!(r, 0);
    assert_eq!(
        f.bits(),
        Flags::ZERO | Flags::PARITY | Flags::OVERFLOW | Flags::CARRY
    );
    // 0x40 + 0x40 = 0x80
    let (r, f) = add8(Flags::empty(), 0x40, 0x40);
    assert_eq!(r, 0x80);
    assert_eq!(f.bits(), Flags::SIGN | Flags::OVERFLOW);
}

#[test]
fn sub8_flag_rules() {
    let (r, f) = sub8(Flags::empty(), 0x00, 0x01);
    assert_eq!(r, 0xff);
    assert_eq!(f.bits(), Flags::SIGN | Flags::PARITY | Flags::ADJUST);
    let (r, f) = sub8(Flags::empty(), 0x00, 0x80);
    assert_eq!(r, 0x80);
    assert_eq!(f.bits(), Flags::SIGN | Flags::OVERFLOW | Flags::CARRY);
    let (r, f) = sub8(Flags::empty(), 0x80, 0x01);
    assert_eq!(r, 0x7f);
    assert_eq!(f.bits(), Flags::OVERFLOW | Flags::ADJUST);
    let (r, f) = sub8(Flags::empty(), 0x33, 0x33);
    assert_eq!(r, 0);
    assert_eq!(f.bits(), Flags::ZERO | Flags::PARITY);
}

#[test]
fn word_arithmetic_uses_the_word_sign_bit() {
    let (r, f) = add16(Flags::empty(), 0x0080, 0x0080);
    assert_eq!(r, 0x0100);
    assert_eq!(f.bits(), Flags::PARITY);
    let (r, f) = add16(Flags::empty(), 0x4000, 0x4000);
    assert_eq!(r, 0x8000);
    assert_eq!(f.bits(), Flags::SIGN | Flags::OVERFLOW | Flags::PARITY);
    let (r, f) = sub16(Flags::empty(), 0x0000, 0x8000);
    assert_eq!(r, 0x8000);
    assert_eq!(
        f.bits(),
        Flags::SIGN | Flags::OVERFLOW | Flags::CARRY | Flags::PARITY
    );
    let mut carry = Flags::empty();
    carry.set(Flags::CARRY, true);
    let (r, f) = adc16(carry, 0xfffe, 0x0001);
    assert_eq!(r, 0x0000);
    assert_eq!(f.bits(), Flags::ZERO | Flags::PARITY | Flags::ADJUST);
    let (r, _) = adc16(Flags::empty(), 0xfffe, 0x0001);
    assert_eq!(r, 0xffff);
}

#[test]
fn logic_flags_clear_carry_and_overflow() {
    let all = Flags::all();
    assert_eq!(
        logic8(all, 0x00).bits(),
        (0xffd7 & !(Flags::CARRY | Flags::OVERFLOW | Flags::SIGN)) | Flags::ZERO | Flags::PARITY
    );
    assert_eq!(logic8(Flags::empty(), 0x81).bits(), Flags::SIGN | Flags::PARITY);
    assert_eq!(logic16(Flags::empty(), 0x8001).bits(), Flags::SIGN);
    assert_eq!(logic16(Flags::empty(), 0x0000).bits(), Flags::ZERO | Flags::PARITY);
}

#[test]
fn increment_and_decrement() {
    let mut carry = Flags::empty();
    carry.set(Flags::CARRY, true);
    let (r, f) = inc8(carry, 0xff);
    assert_eq!(r, 0);
    assert_eq!(
        f.bits(),
        Flags::CARRY | Flags::ZERO | Flags::PARITY | Flags::ADJUST
    );
    let (r, f) = inc8(Flags::empty(), 0x7f);
    assert_eq!(r, 0x80);
    assert_eq!(f.bits(), Flags::SIGN | Flags::OVERFLOW | Flags::ADJUST);
    let (r, f) = dec8(Flags::empty(), 0x80);
    assert_eq!(r, 0x7f);
    assert_eq!(f.bits(), Flags::OVERFLOW | Flags::ADJUST);
    let (r, f) = dec8(Flags::empty(), 0x00);
    assert_eq!(r, 0xff);
    assert_eq!(f.bits(), Flags::SIGN | Flags::PARITY | Flags::ADJUST);
    let (r, f) = inc16(Flags::empty(), 0x7fff);
    assert_eq!(r, 0x8000);
    assert_eq!(
        f.bits(),
        Flags::SIGN | Flags::OVERFLOW | Flags::ADJUST | Flags::PARITY
    );
    let (r, f) = dec16(Flags::empty(), 0x0001);
    assert_eq!(r, 0);
    assert_eq!(f.bits(), Flags::ZERO | Flags::PARITY);
}

#[test]
fn multiplication() {
    assert_eq!(mul16(Flags::empty(), 0, 0xffff), (0, 0, Flags::empty()));
    assert_eq!(
        mul16(Flags::empty(), 0xffff, 0xffff),
        (
            0x0001,
            0xfffe,
            Flags {
                bits: Flags::CARRY | Flags::OVERFLOW
            }
        )
    );
    assert_eq!(mul16(Flags::all(), 0x00ff, 0x0101).0, 0xffff);
    assert_eq!(
        mul16(Flags::all(), 0x00ff, 0x0101).2.bits(),
        0xffd7 & !(Flags::CARRY | Flags::OVERFLOW)
    );
}

#[test]
fn shifts() {
    assert_eq!(shl8(Flags::empty(), 0x40).0, 0x80);
    assert_eq!(
        shl8(Flags::empty(), 0x40).1.bits(),
        Flags::OVERFLOW | Flags::SIGN
    );
    assert_eq!(shr8(Flags::empty(), 0x01).0, 0x00);
    assert_eq!(
        shr8(Flags::empty(), 0x01).1.bits(),
        Flags::CARRY | Flags::ZERO | Flags::PARITY
    );
    assert_eq!(shift8_by(true, Flags::empty(), 0xff, 8).0, 0x00);
    assert_eq!(
        shift8_by(true, Flags::empty(), 0xff, 8).1.bits(),
        Flags::CARRY | Flags::ZERO | Flags::PARITY
    );
    assert_eq!(shift8_by(true, Flags::empty(), 0xff, 9).1.bits(), Flags::ZERO | Flags::PARITY);
    assert_eq!(shift8_by(false, Flags::empty(), 0x80, 7).0, 0x01);
    assert_eq!(shift8_by(false, Flags::empty(), 0x80, 255).0, 0x00);
    assert_eq!(shift8_by(false, Flags::all(), 0x80, 0), (0x80, Flags::all()));
}

#[test]
fn parity_looks_at_the_low_byte() {
    assert!(parity_even(0x0000));
    assert!(!parity_even(0x0001));
    assert!(parity_even(0x00ff));
    assert!(parity_even(0x0003));
    assert!(!parity_even(0x0007));
    assert!(parity_even(0xff00));
    assert!(!parity_even(0x0180));
    assert_eq!(pzs8(Flags::empty(), 0x03).bits(), Flags::PARITY);
    assert_eq!(pzs16(Flags::empty(), 0x0100).bits(), Flags::PARITY);
}

#[test]
fn compare_is_subtraction_without_the_result() {
    assert_eq!(compare8(Flags::empty(), 5, 5).bits(), Flags::ZERO | Flags::PARITY);
    assert_eq!(
        compare16(Flags::empty(), 0x0001, 0x8000).bits(),
        Flags::SIGN | Flags::OVERFLOW | Flags::CARRY
    );
}

#[test]
fn at_registers_start_at_the_top_of_the_address_space() {
    let regs = Registers286::new();
    assert_eq!(regs.ip, 0xfff0);
    assert_eq!(regs.msw, 0xfff0);
    assert_eq!(regs.flags.bits(), 0);
    let cs = regs.readseg16(SegReg::CS);
    assert_eq!(cs.selector, 0xf000);
    assert_eq!(cs.base, 0xff0000);
    assert_eq!(cs.limit, 0xffff);
    assert_eq!(cs.rights, 0x93);
    assert!(cs.valid);
    for seg in [SegReg::ES, SegReg::SS, SegReg::DS] {
        assert_eq!(regs.readseg16(seg), SegmentRegister::new(seg));
        assert_eq!(regs.readseg16(seg).selector, 0);
        assert_eq!(regs.readseg16(seg).base, 0);
    }
}

#[test]
fn at_segment_write_derives_the_base() {
    for value in [0u16, 1, 0x0040, 0x7c00, 0xf000, 0xffff] {
        let mut regs = Registers286::new();
        assert_eq!(regs.writeseg16(SegReg::CS, value), Ok(()));
        let cs = regs.readseg16(SegReg::CS);
        assert_eq!(cs.selector, value);
        assert_eq!(cs.base, (value as u32) << 4);
        assert_eq!(cs.limit, 0xffff);
        assert_eq!(regs.readseg16(SegReg::DS).selector, 0);
    }
}

#[test]
fn at_segment_write_is_refused_in_protected_mode() {
    let mut regs = Registers286::new();
    regs.msw = 0xfff1;
    assert!(regs.writeseg16(SegReg::DS, 0x1234).is_err());
    assert_eq!(regs.readseg16(SegReg::DS).selector, 0);
    assert_eq!(regs.readseg16(SegReg::DS).base, 0);
}

#[test]
fn at_flags_have_the_privilege_and_task_bits() {
    let mut regs = Registers286::new();
    assert_eq!(regs.read16(Reg16::FLAGS), 0x0002);
    regs.write16(Reg16::FLAGS, 0xffff);
    assert_eq!(regs.flags.bits(), 0x7fd7);
    assert!(regs.flags.contains(Flags286::IOPL));
    assert!(regs.flags.contains(Flags286::NESTED_TASK));
    assert_eq!(Flags286::default().bits(), 0x0002);
    assert_eq!(Flags286::all().bits(), 0x7fd7);
    assert_eq!(Flags286::from_bits(0x8000), None);
    assert_eq!(Flags286::from_bits_truncate(0x8001).bits(), 0x0001);
    let mut flags = Flags286::empty();
    flags.set(Flags286::INTERRUPT, true);
    flags.insert(Flags286::CARRY);
    flags.remove(Flags286::INTERRUPT);
    assert_eq!(flags.bits(), 0x0001);
    regs.write8(Reg8::AH, 0x12);
    regs.write8(Reg8::AL, 0x34);
    assert_eq!(regs.read16(Reg16::AX), 0x1234);
    assert_eq!(regs.read8(Reg8::AH), 0x12);
}
