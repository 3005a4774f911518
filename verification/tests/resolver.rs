use pcemu::cpu8086::operand::{AddrType, DisplacementType, OpcodeParams, Operand};
use pcemu::cpu8086::registers::{Reg16, SegReg};
use pcemu::cpu8086::Cpu8086;
use pcemu::hardware::IbmPc5150Machine;

fn machine() -> IbmPc5150Machine {
    let mut machine = IbmPc5150Machine::new(vec![0; 0x2000]);
    machine.cpu.regs.writeseg16(SegReg::CS, 0);
    machine.cpu.regs.ip = 0x100;
    machine
}

#[test]
fn test_modrm() {
    let mut machine = IbmPc5150Machine::new(vec![0; 0x2000]);
    for modrm in 0..=0xffu8 {
        machine
            .cpu
            .get_opcode_params_from_modrm(&mut machine.hardware, modrm);
    }
}

#[test]
fn every_addressing_byte_resolves_to_its_fields() {
    for modrm in 0..=0xffu8 {
        let mut machine = machine();
        let params = machine
            .cpu
            .get_opcode_params_from_modrm(&mut machine.hardware, modrm);
        assert_eq!(params.reg, (modrm >> 3) & 7);
        let consumed = machine.cpu.regs.ip.wrapping_sub(0x100);
        match modrm >> 6 {
            3 => {
                assert_eq!(params.rm, Operand::Register(modrm & 7));
                assert_eq!(consumed, 0);
            }
            2 => {
                assert!(matches!(params.rm, Operand::Address(_, _)));
                assert_eq!(consumed, 2);
            }
            1 => {
                assert!(matches!(params.rm, Operand::Address(_, _)));
                assert_eq!(consumed, 1);
            }
            _ => {
                assert!(matches!(params.rm, Operand::Address(_, _)));
                assert_eq!(consumed, if modrm & 7 == 6 { 2 } else { 0 });
            }
        }
    }
}

#[test]
fn addr_type_follows_the_low_three_bits() {
    assert_eq!(Cpu8086::get_addr_type_from_modrm(0x00), Some(AddrType::BxSi));
    assert_eq!(Cpu8086::get_addr_type_from_modrm(0x01), Some(AddrType::BxDi));
    assert_eq!(Cpu8086::get_addr_type_from_modrm(0x02), Some(AddrType::BpSi));
    assert_eq!(Cpu8086::get_addr_type_from_modrm(0x03), Some(AddrType::BpDi));
    assert_eq!(Cpu8086::get_addr_type_from_modrm(0x04), Some(AddrType::Si));
    assert_eq!(Cpu8086::get_addr_type_from_modrm(0x05), Some(AddrType::Di));
    assert_eq!(Cpu8086::get_addr_type_from_modrm(0x06), None);
    assert_eq!(Cpu8086::get_addr_type_from_modrm(0x46), Some(AddrType::Bp));
    assert_eq!(Cpu8086::get_addr_type_from_modrm(0x86), Some(AddrType::Bp));
    assert_eq!(Cpu8086::get_addr_type_from_modrm(0x07), Some(AddrType::Bx));
    assert_eq!(Cpu8086::get_addr_type_from_modrm(0x3f), Some(AddrType::Bx));
}

#[test]
fn disp_type_follows_the_mode() {
    assert_eq!(Cpu8086::get_disp_type_from_modrm(0x00), None);
    assert_eq!(Cpu8086::get_disp_type_from_modrm(0x06), Some(DisplacementType::Word));
    assert_eq!(Cpu8086::get_disp_type_from_modrm(0x0e), Some(DisplacementType::Word));
    assert_eq!(Cpu8086::get_disp_type_from_modrm(0x40), Some(DisplacementType::Byte));
    assert_eq!(Cpu8086::get_disp_type_from_modrm(0x7f), Some(DisplacementType::Byte));
    assert_eq!(Cpu8086::get_disp_type_from_modrm(0x80), Some(DisplacementType::Word));
    assert_eq!(Cpu8086::get_disp_type_from_modrm(0xc0), None);
    assert_eq!(Cpu8086::get_disp_type_from_modrm(0xc6), None);
}

#[test]
fn offset_is_base_plus_displacement_with_wraparound() {
    let mut cpu = Cpu8086::new();
    cpu.regs.write16(Reg16::BX, 0x1000);
    cpu.regs.write16(Reg16::SI, 0x0234);
    cpu.regs.write16(Reg16::DI, 0xf000);
    cpu.regs.write16(Reg16::BP, 0x8000);
    assert_eq!(cpu.get_offset(AddrType::BxSi, 0x0001), 0x1235);
    assert_eq!(cpu.get_offset(AddrType::BxDi, 0x0000), 0x0000);
    assert_eq!(cpu.get_offset(AddrType::BpSi, 0x0010), 0x8244);
    assert_eq!(cpu.get_offset(AddrType::BpDi, 0x0000), 0x7000);
    assert_eq!(cpu.get_offset(AddrType::Si, 0xffff), 0x0233);
    assert_eq!(cpu.get_offset(AddrType::Di, 0x1000), 0x0000);
    assert_eq!(cpu.get_offset(AddrType::Bp, 0x8000), 0x0000);
    assert_eq!(cpu.get_offset(AddrType::Bx, 0x0002), 0x1002);
}

#[test]
fn bp_based_operands_default_to_the_stack_segment() {
    let cpu = Cpu8086::new();
    assert_eq!(cpu.get_operand_seg(Some(AddrType::BpSi), None), SegReg::SS);
    assert_eq!(cpu.get_operand_seg(Some(AddrType::BpDi), None), SegReg::SS);
    assert_eq!(
        cpu.get_operand_seg(Some(AddrType::Bp), Some(DisplacementType::Byte)),
        SegReg::SS
    );
    assert_eq!(
        cpu.get_operand_seg(Some(AddrType::Bp), Some(DisplacementType::Word)),
        SegReg::SS
    );
    assert_eq!(cpu.get_operand_seg(Some(AddrType::BxSi), None), SegReg::DS);
    assert_eq!(cpu.get_operand_seg(Some(AddrType::Bx), None), SegReg::DS);
    assert_eq!(
        cpu.get_operand_seg(None, Some(DisplacementType::Word)),
        SegReg::DS
    );
}

#[test]
fn a_segment_override_always_wins() {
    let mut cpu = Cpu8086::new();
    cpu.seg_override = Some(SegReg::ES);
    assert_eq!(cpu.get_operand_seg(Some(AddrType::Bp), None), SegReg::ES);
    assert_eq!(cpu.get_operand_seg(Some(AddrType::Bx), None), SegReg::ES);
    assert_eq!(cpu.get_operand_seg(None, None), SegReg::ES);
}

#[test]
fn direct_address_takes_a_word_displacement() {
    let mut machine = machine();
    machine.hardware.ram[0x100] = 0x34;
    machine.hardware.ram[0x101] = 0x12;
    let params = machine
        .cpu
        .get_opcode_params_from_modrm(&mut machine.hardware, 0x1e);
    assert_eq!(
        params,
        OpcodeParams {
            reg: 3,
            rm: Operand::Address(SegReg::DS, 0x1234)
        }
    );
    assert_eq!(machine.cpu.regs.ip, 0x102);
}

#[test]
fn byte_displacement_is_sign_extended() {
    let mut machine = machine();
    machine.cpu.regs.write16(Reg16::BX, 0x0100);
    machine.hardware.ram[0x100] = 0xfe;
    let params = machine
        .cpu
        .get_opcode_params_from_modrm(&mut machine.hardware, 0x47);
    assert_eq!(
        params,
        OpcodeParams {
            reg: 0,
            rm: Operand::Address(SegReg::DS, 0x00fe)
        }
    );
    assert_eq!(machine.cpu.regs.ip, 0x101);
}

#[test]
fn word_displacement_wraps_around_the_segment() {
    let mut machine = machine();
    machine.cpu.regs.write16(Reg16::BP, 0xffff);
    machine.cpu.regs.write16(Reg16::DI, 0x0003);
    machine.hardware.ram[0x100] = 0x00;
    machine.hardware.ram[0x101] = 0x10;
    let params = machine
        .cpu
        .get_opcode_params_from_modrm(&mut machine.hardware, 0x93);
    assert_eq!(
        params,
        OpcodeParams {
            reg: 2,
            rm: Operand::Address(SegReg::SS, 0x1002)
        }
    );
    assert_eq!(machine.cpu.regs.ip, 0x102);
}

#[test]
fn register_direct_consumes_nothing() {
    let mut machine = machine();
    let params = machine
        .cpu
        .get_opcode_params_from_modrm(&mut machine.hardware, 0xd9);
    assert_eq!(
        params,
        OpcodeParams {
            reg: 3,
            rm: Operand::Register(1)
        }
    );
    assert_eq!(machine.cpu.regs.ip, 0x100);
}
