//! What each opcode does, family by family.
//!
//! Every function here starts with the instruction pointer behind the
//! opcode byte, and leaves it behind the whole instruction, or at the
//! target of a taken jump.

use vstd::prelude::*;
use crate::cpu8086::alu;
use crate::cpu8086::interrupt::interrupt;
use crate::cpu8086::strings::{is_string_opcode, string_op};
use crate::cpu8086::operand::{resolve, Operand, OpcodeParams};
use crate::cpu8086::registers::{Flags, Reg16, Reg8, Registers, SegReg};
use crate::cpu8086::{
    fetch16, fetch8, load16, load8, pop16, push16, sign_extend, store16, store8, Cpu8086,
    Cpu8086Context, Fault, Machine,
};

verus! {

/// The byte that an operand holds, and the machine after it is read.
pub open spec fn read_rm8<T: Cpu8086Context>(m: Machine<T::V>, rm: Operand) -> (u8, Machine<T::V>) {
    match rm {
        Operand::Register(number) => (m.cpu.regs.byte(Reg8::of(number).unwrap()), m),
        Operand::Address(segment, offset) => {
            let (value, bus) = load8::<T>(m.bus, m.cpu.regs.selector(segment), offset);
            (value, m.with_bus(bus))
        },
    }
}

/// The word that an operand holds, and the machine after it is read.
pub open spec fn read_rm16<T: Cpu8086Context>(m: Machine<T::V>, rm: Operand) -> (
    u16,
    Machine<T::V>,
) {
    match rm {
        Operand::Register(number) => (m.cpu.regs.word(Reg16::of(number).unwrap()), m),
        Operand::Address(segment, offset) => {
            let (value, bus) = load16::<T>(m.bus, m.cpu.regs.selector(segment), offset);
            (value, m.with_bus(bus))
        },
    }
}

/// The machine after a byte is written to an operand.
pub open spec fn write_rm8<T: Cpu8086Context>(m: Machine<T::V>, rm: Operand, value: u8) -> Machine<
    T::V,
> {
    match rm {
        Operand::Register(number) => m.with_byte(Reg8::of(number).unwrap(), value),
        Operand::Address(segment, offset) => m.with_bus(
            store8::<T>(m.bus, m.cpu.regs.selector(segment), offset, value),
        ),
    }
}

/// The machine after a word is written to an operand.
pub open spec fn write_rm16<T: Cpu8086Context>(m: Machine<T::V>, rm: Operand, value: u16) -> Machine<
    T::V,
> {
    match rm {
        Operand::Register(number) => m.with_word(Reg16::of(number).unwrap(), value),
        Operand::Address(segment, offset) => m.with_bus(
            store16::<T>(m.bus, m.cpu.regs.selector(segment), offset, value),
        ),
    }
}

/// The addressing byte fetched and resolved.
pub open spec fn decode<T: Cpu8086Context>(m: Machine<T::V>) -> (OpcodeParams, Machine<T::V>) {
    let (modrm, after) = fetch8::<T>(m);
    resolve::<T>(after, modrm)
}

/// Both byte operands of an instruction with an addressing byte: the
/// resolved byte, the value of the register, the value of the
/// register-or-memory operand, and the machine after the reads.
pub open spec fn operands8<T: Cpu8086Context>(m: Machine<T::V>) -> (
    OpcodeParams,
    u8,
    u8,
    Machine<T::V>,
) {
    let (params, decoded) = decode::<T>(m);
    let reg = decoded.cpu.regs.byte(Reg8::of(params.reg).unwrap());
    let (rm, after) = read_rm8::<T>(decoded, params.rm);
    (params, reg, rm, after)
}

/// Both word operands of an instruction with an addressing byte.
pub open spec fn operands16<T: Cpu8086Context>(m: Machine<T::V>) -> (
    OpcodeParams,
    u16,
    u16,
    Machine<T::V>,
) {
    let (params, decoded) = decode::<T>(m);
    let reg = decoded.cpu.regs.word(Reg16::of(params.reg).unwrap());
    let (rm, after) = read_rm16::<T>(decoded, params.rm);
    (params, reg, rm, after)
}

/// The machine after a byte result and its flags are stored in the
/// register of the addressing byte.
pub open spec fn result8_to_reg<B>(m: Machine<B>, params: OpcodeParams, out: (u8, Flags)) -> Machine<
    B,
> {
    m.with_flags(out.1).with_byte(Reg8::of(params.reg).unwrap(), out.0)
}

/// The machine after a word result and its flags are stored in the
/// register of the addressing byte.
pub open spec fn result16_to_reg<B>(m: Machine<B>, params: OpcodeParams, out: (u16, Flags)) -> Machine<
    B,
> {
    m.with_flags(out.1).with_word(Reg16::of(params.reg).unwrap(), out.0)
}

/// Opcodes 00 to 3F without the prefixes: the two-operand arithmetic and
/// logic instructions, and the pushes and pops of segment registers.
pub open spec fn arithmetic<T: Cpu8086Context>(m: Machine<T::V>, opcode: u8) -> (
    Machine<T::V>,
    Option<Fault>,
) {
    let (p8, reg8, rm8, m8) = operands8::<T>(m);
    let (p16, reg16, rm16, m16) = operands16::<T>(m);
    let fl8 = m8.cpu.regs.flags;
    let fl16 = m16.cpu.regs.flags;
    if opcode == 0x00 {
        let out = alu::add8_spec(fl8, reg8, rm8);
        (write_rm8::<T>(m8.with_flags(out.1), p8.rm, out.0), None)
    } else if opcode == 0x02 {
        (result8_to_reg(m8, p8, alu::add8_spec(fl8, reg8, rm8)), None)
    } else if opcode == 0x03 {
        (result16_to_reg(m16, p16, alu::add16_spec(fl16, reg16, rm16)), None)
    } else if opcode == 0x06 {
        (push16::<T>(m, m.cpu.regs.selector(SegReg::ES)), None)
    } else if opcode == 0x07 {
        let (value, popped) = pop16::<T>(m);
        (popped.with_selector(SegReg::ES, value), None)
    } else if opcode == 0x0a {
        (result8_to_reg(m8, p8, (reg8 | rm8, alu::logic8_spec(fl8, reg8 | rm8))), None)
    } else if opcode == 0x0b {
        (result16_to_reg(m16, p16, (reg16 | rm16, alu::logic16_spec(fl16, reg16 | rm16))), None)
    } else if opcode == 0x13 {
        (result16_to_reg(m16, p16, alu::adc16_spec(fl16, reg16, rm16)), None)
    } else if opcode == 0x16 {
        (push16::<T>(m, m.cpu.regs.selector(SegReg::SS)), None)
    } else if opcode == 0x1e {
        (push16::<T>(m, m.cpu.regs.selector(SegReg::DS)), None)
    } else if opcode == 0x1f {
        let (value, popped) = pop16::<T>(m);
        (popped.with_selector(SegReg::DS, value), None)
    } else if opcode == 0x22 {
        (result8_to_reg(m8, p8, (reg8 & rm8, alu::logic8_spec(fl8, reg8 & rm8))), None)
    } else if opcode == 0x23 {
        (result16_to_reg(m16, p16, (reg16 & rm16, alu::logic16_spec(fl16, reg16 & rm16))), None)
    } else if opcode == 0x24 {
        let (imm, fetched) = fetch8::<T>(m);
        let result = m.cpu.regs.byte(Reg8::AL) & imm;
        (
            fetched.with_flags(alu::logic8_spec(m.cpu.regs.flags, result)).with_byte(
                Reg8::AL,
                result,
            ),
            None,
        )
    } else if opcode == 0x2a {
        (result8_to_reg(m8, p8, alu::sub8_spec(fl8, reg8, rm8)), None)
    } else if opcode == 0x2b {
        (result16_to_reg(m16, p16, alu::sub16_spec(fl16, reg16, rm16)), None)
    } else if opcode == 0x32 {
        (result8_to_reg(m8, p8, (reg8 ^ rm8, alu::logic8_spec(fl8, reg8 ^ rm8))), None)
    } else if opcode == 0x33 {
        (result16_to_reg(m16, p16, (reg16 ^ rm16, alu::logic16_spec(fl16, reg16 ^ rm16))), None)
    } else if opcode == 0x39 {
        (m16.with_flags(alu::compare16_spec(fl16, rm16, reg16)), None)
    } else if opcode == 0x3a {
        (m8.with_flags(alu::compare8_spec(fl8, reg8, rm8)), None)
    } else if opcode == 0x3b {
        (m16.with_flags(alu::compare16_spec(fl16, reg16, rm16)), None)
    } else {
        (m, Some(Fault::UnhandledOpcode(opcode)))
    }
}

/// Opcodes 40 to 5F: increment, decrement, push and pop of the word
/// register that the low three bits of the opcode name.
pub open spec fn word_register<T: Cpu8086Context>(m: Machine<T::V>, opcode: u8) -> Machine<T::V> {
    let reg = Reg16::of(opcode % 8).unwrap();
    let value = m.cpu.regs.word(reg);
    if opcode < 0x48 {
        let out = alu::inc16_spec(m.cpu.regs.flags, value);
        m.with_flags(out.1).with_word(reg, out.0)
    } else if opcode < 0x50 {
        let out = alu::dec16_spec(m.cpu.regs.flags, value);
        m.with_flags(out.1).with_word(reg, out.0)
    } else if opcode < 0x58 {
        push16::<T>(m, value)
    } else {
        let (popped, after) = pop16::<T>(m);
        after.with_word(reg, popped)
    }
}

/// Whether the conditional jump `opcode` is taken under `flags`; none where
/// the opcode is no conditional jump that the core knows.
pub open spec fn jump_taken(flags: Flags, opcode: u8) -> Option<bool> {
    if opcode == 0x70 {
        Some(flags.has(Flags::OVERFLOW))
    } else if opcode == 0x71 {
        Some(!flags.has(Flags::OVERFLOW))
    } else if opcode == 0x72 {
        Some(flags.has(Flags::CARRY))
    } else if opcode == 0x73 {
        Some(!flags.has(Flags::CARRY))
    } else if opcode == 0x74 {
        Some(flags.has(Flags::ZERO))
    } else if opcode == 0x75 {
        Some(!flags.has(Flags::ZERO))
    } else if opcode == 0x78 {
        Some(flags.has(Flags::SIGN))
    } else if opcode == 0x79 {
        Some(!flags.has(Flags::SIGN))
    } else if opcode == 0x7a {
        Some(flags.has(Flags::PARITY))
    } else if opcode == 0x7b {
        Some(!flags.has(Flags::PARITY))
    } else {
        None
    }
}

/// A jump by a signed byte: the byte is fetched, and where the jump is
/// taken it is added to the instruction pointer, which by then is behind
/// the instruction.
pub open spec fn short_jump<T: Cpu8086Context>(m: Machine<T::V>, taken: bool) -> Machine<T::V> {
    let (distance, after) = fetch8::<T>(m);
    if taken {
        after.advanced(sign_extend(distance))
    } else {
        after
    }
}

/// Opcodes 70 to 7F: the conditional jumps.
pub open spec fn conditional_jump<T: Cpu8086Context>(m: Machine<T::V>, opcode: u8) -> (
    Machine<T::V>,
    Option<Fault>,
) {
    match jump_taken(m.cpu.regs.flags, opcode) {
        Some(taken) => (short_jump::<T>(m, taken), None),
        None => (m, Some(Fault::UnhandledOpcode(opcode))),
    }
}

/// Opcode 80: a byte operation with an immediate, chosen by the register
/// field: 1 is or, 7 is compare.
pub open spec fn immediate_group<T: Cpu8086Context>(m: Machine<T::V>) -> (
    Machine<T::V>,
    Option<Fault>,
) {
    let (params, decoded) = decode::<T>(m);
    let (imm, fetched) = fetch8::<T>(decoded);
    let (value, read) = read_rm8::<T>(fetched, params.rm);
    if params.reg == 1 {
        let result = value | imm;
        (
            write_rm8::<T>(
                read.with_flags(alu::logic8_spec(read.cpu.regs.flags, result)),
                params.rm,
                result,
            ),
            None,
        )
    } else if params.reg == 7 {
        (read.with_flags(alu::compare8_spec(read.cpu.regs.flags, value, imm)), None)
    } else {
        (fetched, Some(Fault::UnhandledGroupOp(0x80, params.reg)))
    }
}

/// Opcodes 88 to 8E: the moves between a register and a
/// register-or-memory operand.
pub open spec fn transfer<T: Cpu8086Context>(m: Machine<T::V>, opcode: u8) -> (
    Machine<T::V>,
    Option<Fault>,
) {
    let (params, decoded) = decode::<T>(m);
    if opcode == 0x88 {
        (
            write_rm8::<T>(
                decoded,
                params.rm,
                decoded.cpu.regs.byte(Reg8::of(params.reg).unwrap()),
            ),
            None,
        )
    } else if opcode == 0x89 {
        (
            write_rm16::<T>(
                decoded,
                params.rm,
                decoded.cpu.regs.word(Reg16::of(params.reg).unwrap()),
            ),
            None,
        )
    } else if opcode == 0x8a {
        let (value, read) = read_rm8::<T>(decoded, params.rm);
        (read.with_byte(Reg8::of(params.reg).unwrap(), value), None)
    } else if opcode == 0x8b {
        let (value, read) = read_rm16::<T>(decoded, params.rm);
        (read.with_word(Reg16::of(params.reg).unwrap(), value), None)
    } else if opcode == 0x8c || opcode == 0x8e {
        match SegReg::of(params.reg) {
            None => (decoded, Some(Fault::InvalidSegmentRegister(params.reg))),
            Some(segment) => if opcode == 0x8c {
                (write_rm16::<T>(decoded, params.rm, decoded.cpu.regs.selector(segment)), None)
            } else {
                let (value, read) = read_rm16::<T>(decoded, params.rm);
                (read.with_selector(segment, value), None)
            },
        }
    } else {
        (m, Some(Fault::UnhandledOpcode(opcode)))
    }
}

/// The segment of a direct memory operand: the override if one is in
/// force, else the data segment.
pub open spec fn data_segment(cpu: Cpu8086) -> SegReg {
    match cpu.seg_override {
        Some(segment) => segment,
        None => SegReg::DS,
    }
}

/// The word of flags after the low byte is loaded from `source`: the high
/// byte and bit 1 stay, and bits without a name are dropped.
pub open spec fn flags_loaded(flags: Flags, source: u8) -> Flags {
    Flags::truncated((flags.bits & 0xff02) | (source as u16))
}

/// Opcodes 96 to A1: exchange of SI and AX, the moves between AH and the
/// flags, and the loads of the accumulator from a direct address.
pub open spec fn accumulator<T: Cpu8086Context>(m: Machine<T::V>, opcode: u8) -> (
    Machine<T::V>,
    Option<Fault>,
) {
    let regs = m.cpu.regs;
    if opcode == 0x96 {
        (m.with_word(Reg16::SI, regs.word(Reg16::AX)).with_word(Reg16::AX, regs.word(Reg16::SI)), None)
    } else if opcode == 0x9e {
        (m.with_flags(flags_loaded(regs.flags, regs.byte(Reg8::AH))), None)
    } else if opcode == 0x9f {
        (m.with_byte(Reg8::AH, (regs.flags.bits & 0xd5) as u8), None)
    } else if opcode == 0xa0 {
        let (offset, fetched) = fetch16::<T>(m);
        let (value, bus) = load8::<T>(fetched.bus, regs.selector(data_segment(m.cpu)), offset);
        (fetched.with_bus(bus).with_byte(Reg8::AL, value), None)
    } else if opcode == 0xa1 {
        let (offset, fetched) = fetch16::<T>(m);
        let (value, bus) = load16::<T>(fetched.bus, regs.selector(data_segment(m.cpu)), offset);
        (fetched.with_bus(bus).with_word(Reg16::AX, value), None)
    } else {
        (m, Some(Fault::UnhandledOpcode(opcode)))
    }
}

/// Opcodes B0 to BF: the load of an immediate into the register that the
/// low bits of the opcode name, a byte below B8 and a word from there on.
pub open spec fn load_immediate<T: Cpu8086Context>(m: Machine<T::V>, opcode: u8) -> Machine<T::V> {
    if opcode < 0xb8 {
        let (imm, fetched) = fetch8::<T>(m);
        fetched.with_byte(Reg8::of(opcode % 8).unwrap(), imm)
    } else {
        let (imm, fetched) = fetch16::<T>(m);
        fetched.with_word(Reg16::of(opcode % 8).unwrap(), imm)
    }
}

/// Opcodes C4 and C5: the load of a far pointer from memory into a word
/// register and a segment register. With a register operand nothing is
/// loaded.
pub open spec fn load_far_pointer<T: Cpu8086Context>(m: Machine<T::V>, target: SegReg) -> Machine<
    T::V,
> {
    let (params, decoded) = decode::<T>(m);
    match params.rm {
        Operand::Register(_) => decoded,
        Operand::Address(segment, offset) => {
            let selector = decoded.cpu.regs.selector(segment);
            let (pointer, after_pointer) = load16::<T>(decoded.bus, selector, offset);
            let (base, after_base) = load16::<T>(after_pointer, selector, offset.wrapping_add(2));
            decoded.with_bus(after_base).with_selector(target, base).with_word(
                Reg16::of(params.reg).unwrap(),
                pointer,
            )
        },
    }
}

/// Opcodes C6 and C7: the store of an immediate to memory, a byte for C6
/// and a word for C7. The immediate follows the displacement.
pub open spec fn store_immediate<T: Cpu8086Context>(m: Machine<T::V>, opcode: u8) -> (
    Machine<T::V>,
    Option<Fault>,
) {
    let (params, decoded) = decode::<T>(m);
    match params.rm {
        Operand::Register(_) => (decoded, Some(Fault::UnsupportedOperand(opcode))),
        Operand::Address(_, _) => if opcode == 0xc6 {
            let (imm, fetched) = fetch8::<T>(decoded);
            (write_rm8::<T>(fetched, params.rm, imm), None)
        } else {
            let (imm, fetched) = fetch16::<T>(decoded);
            (write_rm16::<T>(fetched, params.rm, imm), None)
        },
    }
}

/// Opcodes D0 and D2: a shift of a byte register, by one for D0 and by the
/// count in CL for D2; the register field chooses the direction, 4 to the
/// left and 5 to the right.
pub open spec fn shift_group<T: Cpu8086Context>(m: Machine<T::V>, opcode: u8) -> (
    Machine<T::V>,
    Option<Fault>,
) {
    let (params, decoded) = decode::<T>(m);
    let flags = decoded.cpu.regs.flags;
    match params.rm {
        Operand::Address(_, _) => (decoded, Some(Fault::UnsupportedOperand(opcode))),
        Operand::Register(number) => {
            let reg = Reg8::of(number).unwrap();
            let value = decoded.cpu.regs.byte(reg);
            if params.reg != 4 && params.reg != 5 {
                (decoded, Some(Fault::UnhandledGroupOp(opcode, params.reg)))
            } else {
                let out = if opcode == 0xd0 {
                    if params.reg == 4 {
                        alu::shl8_spec(flags, value)
                    } else {
                        alu::shr8_spec(flags, value)
                    }
                } else {
                    alu::shift8_by_spec(
                        params.reg == 4,
                        flags,
                        value,
                        decoded.cpu.regs.byte(Reg8::CL),
                    )
                };
                (decoded.with_flags(out.1).with_byte(reg, out.0), None)
            }
        },
    }
}

/// Opcodes C3 and E2 to EE: return, loop, port input and output, call and
/// the unconditional jumps. Distances count from behind the instruction.
pub open spec fn control<T: Cpu8086Context>(m: Machine<T::V>, opcode: u8) -> (
    Machine<T::V>,
    Option<Fault>,
) {
    let regs = m.cpu.regs;
    if opcode == 0xc3 {
        let (target, popped) = pop16::<T>(m);
        (popped.at(target), None)
    } else if opcode == 0xe2 {
        let count = regs.word(Reg16::CX).wrapping_sub(1);
        (short_jump::<T>(m.with_word(Reg16::CX, count), count != 0), None)
    } else if opcode == 0xe4 {
        let (port, fetched) = fetch8::<T>(m);
        let (value, bus) = T::io_read(fetched.bus, port as u16);
        (fetched.with_bus(bus).with_byte(Reg8::AL, value), None)
    } else if opcode == 0xe6 {
        let (port, fetched) = fetch8::<T>(m);
        (fetched.with_bus(T::io_write(fetched.bus, port as u16, regs.byte(Reg8::AL))), None)
    } else if opcode == 0xe8 {
        let (distance, fetched) = fetch16::<T>(m);
        let pushed = push16::<T>(fetched, fetched.cpu.regs.ip);
        (pushed.advanced(distance), None)
    } else if opcode == 0xe9 {
        let (distance, fetched) = fetch16::<T>(m);
        (fetched.advanced(distance), None)
    } else if opcode == 0xea {
        let (offset, after_offset) = fetch16::<T>(m);
        let (segment, after_segment) = fetch16::<T>(after_offset);
        (after_segment.with_selector(SegReg::CS, segment).at(offset), None)
    } else if opcode == 0xeb {
        (short_jump::<T>(m, true), None)
    } else if opcode == 0xee {
        (m.with_bus(T::io_write(m.bus, regs.word(Reg16::DX), regs.byte(Reg8::AL))), None)
    } else {
        (m, Some(Fault::UnhandledOpcode(opcode)))
    }
}

/// Opcodes F8 to FD: clear and set of the carry, interrupt and direction
/// flags.
pub open spec fn flag_control(flags: Flags, opcode: u8) -> Option<Flags> {
    if opcode == 0xf8 {
        Some(flags.with(Flags::CARRY, false))
    } else if opcode == 0xf9 {
        Some(flags.with(Flags::CARRY, true))
    } else if opcode == 0xfa {
        Some(flags.with(Flags::INTERRUPT, false))
    } else if opcode == 0xfb {
        Some(flags.with(Flags::INTERRUPT, true))
    } else if opcode == 0xfc {
        Some(flags.with(Flags::DIRECTION, false))
    } else if opcode == 0xfd {
        Some(flags.with(Flags::DIRECTION, true))
    } else {
        None
    }
}

/// Opcode F7: a word operation chosen by the register field; 4 is the
/// unsigned product of AX and the operand, which goes to DX:AX.
pub open spec fn multiply_group<T: Cpu8086Context>(m: Machine<T::V>) -> (
    Machine<T::V>,
    Option<Fault>,
) {
    let (params, decoded) = decode::<T>(m);
    if params.reg == 4 {
        let (value, read) = read_rm16::<T>(decoded, params.rm);
        let out = alu::mul16_spec(read.cpu.regs.flags, read.cpu.regs.word(Reg16::AX), value);
        (read.with_flags(out.2).with_word(Reg16::AX, out.0).with_word(Reg16::DX, out.1), None)
    } else {
        (decoded, Some(Fault::UnhandledGroupOp(0xf7, params.reg)))
    }
}

/// Opcode FE: increment (field 0) or decrement (field 1) of a byte
/// register.
pub open spec fn byte_step_group<T: Cpu8086Context>(m: Machine<T::V>) -> (
    Machine<T::V>,
    Option<Fault>,
) {
    let (params, decoded) = decode::<T>(m);
    match params.rm {
        Operand::Address(_, _) => (decoded, Some(Fault::UnsupportedOperand(0xfe))),
        Operand::Register(number) => {
            let reg = Reg8::of(number).unwrap();
            let value = decoded.cpu.regs.byte(reg);
            if params.reg == 0 {
                let out = alu::inc8_spec(decoded.cpu.regs.flags, value);
                (decoded.with_flags(out.1).with_byte(reg, out.0), None)
            } else if params.reg == 1 {
                let out = alu::dec8_spec(decoded.cpu.regs.flags, value);
                (decoded.with_flags(out.1).with_byte(reg, out.0), None)
            } else {
                (decoded, Some(Fault::UnhandledGroupOp(0xfe, params.reg)))
            }
        },
    }
}

/// Opcode FF: increment (field 0) or decrement (field 1) of a word
/// register, or a far jump through a pointer in memory (field 5).
pub open spec fn word_step_group<T: Cpu8086Context>(m: Machine<T::V>) -> (
    Machine<T::V>,
    Option<Fault>,
) {
    let (params, decoded) = decode::<T>(m);
    if params.reg == 0 || params.reg == 1 {
        match params.rm {
            Operand::Address(_, _) => (decoded, Some(Fault::UnsupportedOperand(0xff))),
            Operand::Register(number) => {
                let reg = Reg16::of(number).unwrap();
                let value = decoded.cpu.regs.word(reg);
                let out = if params.reg == 0 {
                    alu::inc16_spec(decoded.cpu.regs.flags, value)
                } else {
                    alu::dec16_spec(decoded.cpu.regs.flags, value)
                };
                (decoded.with_flags(out.1).with_word(reg, out.0), None)
            },
        }
    } else if params.reg == 5 {
        match params.rm {
            Operand::Register(_) => (decoded, Some(Fault::UnsupportedOperand(0xff))),
            Operand::Address(segment, offset) => {
                let selector = decoded.cpu.regs.selector(segment);
                let (target, after_target) = load16::<T>(decoded.bus, selector, offset);
                let (base, after_base) = load16::<T>(after_target, selector, offset.wrapping_add(2));
                (decoded.with_bus(after_base).with_selector(SegReg::CS, base).at(target), None)
            },
        }
    } else {
        (decoded, Some(Fault::UnhandledGroupOp(0xff, params.reg)))
    }
}

/// A family's outcome as the outcome of an instruction that sends nothing
/// to the console.
pub open spec fn silent<B>(outcome: (Machine<B>, Option<Fault>)) -> (
    Machine<B>,
    Result<Option<u8>, Fault>,
) {
    match outcome.1 {
        None => (outcome.0, Ok(None)),
        Some(fault) => (outcome.0, Err(fault)),
    }
}

/// What the instruction with the opcode `opcode` does on the machine `m`,
/// whose instruction pointer is behind the opcode, and the character it
/// sends to the console. An opcode without an operation is a fault.
#[verifier::opaque]
pub open spec fn execute<T: Cpu8086Context>(m: Machine<T::V>, opcode: u8) -> (
    Machine<T::V>,
    Result<Option<u8>, Fault>,
) {
    if opcode < 0x40 {
        silent(arithmetic::<T>(m, opcode))
    } else if opcode < 0x60 {
        (word_register::<T>(m, opcode), Ok(None))
    } else if 0x70 <= opcode < 0x80 {
        silent(conditional_jump::<T>(m, opcode))
    } else if opcode == 0x80 {
        silent(immediate_group::<T>(m))
    } else if 0x88 <= opcode <= 0x8e {
        silent(transfer::<T>(m, opcode))
    } else if is_string_opcode(opcode) {
        (string_op::<T>(m, opcode), Ok(None))
    } else if 0x90 <= opcode < 0xb0 {
        silent(accumulator::<T>(m, opcode))
    } else if 0xb0 <= opcode < 0xc0 {
        (load_immediate::<T>(m, opcode), Ok(None))
    } else if opcode == 0xc4 {
        (load_far_pointer::<T>(m, SegReg::ES), Ok(None))
    } else if opcode == 0xc5 {
        (load_far_pointer::<T>(m, SegReg::DS), Ok(None))
    } else if opcode == 0xc6 || opcode == 0xc7 {
        silent(store_immediate::<T>(m, opcode))
    } else if opcode == 0xcd {
        let (vector, fetched) = fetch8::<T>(m);
        interrupt::<T>(fetched, vector)
    } else if opcode == 0xd0 || opcode == 0xd2 {
        silent(shift_group::<T>(m, opcode))
    } else if opcode == 0xf7 {
        silent(multiply_group::<T>(m))
    } else if opcode == 0xfe {
        silent(byte_step_group::<T>(m))
    } else if opcode == 0xff {
        silent(word_step_group::<T>(m))
    } else {
        match flag_control(m.cpu.regs.flags, opcode) {
            Some(flags) => (m.with_flags(flags), Ok(None)),
            None => silent(control::<T>(m, opcode)),
        }
    }
}

impl Cpu8086 {
    /// Reads the byte that an operand holds.
    pub fn load_rm8<T: Cpu8086Context>(&mut self, ctx: &mut T, rm: Operand) -> (value: u8)
        requires
            old(ctx).inv(),
            rm.wf(),
        ensures
            final(ctx).inv(),
            (value, final(self).on(final(ctx)@)) == read_rm8::<T>(old(self).on(old(ctx)@), rm),
    {
        match rm {
            Operand::Register(number) => self.regs.read8(Reg8::from_num(number).unwrap()),
            Operand::Address(segment, offset) => {
                let selector = self.regs.readseg16(segment);
                self.mem_read_byte(ctx, selector, offset)
            },
        }
    }

    /// Reads the word that an operand holds.
    pub fn load_rm16<T: Cpu8086Context>(&mut self, ctx: &mut T, rm: Operand) -> (value: u16)
        requires
            old(ctx).inv(),
            rm.wf(),
        ensures
            final(ctx).inv(),
            (value, final(self).on(final(ctx)@)) == read_rm16::<T>(old(self).on(old(ctx)@), rm),
    {
        match rm {
            Operand::Register(number) => self.regs.read16(Reg16::from_num(number).unwrap()),
            Operand::Address(segment, offset) => {
                let selector = self.regs.readseg16(segment);
                self.mem_read_word(ctx, selector, offset)
            },
        }
    }

    /// Writes a byte to an operand.
    pub fn store_rm8<T: Cpu8086Context>(&mut self, ctx: &mut T, rm: Operand, value: u8)
        requires
            old(ctx).inv(),
            rm.wf(),
        ensures
            final(ctx).inv(),
            final(self).on(final(ctx)@) == write_rm8::<T>(old(self).on(old(ctx)@), rm, value),
    {
        match rm {
            Operand::Register(number) => self.regs.write8(Reg8::from_num(number).unwrap(), value),
            Operand::Address(segment, offset) => {
                let selector = self.regs.readseg16(segment);
                self.mem_write_byte(ctx, selector, offset, value)
            },
        }
    }

    /// Writes a word to an operand.
    pub fn store_rm16<T: Cpu8086Context>(&mut self, ctx: &mut T, rm: Operand, value: u16)
        requires
            old(ctx).inv(),
            rm.wf(),
        ensures
            final(ctx).inv(),
            final(self).on(final(ctx)@) == write_rm16::<T>(old(self).on(old(ctx)@), rm, value),
    {
        match rm {
            Operand::Register(number) => self.regs.write16(
                Reg16::from_num(number).unwrap(),
                value,
            ),
            Operand::Address(segment, offset) => {
                let selector = self.regs.readseg16(segment);
                self.mem_write_word(ctx, selector, offset, value)
            },
        }
    }

    /// Fetches the addressing byte and resolves it.
    pub fn decode<T: Cpu8086Context>(&mut self, ctx: &mut T) -> (params: OpcodeParams)
        requires
            old(ctx).inv(),
        ensures
            final(ctx).inv(),
            (params, final(self).on(final(ctx)@)) == decode::<T>(old(self).on(old(ctx)@)),
            params.rm.wf(),
            params.reg < 8,
    {
        let modrm = self.fetch8(ctx);
        self.get_opcode_params_from_modrm(ctx, modrm)
    }

    /// Decodes the addressing byte and reads both byte operands.
    fn operands8<T: Cpu8086Context>(&mut self, ctx: &mut T) -> (out: (OpcodeParams, u8, u8))
        requires
            old(ctx).inv(),
        ensures
            final(ctx).inv(),
            (out.0, out.1, out.2, final(self).on(final(ctx)@)) == operands8::<T>(
                old(self).on(old(ctx)@),
            ),
            out.0.rm.wf(),
            out.0.reg < 8,
    {
        let params = self.decode(ctx);
        let reg = self.regs.read8(Reg8::from_num(params.reg).unwrap());
        let rm = self.load_rm8(ctx, params.rm);
        (params, reg, rm)
    }

    /// Decodes the addressing byte and reads both word operands.
    fn operands16<T: Cpu8086Context>(&mut self, ctx: &mut T) -> (out: (OpcodeParams, u16, u16))
        requires
            old(ctx).inv(),
        ensures
            final(ctx).inv(),
            (out.0, out.1, out.2, final(self).on(final(ctx)@)) == operands16::<T>(
                old(self).on(old(ctx)@),
            ),
            out.0.rm.wf(),
            out.0.reg < 8,
    {
        let params = self.decode(ctx);
        let reg = self.regs.read16(Reg16::from_num(params.reg).unwrap());
        let rm = self.load_rm16(ctx, params.rm);
        (params, reg, rm)
    }

    /// Stores a byte result and its flags in the register of the
    /// addressing byte.
    fn finish8(&mut self, params: OpcodeParams, out: (u8, Flags))
        requires
            params.reg < 8,
        ensures
            *final(self) == old(self).with_regs(
                Registers { flags: out.1, ..old(self).regs }.with_byte(
                    Reg8::of(params.reg).unwrap(),
                    out.0,
                ),
            ),
    {
        self.regs.flags = out.1;
        self.regs.write8(Reg8::from_num(params.reg).unwrap(), out.0);
    }

    /// Stores a word result and its flags in the register of the
    /// addressing byte.
    fn finish16(&mut self, params: OpcodeParams, out: (u16, Flags))
        requires
            params.reg < 8,
        ensures
            *final(self) == old(self).with_regs(
                Registers { flags: out.1, ..old(self).regs }.with_word(
                    Reg16::of(params.reg).unwrap(),
                    out.0,
                ),
            ),
    {
        self.regs.flags = out.1;
        self.regs.write16(Reg16::from_num(params.reg).unwrap(), out.0);
    }

    /// Executes one of the opcodes 00 to 3F that is no prefix.
    pub fn arithmetic<T: Cpu8086Context>(&mut self, ctx: &mut T, opcode: u8) -> (fault: Option<
        Fault,
    >)
        requires
            old(ctx).inv(),
        ensures
            final(ctx).inv(),
            (final(self).on(final(ctx)@), fault) == arithmetic::<T>(
                old(self).on(old(ctx)@),
                opcode,
            ),
    {
        match opcode {
            0x00 => {
                let (params, reg, rm) = self.operands8(ctx);
                let out = alu::add8(self.regs.flags, reg, rm);
                self.regs.flags = out.1;
                self.store_rm8(ctx, params.rm, out.0);
            },
            0x02 => {
                let (params, reg, rm) = self.operands8(ctx);
                let out = alu::add8(self.regs.flags, reg, rm);
                self.finish8(params, out);
            },
            0x03 => {
                let (params, reg, rm) = self.operands16(ctx);
                let out = alu::add16(self.regs.flags, reg, rm);
                self.finish16(params, out);
            },
            0x06 => {
                let value = self.regs.readseg16(SegReg::ES);
                self.push16(ctx, value);
            },
            0x07 => {
                let value = self.pop16(ctx);
                self.regs.writeseg16(SegReg::ES, value);
            },
            0x0a => {
                let (params, reg, rm) = self.operands8(ctx);
                let out = (reg | rm, alu::logic8(self.regs.flags, reg | rm));
                self.finish8(params, out);
            },
            0x0b => {
                let (params, reg, rm) = self.operands16(ctx);
                let out = (reg | rm, alu::logic16(self.regs.flags, reg | rm));
                self.finish16(params, out);
            },
            0x13 => {
                let (params, reg, rm) = self.operands16(ctx);
                let out = alu::adc16(self.regs.flags, reg, rm);
                self.finish16(params, out);
            },
            0x16 => {
                let value = self.regs.readseg16(SegReg::SS);
                self.push16(ctx, value);
            },
            0x1e => {
                let value = self.regs.readseg16(SegReg::DS);
                self.push16(ctx, value);
            },
            0x1f => {
                let value = self.pop16(ctx);
                self.regs.writeseg16(SegReg::DS, value);
            },
            0x22 => {
                let (params, reg, rm) = self.operands8(ctx);
                let out = (reg & rm, alu::logic8(self.regs.flags, reg & rm));
                self.finish8(params, out);
            },
            0x23 => {
                let (params, reg, rm) = self.operands16(ctx);
                let out = (reg & rm, alu::logic16(self.regs.flags, reg & rm));
                self.finish16(params, out);
            },
            0x24 => {
                let result = self.regs.read8(Reg8::AL) & self.fetch8(ctx);
                self.regs.flags = alu::logic8(self.regs.flags, result);
                self.regs.write8(Reg8::AL, result);
            },
            0x2a => {
                let (params, reg, rm) = self.operands8(ctx);
                let out = alu::sub8(self.regs.flags, reg, rm);
                self.finish8(params, out);
            },
            0x2b => {
                let (params, reg, rm) = self.operands16(ctx);
                let out = alu::sub16(self.regs.flags, reg, rm);
                self.finish16(params, out);
            },
            0x32 => {
                let (params, reg, rm) = self.operands8(ctx);
                let out = (reg ^ rm, alu::logic8(self.regs.flags, reg ^ rm));
                self.finish8(params, out);
            },
            0x33 => {
                let (params, reg, rm) = self.operands16(ctx);
                let out = (reg ^ rm, alu::logic16(self.regs.flags, reg ^ rm));
                self.finish16(params, out);
            },
            0x39 => {
                let (_, reg, rm) = self.operands16(ctx);
                self.regs.flags = alu::compare16(self.regs.flags, rm, reg);
            },
            0x3a => {
                let (_, reg, rm) = self.operands8(ctx);
                self.regs.flags = alu::compare8(self.regs.flags, reg, rm);
            },
            0x3b => {
                let (_, reg, rm) = self.operands16(ctx);
                self.regs.flags = alu::compare16(self.regs.flags, reg, rm);
            },
            _ => {
                return Some(Fault::UnhandledOpcode(opcode));
            },
        }
        None
    }

    /// Executes one of the opcodes 40 to 5F.
    pub fn word_register<T: Cpu8086Context>(&mut self, ctx: &mut T, opcode: u8)
        requires
            old(ctx).inv(),
            0x40 <= opcode <= 0x5f,
        ensures
            final(ctx).inv(),
            final(self).on(final(ctx)@) == word_register::<T>(old(self).on(old(ctx)@), opcode),
    {
        let reg = Reg16::from_num(opcode % 8).unwrap();
        let value = self.regs.read16(reg);
        if opcode < 0x48 {
            let out = alu::inc16(self.regs.flags, value);
            self.regs.flags = out.1;
            self.regs.write16(reg, out.0);
        } else if opcode < 0x50 {
            let out = alu::dec16(self.regs.flags, value);
            self.regs.flags = out.1;
            self.regs.write16(reg, out.0);
        } else if opcode < 0x58 {
            self.push16(ctx, value);
        } else {
            let popped = self.pop16(ctx);
            self.regs.write16(reg, popped);
        }
    }

    /// Whether a conditional jump is taken under the present flags.
    pub fn jump_taken(&self, opcode: u8) -> (taken: Option<bool>)
        ensures
            taken == jump_taken(self.regs.flags, opcode),
    {
        let flags = self.regs.flags;
        match opcode {
            0x70 => Some(flags.contains(Flags::OVERFLOW)),
            0x71 => Some(!flags.contains(Flags::OVERFLOW)),
            0x72 => Some(flags.contains(Flags::CARRY)),
            0x73 => Some(!flags.contains(Flags::CARRY)),
            0x74 => Some(flags.contains(Flags::ZERO)),
            0x75 => Some(!flags.contains(Flags::ZERO)),
            0x78 => Some(flags.contains(Flags::SIGN)),
            0x79 => Some(!flags.contains(Flags::SIGN)),
            0x7a => Some(flags.contains(Flags::PARITY)),
            0x7b => Some(!flags.contains(Flags::PARITY)),
            _ => None,
        }
    }

    /// Fetches a signed byte and, where `taken` holds, jumps by it.
    pub fn short_jump<T: Cpu8086Context>(&mut self, ctx: &mut T, taken: bool)
        requires
            old(ctx).inv(),
        ensures
            final(ctx).inv(),
            final(self).on(final(ctx)@) == short_jump::<T>(old(self).on(old(ctx)@), taken),
    {
        let distance = self.fetch8(ctx);
        if taken {
            let widened: u16 = if distance < 0x80 {
                distance as u16
            } else {
                (distance as u16) + 0xff00
            };
            self.regs.ip = self.regs.ip.wrapping_add(widened);
        }
    }

    /// Executes one of the opcodes 70 to 7F.
    pub fn conditional_jump<T: Cpu8086Context>(&mut self, ctx: &mut T, opcode: u8) -> (fault:
        Option<Fault>)
        requires
            old(ctx).inv(),
        ensures
            final(ctx).inv(),
            (final(self).on(final(ctx)@), fault) == conditional_jump::<T>(
                old(self).on(old(ctx)@),
                opcode,
            ),
    {
        match self.jump_taken(opcode) {
            Some(taken) => {
                self.short_jump(ctx, taken);
                None
            },
            None => Some(Fault::UnhandledOpcode(opcode)),
        }
    }

    /// Executes opcode 80.
    pub fn immediate_group<T: Cpu8086Context>(&mut self, ctx: &mut T) -> (fault: Option<Fault>)
        requires
            old(ctx).inv(),
        ensures
            final(ctx).inv(),
            (final(self).on(final(ctx)@), fault) == immediate_group::<T>(old(self).on(old(ctx)@)),
    {
        let params = self.decode(ctx);
        let imm = self.fetch8(ctx);
        if params.reg == 1 {
            let result = self.load_rm8(ctx, params.rm) | imm;
            self.regs.flags = alu::logic8(self.regs.flags, result);
            self.store_rm8(ctx, params.rm, result);
            None
        } else if params.reg == 7 {
            let value = self.load_rm8(ctx, params.rm);
            self.regs.flags = alu::compare8(self.regs.flags, value, imm);
            None
        } else {
            Some(Fault::UnhandledGroupOp(0x80, params.reg))
        }
    }

    /// Executes one of the opcodes 88 to 8E.
    pub fn transfer<T: Cpu8086Context>(&mut self, ctx: &mut T, opcode: u8) -> (fault: Option<Fault>)
        requires
            old(ctx).inv(),
        ensures
            final(ctx).inv(),
            (final(self).on(final(ctx)@), fault) == transfer::<T>(old(self).on(old(ctx)@), opcode),
    {
        match opcode {
            0x88 => {
                let params = self.decode(ctx);
                let value = self.regs.read8(Reg8::from_num(params.reg).unwrap());
                self.store_rm8(ctx, params.rm, value);
            },
            0x89 => {
                let params = self.decode(ctx);
                let value = self.regs.read16(Reg16::from_num(params.reg).unwrap());
                self.store_rm16(ctx, params.rm, value);
            },
            0x8a => {
                let params = self.decode(ctx);
                let value = self.load_rm8(ctx, params.rm);
                self.regs.write8(Reg8::from_num(params.reg).unwrap(), value);
            },
            0x8b => {
                let params = self.decode(ctx);
                let value = self.load_rm16(ctx, params.rm);
                self.regs.write16(Reg16::from_num(params.reg).unwrap(), value);
            },
            0x8c | 0x8e => {
                let params = self.decode(ctx);
                match SegReg::from_num(params.reg) {
                    None => {
                        return Some(Fault::InvalidSegmentRegister(params.reg));
                    },
                    Some(segment) => {
                        if opcode == 0x8c {
                            let value = self.regs.readseg16(segment);
                            self.store_rm16(ctx, params.rm, value);
                        } else {
                            let value = self.load_rm16(ctx, params.rm);
                            self.regs.writeseg16(segment, value);
                        }
                    },
                }
            },
            _ => {
                return Some(Fault::UnhandledOpcode(opcode));
            },
        }
        None
    }

    /// Executes one of the opcodes 96 to A1.
    pub fn accumulator<T: Cpu8086Context>(&mut self, ctx: &mut T, opcode: u8) -> (fault: Option<
        Fault,
    >)
        requires
            old(ctx).inv(),
        ensures
            final(ctx).inv(),
            (final(self).on(final(ctx)@), fault) == accumulator::<T>(
                old(self).on(old(ctx)@),
                opcode,
            ),
    {
        let segment = match self.seg_override {
            Some(segment) => segment,
            None => SegReg::DS,
        };
        match opcode {
            0x96 => {
                let si = self.regs.read16(Reg16::SI);
                let ax = self.regs.read16(Reg16::AX);
                self.regs.write16(Reg16::SI, ax);
                self.regs.write16(Reg16::AX, si);
            },
            0x9e => {
                let source = self.regs.read8(Reg8::AH);
                self.regs.flags = Flags::from_bits_truncate(
                    (self.regs.flags.bits() & 0xff02) | (source as u16),
                );
            },
            0x9f => {
                let low = (self.regs.flags.bits() & 0xd5) as u8;
                self.regs.write8(Reg8::AH, low);
            },
            0xa0 => {
                let offset = self.fetch16(ctx);
                let selector = self.regs.readseg16(segment);
                let value = self.mem_read_byte(ctx, selector, offset);
                self.regs.write8(Reg8::AL, value);
            },
            0xa1 => {
                let offset = self.fetch16(ctx);
                let selector = self.regs.readseg16(segment);
                let value = self.mem_read_word(ctx, selector, offset);
                self.regs.write16(Reg16::AX, value);
            },
            _ => {
                return Some(Fault::UnhandledOpcode(opcode));
            },
        }
        None
    }

    /// Executes one of the opcodes B0 to BF.
    pub fn load_immediate<T: Cpu8086Context>(&mut self, ctx: &mut T, opcode: u8)
        requires
            old(ctx).inv(),
            0xb0 <= opcode <= 0xbf,
        ensures
            final(ctx).inv(),
            final(self).on(final(ctx)@) == load_immediate::<T>(old(self).on(old(ctx)@), opcode),
    {
        if opcode < 0xb8 {
            let imm = self.fetch8(ctx);
            self.regs.write8(Reg8::from_num(opcode % 8).unwrap(), imm);
        } else {
            let imm = self.fetch16(ctx);
            self.regs.write16(Reg16::from_num(opcode % 8).unwrap(), imm);
        }
    }

    /// Executes opcode C4 or C5: loads a far pointer into a word register
    /// and the segment register `target`.
    pub fn load_far_pointer<T: Cpu8086Context>(&mut self, ctx: &mut T, target: SegReg)
        requires
            old(ctx).inv(),
        ensures
            final(ctx).inv(),
            final(self).on(final(ctx)@) == load_far_pointer::<T>(old(self).on(old(ctx)@), target),
    {
        let params = self.decode(ctx);
        match params.rm {
            Operand::Register(_) => {},
            Operand::Address(segment, offset) => {
                let selector = self.regs.readseg16(segment);
                let pointer = self.mem_read_word(ctx, selector, offset);
                let base = self.mem_read_word(ctx, selector, offset.wrapping_add(2));
                self.regs.writeseg16(target, base);
                self.regs.write16(Reg16::from_num(params.reg).unwrap(), pointer);
            },
        }
    }

    /// Executes opcode C6 or C7.
    pub fn store_immediate<T: Cpu8086Context>(&mut self, ctx: &mut T, opcode: u8) -> (fault:
        Option<Fault>)
        requires
            old(ctx).inv(),
            opcode == 0xc6 || opcode == 0xc7,
        ensures
            final(ctx).inv(),
            (final(self).on(final(ctx)@), fault) == store_immediate::<T>(
                old(self).on(old(ctx)@),
                opcode,
            ),
    {
        let params = self.decode(ctx);
        match params.rm {
            Operand::Register(_) => Some(Fault::UnsupportedOperand(opcode)),
            Operand::Address(_, _) => {
                if opcode == 0xc6 {
                    let imm = self.fetch8(ctx);
                    self.store_rm8(ctx, params.rm, imm);
                } else {
                    let imm = self.fetch16(ctx);
                    self.store_rm16(ctx, params.rm, imm);
                }
                None
            },
        }
    }

    /// Executes opcode D0 or D2.
    pub fn shift_group<T: Cpu8086Context>(&mut self, ctx: &mut T, opcode: u8) -> (fault: Option<
        Fault,
    >)
        requires
            old(ctx).inv(),
            opcode == 0xd0 || opcode == 0xd2,
        ensures
            final(ctx).inv(),
            (final(self).on(final(ctx)@), fault) == shift_group::<T>(
                old(self).on(old(ctx)@),
                opcode,
            ),
    {
        let params = self.decode(ctx);
        match params.rm {
            Operand::Address(_, _) => Some(Fault::UnsupportedOperand(opcode)),
            Operand::Register(number) => {
                if params.reg != 4 && params.reg != 5 {
                    return Some(Fault::UnhandledGroupOp(opcode, params.reg));
                }
                let reg = Reg8::from_num(number).unwrap();
                let value = self.regs.read8(reg);
                let out = if opcode == 0xd0 {
                    if params.reg == 4 {
                        alu::shl8(self.regs.flags, value)
                    } else {
                        alu::shr8(self.regs.flags, value)
                    }
                } else {
                    alu::shift8_by(
                        params.reg == 4,
                        self.regs.flags,
                        value,
                        self.regs.read8(Reg8::CL),
                    )
                };
                self.regs.flags = out.1;
                self.regs.write8(reg, out.0);
                None
            },
        }
    }

    /// Executes opcode C3 or one of E2 to EE.
    pub fn control<T: Cpu8086Context>(&mut self, ctx: &mut T, opcode: u8) -> (fault: Option<Fault>)
        requires
            old(ctx).inv(),
        ensures
            final(ctx).inv(),
            (final(self).on(final(ctx)@), fault) == control::<T>(old(self).on(old(ctx)@), opcode),
    {
        match opcode {
            0xc3 => {
                let target = self.pop16(ctx);
                self.regs.ip = target;
            },
            0xe2 => {
                let count = self.regs.read16(Reg16::CX).wrapping_sub(1);
                self.regs.write16(Reg16::CX, count);
                self.short_jump(ctx, count != 0);
            },
            0xe4 => {
                let port = self.fetch8(ctx);
                let value = self.io_read_byte(ctx, port as u16);
                self.regs.write8(Reg8::AL, value);
            },
            0xe6 => {
                let port = self.fetch8(ctx);
                let value = self.regs.read8(Reg8::AL);
                self.io_write_byte(ctx, port as u16, value);
            },
            0xe8 => {
                let distance = self.fetch16(ctx);
                let next = self.regs.ip;
                self.push16(ctx, next);
                self.regs.ip = next.wrapping_add(distance);
            },
            0xe9 => {
                let distance = self.fetch16(ctx);
                self.regs.ip = self.regs.ip.wrapping_add(distance);
            },
            0xea => {
                let offset = self.fetch16(ctx);
                let segment = self.fetch16(ctx);
                self.regs.writeseg16(SegReg::CS, segment);
                self.regs.ip = offset;
            },
            0xeb => {
                self.short_jump(ctx, true);
            },
            0xee => {
                let port = self.regs.read16(Reg16::DX);
                let value = self.regs.read8(Reg8::AL);
                self.io_write_byte(ctx, port, value);
            },
            _ => {
                return Some(Fault::UnhandledOpcode(opcode));
            },
        }
        None
    }

    /// The flags after one of the opcodes F8 to FD.
    pub fn flag_control(&self, opcode: u8) -> (flags: Option<Flags>)
        ensures
            flags == flag_control(self.regs.flags, opcode),
    {
        let mut flags = self.regs.flags;
        match opcode {
            0xf8 => flags.set(Flags::CARRY, false),
            0xf9 => flags.set(Flags::CARRY, true),
            0xfa => flags.set(Flags::INTERRUPT, false),
            0xfb => flags.set(Flags::INTERRUPT, true),
            0xfc => flags.set(Flags::DIRECTION, false),
            0xfd => flags.set(Flags::DIRECTION, true),
            _ => {
                return None;
            },
        }
        Some(flags)
    }

    /// Executes opcode F7.
    pub fn multiply_group<T: Cpu8086Context>(&mut self, ctx: &mut T) -> (fault: Option<Fault>)
        requires
            old(ctx).inv(),
        ensures
            final(ctx).inv(),
            (final(self).on(final(ctx)@), fault) == multiply_group::<T>(old(self).on(old(ctx)@)),
    {
        let params = self.decode(ctx);
        if params.reg != 4 {
            return Some(Fault::UnhandledGroupOp(0xf7, params.reg));
        }
        let value = self.load_rm16(ctx, params.rm);
        let out = alu::mul16(self.regs.flags, self.regs.read16(Reg16::AX), value);
        self.regs.flags = out.2;
        self.regs.write16(Reg16::AX, out.0);
        self.regs.write16(Reg16::DX, out.1);
        None
    }

    /// Executes opcode FE.
    pub fn byte_step_group<T: Cpu8086Context>(&mut self, ctx: &mut T) -> (fault: Option<Fault>)
        requires
            old(ctx).inv(),
        ensures
            final(ctx).inv(),
            (final(self).on(final(ctx)@), fault) == byte_step_group::<T>(old(self).on(old(ctx)@)),
    {
        let params = self.decode(ctx);
        match params.rm {
            Operand::Address(_, _) => Some(Fault::UnsupportedOperand(0xfe)),
            Operand::Register(number) => {
                let reg = Reg8::from_num(number).unwrap();
                let value = self.regs.read8(reg);
                let out = if params.reg == 0 {
                    alu::inc8(self.regs.flags, value)
                } else if params.reg == 1 {
                    alu::dec8(self.regs.flags, value)
                } else {
                    return Some(Fault::UnhandledGroupOp(0xfe, params.reg));
                };
                self.regs.flags = out.1;
                self.regs.write8(reg, out.0);
                None
            },
        }
    }

    /// Executes opcode FF.
    pub fn word_step_group<T: Cpu8086Context>(&mut self, ctx: &mut T) -> (fault: Option<Fault>)
        requires
            old(ctx).inv(),
        ensures
            final(ctx).inv(),
            (final(self).on(final(ctx)@), fault) == word_step_group::<T>(old(self).on(old(ctx)@)),
    {
        let params = self.decode(ctx);
        if params.reg == 0 || params.reg == 1 {
            match params.rm {
                Operand::Address(_, _) => Some(Fault::UnsupportedOperand(0xff)),
                Operand::Register(number) => {
                    let reg = Reg16::from_num(number).unwrap();
                    let value = self.regs.read16(reg);
                    let out = if params.reg == 0 {
                        alu::inc16(self.regs.flags, value)
                    } else {
                        alu::dec16(self.regs.flags, value)
                    };
                    self.regs.flags = out.1;
                    self.regs.write16(reg, out.0);
                    None
                },
            }
        } else if params.reg == 5 {
            match params.rm {
                Operand::Register(_) => Some(Fault::UnsupportedOperand(0xff)),
                Operand::Address(segment, offset) => {
                    let selector = self.regs.readseg16(segment);
                    let target = self.mem_read_word(ctx, selector, offset);
                    let base = self.mem_read_word(ctx, selector, offset.wrapping_add(2));
                    self.regs.writeseg16(SegReg::CS, base);
                    self.regs.ip = target;
                    None
                },
            }
        } else {
            Some(Fault::UnhandledGroupOp(0xff, params.reg))
        }
    }

    /// Executes the instruction whose opcode has just been fetched.
    pub fn execute<T: Cpu8086Context>(&mut self, ctx: &mut T, opcode: u8) -> (result: Result<
        Option<u8>,
        Fault,
    >)
        requires
            old(ctx).inv(),
        ensures
            final(ctx).inv(),
            (final(self).on(final(ctx)@), result) == execute::<T>(old(self).on(old(ctx)@), opcode),
    {
        reveal(execute);
        let fault = if opcode < 0x40 {
            self.arithmetic(ctx, opcode)
        } else if opcode < 0x60 {
            self.word_register(ctx, opcode);
            None
        } else if 0x70 <= opcode && opcode < 0x80 {
            self.conditional_jump(ctx, opcode)
        } else if opcode == 0x80 {
            self.immediate_group(ctx)
        } else if 0x88 <= opcode && opcode <= 0x8e {
            self.transfer(ctx, opcode)
        } else if opcode == 0xa4 || opcode == 0xa6 || opcode == 0xac {
            self.string_op(ctx, opcode);
            None
        } else if 0x90 <= opcode && opcode < 0xb0 {
            self.accumulator(ctx, opcode)
        } else if 0xb0 <= opcode && opcode < 0xc0 {
            self.load_immediate(ctx, opcode);
            None
        } else if opcode == 0xc4 {
            self.load_far_pointer(ctx, SegReg::ES);
            None
        } else if opcode == 0xc5 {
            self.load_far_pointer(ctx, SegReg::DS);
            None
        } else if opcode == 0xc6 || opcode == 0xc7 {
            self.store_immediate(ctx, opcode)
        } else if opcode == 0xcd {
            let vector = self.fetch8(ctx);
            return self.interrupt_hook(ctx, vector);
        } else if opcode == 0xd0 || opcode == 0xd2 {
            self.shift_group(ctx, opcode)
        } else if opcode == 0xf7 {
            self.multiply_group(ctx)
        } else if opcode == 0xfe {
            self.byte_step_group(ctx)
        } else if opcode == 0xff {
            self.word_step_group(ctx)
        } else {
            match self.flag_control(opcode) {
                Some(flags) => {
                    self.regs.flags = flags;
                    None
                },
                None => self.control(ctx, opcode),
            }
        };
        match fault {
            None => Ok(None),
            Some(fault) => Err(fault),
        }
    }
}

} // verus!
