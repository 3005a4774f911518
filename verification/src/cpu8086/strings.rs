//! The string instructions on bytes: move, compare and load, alone or
//! under a repeat prefix.
//!
//! One unit of work reads at DS:SI, writes or compares at ES:DI, and moves
//! the index registers it used by one, up or down as the direction flag
//! says. Under a repeat prefix the unit is done, CX is counted down, and the
//! instruction goes on until CX is zero; a compare also stops when the zero
//! flag is not what the prefix asks for.

use vstd::prelude::*;
use crate::cpu8086::alu;
use crate::cpu8086::registers::{Flags, Reg16, Reg8, SegReg};
use crate::cpu8086::{load8, store8, Cpu8086, Cpu8086Context, Machine, RepType};

verus! {

/// Whether `opcode` is one of the string instructions: A4 moves, A6
/// compares, AC loads.
pub open spec fn is_string_opcode(opcode: u8) -> bool {
    opcode == 0xa4 || opcode == 0xa6 || opcode == 0xac
}

/// What is added to an index register after a unit: one, or minus one when
/// the direction flag is set.
pub open spec fn stride(flags: Flags) -> u16 {
    if flags.has(Flags::DIRECTION) {
        0xffff
    } else {
        1
    }
}

/// One unit of the string instruction `opcode`.
pub open spec fn string_unit<T: Cpu8086Context>(m: Machine<T::V>, opcode: u8) -> Machine<T::V> {
    let regs = m.cpu.regs;
    let step = stride(regs.flags);
    let si = regs.word(Reg16::SI);
    let di = regs.word(Reg16::DI);
    let (source, after_source) = load8::<T>(m.bus, regs.selector(SegReg::DS), si);
    if opcode == 0xa4 {
        m.with_bus(store8::<T>(after_source, regs.selector(SegReg::ES), di, source)).with_word(
            Reg16::SI,
            si.wrapping_add(step),
        ).with_word(Reg16::DI, di.wrapping_add(step))
    } else if opcode == 0xa6 {
        let (destination, after_both) = load8::<T>(after_source, regs.selector(SegReg::ES), di);
        m.with_bus(after_both).with_flags(
            alu::compare8_spec(regs.flags, source, destination),
        ).with_word(Reg16::SI, si.wrapping_add(step)).with_word(Reg16::DI, di.wrapping_add(step))
    } else {
        m.with_bus(after_source).with_byte(Reg8::AL, source).with_word(
            Reg16::SI,
            si.wrapping_add(step),
        )
    }
}

/// Whether a repeated string instruction goes on after a unit and the
/// count-down: CX is not zero and, for a compare, the zero flag is set
/// under repeat-while-equal or clear under repeat-while-not-equal.
pub open spec fn goes_on(cpu: Cpu8086, opcode: u8) -> bool {
    cpu.regs.word(Reg16::CX) != 0 && (opcode != 0xa6 || match cpu.rep_state {
        Some(RepType::REPE) => cpu.regs.flags.has(Flags::ZERO),
        Some(RepType::REPNE) => !cpu.regs.flags.has(Flags::ZERO),
        None => false,
    })
}

/// The most units that a repeated instruction can still do with `count` in
/// CX: a count of zero wraps and stands for 65536.
pub open spec fn rounds_left(count: u16) -> nat {
    if count == 0 {
        0x1_0000
    } else {
        count as nat
    }
}

/// One unit followed by the count-down of CX.
pub open spec fn counted_unit<T: Cpu8086Context>(m: Machine<T::V>, opcode: u8) -> Machine<T::V> {
    let unit = string_unit::<T>(m, opcode);
    unit.with_word(Reg16::CX, unit.cpu.regs.word(Reg16::CX).wrapping_sub(1))
}

/// A unit leaves CX alone, so the count-down takes one off what was there.
pub proof fn lemma_counted_unit<T: Cpu8086Context>(m: Machine<T::V>, opcode: u8)
    ensures
        counted_unit::<T>(m, opcode).cpu.regs.word(Reg16::CX) == m.cpu.regs.word(
            Reg16::CX,
        ).wrapping_sub(1),
        counted_unit::<T>(m, opcode).cpu.rep_state == m.cpu.rep_state,
{
}

/// The string instruction `opcode` under a repeat prefix.
pub open spec fn repeated<T: Cpu8086Context>(m: Machine<T::V>, opcode: u8) -> Machine<T::V>
    decreases rounds_left(m.cpu.regs.word(Reg16::CX)),
{
    let counted = counted_unit::<T>(m, opcode);
    if goes_on(counted.cpu, opcode) {
        proof {
            lemma_counted_unit::<T>(m, opcode);
        }
        repeated::<T>(counted, opcode)
    } else {
        counted
    }
}

/// A repeated string instruction ends where it does not go on: with CX at
/// zero, or, for a compare, with the zero flag other than the prefix asks
/// for. The prefix stays in force to the end.
pub proof fn lemma_repeated_ends<T: Cpu8086Context>(m: Machine<T::V>, opcode: u8)
    ensures
        !goes_on(repeated::<T>(m, opcode).cpu, opcode),
        repeated::<T>(m, opcode).cpu.rep_state == m.cpu.rep_state,
        repeated::<T>(m, opcode).cpu.regs.ip == m.cpu.regs.ip,
    decreases rounds_left(m.cpu.regs.word(Reg16::CX)),
{
    let counted = counted_unit::<T>(m, opcode);
    lemma_counted_unit::<T>(m, opcode);
    if goes_on(counted.cpu, opcode) {
        lemma_repeated_ends::<T>(counted, opcode);
    }
}

/// A repeated move or load does exactly as many units as CX counts, a CX
/// of zero standing for 65536, and ends with CX at zero.
pub proof fn lemma_repeated_counts_down<T: Cpu8086Context>(m: Machine<T::V>, opcode: u8)
    requires
        opcode != 0xa6,
    ensures
        repeated::<T>(m, opcode).cpu.regs.word(Reg16::CX) == 0,
{
    lemma_repeated_ends::<T>(m, opcode);
}

/// Opcodes A4, A6 and AC: one unit without a repeat prefix, the repeated
/// instruction with one.
pub open spec fn string_op<T: Cpu8086Context>(m: Machine<T::V>, opcode: u8) -> Machine<T::V> {
    if m.cpu.rep_state.is_none() {
        string_unit::<T>(m, opcode)
    } else {
        repeated::<T>(m, opcode)
    }
}

impl Cpu8086 {
    /// Does one unit of a string instruction.
    pub fn string_unit<T: Cpu8086Context>(&mut self, ctx: &mut T, opcode: u8)
        requires
            old(ctx).inv(),
            is_string_opcode(opcode),
        ensures
            final(ctx).inv(),
            final(self).on(final(ctx)@) == string_unit::<T>(old(self).on(old(ctx)@), opcode),
    {
        let step: u16 = if self.regs.flags.contains(Flags::DIRECTION) {
            0xffff
        } else {
            1
        };
        let si = self.regs.read16(Reg16::SI);
        let di = self.regs.read16(Reg16::DI);
        let ds = self.regs.readseg16(SegReg::DS);
        let es = self.regs.readseg16(SegReg::ES);
        let source = self.mem_read_byte(ctx, ds, si);
        if opcode == 0xa4 {
            self.mem_write_byte(ctx, es, di, source);
            self.regs.write16(Reg16::SI, si.wrapping_add(step));
            self.regs.write16(Reg16::DI, di.wrapping_add(step));
        } else if opcode == 0xa6 {
            let destination = self.mem_read_byte(ctx, es, di);
            self.regs.flags = alu::compare8(self.regs.flags, source, destination);
            self.regs.write16(Reg16::SI, si.wrapping_add(step));
            self.regs.write16(Reg16::DI, di.wrapping_add(step));
        } else {
            self.regs.write8(Reg8::AL, source);
            self.regs.write16(Reg16::SI, si.wrapping_add(step));
        }
    }

    /// Whether a repeated string instruction goes on.
    pub fn goes_on(&self, opcode: u8) -> (more: bool)
        ensures
            more == goes_on(*self, opcode),
    {
        if self.regs.read16(Reg16::CX) == 0 {
            return false;
        }
        if opcode != 0xa6 {
            return true;
        }
        match self.rep_state {
            Some(RepType::REPE) => self.regs.flags.contains(Flags::ZERO),
            Some(RepType::REPNE) => !self.regs.flags.contains(Flags::ZERO),
            None => false,
        }
    }

    /// Executes a string instruction, repeated if a repeat prefix is in
    /// force.
    pub fn string_op<T: Cpu8086Context>(&mut self, ctx: &mut T, opcode: u8)
        requires
            old(ctx).inv(),
            is_string_opcode(opcode),
        ensures
            final(ctx).inv(),
            final(self).on(final(ctx)@) == string_op::<T>(old(self).on(old(ctx)@), opcode),
    {
        if self.rep_state.is_none() {
            self.string_unit(ctx, opcode);
            return;
        }
        loop
            invariant
                ctx.inv(),
                is_string_opcode(opcode),
                repeated::<T>(self.on(ctx@), opcode) == string_op::<T>(
                    old(self).on(old(ctx)@),
                    opcode,
                ),
            decreases rounds_left(self.regs.word(Reg16::CX)),
        {
            proof {
                lemma_counted_unit::<T>(self.on(ctx@), opcode);
            }
            self.string_unit(ctx, opcode);
            let count = self.regs.read16(Reg16::CX).wrapping_sub(1);
            self.regs.write16(Reg16::CX, count);
            if !self.goes_on(opcode) {
                return;
            }
        }
    }
}

} // verus!
