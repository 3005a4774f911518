//! A minimal core with the registers and the addressing of the 8086 class,
//! which knows one instruction: the far jump that firmware starts with.

use vstd::prelude::*;
use crate::cpu8086::registers::{Registers, SegReg};
use crate::cpu8086::{linear, next_linear, word_of};

verus! {

/// Number of bytes that the core can address: one mebibyte.
pub const ADDRESS_SPACE: u32 = 0x10_0000;

/// Opcode of the far jump to an immediate segment and offset.
pub const JMP_FAR: u8 = 0xea;

/// Memory and I/O space as the core sees them, one byte at a time.
///
/// `mem_read`, `mem_write`, `io_read` and `io_write` say what each operation
/// does to the view of the bus. Memory addresses that the core hands over
/// are below [`ADDRESS_SPACE`].
pub trait CpuContext: View {
    /// What must hold of the bus for its operations to be called.
    spec fn inv(&self) -> bool;

    /// The byte that a memory read returns, and the bus after the read.
    spec fn mem_read(bus: Self::V, addr: u32) -> (u8, Self::V);

    /// The bus after a memory write.
    spec fn mem_write(bus: Self::V, addr: u32, value: u8) -> Self::V;

    /// The byte that a port read returns, and the bus after the read.
    spec fn io_read(bus: Self::V, addr: u16) -> (u8, Self::V);

    /// The bus after a port write.
    spec fn io_write(bus: Self::V, addr: u16, value: u8) -> Self::V;

    /// Reads the byte at the linear address `addr`.
    fn mem_read_byte(&mut self, addr: u32) -> (value: u8)
        requires
            old(self).inv(),
            addr < ADDRESS_SPACE,
        ensures
            final(self).inv(),
            (value, final(self)@) == Self::mem_read(old(self)@, addr),
    ;

    /// Writes the byte at the linear address `addr`.
    fn mem_write_byte(&mut self, addr: u32, value: u8)
        requires
            old(self).inv(),
            addr < ADDRESS_SPACE,
        ensures
            final(self).inv(),
            final(self)@ == Self::mem_write(old(self)@, addr, value),
    ;

    /// Reads the port `addr`.
    fn io_read_byte(&mut self, addr: u16) -> (value: u8)
        requires
            old(self).inv(),
        ensures
            final(self).inv(),
            (value, final(self)@) == Self::io_read(old(self)@, addr),
    ;

    /// Writes the port `addr`.
    fn io_write_byte(&mut self, addr: u16, value: u8)
        requires
            old(self).inv(),
        ensures
            final(self).inv(),
            final(self)@ == Self::io_write(old(self)@, addr, value),
    ;
}

/// The opcode byte has no defined operation.
#[derive(Clone, Copy, Debug, PartialEq, Eq, Structural)]
pub struct UnhandledOpcode {
    pub opcode: u8,
}

/// The processor: its registers and the opcode it fetched last.
#[derive(Clone, Copy, Debug)]
pub struct Cpu {
    pub regs: Registers,
    pub opcode: u8,
}

/// A word read from `segment:offset`, low byte first; the high byte comes
/// from the linear address that follows.
pub open spec fn load16<T: CpuContext>(bus: T::V, segment: u16, offset: u16) -> (u16, T::V) {
    let (low, after_low) = T::mem_read(bus, linear(segment, offset));
    let (high, after_high) = T::mem_read(after_low, next_linear(linear(segment, offset)));
    (word_of(low, high), after_high)
}

/// One instruction, fetched from CS:IP: the processor and the bus after
/// it, and the fault if the opcode is not the far jump.
///
/// The far jump takes its offset from the two bytes behind the opcode and
/// its segment from the two bytes behind those. After a fault only the
/// opcode that was fetched is new.
pub open spec fn tick<T: CpuContext>(cpu: Cpu, bus: T::V) -> (Cpu, T::V, Option<UnhandledOpcode>) {
    let cs = cpu.regs.selector(SegReg::CS);
    let ip = cpu.regs.ip;
    let (opcode, fetched) = T::mem_read(bus, linear(cs, ip));
    if opcode == JMP_FAR {
        let (offset, after_offset) = load16::<T>(fetched, cs, ip.wrapping_add(1));
        let (segment, after_segment) = load16::<T>(after_offset, cs, ip.wrapping_add(3));
        (
            Cpu {
                regs: Registers { ip: offset, ..cpu.regs.with_selector(SegReg::CS, segment) },
                opcode,
            },
            after_segment,
            None,
        )
    } else {
        (Cpu { opcode, ..cpu }, fetched, Some(UnhandledOpcode { opcode }))
    }
}

impl Cpu {
    /// A processor at reset.
    pub fn new() -> (cpu: Cpu)
        ensures
            cpu.regs == Registers::reset(),
            cpu.opcode == 0,
    {
        Cpu { regs: Registers::new(), opcode: 0 }
    }

    /// Reads the byte at `seg:addr`.
    pub fn mem_read_byte<T: CpuContext>(&mut self, ctx: &mut T, seg: u16, addr: u16) -> (value: u8)
        requires
            old(ctx).inv(),
        ensures
            final(ctx).inv(),
            *final(self) == *old(self),
            (value, final(ctx)@) == T::mem_read(old(ctx)@, linear(seg, addr)),
    {
        let masked_addr: u32 = ((seg as u32) * 16 + (addr as u32)) % ADDRESS_SPACE;
        ctx.mem_read_byte(masked_addr)
    }

    /// Writes the byte at `seg:addr`.
    pub fn mem_write_byte<T: CpuContext>(&mut self, ctx: &mut T, seg: u16, addr: u16, value: u8)
        requires
            old(ctx).inv(),
        ensures
            final(ctx).inv(),
            *final(self) == *old(self),
            final(ctx)@ == T::mem_write(old(ctx)@, linear(seg, addr), value),
    {
        let masked_addr: u32 = ((seg as u32) * 16 + (addr as u32)) % ADDRESS_SPACE;
        ctx.mem_write_byte(masked_addr, value)
    }

    /// Reads the word at `seg:addr`, low byte first.
    pub fn mem_read_word<T: CpuContext>(&mut self, ctx: &mut T, seg: u16, addr: u16) -> (value: u16)
        requires
            old(ctx).inv(),
        ensures
            final(ctx).inv(),
            *final(self) == *old(self),
            (value, final(ctx)@) == load16::<T>(old(ctx)@, seg, addr),
    {
        let masked_addr: u32 = ((seg as u32) * 16 + (addr as u32)) % ADDRESS_SPACE;
        let byte1 = ctx.mem_read_byte(masked_addr);
        let byte2 = ctx.mem_read_byte((masked_addr + 1) % ADDRESS_SPACE);
        (byte1 as u16) + (byte2 as u16) * 256
    }

    /// Fetches the instruction at CS:IP and executes it.
    pub fn tick<T: CpuContext>(&mut self, ctx: &mut T) -> (result: Result<(), UnhandledOpcode>)
        requires
            old(ctx).inv(),
        ensures
            final(ctx).inv(),
            (*final(self), final(ctx)@, result.err()) == tick::<T>(*old(self), old(ctx)@),
    {
        let cs = self.regs.readseg16(SegReg::CS);
        let ip = self.regs.ip;
        self.opcode = self.mem_read_byte(ctx, cs, ip);
        if self.opcode != JMP_FAR {
            return Err(UnhandledOpcode { opcode: self.opcode });
        }
        let offset = self.mem_read_word(ctx, cs, ip.wrapping_add(1));
        let segment = self.mem_read_word(ctx, cs, ip.wrapping_add(3));
        self.regs.writeseg16(SegReg::CS, segment);
        self.regs.ip = offset;
        Ok(())
    }
}

} // verus!
