//! The 286-class core, in real-address mode: one call of [`Cpu286::tick`]
//! fetches, decodes and executes one instruction against a memory and I/O
//! bus. Addresses are the base of the segment plus the offset, wrapped to
//! 24 bits.

use vstd::prelude::*;
use crate::cpu286::registers::{Flags, Reg8, Registers, SegReg};

pub mod registers;

verus! {

/// Number of bytes that the core can address: sixteen mebibytes.
pub const ADDRESS_SPACE: u32 = 0x100_0000;

/// What one instruction costs, in cycles. The same for every instruction: a
/// coarse stand-in for the real timings.
pub const CYCLES_PER_INSTRUCTION: usize = 2;

/// `addr` wrapped to the 24 bits of the address space.
pub open spec fn masked(addr: u32) -> u32 {
    addr % 0x100_0000
}

/// The linear address of `offset` in the segment at `base`, wrapped to 24
/// bits.
pub open spec fn linear(base: u32, offset: u16) -> u32 {
    ((base + offset) % 0x100_0000) as u32
}

/// Memory and I/O space as the core sees them, one byte at a time.
///
/// `mem_read`, `mem_write`, `io_read` and `io_write` say what each operation
/// does to the view of the bus. Memory addresses that the core hands over
/// are below [`ADDRESS_SPACE`].
pub trait Cpu286Context: View {
    /// What must hold of the bus for its operations to be called.
    spec fn inv(&self) -> bool;

    /// The byte that a memory read returns, and the bus after the read.
    spec fn mem_read(bus: Self::V, addr: u32) -> (u8, Self::V);

    /// The bus after a memory write.
    spec fn mem_write(bus: Self::V, addr: u32, value: u8) -> Self::V;

    /// The byte that a port read returns, and the bus after the read.
    spec fn io_read(bus: Self::V, addr: u16) -> (u8, Self::V);

    /// The bus after a port write.
    spec fn io_write(bus: Self::V, addr: u16, value: u8) -> Self::V;

    /// Reads the byte at the linear address `addr`.
    fn mem_read_byte(&mut self, addr: u32) -> (value: u8)
        requires
            old(self).inv(),
            addr < ADDRESS_SPACE,
        ensures
            final(self).inv(),
            (value, final(self)@) == Self::mem_read(old(self)@, addr),
    ;

    /// Writes the byte at the linear address `addr`.
    fn mem_write_byte(&mut self, addr: u32, value: u8)
        requires
            old(self).inv(),
            addr < ADDRESS_SPACE,
        ensures
            final(self).inv(),
            final(self)@ == Self::mem_write(old(self)@, addr, value),
    ;

    /// Reads the port `addr`.
    fn io_read_byte(&mut self, addr: u16) -> (value: u8)
        requires
            old(self).inv(),
        ensures
            final(self).inv(),
            (value, final(self)@) == Self::io_read(old(self)@, addr),
    ;

    /// Writes the port `addr`.
    fn io_write_byte(&mut self, addr: u16, value: u8)
        requires
            old(self).inv(),
        ensures
            final(self).inv(),
            final(self)@ == Self::io_write(old(self)@, addr, value),
    ;
}

/// Why an instruction could not be executed. Emulation cannot go on after
/// either of these.
#[derive(Clone, Copy, Debug, PartialEq, Eq, Structural)]
pub enum Fault {
    /// The opcode byte has no defined operation.
    UnhandledOpcode(u8),
    /// A segment register was to be loaded while protected mode is switched
    /// on.
    ProtectedMode,
}

/// The processor: its registers, the opcode it fetched last, and a disk
/// image.
#[derive(Clone, Debug)]
pub struct Cpu286 {
    pub regs: Registers,
    pub opcode: u8,
    pub floppy: Vec<u8>,
}

/// A processor together with the view of the bus it runs against.
pub struct Machine<B> {
    pub cpu: Cpu286,
    pub bus: B,
}

/// A byte widened to a word with its sign.
pub open spec fn sign_extend(value: u8) -> u16 {
    if value < 0x80 {
        value as u16
    } else {
        (value + 0xff00) as u16
    }
}

/// A word read from `addr`, low byte first; the high byte comes from the
/// address that follows, wrapped to 24 bits.
pub open spec fn load16<T: Cpu286Context>(bus: T::V, addr: u32) -> (u16, T::V) {
    let (low, after_low) = T::mem_read(bus, masked(addr));
    let (high, after_high) = T::mem_read(after_low, ((masked(addr) + 1) % 0x100_0000) as u32);
    ((low + high * 256) as u16, after_high)
}

impl<B> Machine<B> {
    /// The machine with other registers.
    pub open spec fn with_regs(self, regs: Registers) -> Machine<B> {
        Machine { cpu: Cpu286 { regs, ..self.cpu }, bus: self.bus }
    }

    /// The machine with another bus.
    pub open spec fn with_bus(self, bus: B) -> Machine<B> {
        Machine { cpu: self.cpu, bus }
    }

    /// The machine with another instruction pointer.
    pub open spec fn at(self, ip: u16) -> Machine<B> {
        self.with_regs(Registers { ip, ..self.cpu.regs })
    }

    /// The machine with the instruction pointer moved forward by `count`,
    /// with wraparound.
    pub open spec fn advanced(self, count: u16) -> Machine<B> {
        self.at(self.cpu.regs.ip.wrapping_add(count))
    }

    /// The machine with other flags.
    pub open spec fn with_flags(self, flags: Flags) -> Machine<B> {
        self.with_regs(Registers { flags, ..self.cpu.regs })
    }

    /// The linear address of the instruction pointer.
    pub open spec fn code_address(self) -> u32 {
        linear(self.cpu.regs.segment(SegReg::CS).base, self.cpu.regs.ip)
    }
}

/// The byte at the instruction pointer, and the machine with the
/// instruction pointer behind it.
pub open spec fn fetch8<T: Cpu286Context>(m: Machine<T::V>) -> (u8, Machine<T::V>) {
    let (value, bus) = T::mem_read(m.bus, m.code_address());
    (value, m.with_bus(bus).advanced(1))
}

/// The word at the instruction pointer, and the machine with the
/// instruction pointer behind it.
pub open spec fn fetch16<T: Cpu286Context>(m: Machine<T::V>) -> (u16, Machine<T::V>) {
    let (value, bus) = load16::<T>(m.bus, m.code_address());
    (value, m.with_bus(bus).advanced(2))
}

/// Whether the conditional jump `opcode` is taken under `flags`; none where
/// the opcode is no conditional jump that the core knows.
pub open spec fn jump_taken(flags: Flags, opcode: u8) -> Option<bool> {
    if opcode == 0x70 {
        Some(flags.has(Flags::OVERFLOW))
    } else if opcode == 0x71 {
        Some(!flags.has(Flags::OVERFLOW))
    } else if opcode == 0x72 {
        Some(flags.has(Flags::CARRY))
    } else if opcode == 0x73 {
        Some(!flags.has(Flags::CARRY))
    } else if opcode == 0x74 {
        Some(flags.has(Flags::ZERO))
    } else if opcode == 0x75 {
        Some(!flags.has(Flags::ZERO))
    } else if opcode == 0x78 {
        Some(flags.has(Flags::SIGN))
    } else if opcode == 0x79 {
        Some(!flags.has(Flags::SIGN))
    } else if opcode == 0x7a {
        Some(flags.has(Flags::PARITY))
    } else if opcode == 0x7b {
        Some(!flags.has(Flags::PARITY))
    } else {
        None
    }
}

/// A jump by a signed byte: the byte is fetched, and where the jump is
/// taken it is added to the instruction pointer, which by then is behind
/// the instruction.
pub open spec fn short_jump<T: Cpu286Context>(m: Machine<T::V>, taken: bool) -> Machine<T::V> {
    let (distance, after) = fetch8::<T>(m);
    if taken {
        after.advanced(sign_extend(distance))
    } else {
        after
    }
}

/// The word of flags after the low byte is loaded from `source`: the high
/// byte and bit 1 stay, and bits without a name are dropped.
pub open spec fn flags_loaded(flags: Flags, source: u8) -> Flags {
    Flags::truncated((flags.bits & 0xff02) | (source as u16))
}

/// What the instruction with the opcode `opcode` does on the machine `m`,
/// whose instruction pointer is behind the opcode.
///
/// 70 to 7B are the conditional jumps, 9E and 9F move between AH and the
/// flags, B0 to B7 load an immediate into a byte register, E9, EA and EB
/// jump, FA and FB clear and set the interrupt flag.
pub open spec fn execute<T: Cpu286Context>(m: Machine<T::V>, opcode: u8) -> (
    Machine<T::V>,
    Option<Fault>,
) {
    let regs = m.cpu.regs;
    if jump_taken(regs.flags, opcode).is_some() {
        (short_jump::<T>(m, jump_taken(regs.flags, opcode).unwrap()), None)
    } else if opcode == 0x9e {
        (m.with_flags(flags_loaded(regs.flags, regs.byte(Reg8::AH))), None)
    } else if opcode == 0x9f {
        (
            m.with_regs(
                regs.with_byte(Reg8::AH, ((regs.flags.bits & 0xd5) | Flags::DEFAULT) as u8),
            ),
            None,
        )
    } else if 0xb0 <= opcode < 0xb8 {
        let (imm, fetched) = fetch8::<T>(m);
        (fetched.with_regs(fetched.cpu.regs.with_byte(Reg8::of((opcode % 8) as u8).unwrap(), imm)), None)
    } else if opcode == 0xe9 {
        let (distance, fetched) = fetch16::<T>(m);
        (fetched.advanced(distance), None)
    } else if opcode == 0xea {
        let (offset, after_offset) = fetch16::<T>(m);
        let (segment, after_segment) = fetch16::<T>(after_offset);
        if regs.protected() {
            (after_segment, Some(Fault::ProtectedMode))
        } else {
            (
                after_segment.with_regs(
                    after_segment.cpu.regs.with_selector(SegReg::CS, segment),
                ).at(offset),
                None,
            )
        }
    } else if opcode == 0xeb {
        (short_jump::<T>(m, true), None)
    } else if opcode == 0xfa {
        (m.with_flags(regs.flags.with(Flags::INTERRUPT, false)), None)
    } else if opcode == 0xfb {
        (m.with_flags(regs.flags.with(Flags::INTERRUPT, true)), None)
    } else {
        (m, Some(Fault::UnhandledOpcode(opcode)))
    }
}

/// One instruction, fetched from the instruction pointer: what it does to
/// the machine, and what it costs or why it could not be executed.
pub open spec fn tick<T: Cpu286Context>(m: Machine<T::V>) -> (Machine<T::V>, Result<usize, Fault>) {
    let (opcode, fetched) = fetch8::<T>(m);
    let current = Machine { cpu: Cpu286 { opcode, ..fetched.cpu }, bus: fetched.bus };
    let (done, fault) = execute::<T>(current, opcode);
    match fault {
        None => (done, Ok(CYCLES_PER_INSTRUCTION)),
        Some(fault) => (done, Err(fault)),
    }
}

impl Cpu286 {
    /// This processor on a bus.
    pub open spec fn on<B>(self, bus: B) -> Machine<B> {
        Machine { cpu: self, bus }
    }

    /// A processor at reset, with an empty disk image.
    pub fn new() -> (cpu: Cpu286)
        ensures
            cpu.regs == Registers::reset(),
            cpu.opcode == 0,
            cpu.floppy@ == Seq::<u8>::empty(),
    {
        Cpu286 { regs: Registers::new(), opcode: 0, floppy: Vec::new() }
    }

    /// Reads the byte at `addr`, wrapped to 24 bits.
    pub fn mem_read_byte<T: Cpu286Context>(&mut self, ctx: &mut T, addr: u32) -> (value: u8)
        requires
            old(ctx).inv(),
        ensures
            final(ctx).inv(),
            *final(self) == *old(self),
            (value, final(ctx)@) == T::mem_read(old(ctx)@, masked(addr)),
    {
        let masked_addr = addr % ADDRESS_SPACE;
        ctx.mem_read_byte(masked_addr)
    }

    /// Writes the byte at `addr`, wrapped to 24 bits.
    pub fn mem_write_byte<T: Cpu286Context>(&mut self, ctx: &mut T, addr: u32, value: u8)
        requires
            old(ctx).inv(),
        ensures
            final(ctx).inv(),
            *final(self) == *old(self),
            final(ctx)@ == T::mem_write(old(ctx)@, masked(addr), value),
    {
        let masked_addr = addr % ADDRESS_SPACE;
        ctx.mem_write_byte(masked_addr, value)
    }

    /// Reads the word at `addr`, low byte first.
    pub fn mem_read_word<T: Cpu286Context>(&mut self, ctx: &mut T, addr: u32) -> (value: u16)
        requires
            old(ctx).inv(),
        ensures
            final(ctx).inv(),
            *final(self) == *old(self),
            (value, final(ctx)@) == load16::<T>(old(ctx)@, addr),
    {
        let masked_addr = addr % ADDRESS_SPACE;
        let lo = ctx.mem_read_byte(masked_addr);
        let hi = ctx.mem_read_byte((masked_addr + 1) % ADDRESS_SPACE);
        (lo as u16) + (hi as u16) * 256
    }

    /// The linear address of the instruction pointer.
    pub fn code_address(&self) -> (addr: u32)
        ensures
            addr == self.on(()).code_address(),
            addr < ADDRESS_SPACE,
    {
        let base = self.regs.readseg16(SegReg::CS).base;
        (((base as u64) + (self.regs.ip as u64)) % (ADDRESS_SPACE as u64)) as u32
    }

    /// Fetches the byte at the instruction pointer and steps over it.
    pub fn fetch8<T: Cpu286Context>(&mut self, ctx: &mut T) -> (value: u8)
        requires
            old(ctx).inv(),
        ensures
            final(ctx).inv(),
            (value, final(self).on(final(ctx)@)) == fetch8::<T>(old(self).on(old(ctx)@)),
    {
        let addr = self.code_address();
        let value = self.mem_read_byte(ctx, addr);
        self.regs.ip = self.regs.ip.wrapping_add(1);
        value
    }

    /// Fetches the word at the instruction pointer and steps over it.
    pub fn fetch16<T: Cpu286Context>(&mut self, ctx: &mut T) -> (value: u16)
        requires
            old(ctx).inv(),
        ensures
            final(ctx).inv(),
            (value, final(self).on(final(ctx)@)) == fetch16::<T>(old(self).on(old(ctx)@)),
    {
        let addr = self.code_address();
        let value = self.mem_read_word(ctx, addr);
        self.regs.ip = self.regs.ip.wrapping_add(2);
        value
    }

    /// Whether a conditional jump is taken under the present flags.
    pub fn jump_taken(&self, opcode: u8) -> (taken: Option<bool>)
        ensures
            taken == jump_taken(self.regs.flags, opcode),
    {
        let flags = self.regs.flags;
        match opcode {
            0x70 => Some(flags.contains(Flags::OVERFLOW)),
            0x71 => Some(!flags.contains(Flags::OVERFLOW)),
            0x72 => Some(flags.contains(Flags::CARRY)),
            0x73 => Some(!flags.contains(Flags::CARRY)),
            0x74 => Some(flags.contains(Flags::ZERO)),
            0x75 => Some(!flags.contains(Flags::ZERO)),
            0x78 => Some(flags.contains(Flags::SIGN)),
            0x79 => Some(!flags.contains(Flags::SIGN)),
            0x7a => Some(flags.contains(Flags::PARITY)),
            0x7b => Some(!flags.contains(Flags::PARITY)),
            _ => None,
        }
    }

    /// Fetches a signed byte and, where `taken` holds, jumps by it.
    pub fn short_jump<T: Cpu286Context>(&mut self, ctx: &mut T, taken: bool)
        requires
            old(ctx).inv(),
        ensures
            final(ctx).inv(),
            final(self).on(final(ctx)@) == short_jump::<T>(old(self).on(old(ctx)@), taken),
    {
        let distance = self.fetch8(ctx);
        if taken {
            let widened: u16 = if distance < 0x80 {
                distance as u16
            } else {
                (distance as u16) + 0xff00
            };
            self.regs.ip = self.regs.ip.wrapping_add(widened);
        }
    }

    /// Executes the instruction whose opcode has just been fetched.
    pub fn execute<T: Cpu286Context>(&mut self, ctx: &mut T, opcode: u8) -> (fault: Option<Fault>)
        requires
            old(ctx).inv(),
        ensures
            final(ctx).inv(),
            (final(self).on(final(ctx)@), fault) == execute::<T>(old(self).on(old(ctx)@), opcode),
    {
        if let Some(taken) = self.jump_taken(opcode) {
            self.short_jump(ctx, taken);
            return None;
        }
        match opcode {
            0x9e => {
                let source = self.regs.read8(Reg8::AH);
                self.regs.flags = Flags::from_bits_truncate(
                    (self.regs.flags.bits() & 0xff02) | (source as u16),
                );
            },
            0x9f => {
                let low = ((self.regs.flags.bits() & 0xd5) | Flags::DEFAULT) as u8;
                self.regs.write8(Reg8::AH, low);
            },
            0xb0 | 0xb1 | 0xb2 | 0xb3 | 0xb4 | 0xb5 | 0xb6 | 0xb7 => {
                let imm = self.fetch8(ctx);
                self.regs.write8(Reg8::from_num(opcode % 8).unwrap(), imm);
            },
            0xe9 => {
                let distance = self.fetch16(ctx);
                self.regs.ip = self.regs.ip.wrapping_add(distance);
            },
            0xea => {
                let offset = self.fetch16(ctx);
                let segment = self.fetch16(ctx);
                match self.regs.writeseg16(SegReg::CS, segment) {
                    Ok(()) => {
                        self.regs.ip = offset;
                    },
                    Err(_) => {
                        return Some(Fault::ProtectedMode);
                    },
                }
            },
            0xeb => {
                self.short_jump(ctx, true);
            },
            0xfa => {
                self.regs.flags.set(Flags::INTERRUPT, false);
            },
            0xfb => {
                self.regs.flags.set(Flags::INTERRUPT, true);
            },
            _ => {
                return Some(Fault::UnhandledOpcode(opcode));
            },
        }
        None
    }

    /// Fetches the instruction at the instruction pointer and executes it.
    /// Returns what it cost, or the fault that stopped it.
    pub fn tick<T: Cpu286Context>(&mut self, ctx: &mut T) -> (result: Result<usize, Fault>)
        requires
            old(ctx).inv(),
        ensures
            final(ctx).inv(),
            (final(self).on(final(ctx)@), result) == tick::<T>(old(self).on(old(ctx)@)),
    {
        let opcode = self.fetch8(ctx);
        self.opcode = opcode;
        match self.execute(ctx, opcode) {
            None => Ok(CYCLES_PER_INSTRUCTION),
            Some(fault) => Err(fault),
        }
    }
}

} // verus!
