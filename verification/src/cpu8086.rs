//! The 8086-class core: one call of [`Cpu8086::tick`] fetches, decodes and
//! executes one instruction against a memory and I/O bus.
//!
//! The bus is any type with the four byte-wide operations of
//! [`Cpu8086Context`]. A bus is modelled by its view, and each operation by a
//! function from the view before it to the value read and the view after it,
//! so that what an instruction does is a function of the processor and the
//! bus together: a [`Machine`].

use vstd::prelude::*;
use crate::cpu8086::registers::{Reg16, Registers, SegReg};

pub mod alu;
pub mod execute;
pub mod interrupt;
pub mod operand;
pub mod registers;
pub mod strings;

verus! {

/// Number of bytes that the core can address: one mebibyte.
pub const ADDRESS_SPACE: u32 = 0x10_0000;

/// The linear address of `segment:offset`: sixteen times the segment plus
/// the offset, wrapped to twenty bits.
pub open spec fn linear(segment: u16, offset: u16) -> u32 {
    ((segment * 16 + offset) % 0x10_0000) as u32
}

/// The linear address that follows `address`, wrapped to twenty bits.
pub open spec fn next_linear(address: u32) -> u32 {
    ((address + 1) % 0x10_0000) as u32
}

/// Memory and I/O space as the core sees them, one byte at a time.
///
/// `mem_read`, `mem_write`, `io_read` and `io_write` say what each operation
/// does to the view of the bus. Memory addresses that the core hands over
/// are below [`ADDRESS_SPACE`].
pub trait Cpu8086Context: View {
    /// What must hold of the bus for its operations to be called.
    spec fn inv(&self) -> bool;

    /// The byte that a memory read returns, and the bus after the read.
    spec fn mem_read(bus: Self::V, addr: u32) -> (u8, Self::V);

    /// The bus after a memory write.
    spec fn mem_write(bus: Self::V, addr: u32, value: u8) -> Self::V;

    /// The byte that a port read returns, and the bus after the read.
    spec fn io_read(bus: Self::V, addr: u16) -> (u8, Self::V);

    /// The bus after a port write.
    spec fn io_write(bus: Self::V, addr: u16, value: u8) -> Self::V;

    /// Reads the byte at the linear address `addr`.
    fn mem_read_byte(&mut self, addr: u32) -> (value: u8)
        requires
            old(self).inv(),
            addr < ADDRESS_SPACE,
        ensures
            final(self).inv(),
            (value, final(self)@) == Self::mem_read(old(self)@, addr),
    ;

    /// Writes the byte at the linear address `addr`.
    fn mem_write_byte(&mut self, addr: u32, value: u8)
        requires
            old(self).inv(),
            addr < ADDRESS_SPACE,
        ensures
            final(self).inv(),
            final(self)@ == Self::mem_write(old(self)@, addr, value),
    ;

    /// Reads the port `addr`.
    fn io_read_byte(&mut self, addr: u16) -> (value: u8)
        requires
            old(self).inv(),
        ensures
            final(self).inv(),
            (value, final(self)@) == Self::io_read(old(self)@, addr),
    ;

    /// Writes the port `addr`.
    fn io_write_byte(&mut self, addr: u16, value: u8)
        requires
            old(self).inv(),
        ensures
            final(self).inv(),
            final(self)@ == Self::io_write(old(self)@, addr, value),
    ;
}

/// Which repeat prefix is in force.
#[derive(Clone, Copy, Debug, PartialEq, Eq, Structural)]
pub enum RepType {
    REPE,
    REPNE,
}

/// Why an instruction could not be executed. Emulation cannot go on after
/// any of these.
#[derive(Clone, Copy, Debug, PartialEq, Eq, Structural)]
pub enum Fault {
    /// The opcode byte has no defined operation.
    UnhandledOpcode(u8),
    /// The opcode takes its operation from the register field of the
    /// addressing byte, and the field's value has none: opcode, then field.
    UnhandledGroupOp(u8, u8),
    /// The opcode got a register operand where it takes memory only, or a
    /// memory operand where it takes a register only.
    UnsupportedOperand(u8),
    /// The register field names no segment register.
    InvalidSegmentRegister(u8),
    /// The software interrupt has no service for this vector and service
    /// number: vector, then the service number in AH.
    UnhandledInterrupt(u8, u8),
    /// The disk service was asked for sectors beyond the end of the disk
    /// image.
    DiskImageOverrun,
    /// More prefix bytes in a row than one instruction may carry.
    PrefixOverrun,
}

/// What one executed instruction reports: the time it took, and the
/// character it sent to the console, if it sent one.
#[derive(Clone, Copy, Debug, PartialEq, Eq, Structural)]
pub struct Step {
    pub cycles: usize,
    pub output: Option<u8>,
}

/// The processor: its registers, the opcode it fetched last, the two
/// one-instruction prefix latches, and the disk image that the disk service
/// reads from.
#[derive(Clone, Debug)]
pub struct Cpu8086 {
    pub regs: Registers,
    pub opcode: u8,
    pub seg_override: Option<SegReg>,
    pub rep_state: Option<RepType>,
    pub floppy: Vec<u8>,
}

/// A processor together with the view of the bus it runs against.
pub struct Machine<B> {
    pub cpu: Cpu8086,
    pub bus: B,
}

/// The word made of a low and a high byte.
pub open spec fn word_of(low: u8, high: u8) -> u16 {
    (low + high * 256) as u16
}

/// A byte read from `segment:offset`, and the bus after it.
pub open spec fn load8<T: Cpu8086Context>(bus: T::V, segment: u16, offset: u16) -> (u8, T::V) {
    T::mem_read(bus, linear(segment, offset))
}

/// The bus after a byte is written to `segment:offset`.
pub open spec fn store8<T: Cpu8086Context>(bus: T::V, segment: u16, offset: u16, value: u8) -> T::V {
    T::mem_write(bus, linear(segment, offset), value)
}

/// A word read from `segment:offset`, low byte first; the high byte comes
/// from the linear address that follows.
pub open spec fn load16<T: Cpu8086Context>(bus: T::V, segment: u16, offset: u16) -> (u16, T::V) {
    let (low, after_low) = T::mem_read(bus, linear(segment, offset));
    let (high, after_high) = T::mem_read(after_low, next_linear(linear(segment, offset)));
    (word_of(low, high), after_high)
}

/// The bus after a word is written to `segment:offset`, low byte first.
pub open spec fn store16<T: Cpu8086Context>(
    bus: T::V,
    segment: u16,
    offset: u16,
    value: u16,
) -> T::V {
    let after_low = T::mem_write(bus, linear(segment, offset), (value % 256) as u8);
    T::mem_write(after_low, next_linear(linear(segment, offset)), (value / 256) as u8)
}

/// A byte widened to a word with its sign.
pub open spec fn sign_extend(value: u8) -> u16 {
    if value < 0x80 {
        value as u16
    } else {
        (value + 0xff00) as u16
    }
}

impl<B> Machine<B> {
    /// The machine with other registers.
    pub open spec fn with_regs(self, regs: Registers) -> Machine<B> {
        Machine { cpu: self.cpu.with_regs(regs), bus: self.bus }
    }

    /// The machine with another bus.
    pub open spec fn with_bus(self, bus: B) -> Machine<B> {
        Machine { cpu: self.cpu, bus }
    }

    /// The machine with the instruction pointer moved forward by `count`,
    /// with wraparound.
    pub open spec fn advanced(self, count: u16) -> Machine<B> {
        Machine { cpu: self.cpu.with_ip(self.cpu.regs.ip.wrapping_add(count)), bus: self.bus }
    }

    /// The machine with another instruction pointer.
    pub open spec fn at(self, ip: u16) -> Machine<B> {
        Machine { cpu: self.cpu.with_ip(ip), bus: self.bus }
    }

    /// The machine with other flags.
    pub open spec fn with_flags(self, flags: registers::Flags) -> Machine<B> {
        self.with_regs(Registers { flags, ..self.cpu.regs })
    }

    /// The machine after a byte register is written.
    pub open spec fn with_byte(self, reg: registers::Reg8, value: u8) -> Machine<B> {
        self.with_regs(self.cpu.regs.with_byte(reg, value))
    }

    /// The machine after a word register is written.
    pub open spec fn with_word(self, reg: Reg16, value: u16) -> Machine<B> {
        self.with_regs(self.cpu.regs.with_word(reg, value))
    }

    /// The machine after a segment register is loaded.
    pub open spec fn with_selector(self, seg_reg: SegReg, value: u16) -> Machine<B> {
        self.with_regs(self.cpu.regs.with_selector(seg_reg, value))
    }
}

/// The byte at CS:IP, and the machine with the instruction pointer behind
/// it.
pub open spec fn fetch8<T: Cpu8086Context>(m: Machine<T::V>) -> (u8, Machine<T::V>) {
    let (value, bus) = load8::<T>(m.bus, m.cpu.regs.selector(SegReg::CS), m.cpu.regs.ip);
    (value, m.with_bus(bus).advanced(1))
}

/// The word at CS:IP, and the machine with the instruction pointer behind
/// it.
pub open spec fn fetch16<T: Cpu8086Context>(m: Machine<T::V>) -> (u16, Machine<T::V>) {
    let (value, bus) = load16::<T>(m.bus, m.cpu.regs.selector(SegReg::CS), m.cpu.regs.ip);
    (value, m.with_bus(bus).advanced(2))
}

/// The machine after `value` is pushed: the stack pointer goes down by two,
/// then the word is written at SS:SP.
pub open spec fn push16<T: Cpu8086Context>(m: Machine<T::V>, value: u16) -> Machine<T::V> {
    let sp = m.cpu.regs.word(Reg16::SP).wrapping_sub(2);
    let pushed = m.with_word(Reg16::SP, sp);
    pushed.with_bus(store16::<T>(m.bus, m.cpu.regs.selector(SegReg::SS), sp, value))
}

/// The word on top of the stack, and the machine after it is popped: the
/// stack pointer goes up by two, and the word is read from where it was.
pub open spec fn pop16<T: Cpu8086Context>(m: Machine<T::V>) -> (u16, Machine<T::V>) {
    let sp = m.cpu.regs.word(Reg16::SP);
    let (value, bus) = load16::<T>(m.bus, m.cpu.regs.selector(SegReg::SS), sp);
    (value, m.with_word(Reg16::SP, sp.wrapping_add(2)).with_bus(bus))
}

/// How many prefix bytes one instruction may carry.
pub const MAX_PREFIXES: usize = 14;

/// What one instruction costs, in cycles. The same for every instruction: a
/// coarse stand-in for the real timings.
pub const CYCLES_PER_INSTRUCTION: usize = 4;

/// The processor after the prefix byte `opcode` has set its latch; none
/// where `opcode` is no prefix. 26, 2E, 36 and 3E name the segment that the
/// next memory operand uses; F2 and F3 repeat the next string instruction.
pub open spec fn latched(cpu: Cpu8086, opcode: u8) -> Option<Cpu8086> {
    if opcode == 0x26 {
        Some(Cpu8086 { seg_override: Some(SegReg::ES), ..cpu })
    } else if opcode == 0x2e {
        Some(Cpu8086 { seg_override: Some(SegReg::CS), ..cpu })
    } else if opcode == 0x36 {
        Some(Cpu8086 { seg_override: Some(SegReg::SS), ..cpu })
    } else if opcode == 0x3e {
        Some(Cpu8086 { seg_override: Some(SegReg::DS), ..cpu })
    } else if opcode == 0xf2 {
        Some(Cpu8086 { rep_state: Some(RepType::REPNE), ..cpu })
    } else if opcode == 0xf3 {
        Some(Cpu8086 { rep_state: Some(RepType::REPE), ..cpu })
    } else {
        None
    }
}

/// The processor with both prefix latches open again.
pub open spec fn unlatched(cpu: Cpu8086) -> Cpu8086 {
    Cpu8086 { seg_override: None, rep_state: None, ..cpu }
}

/// The opcode at CS:IP, and the machine that has fetched it.
pub open spec fn fetch_opcode<T: Cpu8086Context>(m: Machine<T::V>) -> (u8, Machine<T::V>) {
    let (opcode, fetched) = fetch8::<T>(m);
    (opcode, Machine { cpu: Cpu8086 { opcode, ..fetched.cpu }, bus: fetched.bus })
}

/// One instruction with at most `budget` prefix bytes before its opcode.
///
/// A prefix sets its latch and the next byte is looked at. Any other opcode
/// is executed; when it is done both latches are open again. After a fault
/// the machine is left as it was when the fault was found.
pub open spec fn run<T: Cpu8086Context>(m: Machine<T::V>, budget: nat) -> (
    Machine<T::V>,
    Result<Step, Fault>,
)
    decreases budget,
{
    let (opcode, fetched) = fetch_opcode::<T>(m);
    match latched(fetched.cpu, opcode) {
        Some(cpu) => if budget == 0 {
            (Machine { cpu, bus: fetched.bus }, Err(Fault::PrefixOverrun))
        } else {
            run::<T>(Machine { cpu, bus: fetched.bus }, (budget - 1) as nat)
        },
        None => {
            let (done, result) = execute::execute::<T>(fetched, opcode);
            match result {
                Ok(output) => (
                    Machine { cpu: unlatched(done.cpu), bus: done.bus },
                    Ok(Step { cycles: CYCLES_PER_INSTRUCTION, output }),
                ),
                Err(fault) => (done, Err(fault)),
            }
        },
    }
}

/// One instruction, fetched from CS:IP.
pub open spec fn tick<T: Cpu8086Context>(m: Machine<T::V>) -> (Machine<T::V>, Result<Step, Fault>) {
    run::<T>(m, MAX_PREFIXES as nat)
}

/// Every linear address is inside the address space, and a segment starts
/// at sixteen times its selector.
pub proof fn lemma_linear_in_range(segment: u16, offset: u16)
    ensures
        linear(segment, offset) < ADDRESS_SPACE,
        next_linear(linear(segment, offset)) < ADDRESS_SPACE,
        linear(segment, offset) == (registers::segment_base(segment) + offset) % 0x10_0000,
        segment < 0xf000 ==> linear(segment, offset) == segment * 16 + offset,
{
}

/// An instruction that ends without a fault leaves both prefix latches
/// open, whatever prefixes came before its opcode, and costs the fixed
/// number of cycles.
pub proof fn lemma_run_opens_latches<T: Cpu8086Context>(m: Machine<T::V>, budget: nat)
    ensures
        run::<T>(m, budget).1.is_ok() ==> run::<T>(m, budget).0.cpu.seg_override.is_none() && run::<
            T,
        >(m, budget).0.cpu.rep_state.is_none(),
        run::<T>(m, budget).1.is_ok() ==> run::<T>(m, budget).1.unwrap().cycles
            == CYCLES_PER_INSTRUCTION,
    decreases budget,
{
    let (opcode, fetched) = fetch_opcode::<T>(m);
    match latched(fetched.cpu, opcode) {
        Some(cpu) => {
            if budget > 0 {
                lemma_run_opens_latches::<T>(Machine { cpu, bus: fetched.bus }, (budget - 1) as nat);
            }
        },
        None => {},
    }
}

/// The same of a whole instruction as `tick` runs it.
pub proof fn lemma_tick_opens_latches<T: Cpu8086Context>(m: Machine<T::V>)
    ensures
        tick::<T>(m).1.is_ok() ==> tick::<T>(m).0.cpu.seg_override.is_none() && tick::<T>(
            m,
        ).0.cpu.rep_state.is_none() && tick::<T>(m).1.unwrap().cycles == CYCLES_PER_INSTRUCTION,
{
    lemma_run_opens_latches::<T>(m, MAX_PREFIXES as nat);
}

/// An opcode that is no prefix is executed at once: the instruction is
/// what `execute` does behind the opcode, with the latches opened after it.
pub proof fn lemma_tick_without_prefix<T: Cpu8086Context>(m: Machine<T::V>)
    requires
        latched(fetch_opcode::<T>(m).1.cpu, fetch_opcode::<T>(m).0).is_none(),
    ensures
        ({
            let (opcode, fetched) = fetch_opcode::<T>(m);
            let (done, result) = execute::execute::<T>(fetched, opcode);
            tick::<T>(m) == match result {
                Ok(output) => (
                    Machine { cpu: unlatched(done.cpu), bus: done.bus },
                    Ok(Step { cycles: CYCLES_PER_INSTRUCTION, output }),
                ),
                Err(fault) => (done, Err(fault)),
            }
        }),
{
}

/// The load of a byte immediate, B0 to B7 followed by the byte: the
/// register that the opcode names holds the byte, the instruction pointer
/// is two further, and the flags, the other registers and the segment
/// registers are what they were.
pub proof fn lemma_load_byte_immediate<T: Cpu8086Context>(m: Machine<T::V>)
    requires
        0xb0 <= fetch8::<T>(m).0 <= 0xb7,
    ensures
        ({
            let (opcode, fetched) = fetch8::<T>(m);
            let (imm, after) = fetch8::<T>(fetched);
            let reg = registers::Reg8::of((opcode - 0xb0) as u8).unwrap();
            let (done, result) = tick::<T>(m);
            &&& result == Ok::<Step, Fault>(Step { cycles: CYCLES_PER_INSTRUCTION, output: None })
            &&& done.bus == after.bus
            &&& done.cpu.regs == (Registers {
                ip: m.cpu.regs.ip.wrapping_add(2),
                ..m.cpu.regs.with_byte(reg, imm)
            })
            &&& done.cpu.regs.byte(reg) == imm
            &&& done.cpu.regs.flags == m.cpu.regs.flags
            &&& done.cpu.regs.seg_regs == m.cpu.regs.seg_regs
            &&& done.cpu.opcode == opcode
        }),
{
    reveal(execute::execute);
    lemma_tick_without_prefix::<T>(m);
    let (opcode, fetched) = fetch8::<T>(m);
    let (imm, after) = fetch8::<T>(fetched);
    let reg = registers::Reg8::of((opcode - 0xb0) as u8).unwrap();
    registers::lemma_byte_write_read(m.cpu.regs, reg, imm, reg, Reg16::AX);
    assert(opcode % 8 == opcode - 0xb0);
    assert(tick::<T>(m).0.cpu.regs.gprs =~= m.cpu.regs.with_byte(reg, imm).gprs);
}

/// The far jump, EA followed by an offset and a segment: the code segment
/// holds the segment and the instruction pointer the offset; every other
/// register and the flags are what they were.
pub proof fn lemma_far_jump<T: Cpu8086Context>(m: Machine<T::V>)
    requires
        fetch8::<T>(m).0 == 0xea,
    ensures
        ({
            let (opcode, fetched) = fetch8::<T>(m);
            let (offset, after_offset) = fetch16::<T>(fetched);
            let (segment, after_segment) = fetch16::<T>(after_offset);
            let (done, result) = tick::<T>(m);
            &&& result == Ok::<Step, Fault>(Step { cycles: CYCLES_PER_INSTRUCTION, output: None })
            &&& done.bus == after_segment.bus
            &&& done.cpu.regs == (Registers {
                ip: offset,
                ..m.cpu.regs.with_selector(SegReg::CS, segment)
            })
            &&& done.cpu.regs.selector(SegReg::CS) == segment
            &&& done.cpu.regs.ip == offset
        }),
{
    reveal(execute::execute);
    lemma_tick_without_prefix::<T>(m);
    let (opcode, fetched) = fetch8::<T>(m);
    let (offset, after_offset) = fetch16::<T>(fetched);
    let (segment, after_segment) = fetch16::<T>(after_offset);
    assert(execute::flag_control(fetched.cpu.regs.flags, 0xea).is_none());
    assert(tick::<T>(m).0.cpu.regs.seg_regs =~= m.cpu.regs.with_selector(
        SegReg::CS,
        segment,
    ).seg_regs);
}

/// A jump by a signed byte lands at the end of the instruction plus the
/// byte when it is taken, and at the end of the instruction when not: the
/// distance counts from behind the instruction.
pub proof fn lemma_short_jump_target<T: Cpu8086Context>(m: Machine<T::V>, taken: bool)
    ensures
        ({
            let (distance, fetched) = fetch8::<T>(m);
            let target = execute::short_jump::<T>(m, taken).cpu.regs.ip;
            &&& fetched.cpu.regs.ip == m.cpu.regs.ip.wrapping_add(1)
            &&& !taken ==> target == fetched.cpu.regs.ip
            &&& taken && distance < 0x80 ==> target == (fetched.cpu.regs.ip + distance) % 0x1_0000
            &&& taken && distance >= 0x80 ==> target == (fetched.cpu.regs.ip + distance - 0x100
                + 0x1_0000) % 0x1_0000
        }),
{
}

impl Cpu8086 {
    /// This processor with other registers.
    pub open spec fn with_regs(self, regs: Registers) -> Cpu8086 {
        Cpu8086 { regs, ..self }
    }

    /// This processor with another instruction pointer.
    pub open spec fn with_ip(self, ip: u16) -> Cpu8086 {
        Cpu8086 { regs: Registers { ip, ..self.regs }, ..self }
    }

    /// This processor on a bus.
    pub open spec fn on<B>(self, bus: B) -> Machine<B> {
        Machine { cpu: self, bus }
    }

    /// A processor at reset, with an empty disk image.
    pub fn new() -> (cpu: Cpu8086)
        ensures
            cpu.regs == Registers::reset(),
            cpu.opcode == 0,
            cpu.seg_override.is_none(),
            cpu.rep_state.is_none(),
            cpu.floppy@ == Seq::<u8>::empty(),
    {
        Cpu8086 {
            regs: Registers::new(),
            opcode: 0,
            seg_override: None,
            rep_state: None,
            floppy: Vec::new(),
        }
    }

    /// Reads the byte at `seg:addr`.
    pub fn mem_read_byte<T: Cpu8086Context>(&mut self, ctx: &mut T, seg: u16, addr: u16) -> (value:
        u8)
        requires
            old(ctx).inv(),
        ensures
            final(ctx).inv(),
            *final(self) == *old(self),
            (value, final(ctx)@) == load8::<T>(old(ctx)@, seg, addr),
    {
        let masked_addr: u32 = ((seg as u32) * 16 + (addr as u32)) % ADDRESS_SPACE;
        ctx.mem_read_byte(masked_addr)
    }

    /// Writes the byte at `seg:addr`.
    pub fn mem_write_byte<T: Cpu8086Context>(&mut self, ctx: &mut T, seg: u16, addr: u16, value: u8)
        requires
            old(ctx).inv(),
        ensures
            final(ctx).inv(),
            *final(self) == *old(self),
            final(ctx)@ == store8::<T>(old(ctx)@, seg, addr, value),
    {
        let masked_addr: u32 = ((seg as u32) * 16 + (addr as u32)) % ADDRESS_SPACE;
        ctx.mem_write_byte(masked_addr, value)
    }

    /// Reads the port `addr`.
    pub fn io_read_byte<T: Cpu8086Context>(&mut self, ctx: &mut T, addr: u16) -> (value: u8)
        requires
            old(ctx).inv(),
        ensures
            final(ctx).inv(),
            *final(self) == *old(self),
            (value, final(ctx)@) == T::io_read(old(ctx)@, addr),
    {
        ctx.io_read_byte(addr)
    }

    /// Writes the port `addr`.
    pub fn io_write_byte<T: Cpu8086Context>(&mut self, ctx: &mut T, addr: u16, value: u8)
        requires
            old(ctx).inv(),
        ensures
            final(ctx).inv(),
            *final(self) == *old(self),
            final(ctx)@ == T::io_write(old(ctx)@, addr, value),
    {
        ctx.io_write_byte(addr, value)
    }

    /// Reads the word at `seg:addr`, low byte first.
    pub fn mem_read_word<T: Cpu8086Context>(&mut self, ctx: &mut T, seg: u16, addr: u16) -> (value:
        u16)
        requires
            old(ctx).inv(),
        ensures
            final(ctx).inv(),
            *final(self) == *old(self),
            (value, final(ctx)@) == load16::<T>(old(ctx)@, seg, addr),
    {
        let masked_addr: u32 = ((seg as u32) * 16 + (addr as u32)) % ADDRESS_SPACE;
        let lo = ctx.mem_read_byte(masked_addr);
        let hi = ctx.mem_read_byte((masked_addr + 1) % ADDRESS_SPACE);
        (lo as u16) + (hi as u16) * 256
    }

    /// Writes the word at `seg:addr`, low byte first.
    pub fn mem_write_word<T: Cpu8086Context>(&mut self, ctx: &mut T, seg: u16, addr: u16, value: u16)
        requires
            old(ctx).inv(),
        ensures
            final(ctx).inv(),
            *final(self) == *old(self),
            final(ctx)@ == store16::<T>(old(ctx)@, seg, addr, value),
    {
        let masked_addr: u32 = ((seg as u32) * 16 + (addr as u32)) % ADDRESS_SPACE;
        ctx.mem_write_byte(masked_addr, (value % 256) as u8);
        ctx.mem_write_byte((masked_addr + 1) % ADDRESS_SPACE, (value / 256) as u8);
    }

    /// Fetches the byte at CS:IP and steps over it.
    pub fn fetch8<T: Cpu8086Context>(&mut self, ctx: &mut T) -> (value: u8)
        requires
            old(ctx).inv(),
        ensures
            final(ctx).inv(),
            (value, final(self).on(final(ctx)@)) == fetch8::<T>(old(self).on(old(ctx)@)),
    {
        let cs = self.regs.readseg16(SegReg::CS);
        let ip = self.regs.ip;
        let value = self.mem_read_byte(ctx, cs, ip);
        self.regs.ip = ip.wrapping_add(1);
        value
    }

    /// Fetches the word at CS:IP and steps over it.
    pub fn fetch16<T: Cpu8086Context>(&mut self, ctx: &mut T) -> (value: u16)
        requires
            old(ctx).inv(),
        ensures
            final(ctx).inv(),
            (value, final(self).on(final(ctx)@)) == fetch16::<T>(old(self).on(old(ctx)@)),
    {
        let cs = self.regs.readseg16(SegReg::CS);
        let ip = self.regs.ip;
        let value = self.mem_read_word(ctx, cs, ip);
        self.regs.ip = ip.wrapping_add(2);
        value
    }

    /// Pushes a word on the stack.
    pub fn push16<T: Cpu8086Context>(&mut self, ctx: &mut T, value: u16)
        requires
            old(ctx).inv(),
        ensures
            final(ctx).inv(),
            final(self).on(final(ctx)@) == push16::<T>(old(self).on(old(ctx)@), value),
    {
        let sp = self.regs.read16(Reg16::SP).wrapping_sub(2);
        self.regs.write16(Reg16::SP, sp);
        let ss = self.regs.readseg16(SegReg::SS);
        self.mem_write_word(ctx, ss, sp, value);
    }

    /// Pops a word off the stack.
    pub fn pop16<T: Cpu8086Context>(&mut self, ctx: &mut T) -> (value: u16)
        requires
            old(ctx).inv(),
        ensures
            final(ctx).inv(),
            (value, final(self).on(final(ctx)@)) == pop16::<T>(old(self).on(old(ctx)@)),
    {
        let stack_pointer = self.regs.read16(Reg16::SP);
        self.regs.write16(Reg16::SP, stack_pointer.wrapping_add(2));
        let ss = self.regs.readseg16(SegReg::SS);
        self.mem_read_word(ctx, ss, stack_pointer)
    }

    /// Sets the latch of a prefix byte. Returns whether `opcode` is one.
    pub fn latch(&mut self, opcode: u8) -> (is_prefix: bool)
        ensures
            is_prefix == latched(*old(self), opcode).is_some(),
            is_prefix ==> *final(self) == latched(*old(self), opcode).unwrap(),
            !is_prefix ==> *final(self) == *old(self),
    {
        match opcode {
            0x26 => self.seg_override = Some(SegReg::ES),
            0x2e => self.seg_override = Some(SegReg::CS),
            0x36 => self.seg_override = Some(SegReg::SS),
            0x3e => self.seg_override = Some(SegReg::DS),
            0xf2 => self.rep_state = Some(RepType::REPNE),
            0xf3 => self.rep_state = Some(RepType::REPE),
            _ => {
                return false;
            },
        }
        true
    }

    /// Fetches the instruction at CS:IP, with its prefixes, and executes
    /// it. Returns what it cost and what it sent to the console, or the
    /// fault that stopped it.
    pub fn tick<T: Cpu8086Context>(&mut self, ctx: &mut T) -> (result: Result<Step, Fault>)
        requires
            old(ctx).inv(),
        ensures
            final(ctx).inv(),
            (final(self).on(final(ctx)@), result) == tick::<T>(old(self).on(old(ctx)@)),
    {
        let mut budget: usize = MAX_PREFIXES;
        loop
            invariant
                ctx.inv(),
                run::<T>(self.on(ctx@), budget as nat) == tick::<T>(old(self).on(old(ctx)@)),
            decreases budget,
        {
            let opcode = self.fetch8(ctx);
            self.opcode = opcode;
            if self.latch(opcode) {
                if budget == 0 {
                    return Err(Fault::PrefixOverrun);
                }
                budget = budget - 1;
            } else {
                match self.execute(ctx, opcode) {
                    Ok(output) => {
                        self.seg_override = None;
                        self.rep_state = None;
                        return Ok(Step { cycles: CYCLES_PER_INSTRUCTION, output });
                    },
                    Err(fault) => {
                        return Err(fault);
                    },
                }
            }
        }
    }

    /// Sets the parity flag when the low byte of `data` has an even number
    /// of one bits, and clears it when not.
    pub fn set_parity_flag(&mut self, data: u16)
        ensures
            *final(self) == old(self).with_regs(
                Registers {
                    flags: old(self).regs.flags.with(
                        registers::Flags::PARITY,
                        alu::even_parity(data),
                    ),
                    ..old(self).regs
                },
            ),
    {
        let even = alu::parity_even(data);
        self.regs.flags.set(registers::Flags::PARITY, even);
    }

    /// Sets parity, zero and sign from a byte result.
    pub fn set_pzs8(&mut self, data: u8)
        ensures
            *final(self) == old(self).with_regs(
                Registers { flags: alu::pzs8_spec(old(self).regs.flags, data), ..old(self).regs },
            ),
    {
        self.regs.flags = alu::pzs8(self.regs.flags, data);
    }

    /// Sets parity, zero and sign from a word result.
    pub fn set_pzs16(&mut self, data: u16)
        ensures
            *final(self) == old(self).with_regs(
                Registers { flags: alu::pzs16_spec(old(self).regs.flags, data), ..old(self).regs },
            ),
    {
        self.regs.flags = alu::pzs16(self.regs.flags, data);
    }
}

} // verus!
