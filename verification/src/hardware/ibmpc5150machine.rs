//! The memory and I/O space of the IBM PC 5150: 64 KiB of RAM, an 8 KiB
//! BIOS ROM at the top of the address space, and the timer at ports 40h to
//! 43h.

use vstd::prelude::*;
use crate::cpu::CpuContext;
use crate::cpu8086::Cpu8086Context;
use crate::hardware::pit::PIT;

verus! {

/// Bytes of RAM.
pub const RAM_SIZE: usize = 0x1_0000;

/// Bytes of BIOS ROM.
pub const ROM_SIZE: usize = 0x2000;

/// What reads return where nothing answers.
pub const OPEN_BUS: u8 = 0xff;

/// The hardware of the machine.
#[derive(Clone, Debug)]
pub struct IbmPc5150Hardware {
    pub ram: Vec<u8>,
    pub bios_rom: Vec<u8>,
    pub pit: PIT,
}

/// The hardware as plain values.
pub struct IbmPc5150State {
    pub ram: Seq<u8>,
    pub bios_rom: Seq<u8>,
    pub pit: PIT,
}

impl View for IbmPc5150Hardware {
    type V = IbmPc5150State;

    open spec fn view(&self) -> IbmPc5150State {
        IbmPc5150State { ram: self.ram@, bios_rom: self.bios_rom@, pit: self.pit }
    }
}

impl IbmPc5150State {
    /// The RAM and the ROM have their full sizes.
    pub open spec fn wf(self) -> bool {
        self.ram.len() == RAM_SIZE && self.bios_rom.len() >= ROM_SIZE
    }

    /// The byte that memory holds at `addr`: RAM up to 1_0000h, ROM from
    /// F_E000h on, and nothing in between.
    pub open spec fn byte_at(self, addr: u32) -> u8 {
        if addr <= 0x1_0000 {
            self.ram[addr as int % 0x1_0000]
        } else if 0xf_e000 <= addr <= 0xf_ffff {
            self.bios_rom[addr as int % 0x2000]
        } else {
            OPEN_BUS
        }
    }

    /// The hardware after a write to memory: addresses up to A_0000h reach
    /// the RAM, which repeats every 64 KiB; writes above are lost.
    pub open spec fn stored(self, addr: u32, value: u8) -> IbmPc5150State {
        if addr <= 0xa_0000 {
            IbmPc5150State { ram: self.ram.update(addr as int % 0x1_0000, value), ..self }
        } else {
            self
        }
    }

    /// Whether the timer answers at the port `addr`.
    pub open spec fn is_timer_port(addr: u16) -> bool {
        0x40 <= addr <= 0x43
    }

    /// The byte that the port `addr` reads: what the timer answers at its
    /// ports, and nothing elsewhere.
    pub open spec fn port_value(self, addr: u16) -> u8 {
        if IbmPc5150State::is_timer_port(addr) {
            0
        } else {
            OPEN_BUS
        }
    }

    /// The hardware after a write to the port `addr`: the timer takes what
    /// is written to its ports, and writes elsewhere are lost.
    pub open spec fn port_written(self, addr: u16, value: u8) -> IbmPc5150State {
        if IbmPc5150State::is_timer_port(addr) {
            IbmPc5150State { pit: self.pit.written(addr, value), ..self }
        } else {
            self
        }
    }
}

impl IbmPc5150Hardware {
    /// The hardware with RAM full of zeros, the BIOS image `bios_rom`, and
    /// the timer at power-up.
    pub fn new(bios_rom: Vec<u8>) -> (hardware: IbmPc5150Hardware)
        requires
            bios_rom.len() >= ROM_SIZE,
        ensures
            hardware@.wf(),
            hardware.bios_rom == bios_rom,
            hardware.ram@ == Seq::new(RAM_SIZE as nat, |i: int| 0u8),
            hardware.pit == PIT::power_up(),
    {
        let ram = vec![0u8; RAM_SIZE];
        assert(ram@ =~= Seq::new(RAM_SIZE as nat, |i: int| 0u8));
        IbmPc5150Hardware { ram, bios_rom, pit: PIT::new() }
    }

    /// Lets `cycles` cycles pass on the devices.
    pub fn tick(&mut self, cycles: usize)
        ensures
            final(self)@ == old(self)@,
    {
        self.pit.tick(cycles);
    }
}

impl IbmPc5150Hardware {
    /// Reads the byte at the linear address `addr`.
    pub fn read_memory(&self, addr: u32) -> (value: u8)
        requires
            self@.wf(),
            addr < 0x10_0000,
        ensures
            value == self@.byte_at(addr),
    {
        if addr <= 0x1_0000 {
            self.ram[(addr % 0x1_0000) as usize]
        } else if 0xf_e000 <= addr && addr <= 0xf_ffff {
            self.bios_rom[(addr % 0x2000) as usize]
        } else {
            OPEN_BUS
        }
    }

    /// Writes the byte at the linear address `addr`.
    pub fn write_memory(&mut self, addr: u32, value: u8)
        requires
            old(self)@.wf(),
            addr < 0x10_0000,
        ensures
            final(self)@ == old(self)@.stored(addr, value),
            final(self)@.wf(),
    {
        if addr <= 0xa_0000 {
            self.ram[(addr % 0x1_0000) as usize] = value;
        }
    }

    /// Reads the port `addr`.
    pub fn read_port(&mut self, addr: u16) -> (value: u8)
        ensures
            value == old(self)@.port_value(addr),
            final(self)@ == old(self)@,
    {
        if 0x40 <= addr && addr <= 0x43 {
            self.pit.rb(addr)
        } else {
            OPEN_BUS
        }
    }

    /// Writes the port `addr`.
    pub fn write_port(&mut self, addr: u16, value: u8)
        ensures
            final(self)@ == old(self)@.port_written(addr, value),
    {
        if 0x40 <= addr && addr <= 0x43 {
            self.pit.wb(addr, value);
        }
    }
}

impl Cpu8086Context for IbmPc5150Hardware {
    open spec fn inv(&self) -> bool {
        self@.wf()
    }

    open spec fn mem_read(bus: IbmPc5150State, addr: u32) -> (u8, IbmPc5150State) {
        (bus.byte_at(addr), bus)
    }

    open spec fn mem_write(bus: IbmPc5150State, addr: u32, value: u8) -> IbmPc5150State {
        bus.stored(addr, value)
    }

    open spec fn io_read(bus: IbmPc5150State, addr: u16) -> (u8, IbmPc5150State) {
        (bus.port_value(addr), bus)
    }

    open spec fn io_write(bus: IbmPc5150State, addr: u16, value: u8) -> IbmPc5150State {
        bus.port_written(addr, value)
    }

    fn mem_read_byte(&mut self, addr: u32) -> (value: u8) {
        self.read_memory(addr)
    }

    fn mem_write_byte(&mut self, addr: u32, value: u8) {
        self.write_memory(addr, value)
    }

    fn io_read_byte(&mut self, addr: u16) -> (value: u8) {
        self.read_port(addr)
    }

    fn io_write_byte(&mut self, addr: u16, value: u8) {
        self.write_port(addr, value)
    }
}

impl CpuContext for IbmPc5150Hardware {
    open spec fn inv(&self) -> bool {
        self@.wf()
    }

    open spec fn mem_read(bus: IbmPc5150State, addr: u32) -> (u8, IbmPc5150State) {
        (bus.byte_at(addr), bus)
    }

    open spec fn mem_write(bus: IbmPc5150State, addr: u32, value: u8) -> IbmPc5150State {
        bus.stored(addr, value)
    }

    open spec fn io_read(bus: IbmPc5150State, addr: u16) -> (u8, IbmPc5150State) {
        (bus.port_value(addr), bus)
    }

    open spec fn io_write(bus: IbmPc5150State, addr: u16, value: u8) -> IbmPc5150State {
        bus.port_written(addr, value)
    }

    fn mem_read_byte(&mut self, addr: u32) -> (value: u8) {
        self.read_memory(addr)
    }

    fn mem_write_byte(&mut self, addr: u32, value: u8) {
        self.write_memory(addr, value)
    }

    fn io_read_byte(&mut self, addr: u16) -> (value: u8) {
        self.read_port(addr)
    }

    fn io_write_byte(&mut self, addr: u16, value: u8) {
        self.write_port(addr, value)
    }
}

} // verus!
