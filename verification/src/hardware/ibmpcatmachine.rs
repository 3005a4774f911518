//! The memory and I/O space of the IBM PC AT: 640 KiB of RAM and a 64 KiB
//! BIOS ROM, seen both below 1 MiB and at the top of the address space. The
//! BIOS comes as two chips, one with the even and one with the odd bytes.

use vstd::prelude::*;
use crate::cpu286::Cpu286Context;

verus! {

/// Bytes of RAM.
pub const RAM_SIZE: usize = 0xa_0000;

/// Bytes in each of the two BIOS chips.
pub const CHIP_SIZE: usize = 0x8000;

/// Bytes of BIOS ROM.
pub const ROM_SIZE: usize = 0x1_0000;

/// What reads return where nothing answers.
pub const OPEN_BUS: u8 = 0xff;

/// The hardware of the machine.
#[derive(Clone, Debug)]
pub struct IbmPcAtHardware {
    pub ram: Vec<u8>,
    pub bios_rom: Vec<u8>,
}

/// The hardware as plain values.
pub struct IbmPcAtState {
    pub ram: Seq<u8>,
    pub bios_rom: Seq<u8>,
}

impl View for IbmPcAtHardware {
    type V = IbmPcAtState;

    open spec fn view(&self) -> IbmPcAtState {
        IbmPcAtState { ram: self.ram@, bios_rom: self.bios_rom@ }
    }
}

/// The ROM image made of two chips: the first `2 * count` bytes, with byte
/// `2 * i` from `low` and byte `2 * i + 1` from `high`.
pub open spec fn interleaved(low: Seq<u8>, high: Seq<u8>, count: nat) -> Seq<u8> {
    Seq::new(
        2 * count,
        |k: int|
            if k % 2 == 0 {
                low[k / 2]
            } else {
                high[k / 2]
            },
    )
}

impl IbmPcAtState {
    /// The RAM and the ROM have their full sizes.
    pub open spec fn wf(self) -> bool {
        self.ram.len() == RAM_SIZE && self.bios_rom.len() == ROM_SIZE
    }

    /// The byte that memory holds at `addr`: RAM up to A_0000h, which
    /// repeats every 64 KiB; ROM from F_0000h to F_FFFFh and from FF_0000h
    /// on; nothing elsewhere.
    pub open spec fn byte_at(self, addr: u32) -> u8 {
        if addr <= 0xa_0000 {
            self.ram[addr as int % 0x1_0000]
        } else if 0xf_0000 <= addr <= 0xf_ffff || 0xff_0000 <= addr <= 0xff_ffff {
            self.bios_rom[addr as int % 0x1_0000]
        } else {
            OPEN_BUS
        }
    }

    /// The hardware after a write to memory: addresses up to A_0000h reach
    /// the RAM; writes above are lost.
    pub open spec fn stored(self, addr: u32, value: u8) -> IbmPcAtState {
        if addr <= 0xa_0000 {
            IbmPcAtState { ram: self.ram.update(addr as int % 0x1_0000, value), ..self }
        } else {
            self
        }
    }
}

impl IbmPcAtHardware {
    /// The hardware with RAM full of zeros and the BIOS made of the chip
    /// with the even bytes, `low_rom`, and the chip with the odd bytes,
    /// `high_rom`.
    pub fn new(low_rom: Vec<u8>, high_rom: Vec<u8>) -> (hardware: IbmPcAtHardware)
        requires
            low_rom.len() >= CHIP_SIZE,
            high_rom.len() >= CHIP_SIZE,
        ensures
            hardware@.wf(),
            hardware.ram@ == Seq::new(RAM_SIZE as nat, |i: int| 0u8),
            hardware.bios_rom@ == interleaved(low_rom@, high_rom@, CHIP_SIZE as nat),
    {
        let ram = vec![0u8; RAM_SIZE];
        assert(ram@ =~= Seq::new(RAM_SIZE as nat, |i: int| 0u8));
        let mut bios: Vec<u8> = Vec::new();
        let mut i: usize = 0;
        while i < CHIP_SIZE
            invariant
                i <= CHIP_SIZE,
                low_rom.len() >= CHIP_SIZE,
                high_rom.len() >= CHIP_SIZE,
                bios@ =~= interleaved(low_rom@, high_rom@, i as nat),
            decreases CHIP_SIZE - i,
        {
            bios.push(low_rom[i]);
            bios.push(high_rom[i]);
            i = i + 1;
        }
        IbmPcAtHardware { ram, bios_rom: bios }
    }
}

impl Cpu286Context for IbmPcAtHardware {
    open spec fn inv(&self) -> bool {
        self@.wf()
    }

    open spec fn mem_read(bus: IbmPcAtState, addr: u32) -> (u8, IbmPcAtState) {
        (bus.byte_at(addr), bus)
    }

    open spec fn mem_write(bus: IbmPcAtState, addr: u32, value: u8) -> IbmPcAtState {
        bus.stored(addr, value)
    }

    open spec fn io_read(bus: IbmPcAtState, addr: u16) -> (u8, IbmPcAtState) {
        (OPEN_BUS, bus)
    }

    open spec fn io_write(bus: IbmPcAtState, addr: u16, value: u8) -> IbmPcAtState {
        bus
    }

    fn mem_read_byte(&mut self, addr: u32) -> (value: u8) {
        if addr <= 0xa_0000 {
            self.ram[(addr % 0x1_0000) as usize]
        } else if (0xf_0000 <= addr && addr <= 0xf_ffff) || (0xff_0000 <= addr && addr
            <= 0xff_ffff) {
            self.bios_rom[(addr % 0x1_0000) as usize]
        } else {
            OPEN_BUS
        }
    }

    fn mem_write_byte(&mut self, addr: u32, value: u8) {
        if addr <= 0xa_0000 {
            self.ram[(addr % 0x1_0000) as usize] = value;
        }
    }

    fn io_read_byte(&mut self, _addr: u16) -> (value: u8) {
        OPEN_BUS
    }

    fn io_write_byte(&mut self, _addr: u16, _value: u8) {
    }
}

} // verus!
