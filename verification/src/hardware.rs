//! The machines: a processor with the hardware it is wired to.

use vstd::prelude::*;
use crate::cpu8086::registers::Registers;
use crate::cpu8086::Cpu8086;
use crate::cpu286::Cpu286;
use crate::hardware::ibmpc5150machine::{IbmPc5150Hardware, RAM_SIZE, ROM_SIZE};
use crate::hardware::pit::PIT;
use crate::hardware::ibmpcatmachine::{interleaved, IbmPcAtHardware, CHIP_SIZE};

pub mod ibmpc5150machine;
pub mod ibmpcatmachine;
pub mod pit;

verus! {

/// The IBM PC 5150: an 8086-class processor and its hardware.
#[derive(Clone, Debug)]
pub struct IbmPc5150Machine {
    pub cpu: Cpu8086,
    pub hardware: IbmPc5150Hardware,
}

impl IbmPc5150Machine {
    /// The machine at power-up, with the BIOS image `bios_rom`.
    pub fn new(bios_rom: Vec<u8>) -> (machine: IbmPc5150Machine)
        requires
            bios_rom.len() >= ROM_SIZE,
        ensures
            machine.hardware@.wf(),
            machine.hardware.bios_rom == bios_rom,
            machine.hardware.ram@ == Seq::new(RAM_SIZE as nat, |i: int| 0u8),
            machine.hardware.pit == PIT::power_up(),
            machine.cpu.regs == Registers::reset(),
            machine.cpu.opcode == 0,
            machine.cpu.seg_override.is_none(),
            machine.cpu.rep_state.is_none(),
            machine.cpu.floppy@ == Seq::<u8>::empty(),
    {
        IbmPc5150Machine { cpu: Cpu8086::new(), hardware: IbmPc5150Hardware::new(bios_rom) }
    }

    /// Lets the hardware catch up with `cycles` cycles of the processor.
    pub fn tick(&mut self, cycles: usize)
        ensures
            final(self).cpu == old(self).cpu,
            final(self).hardware@ == old(self).hardware@,
    {
        self.hardware.tick(cycles);
    }
}

/// The IBM PC AT: a 286-class processor and its hardware.
#[derive(Clone, Debug)]
pub struct IbmPcAtMachine {
    pub cpu: Cpu286,
    pub hardware: IbmPcAtHardware,
}

impl IbmPcAtMachine {
    /// The machine at power-up, with the BIOS made of the chip with the even
    /// bytes, `low_rom`, and the chip with the odd bytes, `high_rom`.
    pub fn new(low_rom: Vec<u8>, high_rom: Vec<u8>) -> (machine: IbmPcAtMachine)
        requires
            low_rom.len() >= CHIP_SIZE,
            high_rom.len() >= CHIP_SIZE,
        ensures
            machine.hardware@.wf(),
            machine.hardware.bios_rom@ == interleaved(low_rom@, high_rom@, CHIP_SIZE as nat),
            machine.hardware.ram@ == Seq::new(ibmpcatmachine::RAM_SIZE as nat, |i: int| 0u8),
            machine.cpu.regs == crate::cpu286::registers::Registers::reset(),
            machine.cpu.opcode == 0,
            machine.cpu.floppy@ == Seq::<u8>::empty(),
    {
        IbmPcAtMachine { cpu: Cpu286::new(), hardware: IbmPcAtHardware::new(low_rom, high_rom) }
    }
}

} // verus!
