//! Register file of the 286-class core. Each segment register carries, next
//! to its selector, the base, limit and access rights that a load of the
//! selector gives it.

use vstd::prelude::*;
pub use crate::cpu8086::registers::{word_replaced, Reg16, Reg8, SegReg};

verus! {

/// The flags word, kept as the set of bits that are currently set.
#[derive(Clone, Copy, Debug, PartialEq, Eq, Hash, Structural)]
pub struct Flags {
    pub bits: u16,
}

impl Flags {
    pub const CARRY: u16 = 0x0001;

    pub const PARITY: u16 = 0x0004;

    pub const ADJUST: u16 = 0x0010;

    pub const ZERO: u16 = 0x0040;

    pub const SIGN: u16 = 0x0080;

    pub const TRAP: u16 = 0x0100;

    pub const INTERRUPT: u16 = 0x0200;

    pub const DIRECTION: u16 = 0x0400;

    pub const OVERFLOW: u16 = 0x0800;

    /// The two bits of the I/O privilege level.
    pub const IOPL: u16 = 0x3000;

    pub const NESTED_TASK: u16 = 0x4000;

    /// The bit that reads as one whenever the flags are read as a word.
    pub const DEFAULT: u16 = 0x0002;

    /// Union of every bit that has a name above.
    pub const ALL: u16 = 0x7fd7;

    /// The set with no bit set.
    pub fn empty() -> (flags: Flags)
        ensures
            flags.bits == 0,
    {
        Flags { bits: 0 }
    }

    /// The set with every named bit set.
    pub fn all() -> (flags: Flags)
        ensures
            flags.bits == Flags::ALL,
    {
        Flags { bits: Flags::ALL }
    }

    /// The raw word.
    pub fn bits(&self) -> (bits: u16)
        ensures
            bits == self.bits,
    {
        self.bits
    }

    /// What `from_bits_truncate` returns: the word without its unnamed bits.
    pub open spec fn truncated(bits: u16) -> Flags {
        Flags { bits: bits & Flags::ALL }
    }

    /// Keeps the named bits of `bits` and drops the others.
    pub fn from_bits_truncate(bits: u16) -> (flags: Flags)
        ensures
            flags == Flags::truncated(bits),
    {
        Flags { bits: bits & Flags::ALL }
    }

    /// The flags whose word is `bits`, if `bits` has no unnamed bit set.
    pub fn from_bits(bits: u16) -> (flags: Option<Flags>)
        ensures
            bits & !Flags::ALL == 0 ==> flags == Some(Flags { bits }),
            bits & !Flags::ALL != 0 ==> flags.is_none(),
    {
        if bits & !Flags::ALL == 0 {
            Some(Flags { bits })
        } else {
            None
        }
    }

    /// Whether every bit of `mask` is set.
    pub open spec fn has(&self, mask: u16) -> bool {
        self.bits & mask == mask
    }

    /// The flags with the bits of `mask` set when `value` holds, and cleared
    /// when it does not.
    pub open spec fn with(self, mask: u16, value: bool) -> Flags {
        if value {
            Flags { bits: self.bits | mask }
        } else {
            Flags { bits: self.bits & !mask }
        }
    }

    /// Whether every bit of `mask` is set.
    #[verifier::when_used_as_spec(has)]
    pub fn contains(&self, mask: u16) -> (set: bool)
        ensures
            set == self.has(mask),
    {
        self.bits & mask == mask
    }

    /// Sets the bits of `mask`.
    pub fn insert(&mut self, mask: u16)
        ensures
            *final(self) == old(self).with(mask, true),
    {
        self.bits = self.bits | mask;
    }

    /// Clears the bits of `mask`.
    pub fn remove(&mut self, mask: u16)
        ensures
            *final(self) == old(self).with(mask, false),
    {
        self.bits = self.bits & !mask;
    }

    /// Sets the bits of `mask` when `value` holds, clears them when not.
    pub fn set(&mut self, mask: u16, value: bool)
        ensures
            *final(self) == old(self).with(mask, value),
    {
        if value {
            self.insert(mask);
        } else {
            self.remove(mask);
        }
    }
}

impl Default for Flags {
    fn default() -> (flags: Flags)
        ensures
            flags.bits == Flags::DEFAULT,
    {
        Flags { bits: Flags::DEFAULT }
    }
}

/// The registers that point at descriptor tables and at the task state.
#[derive(Clone, Copy, Debug)]
pub enum TableReg {
    GDTR,
    IDTR,
    LDTR,
    TR,
}

/// A segment register with what its last load derived from the selector.
#[derive(Clone, Copy, Debug, PartialEq, Eq, Structural)]
pub struct SegmentRegister {
    pub selector: u16,
    /// Linear base of the segment; 24 bits are used.
    pub base: u32,
    pub limit: u16,
    pub rights: u8,
    pub valid: bool,
}

impl SegmentRegister {
    /// A segment register at reset: the code segment has the selector F000
    /// and its base at the top of the address space, the others are zero;
    /// all of them span 64 KiB of readable and writable memory.
    pub open spec fn reset(seg: SegReg) -> SegmentRegister {
        SegmentRegister {
            selector: if seg == SegReg::CS { 0xf000 } else { 0 },
            base: if seg == SegReg::CS { 0xff0000 } else { 0 },
            limit: 0xffff,
            rights: 0x93,
            valid: true,
        }
    }

    /// The register after a load of `selector` in real-address mode: the
    /// base is sixteen times the selector.
    pub open spec fn loaded(self, selector: u16) -> SegmentRegister {
        SegmentRegister { selector, base: (selector * 16) as u32, ..self }
    }

    /// A segment register at reset.
    pub fn new(seg: SegReg) -> (register: SegmentRegister)
        ensures
            register == SegmentRegister::reset(seg),
    {
        let code = match seg {
            SegReg::CS => true,
            _ => false,
        };
        SegmentRegister {
            selector: if code { 0xf000 } else { 0 },
            base: if code { 0xff0000 } else { 0 },
            limit: 0xffff,
            rights: 0x93,
            valid: true,
        }
    }
}

/// The global and the interrupt descriptor table registers.
#[derive(Clone, Copy, Debug)]
pub struct GDTRIDTR {
    /// Linear base of the table; 24 bits are used.
    pub base: u32,
    pub limit: u16,
}

/// The local descriptor table register and the task register.
#[derive(Clone, Copy, Debug)]
pub struct LDTRTR {
    pub selector: u16,
    /// Linear base; 24 bits are used.
    pub base: u32,
    pub limit: u16,
    pub rights: u8,
}

/// A segment register was written while protected mode is switched on,
/// which this core does not implement.
#[derive(Clone, Copy, Debug, PartialEq, Eq, Structural)]
pub struct ProtectedModeFault;

/// `segments` with the register at `slot` replaced by `value`.
pub open spec fn segment_replaced(
    segments: [SegmentRegister; 4],
    slot: int,
    value: SegmentRegister,
) -> [SegmentRegister; 4] {
    [
        if slot == 0 { value } else { segments[0] },
        if slot == 1 { value } else { segments[1] },
        if slot == 2 { value } else { segments[2] },
        if slot == 3 { value } else { segments[3] },
    ]
}

/// The register file.
#[derive(Clone, Copy, Debug)]
pub struct Registers {
    pub ip: u16,
    pub gprs: [u16; 8],
    pub seg_regs: [SegmentRegister; 4],
    pub flags: Flags,
    /// The machine status word; bit 0 switches protected mode on.
    pub msw: u16,
}

impl Registers {
    /// The register file at reset: execution starts at offset FFF0 of the
    /// code segment, sixteen bytes below the top of the address space.
    pub open spec fn reset() -> Registers {
        Registers {
            ip: 0xfff0,
            gprs: [0, 0, 0, 0, 0, 0, 0, 0],
            seg_regs: [
                SegmentRegister::reset(SegReg::ES),
                SegmentRegister::reset(SegReg::CS),
                SegmentRegister::reset(SegReg::SS),
                SegmentRegister::reset(SegReg::DS),
            ],
            flags: Flags { bits: 0 },
            msw: 0xfff0,
        }
    }

    /// Whether protected mode is switched on.
    pub open spec fn protected(&self) -> bool {
        self.msw % 2 == 1
    }

    /// The value of a byte register: the low or the high half of its word.
    pub open spec fn byte(&self, reg: Reg8) -> u8 {
        if reg.is_high() {
            (self.gprs[reg.slot()] / 256) as u8
        } else {
            (self.gprs[reg.slot()] % 256) as u8
        }
    }

    /// The register file after a byte register is written: the other half
    /// of the word keeps its value.
    pub open spec fn with_byte(self, reg: Reg8, value: u8) -> Registers {
        let word = self.gprs[reg.slot()];
        let merged = if reg.is_high() {
            (value * 256 + word % 256) as u16
        } else {
            ((word / 256) * 256 + value) as u16
        };
        Registers { gprs: word_replaced(self.gprs, reg.slot(), merged), ..self }
    }

    /// The value of a word register; the flags read with their fixed bit
    /// set.
    pub open spec fn word(&self, reg: Reg16) -> u16 {
        if reg == Reg16::FLAGS {
            self.flags.bits | Flags::DEFAULT
        } else {
            self.gprs[reg.slot()]
        }
    }

    /// The register file after a word register is written; a write to the
    /// flags keeps the named bits only.
    pub open spec fn with_word(self, reg: Reg16, value: u16) -> Registers {
        if reg == Reg16::FLAGS {
            Registers { flags: Flags::truncated(value), ..self }
        } else {
            Registers { gprs: word_replaced(self.gprs, reg.slot(), value), ..self }
        }
    }

    /// A segment register with all that belongs to it.
    pub open spec fn segment(&self, seg_reg: SegReg) -> SegmentRegister {
        self.seg_regs[seg_reg.slot()]
    }

    /// The register file after a segment register is loaded in real-address
    /// mode.
    pub open spec fn with_selector(self, seg_reg: SegReg, value: u16) -> Registers {
        Registers {
            seg_regs: segment_replaced(
                self.seg_regs,
                seg_reg.slot(),
                self.segment(seg_reg).loaded(value),
            ),
            ..self
        }
    }

    /// The register file at reset.
    pub fn new() -> (regs: Registers)
        ensures
            regs == Registers::reset(),
    {
        let regs = Registers {
            ip: 0xfff0,
            gprs: [0, 0, 0, 0, 0, 0, 0, 0],
            seg_regs: [
                SegmentRegister::new(SegReg::ES),
                SegmentRegister::new(SegReg::CS),
                SegmentRegister::new(SegReg::SS),
                SegmentRegister::new(SegReg::DS),
            ],
            flags: Flags::empty(),
            msw: 0xfff0,
        };
        assert(regs.gprs =~= Registers::reset().gprs);
        assert(regs.seg_regs =~= Registers::reset().seg_regs);
        regs
    }

    /// Reads a byte register.
    #[verifier::when_used_as_spec(byte)]
    pub fn read8(&self, reg: Reg8) -> (value: u8)
        ensures
            value == self.byte(reg),
    {
        match reg {
            Reg8::AL => (self.gprs[0] % 256) as u8,
            Reg8::CL => (self.gprs[1] % 256) as u8,
            Reg8::DL => (self.gprs[2] % 256) as u8,
            Reg8::BL => (self.gprs[3] % 256) as u8,
            Reg8::AH => (self.gprs[0] / 256) as u8,
            Reg8::CH => (self.gprs[1] / 256) as u8,
            Reg8::DH => (self.gprs[2] / 256) as u8,
            Reg8::BH => (self.gprs[3] / 256) as u8,
        }
    }

    /// Writes a byte register.
    pub fn write8(&mut self, reg: Reg8, value: u8)
        ensures
            *final(self) == old(self).with_byte(reg, value),
    {
        let slot: usize = match reg {
            Reg8::AL | Reg8::AH => 0,
            Reg8::CL | Reg8::CH => 1,
            Reg8::DL | Reg8::DH => 2,
            Reg8::BL | Reg8::BH => 3,
        };
        let word = self.gprs[slot];
        let merged: u16 = match reg {
            Reg8::AH | Reg8::CH | Reg8::DH | Reg8::BH => (value as u16) * 256 + word % 256,
            _ => (word / 256) * 256 + (value as u16),
        };
        self.gprs[slot] = merged;
        assert(self.gprs =~= old(self).with_byte(reg, value).gprs);
    }

    /// Reads a word register.
    #[verifier::when_used_as_spec(word)]
    pub fn read16(&self, reg: Reg16) -> (value: u16)
        ensures
            value == self.word(reg),
    {
        match reg {
            Reg16::AX => self.gprs[0],
            Reg16::CX => self.gprs[1],
            Reg16::DX => self.gprs[2],
            Reg16::BX => self.gprs[3],
            Reg16::SP => self.gprs[4],
            Reg16::BP => self.gprs[5],
            Reg16::SI => self.gprs[6],
            Reg16::DI => self.gprs[7],
            Reg16::FLAGS => self.flags.bits() | Flags::DEFAULT,
        }
    }

    /// Writes a word register.
    pub fn write16(&mut self, reg: Reg16, value: u16)
        ensures
            *final(self) == old(self).with_word(reg, value),
    {
        match reg {
            Reg16::AX => self.gprs[0] = value,
            Reg16::CX => self.gprs[1] = value,
            Reg16::DX => self.gprs[2] = value,
            Reg16::BX => self.gprs[3] = value,
            Reg16::SP => self.gprs[4] = value,
            Reg16::BP => self.gprs[5] = value,
            Reg16::SI => self.gprs[6] = value,
            Reg16::DI => self.gprs[7] = value,
            Reg16::FLAGS => self.flags = Flags::from_bits_truncate(value),
        }
        assert(self.gprs =~= old(self).with_word(reg, value).gprs);
    }

    /// Reads a segment register with all that belongs to it.
    #[verifier::when_used_as_spec(segment)]
    pub fn readseg16(&self, seg_reg: SegReg) -> (value: SegmentRegister)
        ensures
            value == self.segment(seg_reg),
    {
        match seg_reg {
            SegReg::ES => self.seg_regs[0],
            SegReg::CS => self.seg_regs[1],
            SegReg::SS => self.seg_regs[2],
            SegReg::DS => self.seg_regs[3],
        }
    }

    /// Loads a segment register and derives its base from the selector.
    /// Refused, with nothing written, while protected mode is switched on.
    pub fn writeseg16(&mut self, seg_reg: SegReg, value: u16) -> (result: Result<
        (),
        ProtectedModeFault,
    >)
        ensures
            old(self).protected() ==> result.is_err() && *final(self) == *old(self),
            !old(self).protected() ==> result.is_ok() && *final(self) == old(self).with_selector(
                seg_reg,
                value,
            ),
    {
        if self.msw % 2 == 1 {
            return Err(ProtectedModeFault);
        }
        let slot: usize = match seg_reg {
            SegReg::ES => 0,
            SegReg::CS => 1,
            SegReg::SS => 2,
            SegReg::DS => 3,
        };
        let mut segment = self.seg_regs[slot];
        segment.selector = value;
        segment.base = (value as u32) * 16;
        self.seg_regs[slot] = segment;
        assert(self.seg_regs =~= old(self).with_selector(seg_reg, value).seg_regs);
        Ok(())
    }
}

/// In real-address mode a segment register reads back the selector that
/// was written to it, with the base at sixteen times the selector: the
/// selector shifted left by four. Limit and access rights stay, and so do
/// the other segment registers.
pub proof fn lemma_segment_write_read(regs: Registers, seg_reg: SegReg, value: u16, other: SegReg)
    ensures
        regs.with_selector(seg_reg, value).segment(seg_reg).selector == value,
        regs.with_selector(seg_reg, value).segment(seg_reg).base == (value as u32) << 4,
        regs.with_selector(seg_reg, value).segment(seg_reg).limit == regs.segment(seg_reg).limit,
        regs.with_selector(seg_reg, value).segment(seg_reg).rights == regs.segment(
            seg_reg,
        ).rights,
        other != seg_reg ==> regs.with_selector(seg_reg, value).segment(other) == regs.segment(
            other,
        ),
{
    assert((value as u32) * 16 == (value as u32) << 4) by (bit_vector);
}

} // verus!
