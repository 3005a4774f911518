//! Register file of the 8086-class core: eight general-purpose words whose
//! low four are also addressable as byte halves, four segment selectors, the
//! instruction pointer and the flags word.

use vstd::prelude::*;

verus! {

/// The flags word, kept as the set of bits that are currently set.
#[derive(Clone, Copy, Debug, PartialEq, Eq, Hash, Structural)]
pub struct Flags {
    pub bits: u16,
}

impl Flags {
    pub const CARRY: u16 = 0x0001;

    pub const PARITY: u16 = 0x0004;

    pub const ADJUST: u16 = 0x0010;

    pub const ZERO: u16 = 0x0040;

    pub const SIGN: u16 = 0x0080;

    pub const TRAP: u16 = 0x0100;

    pub const INTERRUPT: u16 = 0x0200;

    pub const DIRECTION: u16 = 0x0400;

    pub const OVERFLOW: u16 = 0x0800;

    /// Bits that read as one whenever the flags are read as a word.
    pub const DEFAULT: u16 = 0xf002;

    /// Union of every bit that has a name above.
    pub const ALL: u16 = 0xffd7;

    /// The set with no bit set.
    pub fn empty() -> (flags: Flags)
        ensures
            flags.bits == 0,
    {
        Flags { bits: 0 }
    }

    /// The set with every named bit set.
    pub fn all() -> (flags: Flags)
        ensures
            flags.bits == Flags::ALL,
    {
        Flags { bits: Flags::ALL }
    }

    /// The raw word.
    pub fn bits(&self) -> (bits: u16)
        ensures
            bits == self.bits,
    {
        self.bits
    }

    /// What `from_bits_truncate` returns: the word without its unnamed bits.
    pub open spec fn truncated(bits: u16) -> Flags {
        Flags { bits: bits & Flags::ALL }
    }

    /// Keeps the named bits of `bits` and drops the others.
    pub fn from_bits_truncate(bits: u16) -> (flags: Flags)
        ensures
            flags == Flags::truncated(bits),
    {
        Flags { bits: bits & Flags::ALL }
    }

    /// The flags whose word is `bits`, if `bits` has no unnamed bit set.
    pub fn from_bits(bits: u16) -> (flags: Option<Flags>)
        ensures
            bits & !Flags::ALL == 0 ==> flags == Some(Flags { bits }),
            bits & !Flags::ALL != 0 ==> flags.is_none(),
    {
        if bits & !Flags::ALL == 0 {
            Some(Flags { bits })
        } else {
            None
        }
    }

    /// Whether every bit of `mask` is set.
    pub open spec fn has(&self, mask: u16) -> bool {
        self.bits & mask == mask
    }

    /// The flags with the bits of `mask` set when `value` holds, and cleared
    /// when it does not.
    pub open spec fn with(self, mask: u16, value: bool) -> Flags {
        if value {
            Flags { bits: self.bits | mask }
        } else {
            Flags { bits: self.bits & !mask }
        }
    }

    /// Whether every bit of `mask` is set.
    #[verifier::when_used_as_spec(has)]
    pub fn contains(&self, mask: u16) -> (set: bool)
        ensures
            set == self.has(mask),
    {
        self.bits & mask == mask
    }

    /// Sets the bits of `mask`.
    pub fn insert(&mut self, mask: u16)
        ensures
            *final(self) == old(self).with(mask, true),
    {
        self.bits = self.bits | mask;
    }

    /// Clears the bits of `mask`.
    pub fn remove(&mut self, mask: u16)
        ensures
            *final(self) == old(self).with(mask, false),
    {
        self.bits = self.bits & !mask;
    }

    /// Sets the bits of `mask` when `value` holds, clears them when not.
    pub fn set(&mut self, mask: u16, value: bool)
        ensures
            *final(self) == old(self).with(mask, value),
    {
        if value {
            self.insert(mask);
        } else {
            self.remove(mask);
        }
    }
}

impl Default for Flags {
    fn default() -> (flags: Flags)
        ensures
            flags.bits == Flags::DEFAULT,
    {
        Flags { bits: Flags::DEFAULT }
    }
}

/// Whether `mask` is one of the nine flags that are a single bit.
pub open spec fn is_flag(mask: u16) -> bool {
    mask == Flags::CARRY || mask == Flags::PARITY || mask == Flags::ADJUST || mask == Flags::ZERO
        || mask == Flags::SIGN || mask == Flags::TRAP || mask == Flags::INTERRUPT || mask
        == Flags::DIRECTION || mask == Flags::OVERFLOW
}

/// After a flag is set or cleared it reads as it was given, and every other
/// flag reads as it did before.
pub proof fn lemma_flag_update(flags: Flags, mask: u16, value: bool, probe: u16)
    requires
        is_flag(mask),
        is_flag(probe),
    ensures
        flags.with(mask, value).has(probe) == (if probe == mask {
            value
        } else {
            flags.has(probe)
        }),
{
    let bits = flags.bits;
    assert(((bits | mask) & probe == probe) == (probe == mask || bits & probe == probe) && ((bits
        & !mask) & probe == probe) == (probe != mask && bits & probe == probe)) by (bit_vector)
        requires
            mask == 0x0001u16 || mask == 0x0004u16 || mask == 0x0010u16 || mask == 0x0040u16
                || mask == 0x0080u16 || mask == 0x0100u16 || mask == 0x0200u16 || mask
                == 0x0400u16 || mask == 0x0800u16,
            probe == 0x0001u16 || probe == 0x0004u16 || probe == 0x0010u16 || probe == 0x0040u16
                || probe == 0x0080u16 || probe == 0x0100u16 || probe == 0x0200u16 || probe
                == 0x0400u16 || probe == 0x0800u16,
    ;
}

/// The byte registers, in encoding order.
#[derive(Clone, Copy, Debug, PartialEq, Eq, Structural)]
pub enum Reg8 {
    AL,
    CL,
    DL,
    BL,
    AH,
    CH,
    DH,
    BH,
}

impl Reg8 {
    /// The register that a three-bit register field names.
    pub open spec fn of(num: u8) -> Option<Reg8> {
        if num == 0 {
            Some(Reg8::AL)
        } else if num == 1 {
            Some(Reg8::CL)
        } else if num == 2 {
            Some(Reg8::DL)
        } else if num == 3 {
            Some(Reg8::BL)
        } else if num == 4 {
            Some(Reg8::AH)
        } else if num == 5 {
            Some(Reg8::CH)
        } else if num == 6 {
            Some(Reg8::DH)
        } else if num == 7 {
            Some(Reg8::BH)
        } else {
            None
        }
    }

    /// The register with encoding `num`, for `num` below eight.
    #[verifier::when_used_as_spec(of)]
    pub fn from_num(num: u8) -> (reg: Option<Reg8>)
        ensures
            reg == Reg8::of(num),
            reg.is_some() <==> num < 8,
    {
        match num {
            0 => Some(Reg8::AL),
            1 => Some(Reg8::CL),
            2 => Some(Reg8::DL),
            3 => Some(Reg8::BL),
            4 => Some(Reg8::AH),
            5 => Some(Reg8::CH),
            6 => Some(Reg8::DH),
            7 => Some(Reg8::BH),
            _ => None,
        }
    }

    /// Index of the general-purpose word that holds this byte.
    pub open spec fn slot(self) -> int {
        match self {
            Reg8::AL | Reg8::AH => 0,
            Reg8::CL | Reg8::CH => 1,
            Reg8::DL | Reg8::DH => 2,
            Reg8::BL | Reg8::BH => 3,
        }
    }

    /// Whether this is the high byte of its word.
    pub open spec fn is_high(self) -> bool {
        match self {
            Reg8::AH | Reg8::CH | Reg8::DH | Reg8::BH => true,
            _ => false,
        }
    }
}

/// The word registers, in encoding order, followed by the flags word.
#[derive(Clone, Copy, Debug, PartialEq, Eq, Structural)]
pub enum Reg16 {
    AX,
    CX,
    DX,
    BX,
    SP,
    BP,
    SI,
    DI,
    FLAGS,
}

impl Reg16 {
    /// The register that a register field names; eight names the flags.
    pub open spec fn of(num: u8) -> Option<Reg16> {
        if num == 0 {
            Some(Reg16::AX)
        } else if num == 1 {
            Some(Reg16::CX)
        } else if num == 2 {
            Some(Reg16::DX)
        } else if num == 3 {
            Some(Reg16::BX)
        } else if num == 4 {
            Some(Reg16::SP)
        } else if num == 5 {
            Some(Reg16::BP)
        } else if num == 6 {
            Some(Reg16::SI)
        } else if num == 7 {
            Some(Reg16::DI)
        } else if num == 8 {
            Some(Reg16::FLAGS)
        } else {
            None
        }
    }

    /// The register with encoding `num`, for `num` up to eight.
    #[verifier::when_used_as_spec(of)]
    pub fn from_num(num: u8) -> (reg: Option<Reg16>)
        ensures
            reg == Reg16::of(num),
            reg.is_some() <==> num <= 8,
            num < 8 ==> reg.is_some() && reg.unwrap() != Reg16::FLAGS,
    {
        match num {
            0 => Some(Reg16::AX),
            1 => Some(Reg16::CX),
            2 => Some(Reg16::DX),
            3 => Some(Reg16::BX),
            4 => Some(Reg16::SP),
            5 => Some(Reg16::BP),
            6 => Some(Reg16::SI),
            7 => Some(Reg16::DI),
            8 => Some(Reg16::FLAGS),
            _ => None,
        }
    }

    /// Index of the general-purpose word; the flags have none.
    pub open spec fn slot(self) -> int {
        match self {
            Reg16::AX => 0,
            Reg16::CX => 1,
            Reg16::DX => 2,
            Reg16::BX => 3,
            Reg16::SP => 4,
            Reg16::BP => 5,
            Reg16::SI => 6,
            Reg16::DI => 7,
            Reg16::FLAGS => -1,
        }
    }
}

/// The segment registers, in encoding order.
#[derive(Clone, Copy, Debug, PartialEq, Eq, Structural)]
pub enum SegReg {
    ES,
    CS,
    SS,
    DS,
}

impl SegReg {
    /// The segment register that a register field names.
    pub open spec fn of(num: u8) -> Option<SegReg> {
        if num == 0 {
            Some(SegReg::ES)
        } else if num == 1 {
            Some(SegReg::CS)
        } else if num == 2 {
            Some(SegReg::SS)
        } else if num == 3 {
            Some(SegReg::DS)
        } else {
            None
        }
    }

    /// The segment register with encoding `num`, for `num` below four.
    #[verifier::when_used_as_spec(of)]
    pub fn from_num(num: u8) -> (reg: Option<SegReg>)
        ensures
            reg == SegReg::of(num),
            reg.is_some() <==> num < 4,
    {
        match num {
            0 => Some(SegReg::ES),
            1 => Some(SegReg::CS),
            2 => Some(SegReg::SS),
            3 => Some(SegReg::DS),
            _ => None,
        }
    }

    /// Index of the selector in the register file.
    pub open spec fn slot(self) -> int {
        match self {
            SegReg::ES => 0,
            SegReg::CS => 1,
            SegReg::SS => 2,
            SegReg::DS => 3,
        }
    }
}

/// `words` with the word at `slot` replaced by `value`.
pub open spec fn word_replaced(words: [u16; 8], slot: int, value: u16) -> [u16; 8] {
    [
        if slot == 0 { value } else { words[0] },
        if slot == 1 { value } else { words[1] },
        if slot == 2 { value } else { words[2] },
        if slot == 3 { value } else { words[3] },
        if slot == 4 { value } else { words[4] },
        if slot == 5 { value } else { words[5] },
        if slot == 6 { value } else { words[6] },
        if slot == 7 { value } else { words[7] },
    ]
}

/// `selectors` with the selector at `slot` replaced by `value`.
pub open spec fn selector_replaced(selectors: [u16; 4], slot: int, value: u16) -> [u16; 4] {
    [
        if slot == 0 { value } else { selectors[0] },
        if slot == 1 { value } else { selectors[1] },
        if slot == 2 { value } else { selectors[2] },
        if slot == 3 { value } else { selectors[3] },
    ]
}

/// The register file.
#[derive(Clone, Copy, Debug)]
pub struct Registers {
    pub ip: u16,
    pub gprs: [u16; 8],
    pub seg_regs: [u16; 4],
    pub flags: Flags,
}

impl Registers {
    /// The register file at reset: execution starts at F000:FFF0.
    pub open spec fn reset() -> Registers {
        Registers {
            ip: 0xfff0,
            gprs: [0, 0, 0, 0, 0, 0, 0, 0],
            seg_regs: [0, 0xf000, 0, 0],
            flags: Flags { bits: 0 },
        }
    }

    /// The value of a byte register: the low or the high half of its word.
    pub open spec fn byte(&self, reg: Reg8) -> u8 {
        if reg.is_high() {
            (self.gprs[reg.slot()] / 256) as u8
        } else {
            (self.gprs[reg.slot()] % 256) as u8
        }
    }

    /// The register file after a byte register is written: the other half
    /// of the word keeps its value.
    pub open spec fn with_byte(self, reg: Reg8, value: u8) -> Registers {
        let word = self.gprs[reg.slot()];
        let merged = if reg.is_high() {
            (value * 256 + word % 256) as u16
        } else {
            ((word / 256) * 256 + value) as u16
        };
        Registers { gprs: word_replaced(self.gprs, reg.slot(), merged), ..self }
    }

    /// The value of a word register; the flags read with their fixed bits
    /// set.
    pub open spec fn word(&self, reg: Reg16) -> u16 {
        if reg == Reg16::FLAGS {
            self.flags.bits | Flags::DEFAULT
        } else {
            self.gprs[reg.slot()]
        }
    }

    /// The register file after a word register is written; a write to the
    /// flags keeps the named bits only.
    pub open spec fn with_word(self, reg: Reg16, value: u16) -> Registers {
        if reg == Reg16::FLAGS {
            Registers { flags: Flags::truncated(value), ..self }
        } else {
            Registers { gprs: word_replaced(self.gprs, reg.slot(), value), ..self }
        }
    }

    /// The selector held by a segment register.
    pub open spec fn selector(&self, seg_reg: SegReg) -> u16 {
        self.seg_regs[seg_reg.slot()]
    }

    /// The register file after a segment register is loaded.
    pub open spec fn with_selector(self, seg_reg: SegReg, value: u16) -> Registers {
        Registers { seg_regs: selector_replaced(self.seg_regs, seg_reg.slot(), value), ..self }
    }

    /// The register file at reset.
    pub fn new() -> (regs: Registers)
        ensures
            regs == Registers::reset(),
    {
        let regs = Registers {
            ip: 0xfff0,
            gprs: [0, 0, 0, 0, 0, 0, 0, 0],
            seg_regs: [0, 0xf000, 0, 0],
            flags: Flags::empty(),
        };
        assert(regs.gprs =~= Registers::reset().gprs);
        assert(regs.seg_regs =~= Registers::reset().seg_regs);
        regs
    }

    /// Reads a byte register.
    #[verifier::when_used_as_spec(byte)]
    pub fn read8(&self, reg: Reg8) -> (value: u8)
        ensures
            value == self.byte(reg),
    {
        match reg {
            Reg8::AL => (self.gprs[0] % 256) as u8,
            Reg8::CL => (self.gprs[1] % 256) as u8,
            Reg8::DL => (self.gprs[2] % 256) as u8,
            Reg8::BL => (self.gprs[3] % 256) as u8,
            Reg8::AH => (self.gprs[0] / 256) as u8,
            Reg8::CH => (self.gprs[1] / 256) as u8,
            Reg8::DH => (self.gprs[2] / 256) as u8,
            Reg8::BH => (self.gprs[3] / 256) as u8,
        }
    }

    /// Writes a byte register.
    pub fn write8(&mut self, reg: Reg8, value: u8)
        ensures
            *final(self) == old(self).with_byte(reg, value),
    {
        let slot: usize = match reg {
            Reg8::AL | Reg8::AH => 0,
            Reg8::CL | Reg8::CH => 1,
            Reg8::DL | Reg8::DH => 2,
            Reg8::BL | Reg8::BH => 3,
        };
        let word = self.gprs[slot];
        let merged: u16 = match reg {
            Reg8::AH | Reg8::CH | Reg8::DH | Reg8::BH => (value as u16) * 256 + word % 256,
            _ => (word / 256) * 256 + (value as u16),
        };
        self.gprs[slot] = merged;
        assert(self.gprs =~= old(self).with_byte(reg, value).gprs);
    }

    /// Reads a word register.
    #[verifier::when_used_as_spec(word)]
    pub fn read16(&self, reg: Reg16) -> (value: u16)
        ensures
            value == self.word(reg),
    {
        match reg {
            Reg16::AX => self.gprs[0],
            Reg16::CX => self.gprs[1],
            Reg16::DX => self.gprs[2],
            Reg16::BX => self.gprs[3],
            Reg16::SP => self.gprs[4],
            Reg16::BP => self.gprs[5],
            Reg16::SI => self.gprs[6],
            Reg16::DI => self.gprs[7],
            Reg16::FLAGS => self.flags.bits() | Flags::DEFAULT,
        }
    }

    /// Writes a word register.
    pub fn write16(&mut self, reg: Reg16, value: u16)
        ensures
            *final(self) == old(self).with_word(reg, value),
    {
        match reg {
            Reg16::AX => self.gprs[0] = value,
            Reg16::CX => self.gprs[1] = value,
            Reg16::DX => self.gprs[2] = value,
            Reg16::BX => self.gprs[3] = value,
            Reg16::SP => self.gprs[4] = value,
            Reg16::BP => self.gprs[5] = value,
            Reg16::SI => self.gprs[6] = value,
            Reg16::DI => self.gprs[7] = value,
            Reg16::FLAGS => self.flags = Flags::from_bits_truncate(value),
        }
        assert(self.gprs =~= old(self).with_word(reg, value).gprs);
    }

    /// Reads a segment register.
    #[verifier::when_used_as_spec(selector)]
    pub fn readseg16(&self, seg_reg: SegReg) -> (value: u16)
        ensures
            value == self.selector(seg_reg),
    {
        match seg_reg {
            SegReg::ES => self.seg_regs[0],
            SegReg::CS => self.seg_regs[1],
            SegReg::SS => self.seg_regs[2],
            SegReg::DS => self.seg_regs[3],
        }
    }

    /// Loads a segment register.
    pub fn writeseg16(&mut self, seg_reg: SegReg, value: u16)
        ensures
            *final(self) == old(self).with_selector(seg_reg, value),
    {
        match seg_reg {
            SegReg::ES => self.seg_regs[0] = value,
            SegReg::CS => self.seg_regs[1] = value,
            SegReg::SS => self.seg_regs[2] = value,
            SegReg::DS => self.seg_regs[3] = value,
        }
        assert(self.seg_regs =~= old(self).with_selector(seg_reg, value).seg_regs);
    }
}

/// A byte register reads back what was written to it; the other byte
/// registers, the word registers that do not hold it, and all the rest keep
/// their values.
pub proof fn lemma_byte_write_read(regs: Registers, reg: Reg8, value: u8, other: Reg8, word: Reg16)
    ensures
        regs.with_byte(reg, value).byte(reg) == value,
        other != reg ==> regs.with_byte(reg, value).byte(other) == regs.byte(other),
        word.slot() != reg.slot() ==> regs.with_byte(reg, value).word(word) == regs.word(word),
        regs.with_byte(reg, value).seg_regs == regs.seg_regs,
        regs.with_byte(reg, value).ip == regs.ip,
        regs.with_byte(reg, value).flags == regs.flags,
{
}

/// A word register is its high byte times 256 plus its low byte.
pub proof fn lemma_word_of_halves(regs: Registers, low: Reg8, high: Reg8, word: Reg16)
    requires
        !low.is_high(),
        high.is_high(),
        low.slot() == word.slot(),
        high.slot() == word.slot(),
    ensures
        regs.word(word) == regs.byte(high) * 256 + regs.byte(low),
{
}

/// A word register reads back what was written to it, and the flags read
/// back their named bits with the fixed bits set; every other word register
/// keeps its value.
pub proof fn lemma_word_write_read(regs: Registers, reg: Reg16, value: u16, other: Reg16)
    ensures
        reg != Reg16::FLAGS ==> regs.with_word(reg, value).word(reg) == value,
        reg == Reg16::FLAGS ==> regs.with_word(reg, value).word(reg) == (value & Flags::ALL)
            | Flags::DEFAULT,
        other != reg ==> regs.with_word(reg, value).word(other) == regs.word(other),
        regs.word(Reg16::FLAGS) & Flags::DEFAULT == Flags::DEFAULT,
{
    let bits = regs.flags.bits;
    assert((bits | 0xf002) & 0xf002 == 0xf002) by (bit_vector);
}

/// A segment register reads back the selector that was written to it, and
/// the segment then starts at sixteen times the selector: the selector
/// shifted left by four. The other segment registers keep their selectors.
pub proof fn lemma_segment_write_read(regs: Registers, seg_reg: SegReg, value: u16, other: SegReg)
    ensures
        regs.with_selector(seg_reg, value).selector(seg_reg) == value,
        other != seg_reg ==> regs.with_selector(seg_reg, value).selector(other) == regs.selector(
            other,
        ),
        segment_base(regs.with_selector(seg_reg, value).selector(seg_reg)) == (value as u32) << 4,
        regs.with_selector(seg_reg, value).gprs == regs.gprs,
        regs.with_selector(seg_reg, value).ip == regs.ip,
        regs.with_selector(seg_reg, value).flags == regs.flags,
{
    assert((value as u32) * 16 == (value as u32) << 4) by (bit_vector);
}

/// The linear address at which the segment with the selector `selector`
/// starts.
pub open spec fn segment_base(selector: u16) -> u32 {
    (selector * 16) as u32
}

} // verus!
