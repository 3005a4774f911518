//! The operand resolver: from the addressing byte that follows many opcodes
//! to a register or to a segment and offset in memory.
//!
//! The byte holds a mode in its two highest bits, a register field in the
//! next three, and a register-or-memory field in the lowest three. With
//! mode 3 the last field names a register; with the other modes it names
//! one of eight base computations, except that mode 0 with the field at 6
//! has no base and takes a word displacement as the offset.

use vstd::prelude::*;
use crate::cpu8086::registers::{Reg16, Registers, SegReg};
use crate::cpu8086::{fetch16, fetch8, sign_extend, Cpu8086, Cpu8086Context, Machine};

verus! {

/// The eight base computations of a memory operand.
#[derive(PartialEq, Eq, Debug, Clone, Copy, Structural)]
pub enum AddrType {
    BxSi,
    BxDi,
    BpSi,
    BpDi,
    Si,
    Di,
    Bp,
    Bx,
}

/// The size of the displacement that follows the addressing byte.
#[derive(PartialEq, Eq, Debug, Clone, Copy, Structural)]
pub enum DisplacementType {
    Byte,
    Word,
}

/// A resolved operand: a register by its number, or a place in memory by
/// its segment register and offset.
#[derive(PartialEq, Eq, Debug, Clone, Copy, Structural)]
pub enum Operand {
    Register(u8),
    Address(SegReg, u16),
}

pub type ByteOperand = Operand;

pub type WordOperand = Operand;

/// What an addressing byte resolves to: its register field and its
/// register-or-memory operand.
#[derive(PartialEq, Eq, Debug, Clone, Copy, Structural)]
pub struct OpcodeParams {
    pub reg: u8,
    pub rm: Operand,
}

impl Operand {
    /// A register operand names one of the eight registers.
    pub open spec fn wf(self) -> bool {
        self matches Operand::Register(number) ==> number < 8
    }
}

/// The mode field: bits 7 and 6.
pub open spec fn mode_field(modrm: u8) -> u8 {
    modrm / 64
}

/// The register field: bits 5 to 3.
pub open spec fn reg_field(modrm: u8) -> u8 {
    (modrm / 8) % 8
}

/// The register-or-memory field: bits 2 to 0.
pub open spec fn rm_field(modrm: u8) -> u8 {
    modrm % 8
}

/// The base computation that the byte names; none for mode 0 with the
/// register-or-memory field at 6.
pub open spec fn addr_type_of(modrm: u8) -> Option<AddrType> {
    let rm = rm_field(modrm);
    if rm == 0 {
        Some(AddrType::BxSi)
    } else if rm == 1 {
        Some(AddrType::BxDi)
    } else if rm == 2 {
        Some(AddrType::BpSi)
    } else if rm == 3 {
        Some(AddrType::BpDi)
    } else if rm == 4 {
        Some(AddrType::Si)
    } else if rm == 5 {
        Some(AddrType::Di)
    } else if rm == 6 {
        if mode_field(modrm) == 0 {
            None
        } else {
            Some(AddrType::Bp)
        }
    } else {
        Some(AddrType::Bx)
    }
}

/// The displacement that follows the byte: a byte for mode 1, a word for
/// mode 2 and for mode 0 without a base, none otherwise.
pub open spec fn disp_type_of(modrm: u8) -> Option<DisplacementType> {
    let mode = mode_field(modrm);
    if mode == 1 {
        Some(DisplacementType::Byte)
    } else if mode == 2 || (mode == 0 && rm_field(modrm) == 6) {
        Some(DisplacementType::Word)
    } else {
        None
    }
}

/// The sum of the base registers of `addr_type`, with wraparound.
pub open spec fn base_of(regs: Registers, addr_type: AddrType) -> u16 {
    match addr_type {
        AddrType::BxSi => regs.word(Reg16::BX).wrapping_add(regs.word(Reg16::SI)),
        AddrType::BxDi => regs.word(Reg16::BX).wrapping_add(regs.word(Reg16::DI)),
        AddrType::BpSi => regs.word(Reg16::BP).wrapping_add(regs.word(Reg16::SI)),
        AddrType::BpDi => regs.word(Reg16::BP).wrapping_add(regs.word(Reg16::DI)),
        AddrType::Si => regs.word(Reg16::SI),
        AddrType::Di => regs.word(Reg16::DI),
        AddrType::Bp => regs.word(Reg16::BP),
        AddrType::Bx => regs.word(Reg16::BX),
    }
}

/// The effective offset: base plus displacement, with wraparound.
pub open spec fn offset_of(regs: Registers, addr_type: AddrType, displacement: u16) -> u16 {
    base_of(regs, addr_type).wrapping_add(displacement)
}

/// Whether the base computation uses BP.
pub open spec fn uses_bp(addr_type: Option<AddrType>) -> bool {
    addr_type == Some(AddrType::BpSi) || addr_type == Some(AddrType::BpDi) || addr_type == Some(
        AddrType::Bp,
    )
}

/// The segment of a memory operand: the override if one is in force, else
/// the stack segment for a base with BP and the data segment for all others.
pub open spec fn segment_of(seg_override: Option<SegReg>, addr_type: Option<AddrType>) -> SegReg {
    match seg_override {
        Some(segment) => segment,
        None => if uses_bp(addr_type) {
            SegReg::SS
        } else {
            SegReg::DS
        },
    }
}

/// The displacement read from the code stream, as a word, and the machine
/// behind it. A byte displacement is widened with its sign.
pub open spec fn displacement_of<T: Cpu8086Context>(
    m: Machine<T::V>,
    disp_type: Option<DisplacementType>,
) -> (u16, Machine<T::V>) {
    match disp_type {
        None => (0, m),
        Some(DisplacementType::Byte) => {
            let (value, after) = fetch8::<T>(m);
            (sign_extend(value), after)
        },
        Some(DisplacementType::Word) => fetch16::<T>(m),
    }
}

/// What `modrm` resolves to on the machine `m`, whose instruction pointer
/// is behind the addressing byte, and the machine behind the displacement.
pub open spec fn resolve<T: Cpu8086Context>(m: Machine<T::V>, modrm: u8) -> (
    OpcodeParams,
    Machine<T::V>,
) {
    if mode_field(modrm) == 3 {
        (OpcodeParams { reg: reg_field(modrm), rm: Operand::Register(rm_field(modrm)) }, m)
    } else {
        let addr_type = addr_type_of(modrm);
        let (displacement, after) = displacement_of::<T>(m, disp_type_of(modrm));
        let offset = match addr_type {
            None => displacement,
            Some(base) => offset_of(m.cpu.regs, base, displacement),
        };
        (
            OpcodeParams {
                reg: reg_field(modrm),
                rm: Operand::Address(segment_of(m.cpu.seg_override, addr_type), offset),
            },
            after,
        )
    }
}

/// The decode table has no gap: a byte with mode 3 has a register operand
/// and no displacement; any other byte has a base, or else has mode 0 with
/// the register-or-memory field at 6 and a word displacement.
pub proof fn lemma_decode_table_total(modrm: u8)
    ensures
        mode_field(modrm) <= 3,
        reg_field(modrm) < 8,
        rm_field(modrm) < 8,
        modrm == mode_field(modrm) * 64 + reg_field(modrm) * 8 + rm_field(modrm),
        mode_field(modrm) == 3 ==> disp_type_of(modrm).is_none(),
        mode_field(modrm) == 1 || mode_field(modrm) == 2 ==> addr_type_of(modrm).is_some()
            && disp_type_of(modrm).is_some(),
        mode_field(modrm) == 0 ==> (addr_type_of(modrm).is_none() <==> rm_field(modrm) == 6),
        addr_type_of(modrm).is_none() ==> disp_type_of(modrm) == Some(DisplacementType::Word),
{
}

/// The resolver has an answer for every addressing byte: a register below
/// eight for mode 3, with no byte read; a place in memory for any other
/// mode.
pub proof fn lemma_resolve_total<T: Cpu8086Context>(m: Machine<T::V>, modrm: u8)
    ensures
        resolve::<T>(m, modrm).0.reg == reg_field(modrm),
        resolve::<T>(m, modrm).0.reg < 8,
        resolve::<T>(m, modrm).0.rm.wf(),
        mode_field(modrm) == 3 ==> resolve::<T>(m, modrm).0.rm == Operand::Register(
            rm_field(modrm),
        ) && resolve::<T>(m, modrm).1 == m,
        mode_field(modrm) != 3 ==> resolve::<T>(m, modrm).0.rm is Address,
        resolve::<T>(m, modrm).1.cpu.regs.gprs == m.cpu.regs.gprs,
        resolve::<T>(m, modrm).1.cpu.regs.seg_regs == m.cpu.regs.seg_regs,
        resolve::<T>(m, modrm).1.cpu.regs.flags == m.cpu.regs.flags,
{
}

impl Cpu8086 {
    /// The base computation that an addressing byte names.
    pub fn get_addr_type_from_modrm(modrm: u8) -> (addr_type: Option<AddrType>)
        ensures
            addr_type == addr_type_of(modrm),
    {
        let mode = modrm / 64;
        let rm = modrm % 8;
        if rm == 0 {
            Some(AddrType::BxSi)
        } else if rm == 1 {
            Some(AddrType::BxDi)
        } else if rm == 2 {
            Some(AddrType::BpSi)
        } else if rm == 3 {
            Some(AddrType::BpDi)
        } else if rm == 4 {
            Some(AddrType::Si)
        } else if rm == 5 {
            Some(AddrType::Di)
        } else if rm == 6 {
            if mode == 0 {
                None
            } else {
                Some(AddrType::Bp)
            }
        } else {
            Some(AddrType::Bx)
        }
    }

    /// The size of the displacement that follows an addressing byte.
    pub fn get_disp_type_from_modrm(modrm: u8) -> (disp_type: Option<DisplacementType>)
        ensures
            disp_type == disp_type_of(modrm),
    {
        let mode = modrm / 64;
        let rm = modrm % 8;
        if mode == 1 {
            Some(DisplacementType::Byte)
        } else if mode == 2 || (mode == 0 && rm == 6) {
            Some(DisplacementType::Word)
        } else {
            None
        }
    }

    /// The effective offset of a memory operand: the base registers of
    /// `addr_type` plus `offset`, with wraparound.
    pub fn get_offset(&self, addr_type: AddrType, offset: u16) -> (effective: u16)
        ensures
            effective == offset_of(self.regs, addr_type, offset),
    {
        let base = match addr_type {
            AddrType::BxSi => self.regs.read16(Reg16::BX).wrapping_add(self.regs.read16(Reg16::SI)),
            AddrType::BxDi => self.regs.read16(Reg16::BX).wrapping_add(self.regs.read16(Reg16::DI)),
            AddrType::BpSi => self.regs.read16(Reg16::BP).wrapping_add(self.regs.read16(Reg16::SI)),
            AddrType::BpDi => self.regs.read16(Reg16::BP).wrapping_add(self.regs.read16(Reg16::DI)),
            AddrType::Si => self.regs.read16(Reg16::SI),
            AddrType::Di => self.regs.read16(Reg16::DI),
            AddrType::Bp => self.regs.read16(Reg16::BP),
            AddrType::Bx => self.regs.read16(Reg16::BX),
        };
        base.wrapping_add(offset)
    }

    /// The segment of a memory operand. The displacement has no part in the
    /// choice.
    pub fn get_operand_seg(
        &self,
        addr_type: Option<AddrType>,
        disp_type: Option<DisplacementType>,
    ) -> (segment: SegReg)
        ensures
            segment == segment_of(self.seg_override, addr_type),
    {
        match self.seg_override {
            Some(segment) => segment,
            None => match addr_type {
                Some(AddrType::BpSi) => SegReg::SS,
                Some(AddrType::BpDi) => SegReg::SS,
                Some(AddrType::Bp) => SegReg::SS,
                _ => SegReg::DS,
            },
        }
    }

    /// Resolves the addressing byte `modrm`, reading its displacement from
    /// the code stream at CS:IP.
    pub fn get_opcode_params_from_modrm<T: Cpu8086Context>(&mut self, ctx: &mut T, modrm: u8) -> (params:
        OpcodeParams)
        requires
            old(ctx).inv(),
        ensures
            final(ctx).inv(),
            (params, final(self).on(final(ctx)@)) == resolve::<T>(old(self).on(old(ctx)@), modrm),
            params.rm.wf(),
            params.reg < 8,
    {
        let mode = modrm / 64;
        let reg = (modrm / 8) % 8;
        let rm = modrm % 8;
        if mode == 3 {
            return OpcodeParams { reg, rm: Operand::Register(rm) };
        }
        let addr_type = Cpu8086::get_addr_type_from_modrm(modrm);
        let disp_type = Cpu8086::get_disp_type_from_modrm(modrm);
        let segment = self.get_operand_seg(addr_type, disp_type);
        let base: u16 = match addr_type {
            None => 0,
            Some(kind) => self.get_offset(kind, 0),
        };
        let displacement: u16 = match disp_type {
            None => 0,
            Some(DisplacementType::Byte) => {
                let value = self.fetch8(ctx);
                if value < 0x80 {
                    value as u16
                } else {
                    (value as u16) + 0xff00
                }
            },
            Some(DisplacementType::Word) => self.fetch16(ctx),
        };
        OpcodeParams { reg, rm: Operand::Address(segment, base.wrapping_add(displacement)) }
    }
}

} // verus!
