//! The software interrupt services. A service is found by its vector and by
//! the service number in AH; no interrupt table in memory is consulted.
//!
//! Vector 10h, service 0Eh sends the character in AL to the console.
//! Vector 13h, service 00h resets the disk system; service 02h copies AL
//! sectors of the disk image, from sector CL on, to memory at ES:BX.

use vstd::prelude::*;
use crate::cpu8086::registers::{Flags, Reg16, Reg8, SegReg};
use crate::cpu8086::{store8, Cpu8086, Cpu8086Context, Fault, Machine};

verus! {

/// Bytes in one sector of the disk image.
pub const SECTOR_SIZE: usize = 512;

/// The bus after `bytes` are written one by one, in order, from
/// `segment:offset` upwards; the offset wraps at the end of the segment.
pub open spec fn block_stored<T: Cpu8086Context>(
    bus: T::V,
    segment: u16,
    offset: u16,
    bytes: Seq<u8>,
) -> T::V
    decreases bytes.len(),
{
    if bytes.len() == 0 {
        bus
    } else {
        store8::<T>(
            block_stored::<T>(bus, segment, offset, bytes.drop_last()),
            segment,
            ((offset + bytes.len() - 1) % 0x1_0000) as u16,
            bytes.last(),
        )
    }
}

/// The machine after a disk service has reported success: carry clear,
/// zero in AH, and `count` in AL.
pub open spec fn disk_success<B>(m: Machine<B>, count: u8) -> Machine<B> {
    m.with_flags(m.cpu.regs.flags.with(Flags::CARRY, false)).with_byte(Reg8::AH, 0).with_byte(
        Reg8::AL,
        count,
    )
}

/// What the software interrupt `vector` does, and the character it sends
/// to the console.
pub open spec fn interrupt<T: Cpu8086Context>(m: Machine<T::V>, vector: u8) -> (
    Machine<T::V>,
    Result<Option<u8>, Fault>,
) {
    let regs = m.cpu.regs;
    let service = regs.byte(Reg8::AH);
    if vector == 0x10 && service == 0x0e {
        (m, Ok(Some(regs.byte(Reg8::AL))))
    } else if vector == 0x13 && service == 0x00 {
        (disk_success(m, regs.byte(Reg8::AL)), Ok(None))
    } else if vector == 0x13 && service == 0x02 {
        let count = regs.byte(Reg8::AL);
        let first = regs.byte(Reg8::CL) * SECTOR_SIZE;
        let past = first + count * SECTOR_SIZE;
        if past > m.cpu.floppy@.len() {
            (m, Err(Fault::DiskImageOverrun))
        } else {
            (
                disk_success(
                    m.with_bus(
                        block_stored::<T>(
                            m.bus,
                            regs.selector(SegReg::ES),
                            regs.word(Reg16::BX),
                            m.cpu.floppy@.subrange(first, past),
                        ),
                    ),
                    count,
                ),
                Ok(None),
            )
        }
    } else {
        (m, Err(Fault::UnhandledInterrupt(vector, service)))
    }
}

impl Cpu8086 {
    /// Copies `length` bytes of the disk image, from index `first` on, to
    /// memory at `segment:offset`.
    pub fn copy_from_disk<T: Cpu8086Context>(
        &mut self,
        ctx: &mut T,
        segment: u16,
        offset: u16,
        first: usize,
        length: usize,
    )
        requires
            old(ctx).inv(),
            first + length <= old(self).floppy@.len(),
        ensures
            final(ctx).inv(),
            *final(self) == *old(self),
            final(ctx)@ == block_stored::<T>(
                old(ctx)@,
                segment,
                offset,
                old(self).floppy@.subrange(first as int, first + length),
            ),
    {
        let total = self.floppy.len();
        let mut done: usize = 0;
        let mut target: u16 = offset;
        while done < length
            invariant
                ctx.inv(),
                *self == *old(self),
                done <= length,
                first + length <= total,
                total == self.floppy@.len(),
                target == (offset + done) % 0x1_0000,
                ctx@ == block_stored::<T>(
                    old(ctx)@,
                    segment,
                    offset,
                    self.floppy@.subrange(first as int, first + done),
                ),
            decreases length - done,
        {
            let value = self.floppy[first + done];
            proof {
                let longer = self.floppy@.subrange(first as int, first + done + 1);
                assert(longer.drop_last() =~= self.floppy@.subrange(first as int, first + done));
                assert(longer.last() == value);
            }
            self.mem_write_byte(ctx, segment, target, value);
            target = target.wrapping_add(1);
            done = done + 1;
        }
    }

    /// Serves the software interrupt `intr`. Returns the character that the
    /// service sends to the console, if it sends one.
    pub fn interrupt_hook<T: Cpu8086Context>(&mut self, ctx: &mut T, intr: u8) -> (result: Result<
        Option<u8>,
        Fault,
    >)
        requires
            old(ctx).inv(),
        ensures
            final(ctx).inv(),
            (final(self).on(final(ctx)@), result) == interrupt::<T>(old(self).on(old(ctx)@), intr),
    {
        let service = self.regs.read8(Reg8::AH);
        let count = self.regs.read8(Reg8::AL);
        if intr == 0x10 && service == 0x0e {
            return Ok(Some(count));
        }
        if intr == 0x13 && service == 0x00 {
        } else if intr == 0x13 && service == 0x02 {
            let first = (self.regs.read8(Reg8::CL) as usize) * SECTOR_SIZE;
            let length = (count as usize) * SECTOR_SIZE;
            if first + length > self.floppy.len() {
                return Err(Fault::DiskImageOverrun);
            }
            let segment = self.regs.readseg16(SegReg::ES);
            let offset = self.regs.read16(Reg16::BX);
            self.copy_from_disk(ctx, segment, offset, first, length);
        } else {
            return Err(Fault::UnhandledInterrupt(intr, service));
        }
        self.regs.flags.set(Flags::CARRY, false);
        self.regs.write8(Reg8::AH, 0);
        self.regs.write8(Reg8::AL, count);
        Ok(None)
    }
}

} // verus!
