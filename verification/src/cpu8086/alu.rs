//! Flag arithmetic of the arithmetic and logic instructions, as functions
//! from the flags and the operands to the result and the new flags.
//!
//! Each rule is stated over the sign bits and bit 4 of the operands and of
//! the result, and holds for both operand widths.

use vstd::prelude::*;
use crate::cpu8086::registers::{is_flag, lemma_flag_update, Flags};

verus! {

/// How many of the low `n` bits of `data` are one.
pub open spec fn ones_below(data: u16, n: nat) -> nat
    decreases n,
{
    if n == 0 {
        0
    } else {
        (data % 2) as nat + ones_below(data / 2, (n - 1) as nat)
    }
}

/// Whether the low byte of `data` has an even number of one bits.
pub open spec fn even_parity(data: u16) -> bool {
    ones_below(data, 8) % 2 == 0
}

/// Whether bit 4 of `value` is set.
pub open spec fn bit4(value: u16) -> bool {
    (value / 16) % 2 == 1
}

/// Whether a carry or borrow left the low nibble: bit 4 of the exclusive
/// or of the result and both operands.
pub open spec fn nibble_carry(result: u16, a: u16, b: u16) -> bool {
    bit4(result) != (bit4(a) != bit4(b))
}

/// Overflow of an addition: the operands have the same sign and the result
/// has the other.
pub open spec fn add_overflow(sign_a: bool, sign_b: bool, sign_result: bool) -> bool {
    sign_a == sign_b && sign_result != sign_a
}

/// Overflow of a subtraction: the operands differ in sign and the result
/// has not the sign of the minuend.
pub open spec fn sub_overflow(sign_minuend: bool, sign_subtrahend: bool, sign_result: bool) -> bool {
    sign_minuend != sign_subtrahend && sign_result != sign_minuend
}

/// Carry of an addition: the high bit of the operand exceeds that of the
/// result.
pub open spec fn add_carry(sign_operand: bool, sign_result: bool) -> bool {
    sign_operand && !sign_result
}

/// Carry of a subtraction: the high bit of the subtrahend exceeds that of
/// the minuend.
pub open spec fn sub_carry(sign_minuend: bool, sign_subtrahend: bool) -> bool {
    sign_subtrahend && !sign_minuend
}

/// The flags with parity, zero and sign taken from a byte result.
pub open spec fn pzs8_spec(flags: Flags, result: u8) -> Flags {
    flags.with(Flags::PARITY, even_parity(result as u16)).with(Flags::ZERO, result == 0).with(
        Flags::SIGN,
        result >= 0x80,
    )
}

/// The flags with parity, zero and sign taken from a word result; parity
/// looks at the low byte only.
pub open spec fn pzs16_spec(flags: Flags, result: u16) -> Flags {
    flags.with(Flags::PARITY, even_parity(result)).with(Flags::ZERO, result == 0).with(
        Flags::SIGN,
        result >= 0x8000,
    )
}

/// The flags with overflow, adjust and carry replaced.
pub open spec fn oac(flags: Flags, overflow: bool, adjust: bool, carry: bool) -> Flags {
    flags.with(Flags::OVERFLOW, overflow).with(Flags::ADJUST, adjust).with(Flags::CARRY, carry)
}

/// Byte addition `a + b` with wraparound.
pub open spec fn add8_spec(flags: Flags, a: u8, b: u8) -> (u8, Flags) {
    let r = a.wrapping_add(b);
    (
        r,
        oac(
            pzs8_spec(flags, r),
            add_overflow(a >= 0x80, b >= 0x80, r >= 0x80),
            nibble_carry(r as u16, a as u16, b as u16),
            add_carry(b >= 0x80, r >= 0x80),
        ),
    )
}

/// Word addition `a + b` with wraparound.
pub open spec fn add16_spec(flags: Flags, a: u16, b: u16) -> (u16, Flags) {
    let r = a.wrapping_add(b);
    (
        r,
        oac(
            pzs16_spec(flags, r),
            add_overflow(a >= 0x8000, b >= 0x8000, r >= 0x8000),
            nibble_carry(r, a, b),
            add_carry(b >= 0x8000, r >= 0x8000),
        ),
    )
}

/// Word addition `a + b` plus the carry flag, with wraparound.
pub open spec fn adc16_spec(flags: Flags, a: u16, b: u16) -> (u16, Flags) {
    let carry_in: u16 = if flags.has(Flags::CARRY) { 1 } else { 0 };
    let r = a.wrapping_add(b).wrapping_add(carry_in);
    (
        r,
        oac(
            pzs16_spec(flags, r),
            add_overflow(a >= 0x8000, b >= 0x8000, r >= 0x8000),
            nibble_carry(r, a, b),
            add_carry(b >= 0x8000, r >= 0x8000),
        ),
    )
}

/// Byte subtraction `a - b` with wraparound.
pub open spec fn sub8_spec(flags: Flags, a: u8, b: u8) -> (u8, Flags) {
    let r = a.wrapping_sub(b);
    (
        r,
        oac(
            pzs8_spec(flags, r),
            sub_overflow(a >= 0x80, b >= 0x80, r >= 0x80),
            nibble_carry(r as u16, a as u16, b as u16),
            sub_carry(a >= 0x80, b >= 0x80),
        ),
    )
}

/// Word subtraction `a - b` with wraparound.
pub open spec fn sub16_spec(flags: Flags, a: u16, b: u16) -> (u16, Flags) {
    let r = a.wrapping_sub(b);
    (
        r,
        oac(
            pzs16_spec(flags, r),
            sub_overflow(a >= 0x8000, b >= 0x8000, r >= 0x8000),
            nibble_carry(r, a, b),
            sub_carry(a >= 0x8000, b >= 0x8000),
        ),
    )
}

/// The flags that comparing the bytes `a` and `b` leaves: those of `a - b`.
pub open spec fn compare8_spec(flags: Flags, a: u8, b: u8) -> Flags {
    sub8_spec(flags, a, b).1
}

/// The flags that comparing the words `a` and `b` leaves: those of `a - b`.
pub open spec fn compare16_spec(flags: Flags, a: u16, b: u16) -> Flags {
    sub16_spec(flags, a, b).1
}

/// The flags after a logical operation with the byte `result`.
pub open spec fn logic8_spec(flags: Flags, result: u8) -> Flags {
    pzs8_spec(flags, result).with(Flags::OVERFLOW, false).with(Flags::CARRY, false)
}

/// The flags after a logical operation with the word `result`.
pub open spec fn logic16_spec(flags: Flags, result: u16) -> Flags {
    pzs16_spec(flags, result).with(Flags::OVERFLOW, false).with(Flags::CARRY, false)
}

/// Byte increment; the carry flag keeps its value.
pub open spec fn inc8_spec(flags: Flags, a: u8) -> (u8, Flags) {
    let r = a.wrapping_add(1);
    (
        r,
        pzs8_spec(flags, r).with(Flags::OVERFLOW, add_overflow(a >= 0x80, false, r >= 0x80)).with(
            Flags::ADJUST,
            nibble_carry(r as u16, a as u16, 1),
        ),
    )
}

/// Word increment; the carry flag keeps its value.
pub open spec fn inc16_spec(flags: Flags, a: u16) -> (u16, Flags) {
    let r = a.wrapping_add(1);
    (
        r,
        pzs16_spec(flags, r).with(
            Flags::OVERFLOW,
            add_overflow(a >= 0x8000, false, r >= 0x8000),
        ).with(Flags::ADJUST, nibble_carry(r, a, 1)),
    )
}

/// Byte decrement; the carry flag keeps its value.
pub open spec fn dec8_spec(flags: Flags, a: u8) -> (u8, Flags) {
    let r = a.wrapping_sub(1);
    (
        r,
        pzs8_spec(flags, r).with(Flags::OVERFLOW, sub_overflow(a >= 0x80, false, r >= 0x80)).with(
            Flags::ADJUST,
            nibble_carry(r as u16, a as u16, 1),
        ),
    )
}

/// Word decrement; the carry flag keeps its value.
pub open spec fn dec16_spec(flags: Flags, a: u16) -> (u16, Flags) {
    let r = a.wrapping_sub(1);
    (
        r,
        pzs16_spec(flags, r).with(
            Flags::OVERFLOW,
            sub_overflow(a >= 0x8000, false, r >= 0x8000),
        ).with(Flags::ADJUST, nibble_carry(r, a, 1)),
    )
}

/// Unsigned product of two words as (low half, high half, flags): carry and
/// overflow are set exactly when the high half is not zero.
pub open spec fn mul16_spec(flags: Flags, a: u16, b: u16) -> (u16, u16, Flags) {
    let low = ((a * b) % 0x1_0000) as u16;
    let high = ((a * b) / 0x1_0000) as u16;
    (low, high, flags.with(Flags::OVERFLOW, high != 0).with(Flags::CARRY, high != 0))
}

/// One shift to the left of a byte, as (result, carry): the carry is the
/// bit that leaves.
pub open spec fn shl8_step(a: u8) -> (u8, bool) {
    (((a * 2) % 256) as u8, a >= 0x80)
}

/// One shift to the right of a byte, as (result, carry): the carry is the
/// bit that leaves.
pub open spec fn shr8_step(a: u8) -> (u8, bool) {
    (a / 2, a % 2 == 1)
}

/// Shift of a byte by one to the left: overflow is the exclusive or of the
/// two highest bits of the operand.
pub open spec fn shl8_spec(flags: Flags, a: u8) -> (u8, Flags) {
    let (r, carry) = shl8_step(a);
    (
        r,
        pzs8_spec(
            flags.with(Flags::CARRY, carry).with(
                Flags::OVERFLOW,
                (a >= 0x80) != ((a / 64) % 2 == 1),
            ),
            r,
        ),
    )
}

/// Shift of a byte by one to the right: overflow is the highest bit of the
/// operand.
pub open spec fn shr8_spec(flags: Flags, a: u8) -> (u8, Flags) {
    let (r, carry) = shr8_step(a);
    (r, pzs8_spec(flags.with(Flags::CARRY, carry).with(Flags::OVERFLOW, a >= 0x80), r))
}

/// `count` single shifts in a row, each one replacing the carry flag.
pub open spec fn shift8_steps(left: bool, flags: Flags, a: u8, count: nat) -> (u8, Flags)
    decreases count,
{
    if count == 0 {
        (a, flags)
    } else {
        let (r, carry) = if left { shl8_step(a) } else { shr8_step(a) };
        shift8_steps(left, flags.with(Flags::CARRY, carry), r, (count - 1) as nat)
    }
}

/// Shift of a byte by `count`: nothing changes for a count of zero;
/// otherwise the single shift is repeated, and parity, zero and sign follow
/// the result.
pub open spec fn shift8_by_spec(left: bool, flags: Flags, a: u8, count: u8) -> (u8, Flags) {
    if count == 0 {
        (a, flags)
    } else {
        let (r, shifted) = shift8_steps(left, flags, a, count as nat);
        (r, pzs8_spec(shifted, r))
    }
}

/// Adding `b` to `a` and taking `b` off again gives `a` back, whatever
/// wrapped on the way; and the subtraction leaves the flags that a
/// comparison of the same two operands leaves.
pub proof fn lemma_add_sub_round_trip(flags: Flags, a: u8, b: u8)
    ensures
        sub8_spec(add8_spec(flags, a, b).1, add8_spec(flags, a, b).0, b).0 == a,
        sub8_spec(add8_spec(flags, a, b).1, add8_spec(flags, a, b).0, b).1 == compare8_spec(
            add8_spec(flags, a, b).1,
            add8_spec(flags, a, b).0,
            b,
        ),
{
}

/// The same for words.
pub proof fn lemma_add_sub_round_trip16(flags: Flags, a: u16, b: u16)
    ensures
        sub16_spec(add16_spec(flags, a, b).1, add16_spec(flags, a, b).0, b).0 == a,
        sub16_spec(add16_spec(flags, a, b).1, add16_spec(flags, a, b).0, b).1 == compare16_spec(
            add16_spec(flags, a, b).1,
            add16_spec(flags, a, b).0,
            b,
        ),
{
}

/// Incrementing and then decrementing gives the value back.
pub proof fn lemma_inc_dec_round_trip(flags: Flags, a: u8)
    ensures
        dec8_spec(inc8_spec(flags, a).1, inc8_spec(flags, a).0).0 == a,
{
}

/// What a flag reads after parity, zero and sign have been taken from a
/// byte result.
pub proof fn lemma_pzs8_flags(flags: Flags, result: u8, probe: u16)
    requires
        is_flag(probe),
    ensures
        pzs8_spec(flags, result).has(probe) == (if probe == Flags::PARITY {
            even_parity(result as u16)
        } else if probe == Flags::ZERO {
            result == 0
        } else if probe == Flags::SIGN {
            result >= 0x80
        } else {
            flags.has(probe)
        }),
{
    let parity = flags.with(Flags::PARITY, even_parity(result as u16));
    let zero = parity.with(Flags::ZERO, result == 0);
    lemma_flag_update(flags, Flags::PARITY, even_parity(result as u16), probe);
    lemma_flag_update(parity, Flags::ZERO, result == 0, probe);
    lemma_flag_update(zero, Flags::SIGN, result >= 0x80, probe);
}

/// What a flag reads after overflow, adjust and carry have been replaced.
pub proof fn lemma_oac_flags(flags: Flags, overflow: bool, adjust: bool, carry: bool, probe: u16)
    requires
        is_flag(probe),
    ensures
        oac(flags, overflow, adjust, carry).has(probe) == (if probe == Flags::OVERFLOW {
            overflow
        } else if probe == Flags::ADJUST {
            adjust
        } else if probe == Flags::CARRY {
            carry
        } else {
            flags.has(probe)
        }),
{
    let first = flags.with(Flags::OVERFLOW, overflow);
    let second = first.with(Flags::ADJUST, adjust);
    lemma_flag_update(flags, Flags::OVERFLOW, overflow, probe);
    lemma_flag_update(first, Flags::ADJUST, adjust, probe);
    lemma_flag_update(second, Flags::CARRY, carry, probe);
}

/// A logical operation leaves carry and overflow clear; every operation
/// sets zero, sign and parity from its result; a subtraction sets zero
/// exactly when its operands are equal.
pub proof fn lemma_result_flags(flags: Flags, a: u8, b: u8)
    ensures
        !logic8_spec(flags, a).has(Flags::CARRY),
        !logic8_spec(flags, a).has(Flags::OVERFLOW),
        logic8_spec(flags, a).has(Flags::ZERO) == (a == 0),
        logic8_spec(flags, a).has(Flags::SIGN) == (a >= 0x80),
        logic8_spec(flags, a).has(Flags::PARITY) == even_parity(a as u16),
        add8_spec(flags, a, b).1.has(Flags::ZERO) == (add8_spec(flags, a, b).0 == 0),
        add8_spec(flags, a, b).1.has(Flags::SIGN) == (add8_spec(flags, a, b).0 >= 0x80),
        sub8_spec(flags, a, b).1.has(Flags::ZERO) == (a == b),
        sub8_spec(flags, a, b).1.has(Flags::CARRY) == (b >= 0x80 && a < 0x80),
{
    let p = pzs8_spec(flags, a);
    let cleared = p.with(Flags::OVERFLOW, false);
    lemma_pzs8_flags(flags, a, Flags::ZERO);
    lemma_pzs8_flags(flags, a, Flags::SIGN);
    lemma_pzs8_flags(flags, a, Flags::PARITY);
    lemma_flag_update(p, Flags::OVERFLOW, false, Flags::OVERFLOW);
    lemma_flag_update(p, Flags::OVERFLOW, false, Flags::ZERO);
    lemma_flag_update(p, Flags::OVERFLOW, false, Flags::SIGN);
    lemma_flag_update(p, Flags::OVERFLOW, false, Flags::PARITY);
    lemma_flag_update(cleared, Flags::CARRY, false, Flags::OVERFLOW);
    lemma_flag_update(cleared, Flags::CARRY, false, Flags::CARRY);
    lemma_flag_update(cleared, Flags::CARRY, false, Flags::ZERO);
    lemma_flag_update(cleared, Flags::CARRY, false, Flags::SIGN);
    lemma_flag_update(cleared, Flags::CARRY, false, Flags::PARITY);
    let sum = a.wrapping_add(b);
    lemma_pzs8_flags(flags, sum, Flags::ZERO);
    lemma_pzs8_flags(flags, sum, Flags::SIGN);
    lemma_oac_flags(
        pzs8_spec(flags, sum),
        add_overflow(a >= 0x80, b >= 0x80, sum >= 0x80),
        nibble_carry(sum as u16, a as u16, b as u16),
        add_carry(b >= 0x80, sum >= 0x80),
        Flags::ZERO,
    );
    lemma_oac_flags(
        pzs8_spec(flags, sum),
        add_overflow(a >= 0x80, b >= 0x80, sum >= 0x80),
        nibble_carry(sum as u16, a as u16, b as u16),
        add_carry(b >= 0x80, sum >= 0x80),
        Flags::SIGN,
    );
    let difference = a.wrapping_sub(b);
    lemma_pzs8_flags(flags, difference, Flags::ZERO);
    lemma_oac_flags(
        pzs8_spec(flags, difference),
        sub_overflow(a >= 0x80, b >= 0x80, difference >= 0x80),
        nibble_carry(difference as u16, a as u16, b as u16),
        sub_carry(a >= 0x80, b >= 0x80),
        Flags::ZERO,
    );
    lemma_oac_flags(
        pzs8_spec(flags, difference),
        sub_overflow(a >= 0x80, b >= 0x80, difference >= 0x80),
        nibble_carry(difference as u16, a as u16, b as u16),
        sub_carry(a >= 0x80, b >= 0x80),
        Flags::CARRY,
    );
}

/// Whether the low byte of `data` has an even number of one bits.
pub fn parity_even(data: u16) -> (even: bool)
    ensures
        even == even_parity(data),
{
    let mut rest: u16 = data;
    let mut odd: bool = false;
    let mut i: u8 = 0;
    while i < 8
        invariant
            i <= 8,
            (ones_below(data, 8) % 2 == 1) == (odd != (ones_below(rest, (8 - i) as nat) % 2 == 1)),
        decreases 8 - i,
    {
        if rest % 2 == 1 {
            odd = !odd;
        }
        rest = rest / 2;
        i = i + 1;
    }
    !odd
}

/// Parity, zero and sign from a byte result.
pub fn pzs8(flags: Flags, result: u8) -> (out: Flags)
    ensures
        out == pzs8_spec(flags, result),
{
    let mut out = flags;
    out.set(Flags::PARITY, parity_even(result as u16));
    out.set(Flags::ZERO, result == 0);
    out.set(Flags::SIGN, result >= 0x80);
    out
}

/// Parity, zero and sign from a word result.
pub fn pzs16(flags: Flags, result: u16) -> (out: Flags)
    ensures
        out == pzs16_spec(flags, result),
{
    let mut out = flags;
    out.set(Flags::PARITY, parity_even(result));
    out.set(Flags::ZERO, result == 0);
    out.set(Flags::SIGN, result >= 0x8000);
    out
}

/// Whether a carry or borrow left the low nibble.
fn nibble_carried(result: u16, a: u16, b: u16) -> (carried: bool)
    ensures
        carried == nibble_carry(result, a, b),
{
    ((result / 16) % 2 == 1) != (((a / 16) % 2 == 1) != ((b / 16) % 2 == 1))
}

/// Overflow, adjust and carry replaced.
fn with_oac(flags: Flags, overflow: bool, adjust: bool, carry: bool) -> (out: Flags)
    ensures
        out == oac(flags, overflow, adjust, carry),
{
    let mut out = flags;
    out.set(Flags::OVERFLOW, overflow);
    out.set(Flags::ADJUST, adjust);
    out.set(Flags::CARRY, carry);
    out
}

/// Byte addition.
pub fn add8(flags: Flags, a: u8, b: u8) -> (out: (u8, Flags))
    ensures
        out == add8_spec(flags, a, b),
{
    let r = a.wrapping_add(b);
    let (sa, sb, sr) = (a >= 0x80, b >= 0x80, r >= 0x80);
    let adjust = nibble_carried(r as u16, a as u16, b as u16);
    (r, with_oac(pzs8(flags, r), sa == sb && sr != sa, adjust, sb && !sr))
}

/// Word addition.
pub fn add16(flags: Flags, a: u16, b: u16) -> (out: (u16, Flags))
    ensures
        out == add16_spec(flags, a, b),
{
    let r = a.wrapping_add(b);
    let (sa, sb, sr) = (a >= 0x8000, b >= 0x8000, r >= 0x8000);
    let adjust = nibble_carried(r, a, b);
    (r, with_oac(pzs16(flags, r), sa == sb && sr != sa, adjust, sb && !sr))
}

/// Word addition with carry in.
pub fn adc16(flags: Flags, a: u16, b: u16) -> (out: (u16, Flags))
    ensures
        out == adc16_spec(flags, a, b),
{
    let carry_in: u16 = if flags.contains(Flags::CARRY) { 1 } else { 0 };
    let r = a.wrapping_add(b).wrapping_add(carry_in);
    let (sa, sb, sr) = (a >= 0x8000, b >= 0x8000, r >= 0x8000);
    let adjust = nibble_carried(r, a, b);
    (r, with_oac(pzs16(flags, r), sa == sb && sr != sa, adjust, sb && !sr))
}

/// Byte subtraction.
pub fn sub8(flags: Flags, a: u8, b: u8) -> (out: (u8, Flags))
    ensures
        out == sub8_spec(flags, a, b),
{
    let r = a.wrapping_sub(b);
    let (sa, sb, sr) = (a >= 0x80, b >= 0x80, r >= 0x80);
    let adjust = nibble_carried(r as u16, a as u16, b as u16);
    (r, with_oac(pzs8(flags, r), sa != sb && sr != sa, adjust, sb && !sa))
}

/// Word subtraction.
pub fn sub16(flags: Flags, a: u16, b: u16) -> (out: (u16, Flags))
    ensures
        out == sub16_spec(flags, a, b),
{
    let r = a.wrapping_sub(b);
    let (sa, sb, sr) = (a >= 0x8000, b >= 0x8000, r >= 0x8000);
    let adjust = nibble_carried(r, a, b);
    (r, with_oac(pzs16(flags, r), sa != sb && sr != sa, adjust, sb && !sa))
}

/// Byte comparison: the flags of the subtraction, without its result.
pub fn compare8(flags: Flags, a: u8, b: u8) -> (out: Flags)
    ensures
        out == compare8_spec(flags, a, b),
{
    sub8(flags, a, b).1
}

/// Word comparison: the flags of the subtraction, without its result.
pub fn compare16(flags: Flags, a: u16, b: u16) -> (out: Flags)
    ensures
        out == compare16_spec(flags, a, b),
{
    sub16(flags, a, b).1
}

/// Flags of a logical operation on bytes.
pub fn logic8(flags: Flags, result: u8) -> (out: Flags)
    ensures
        out == logic8_spec(flags, result),
{
    let mut out = pzs8(flags, result);
    out.set(Flags::OVERFLOW, false);
    out.set(Flags::CARRY, false);
    out
}

/// Flags of a logical operation on words.
pub fn logic16(flags: Flags, result: u16) -> (out: Flags)
    ensures
        out == logic16_spec(flags, result),
{
    let mut out = pzs16(flags, result);
    out.set(Flags::OVERFLOW, false);
    out.set(Flags::CARRY, false);
    out
}

/// Byte increment.
pub fn inc8(flags: Flags, a: u8) -> (out: (u8, Flags))
    ensures
        out == inc8_spec(flags, a),
{
    let r = a.wrapping_add(1);
    let mut f = pzs8(flags, r);
    f.set(Flags::OVERFLOW, a < 0x80 && r >= 0x80);
    f.set(Flags::ADJUST, nibble_carried(r as u16, a as u16, 1));
    (r, f)
}

/// Word increment.
pub fn inc16(flags: Flags, a: u16) -> (out: (u16, Flags))
    ensures
        out == inc16_spec(flags, a),
{
    let r = a.wrapping_add(1);
    let mut f = pzs16(flags, r);
    f.set(Flags::OVERFLOW, a < 0x8000 && r >= 0x8000);
    f.set(Flags::ADJUST, nibble_carried(r, a, 1));
    (r, f)
}

/// Byte decrement.
pub fn dec8(flags: Flags, a: u8) -> (out: (u8, Flags))
    ensures
        out == dec8_spec(flags, a),
{
    let r = a.wrapping_sub(1);
    let mut f = pzs8(flags, r);
    f.set(Flags::OVERFLOW, a >= 0x80 && r < 0x80);
    f.set(Flags::ADJUST, nibble_carried(r as u16, a as u16, 1));
    (r, f)
}

/// Word decrement.
pub fn dec16(flags: Flags, a: u16) -> (out: (u16, Flags))
    ensures
        out == dec16_spec(flags, a),
{
    let r = a.wrapping_sub(1);
    let mut f = pzs16(flags, r);
    f.set(Flags::OVERFLOW, a >= 0x8000 && r < 0x8000);
    f.set(Flags::ADJUST, nibble_carried(r, a, 1));
    (r, f)
}

/// Unsigned product of two words.
pub fn mul16(flags: Flags, a: u16, b: u16) -> (out: (u16, u16, Flags))
    ensures
        out == mul16_spec(flags, a, b),
{
    assert(a * b <= 0xffff * 0xffff) by (nonlinear_arith)
        requires
            a <= 0xffff,
            b <= 0xffff,
    ;
    let product: u32 = (a as u32) * (b as u32);
    let low = (product % 0x1_0000) as u16;
    let high = (product / 0x1_0000) as u16;
    let mut f = flags;
    f.set(Flags::OVERFLOW, high != 0);
    f.set(Flags::CARRY, high != 0);
    (low, high, f)
}

/// One shift of a byte, to the left or to the right.
fn shift8_once(left: bool, a: u8) -> (out: (u8, bool))
    ensures
        out == (if left { shl8_step(a) } else { shr8_step(a) }),
{
    if left {
        ((((a as u16) * 2) % 256) as u8, a >= 0x80)
    } else {
        (a / 2, a % 2 == 1)
    }
}

/// Shift of a byte by one to the left.
pub fn shl8(flags: Flags, a: u8) -> (out: (u8, Flags))
    ensures
        out == shl8_spec(flags, a),
{
    let (r, carry) = shift8_once(true, a);
    let mut f = flags;
    f.set(Flags::CARRY, carry);
    f.set(Flags::OVERFLOW, (a >= 0x80) != ((a / 64) % 2 == 1));
    (r, pzs8(f, r))
}

/// Shift of a byte by one to the right.
pub fn shr8(flags: Flags, a: u8) -> (out: (u8, Flags))
    ensures
        out == shr8_spec(flags, a),
{
    let (r, carry) = shift8_once(false, a);
    let mut f = flags;
    f.set(Flags::CARRY, carry);
    f.set(Flags::OVERFLOW, a >= 0x80);
    (r, pzs8(f, r))
}

/// Shift of a byte by a count, to the left or to the right.
pub fn shift8_by(left: bool, flags: Flags, a: u8, count: u8) -> (out: (u8, Flags))
    ensures
        out == shift8_by_spec(left, flags, a, count),
{
    if count == 0 {
        return (a, flags);
    }
    let mut value = a;
    let mut f = flags;
    let mut left_over = count;
    while left_over != 0
        invariant
            shift8_steps(left, f, value, left_over as nat) == shift8_steps(
                left,
                flags,
                a,
                count as nat,
            ),
        decreases left_over,
    {
        let (r, carry) = shift8_once(left, value);
        f.set(Flags::CARRY, carry);
        value = r;
        left_over = left_over - 1;
    }
    (value, pzs8(f, value))
}

} // verus!
