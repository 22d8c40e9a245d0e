//! Bit fields of a 32-bit register, as arithmetic.
//!
//! A register is a number below 2^32. The field of `width` bits that starts
//! at bit `lsb` is the number `(raw / 2^lsb) mod 2^width`; everything the
//! typed accessors promise is stated through that one definition.

use vstd::prelude::*;
use vstd::arithmetic::power2::{pow2, lemma2_to64, lemma_pow2_pos};
use vstd::bits::{
    lemma_u32_low_bits_mask_is_mod, lemma_u32_pow2_no_overflow, lemma_u32_shl_is_mul,
    lemma_u32_shr_is_div,
};

verus! {

/// The unsigned number held in the `width` bits of `raw` that start at bit
/// `lsb` (bit 0 is the least significant).
pub open spec fn bit_field(raw: u32, lsb: nat, width: nat) -> nat {
    (raw as nat / pow2(lsb)) % pow2(width)
}

/// Whether bit `index` of `raw` is set.
pub open spec fn bit(raw: u32, index: nat) -> bool {
    bit_field(raw, index, 1) == 1
}

/// The register value that reads `value` at bit `index` and agrees with
/// `raw` everywhere else.
pub open spec fn with_bit(raw: u32, index: nat, value: bool) -> nat {
    if bit(raw, index) == value {
        raw as nat
    } else if value {
        raw as nat + pow2(index)
    } else {
        (raw as nat - pow2(index)) as nat
    }
}

/// The mask that selects bit `index` alone.
pub open spec fn bit_mask(index: u32) -> u32 {
    1u32 << index
}

/// The mask that selects the `width` lowest bits.
spec fn low_mask(width: u32) -> u32 {
    ((1u32 << width) - 1) as u32
}

/// A bit of a register is the lowest bit of the register shifted right.
proof fn lemma_bit_is_shifted_low_bit(raw: u32, index: u32)
    requires
        index < 32,
    ensures
        bit(raw, index as nat) <==> (raw >> index) & 1 == 1,
{
    lemma_u32_shr_is_div(raw, index);
    lemma2_to64();
    let shifted: u32 = raw >> index;
    assert(shifted & 1 == shifted % 2) by (bit_vector);
}

/// A field of a register is the low bits of the register shifted right.
proof fn lemma_field_is_shifted_low_bits(raw: u32, lsb: u32, width: u32)
    requires
        lsb < 32,
        width < 32,
    ensures
        bit_field(raw, lsb as nat, width as nat) == (raw >> lsb) & low_mask(width),
{
    lemma_u32_shr_is_div(raw, lsb);
    lemma_u32_pow2_no_overflow(width as nat);
    lemma_u32_shl_is_mul(1, width);
    lemma_u32_low_bits_mask_is_mod(raw >> lsb, width as nat);
}

/// What OR with a bit's mask and AND with its complement do to the value of
/// a register, by whether the bit is set.
proof fn lemma_mask_ops(raw: u32, index: u32)
    by (bit_vector)
    requires
        index < 32,
    ensures
        (raw >> index) & 1 == 1 ==> raw | (1u32 << index) == raw,
        (raw >> index) & 1 == 1 ==> raw & !(1u32 << index) == raw - (1u32 << index),
        (raw >> index) & 1 != 1 ==> raw | (1u32 << index) == raw + (1u32 << index),
        (raw >> index) & 1 != 1 ==> raw & !(1u32 << index) == raw,
{
}

/// What OR with a bit's mask and AND with its complement do to each bit.
proof fn lemma_mask_ops_read(raw: u32, index: u32, at: u32)
    by (bit_vector)
    requires
        index < 32,
        at < 32,
    ensures
        ((raw | (1u32 << index)) >> at) & 1 == (if at == index { 1u32 } else { (raw >> at) & 1 }),
        ((raw & !(1u32 << index)) >> at) & 1 == (if at == index { 0u32 } else { (raw >> at) & 1 }),
{
}

/// OR with a bit's mask and AND with its complement keep the bits of a
/// range that the bit lies outside of.
proof fn lemma_mask_ops_keep(raw: u32, index: u32, lsb: u32, width: u32)
    by (bit_vector)
    requires
        index < 32,
        lsb < 32,
        width < 32,
        lsb + width <= 32,
        index < lsb || index >= lsb + width,
    ensures
        ((raw | (1u32 << index)) >> lsb) & low_mask(width) == (raw >> lsb) & low_mask(width),
        ((raw & !(1u32 << index)) >> lsb) & low_mask(width) == (raw >> lsb) & low_mask(width),
{
}

/// A field is a number below two to the power of its width.
pub proof fn lemma_bit_field_bound(raw: u32, lsb: nat, width: nat)
    ensures
        bit_field(raw, lsb, width) < pow2(width),
{
    lemma_pow2_pos(width);
}

/// Setting a bit is an OR with its mask, clearing it an AND with the
/// complement of its mask; either way the result is a 32-bit value.
pub proof fn lemma_with_bit_is_mask_op(raw: u32, index: u32, value: bool)
    requires
        index < 32,
    ensures
        value ==> with_bit(raw, index as nat, value) == raw | bit_mask(index),
        !value ==> with_bit(raw, index as nat, value) == raw & !bit_mask(index),
        with_bit(raw, index as nat, value) <= u32::MAX,
{
    lemma_bit_is_shifted_low_bit(raw, index);
    lemma_u32_pow2_no_overflow(index as nat);
    lemma_u32_shl_is_mul(1, index);
    lemma_mask_ops(raw, index);
}

/// Writing a bit and reading it back gives what was written, and every
/// other bit reads as it did before.
pub proof fn lemma_with_bit_reads(raw: u32, index: nat, value: bool, at: nat)
    requires
        index < 32,
        at < 32,
    ensures
        with_bit(raw, index, value) <= u32::MAX,
        bit(with_bit(raw, index, value) as u32, at) == (if at == index {
            value
        } else {
            bit(raw, at)
        }),
{
    let i: u32 = index as u32;
    let a: u32 = at as u32;
    lemma_with_bit_is_mask_op(raw, i, value);
    lemma_mask_ops_read(raw, i, a);
    lemma_bit_is_shifted_low_bit(raw, a);
    lemma_bit_is_shifted_low_bit(with_bit(raw, index, value) as u32, a);
}

/// [`lemma_with_bit_reads`] for every bit of the register at once.
pub proof fn lemma_with_bit_reads_all(raw: u32, index: nat, value: bool)
    requires
        index < 32,
    ensures
        with_bit(raw, index, value) <= u32::MAX,
        forall|at: nat|
            at < 32 ==> #[trigger] bit(with_bit(raw, index, value) as u32, at) == (if at == index {
                value
            } else {
                bit(raw, at)
            }),
{
    assert forall|at: nat| at < 32 implies #[trigger] bit(
        with_bit(raw, index, value) as u32,
        at,
    ) == (if at == index {
        value
    } else {
        bit(raw, at)
    }) by {
        lemma_with_bit_reads(raw, index, value, at);
    }
    lemma_with_bit_reads(raw, index, value, index);
}

/// Writing a bit leaves every field that does not contain it unchanged.
pub proof fn lemma_with_bit_keeps_field(raw: u32, index: nat, value: bool, lsb: nat, width: nat)
    requires
        index < 32,
        lsb + width <= 32,
        index < lsb || index >= lsb + width,
    ensures
        with_bit(raw, index, value) <= u32::MAX,
        bit_field(with_bit(raw, index, value) as u32, lsb, width) == bit_field(raw, lsb, width),
{
    let i: u32 = index as u32;
    lemma_with_bit_is_mask_op(raw, i, value);
    if lsb < 32 && width < 32 {
        let l: u32 = lsb as u32;
        let w: u32 = width as u32;
        lemma_mask_ops_keep(raw, i, l, w);
        lemma_field_is_shifted_low_bits(raw, l, w);
        lemma_field_is_shifted_low_bits(with_bit(raw, index, value) as u32, l, w);
    } else if lsb >= 32 {
        lemma_field_above_is_zero(raw, lsb, width);
        lemma_field_above_is_zero(with_bit(raw, index, value) as u32, lsb, width);
    }
}

/// A field that starts above bit 31 holds zero.
proof fn lemma_field_above_is_zero(raw: u32, lsb: nat, width: nat)
    requires
        lsb >= 32,
    ensures
        bit_field(raw, lsb, width) == 0,
{
    lemma2_to64();
    lemma_pow2_pos(width);
    if lsb > 32 {
        vstd::arithmetic::power2::lemma_pow2_strictly_increases(32, lsb);
    }
    vstd::arithmetic::div_mod::lemma_basic_div(raw as int, pow2(lsb) as int);
    vstd::arithmetic::div_mod::lemma_small_mod(0, pow2(width));
}

} // verus!
