//! Bit-field primitives on 32-bit words.
//!
//! Every operation here is a pure function of its arguments: the emulation
//! engine runs inside a trap handler with no unwinding support, so none of
//! these may panic.  Shift amounts are therefore bounded by `requires`
//! clauses instead of being checked at run time.

use vstd::prelude::*;

verus! {

/// A right-aligned mask of `num_bits` one bits.
pub open spec fn spec_low_mask(num_bits: u32) -> u32
    recommends
        num_bits < 32,
{
    ((1u32 << num_bits) - 1) as u32
}

/// The field of `num_bits` bits of `src` starting at `from_bit`,
/// right-aligned.
pub open spec fn spec_field(src: u32, from_bit: u32, num_bits: u32) -> u32
    recommends
        from_bit < 32,
        num_bits < 32,
        from_bit + num_bits <= 32,
{
    (src >> from_bit) & spec_low_mask(num_bits)
}

/// A right-aligned field of `total_bits` bits, widened to 32 bits by
/// replicating its sign bit.
pub open spec fn spec_sign_extend(v: u32, total_bits: u32) -> u32
    recommends
        0 < total_bits < 32,
{
    if v & (1u32 << (total_bits - 1) as u32) != 0 {
        v | !spec_low_mask(total_bits)
    } else {
        v
    }
}

/// The low 16 bits of `v`, sign-extended to 32 bits.
pub open spec fn spec_sign_extend_16(v: u32) -> u32 {
    spec_sign_extend(v & 0xffff, 16)
}

/// The low 8 bits of `v`, sign-extended to 32 bits.
pub open spec fn spec_sign_extend_8(v: u32) -> u32 {
    spec_sign_extend(v & 0xff, 8)
}

/// A power of two is never zero, so building a mask by `(1 << n) - 1`
/// cannot underflow.
proof fn lemma_shift_ge_one(n: u32)
    by (bit_vector)
    requires
        n < 32,
    ensures
        1u32 << n >= 1,
{
}

#[inline(always)]
pub fn set_bit(dst: &mut u32, bit: u32)
    requires
        bit < 32,
    ensures
        *final(dst) == (*old(dst) | (1u32 << bit)),
{
    *dst |= 1u32 << bit;
}

#[inline(always)]
pub fn set_bits_to_value(dst: &mut u32, bit_offset: u32, value: u32)
    requires
        bit_offset < 32,
    ensures
        *final(dst) == (*old(dst) | (value << bit_offset)),
{
    *dst |= value << bit_offset;
}

#[inline(always)]
pub fn clear_bit(dst: &mut u32, bit: u32)
    requires
        bit < 32,
    ensures
        *final(dst) == (*old(dst) & !(1u32 << bit)),
{
    *dst &= !(1u32 << bit);
}

#[must_use]
#[inline(always)]
pub fn test_bit(src: u32, bit: u32) -> (r: bool)
    requires
        bit < 32,
    ensures
        r == (src & (1u32 << bit) != 0),
{
    src & (1u32 << bit) != 0
}

#[must_use]
#[inline(always)]
pub fn get_bit_right_aligned(src: u32, bit: u32) -> (r: u32)
    requires
        bit < 32,
    ensures
        r == ((src >> bit) & 1),
{
    (src >> bit) & 1
}

#[must_use]
#[inline(always)]
pub fn get_bit_unaligned(src: u32, bit: u32) -> (r: u32)
    requires
        bit < 32,
    ensures
        r == (src & (1u32 << bit)),
{
    src & (1u32 << bit)
}

#[inline(always)]
pub fn sign_extend(dst: &mut u32, total_bits: u32)
    requires
        0 < total_bits < 32,
    ensures
        *final(dst) == spec_sign_extend(*old(dst), total_bits),
{
    proof {
        lemma_shift_ge_one(total_bits);
    }
    if *dst & (1u32 << (total_bits - 1)) != 0 {
        *dst |= !((1u32 << total_bits) - 1);  // put 1s into higher bits
    }
}

#[must_use]
#[inline(always)]
pub fn get_bits_and_align_right(src: u32, from_bit: u32, num_bits: u32) -> (r: u32)
    requires
        from_bit < 32,
        num_bits < 32,
        from_bit + num_bits <= 32,
    ensures
        r == spec_field(src, from_bit, num_bits),
{
    proof {
        lemma_shift_ge_one(num_bits);
    }
    let mask = ((1u32 << num_bits) - 1) << from_bit;
    let r = (src & mask) >> from_bit;
    proof {
        assert((src & (spec_low_mask(num_bits) << from_bit)) >> from_bit == (src >> from_bit)
            & spec_low_mask(num_bits)) by (bit_vector)
            requires
                from_bit < 32 && num_bits < 32 && from_bit + num_bits <= 32,
        ;
    }
    r
}

#[inline(always)]
pub fn clear_bits(dst: &mut u32, from_bit: u32, num_bits: u32)
    requires
        from_bit < 32,
        num_bits < 32,
        from_bit + num_bits <= 32,
    ensures
        *final(dst) == (*old(dst) & !(spec_low_mask(num_bits) << from_bit)),
{
    proof {
        lemma_shift_ge_one(num_bits);
    }
    let mask = ((1u32 << num_bits) - 1) << from_bit;
    *dst &= !mask;
}

#[must_use]
#[inline(always)]
pub fn get_bits_and_shift_right(src: u32, from_bit: u32, num_bits: u32, shift: u32) -> (r: u32)
    requires
        from_bit < 32,
        num_bits < 32,
        from_bit + num_bits <= 32,
        shift < 32,
    ensures
        r == ((src & (spec_low_mask(num_bits) << from_bit)) >> shift),
{
    proof {
        lemma_shift_ge_one(num_bits);
    }
    let mask = ((1u32 << num_bits) - 1) << from_bit;
    (src & mask) >> shift
}

#[must_use]
#[inline(always)]
pub fn get_bits_and_shift_left(src: u32, from_bit: u32, num_bits: u32, shift: u32) -> (r: u32)
    requires
        from_bit < 32,
        num_bits < 32,
        from_bit + num_bits <= 32,
        shift < 32,
    ensures
        r == ((src & (spec_low_mask(num_bits) << from_bit)) << shift),
{
    proof {
        lemma_shift_ge_one(num_bits);
    }
    let mask = ((1u32 << num_bits) - 1) << from_bit;
    (src & mask) << shift
}

#[must_use]
#[inline(always)]
pub fn sign_extend_16(src: u32) -> (r: u32)
    ensures
        r == spec_sign_extend_16(src),
{
    let mut value = src & 0x0000ffff;
    sign_extend(&mut value, 16);
    value
}

#[must_use]
#[inline(always)]
pub fn sign_extend_8(src: u32) -> (r: u32)
    ensures
        r == spec_sign_extend_8(src),
{
    let mut value = src & 0x000000ff;
    sign_extend(&mut value, 8);
    value
}

#[must_use]
#[inline(always)]
pub fn zero_extend_16(src: u32) -> (r: u32)
    ensures
        r == (src & 0xffff),
{
    src & 0x0000ffff
}

#[must_use]
#[inline(always)]
pub fn zero_extend_8(src: u32) -> (r: u32)
    ensures
        r == (src & 0xff),
{
    src & 0x000000ff
}

} // verus!
