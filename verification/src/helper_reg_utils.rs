//! Instruction-field decoders for the two encodings the trap layer meets.
//!
//! Decoding never fails: it is pure bit extraction.  Whether the extracted
//! function-select value names a supported access width is decided by the
//! emulators, not here.

use vstd::prelude::*;

verus! {

use crate::utils::{get_bits_and_align_right, get_bits_and_shift_right, spec_field, spec_low_mask};

/// The sign-extended 12-bit immediate of a load-style instruction:
/// bits 20..31, widened by replicating bit 31 of the instruction.
pub open spec fn spec_i_imm(instr: u32) -> u32 {
    crate::utils::spec_sign_extend(spec_field(instr, 20, 12), 12)
}

/// The sign-extended 12-bit immediate of a store-style instruction:
/// bits 7..11 joined with bits 25..31 shifted up by 5, then widened by
/// replicating bit 31 of the instruction.
pub open spec fn spec_s_imm(instr: u32) -> u32 {
    crate::utils::spec_sign_extend(spec_field(instr, 7, 5) | (spec_field(instr, 25, 7) << 5u32), 12)
}

#[must_use]
#[inline(always)]
pub fn get_opcode(src: u32) -> (r: u32)
    ensures
        r == (src & 0x7f),
{
    src & 0b0111_1111
}

#[must_use]
#[inline(always)]
pub fn get_rd(src: u32) -> (r: u32)
    ensures
        r == spec_field(src, 7, 5),
        r < 32,
{
    proof {
        assert(((src >> 7u32) & 0x1f) == ((src >> 7u32) & spec_low_mask(5)) && ((src >> 7u32)
            & 0x1f) < 32) by (bit_vector);
    }
    (src >> 7) & 0b0001_1111
}

/// Decoder for the register-load encoding: opcode, destination register,
/// base register, function-select, and a contiguous 12-bit immediate.
#[derive(Clone, Copy, Debug, PartialEq, Eq)]
pub struct ITypeOpcode;

impl ITypeOpcode {
    #[must_use]
    #[inline(always)]
    pub fn rs1(src: u32) -> (r: u32)
        ensures
            r == spec_field(src, 15, 5),
            r < 32,
    {
        proof {
            assert(((src >> 15u32) & spec_low_mask(5)) < 32) by (bit_vector);
        }
        get_bits_and_align_right(src, 15, 5)
    }

    #[must_use]
    #[inline(always)]
    pub fn funct3(src: u32) -> (r: u32)
        ensures
            r == spec_field(src, 12, 3),
            r < 8,
    {
        proof {
            assert(((src >> 12u32) & spec_low_mask(3)) < 8) by (bit_vector);
        }
        get_bits_and_align_right(src, 12, 3)
    }

    #[must_use]
    #[inline(always)]
    pub fn imm(src: u32) -> (r: u32)
        ensures
            r == spec_field(src, 20, 12),
    {
        get_bits_and_align_right(src, 20, 12)
    }
}

/// Decoder for the register-store encoding: opcode, function-select, base
/// and source registers, and a 12-bit immediate split over two fields.
#[derive(Clone, Copy, Debug, PartialEq, Eq)]
pub struct STypeOpcode;

impl STypeOpcode {
    #[must_use]
    #[inline(always)]
    pub fn rs1(src: u32) -> (r: u32)
        ensures
            r == spec_field(src, 15, 5),
            r < 32,
    {
        proof {
            assert(((src >> 15u32) & spec_low_mask(5)) < 32) by (bit_vector);
        }
        get_bits_and_align_right(src, 15, 5)
    }

    #[must_use]
    #[inline(always)]
    pub fn rs2(src: u32) -> (r: u32)
        ensures
            r == spec_field(src, 20, 5),
            r < 32,
    {
        proof {
            assert(((src >> 20u32) & spec_low_mask(5)) < 32) by (bit_vector);
        }
        get_bits_and_align_right(src, 20, 5)
    }

    #[must_use]
    #[inline(always)]
    pub fn funct3(src: u32) -> (r: u32)
        ensures
            r == spec_field(src, 12, 3),
            r < 8,
    {
        proof {
            assert(((src >> 12u32) & spec_low_mask(3)) < 8) by (bit_vector);
        }
        get_bits_and_align_right(src, 12, 3)
    }

    #[must_use]
    #[inline(always)]
    pub fn imm(src: u32) -> (r: u32)
        ensures
            r == (spec_field(src, 7, 5) | (spec_field(src, 25, 7) << 5u32)),
    {
        let r = get_bits_and_align_right(src, 7, 5) | get_bits_and_shift_right(src, 25, 7, 25 - 5);
        proof {
            assert((src & (spec_low_mask(7) << 25u32)) >> 20u32 == ((src >> 25u32) & spec_low_mask(
                7,
            )) << 5u32) by (bit_vector);
        }
        r
    }
}

} // verus!
