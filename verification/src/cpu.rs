//! The saved general-purpose register state at trap time.

use vstd::prelude::*;

verus! {

/// Symbolic names of the 32 general-purpose integer registers.
#[derive(Clone, Copy, Debug, PartialEq, Eq)]
pub enum Registers {
    Zero,
    Ra,
    Sp,
    Gp,
    Tp,
    T0,
    T1,
    T2,
    S0,
    S1,
    A0,
    A1,
    A2,
    A3,
    A4,
    A5,
    A6,
    A7,
    S2,
    S3,
    S4,
    S5,
    S6,
    S7,
    S8,
    S9,
    S10,
    S11,
    T3,
    T4,
    T5,
    T6,
}

/// The architectural index of a register name.
pub open spec fn spec_gp(r: Registers) -> usize {
    match r {
        Registers::Zero => 0,
        Registers::Ra => 1,
        Registers::Sp => 2,
        Registers::Gp => 3,
        Registers::Tp => 4,
        Registers::T0 => 5,
        Registers::T1 => 6,
        Registers::T2 => 7,
        Registers::S0 => 8,
        Registers::S1 => 9,
        Registers::A0 => 10,
        Registers::A1 => 11,
        Registers::A2 => 12,
        Registers::A3 => 13,
        Registers::A4 => 14,
        Registers::A5 => 15,
        Registers::A6 => 16,
        Registers::A7 => 17,
        Registers::S2 => 18,
        Registers::S3 => 19,
        Registers::S4 => 20,
        Registers::S5 => 21,
        Registers::S6 => 22,
        Registers::S7 => 23,
        Registers::S8 => 24,
        Registers::S9 => 25,
        Registers::S10 => 26,
        Registers::S11 => 27,
        Registers::T3 => 28,
        Registers::T4 => 29,
        Registers::T5 => 30,
        Registers::T6 => 31,
    }
}

/// Maps a register name to its index in a saved register file.
#[inline(always)]
pub fn gp(r: Registers) -> (idx: usize)
    ensures
        idx == spec_gp(r),
        idx < 32,
{
    match r {
        Registers::Zero => 0,
        Registers::Ra => 1,
        Registers::Sp => 2,
        Registers::Gp => 3,
        Registers::Tp => 4,
        Registers::T0 => 5,
        Registers::T1 => 6,
        Registers::T2 => 7,
        Registers::S0 => 8,
        Registers::S1 => 9,
        Registers::A0 => 10,
        Registers::A1 => 11,
        Registers::A2 => 12,
        Registers::A3 => 13,
        Registers::A4 => 14,
        Registers::A5 => 15,
        Registers::A6 => 16,
        Registers::A7 => 17,
        Registers::S2 => 18,
        Registers::S3 => 19,
        Registers::S4 => 20,
        Registers::S5 => 21,
        Registers::S6 => 22,
        Registers::S7 => 23,
        Registers::S8 => 24,
        Registers::S9 => 25,
        Registers::S10 => 26,
        Registers::S11 => 27,
        Registers::T3 => 28,
        Registers::T4 => 29,
        Registers::T5 => 30,
        Registers::T6 => 31,
    }
}

/// A snapshot of the 32 general-purpose registers, as saved on trap entry.
#[derive(Clone, Copy)]
pub struct TrapFrame {
    pub regs: [u32; 32],
}

impl TrapFrame {
    /// A frame with every register cleared.
    pub fn new() -> (frame: TrapFrame)
        ensures
            forall|i: int| 0 <= i < 32 ==> frame.regs@[i] == 0,
    {
        TrapFrame { regs: [0; 32] }
    }
}

} // verus!
