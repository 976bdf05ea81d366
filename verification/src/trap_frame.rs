//! The register file handed to the machine-mode trap handlers.

use vstd::prelude::*;

verus! {

/// The register file owned by the trap-entry mechanism for the duration of
/// a machine-mode trap.  Slot 0 is the architectural zero register: the
/// emulators never write to it.
#[derive(Clone, Copy)]
pub struct MachineTrapFrame {
    pub registers: [u32; 32],
}

impl MachineTrapFrame {
    /// A frame with every register cleared.
    pub fn new() -> (frame: MachineTrapFrame)
        ensures
            forall|i: int| 0 <= i < 32 ==> frame.registers@[i] == 0,
    {
        MachineTrapFrame { registers: [0; 32] }
    }
}

} // verus!
