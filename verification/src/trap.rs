//! The decisions of the outer trap entry, separated from the register
//! reads, table accesses and console output that surround them.

use vstd::prelude::*;

verus! {

/// Which handler the interrupt path selects out of the externally linked
/// vector table.
#[derive(Clone, Copy, Debug, PartialEq, Eq, Structural)]
pub enum InterruptRoute {
    /// The table holds a registered handler at the cause's index.
    Registered,
    /// The cause lies beyond the table, or its slot is vacant: the default
    /// handler runs.
    Default,
}

/// Decides which interrupt handler to run: the registered one when the
/// cause code indexes a populated table slot (`slot_reserved` is that
/// slot's occupancy word, meaningful only when the code is in range), the
/// default handler otherwise.
pub fn route_interrupt(code: usize, table_len: usize, slot_reserved: usize) -> (r: InterruptRoute)
    ensures
        r == (if code < table_len && slot_reserved != 0 {
            InterruptRoute::Registered
        } else {
            InterruptRoute::Default
        }),
{
    if code < table_len && slot_reserved != 0 {
        InterruptRoute::Registered
    } else {
        InterruptRoute::Default
    }
}

/// Splits a raw trap-cause value into its asynchronous flag (the top bit
/// of a 32-bit cause) and its cause number (the low 12 bits).
pub fn split_cause(cause: usize) -> (r: (bool, usize))
    ensures
        r.0 == (((cause >> 31usize) & 1) == 1),
        r.1 == (cause & 0xfff),
{
    let is_async: bool = (cause >> 31) & 1 == 1;
    let cause_num = cause & 0xfff;
    (is_async, cause_num)
}

/// The resumption program counter the printing trap handler picks: a
/// breakpoint steps over its 2-byte instruction, every other recognized
/// cause resumes where it trapped, and `None` stands for an unrecognized
/// cause, on which that handler gives up.
pub fn trap_return_pc(is_async: bool, cause_num: usize, epc: usize) -> (r: Option<usize>)
    requires
        epc + 2 <= usize::MAX,
    ensures
        r == (if is_async {
            if cause_num == 3 || cause_num == 7 || cause_num == 11 {
                Some(epc)
            } else {
                None::<usize>
            }
        } else {
            if cause_num == 3 {
                Some((epc + 2) as usize)
            } else if cause_num == 2 || cause_num == 8 || cause_num == 9 || cause_num == 11
                || cause_num == 12 || cause_num == 13 || cause_num == 15 {
                Some(epc)
            } else {
                None::<usize>
            }
        }),
{
    if is_async {
        match cause_num {
            3 | 7 | 11 => Some(epc),
            _ => None,
        }
    } else {
        match cause_num {
            3 => Some(epc + 2),
            2 | 8 | 9 | 11 | 12 | 13 | 15 => Some(epc),
            _ => None,
        }
    }
}

} // verus!
