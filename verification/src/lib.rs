//! Machine-mode emulation of misaligned RISC-V loads and stores.
//!
//! The memory subsystem underneath this layer refuses word accesses that
//! cross a 4-byte boundary.  When the processor raises a misaligned-access
//! exception, the code here decodes the faulting instruction, reproduces its
//! effect through aligned 32-bit word accesses only, writes the result back
//! into the saved register state, and reports the program counter at which
//! execution should resume.

pub mod cpu;
pub mod helper_reg_utils;
pub mod machine_trap;
pub mod memory;
pub mod quasi_uart;
pub mod trap;
pub mod trap_frame;
pub mod utils;
