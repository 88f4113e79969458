//! An interpreter for the CHIP-8 virtual machine: its state, its
//! instruction set, and the step that fetches, decodes and executes one
//! instruction and ticks the timers.
use vstd::prelude::*;

pub mod beep;
pub mod engine;
pub mod instruction;
pub mod laws;
pub mod machine;
pub mod semantics;

pub use beep::{beep_action, BeepAction};
pub use engine::timer_ticks;
pub use instruction::{decode, Instruction};
pub use machine::{Chip8, LoadError, MachineState};
pub use semantics::Fault;

verus! {

/// The version of the library.
pub fn version() -> (r: &'static str)
    ensures
        r@ == "0.1.0"@,
{
    "0.1.0"
}

} // verus!
