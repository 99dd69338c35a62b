//! RX-architecture port layer of a statically configured real-time kernel,
//! modelled and verified at the level of processor, interrupt-controller and
//! timer state.
//!
//! The port's decisions — CPU-lock discipline, interrupt-line register
//! operations, task stack frame layout, the context-switch core, the
//! two-stage interrupt trampoline, and the tickless Compare-Match-Timer
//! driver — are pure functions over explicit models of the hardware state,
//! each with a contract. The thin layer that touches real memory-mapped
//! registers and the inline-assembly entry points lives outside the
//! verified library, as do the kernel core's hooks, whose answers enter the
//! verified functions as arguments.

pub mod arith;
pub mod cmt;
pub mod dispatch;
pub mod icu;
pub mod ivt;
pub mod task;
pub mod threading;

pub use cmt::CmtOptions;
pub use cmt::TimerState;
pub use task::TaskState;
pub use threading::State;
pub use threading::ThreadingOptions;

use vstd::prelude::*;

verus! {

/// An abstract interface to a port timer driver: the port calls `init` just
/// before entering the kernel's boot hook. The Compare-Match-Timer driver
/// is the provided implementation; an application may attach another.
pub trait Timer {
    /// Initialize the driver.
    fn init() {
    }
}

/// The entry point of a port instantiation. The startup stub implements
/// this: it must be entered at most once, with interrupts masked at least
/// to the unmanaged level, the interrupt stack pointer initialized, and the
/// processor in supervisor mode.
pub trait EntryPoint {
    /// Proceed with the boot process; does not come back.
    fn start();
}

} // verus!
