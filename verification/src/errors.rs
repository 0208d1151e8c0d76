//! Error taxonomy of a run. Every failure is fatal: the tool never retries,
//! it surfaces the first error and the run is reported as failed.

use vstd::prelude::*;

verus! {

/// Why a run failed.
#[derive(Clone, Copy, Debug, PartialEq, Eq, Structural)]
pub enum RunError {
    /// The OS refused to create or arm the timer; carries the OS error code.
    ResourceCreation { errno: i32 },
    /// Binding a thread to its core set failed.
    Affinity,
    /// Elevating the carrier thread to a real-time scheduling class failed.
    Priority,
    /// A spawned thread terminated abnormally instead of returning.
    Join,
}

} // verus!
