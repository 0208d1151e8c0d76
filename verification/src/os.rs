//! The library's boundary to the OS scheduling calls: discovering the core
//! count, pinning the calling thread to a core set, and elevating it to a
//! real-time class. Each OS call stands behind one trusted wrapper; the
//! public functions around them are verified: they build the exact core
//! sets of this design and map every failure to the run's error taxonomy.

use vstd::prelude::*;
use crate::errors::RunError;
use crate::workers::carrier_cores;
use crate::workers::worker_cores;

verus! {

/// Size of the fixed OS cpu mask: core identifiers at or above this bound
/// cannot be named in an affinity set on this target.
pub const CORE_ID_LIMIT: usize = 1024;

/// Relies on `affinity::get_core_num` for the number of logical cores; it
/// returns `num_cpus::get()`, which is documented to be at least 1.
#[verifier::external_body]
fn os_core_count() -> (r: usize)
    ensures
        r >= 1,
{
    affinity::get_core_num()
}

/// Relies on `affinity::set_thread_affinity`: binds the calling thread to
/// the given cores, `Ok` exactly when the underlying `sched_setaffinity`
/// call succeeded. Whether it succeeds depends on the machine and the core
/// set, so nothing more is promised of the outcome. Every core id must lie
/// below the fixed mask size: the crate writes each id into the OS cpu
/// mask through libc's `CPU_SET`, which indexes the mask's fixed array
/// without a bounds check and panics on a larger id.
#[verifier::external_body]
fn os_bind_thread(cores: &Vec<usize>) -> (r: Result<(), ()>)
    requires
        forall|j: int| 0 <= j < cores@.len() ==> cores@[j] < CORE_ID_LIMIT,
{
    match affinity::set_thread_affinity(cores) {
        Ok(()) => Ok(()),
        Err(_) => Err(()),
    }
}

/// Relies on `scheduler::set_self_policy`: asks the OS for the FIFO
/// real-time scheduling class at the given priority for the calling
/// thread, `Ok` exactly when `sched_setscheduler` succeeded. Success
/// depends on privilege and on the priority value, so nothing more is
/// promised of the outcome.
#[verifier::external_body]
fn os_set_fifo(priority: i32) -> (r: Result<(), ()>) {
    scheduler::set_self_policy(scheduler::Policy::Fifo, priority)
}

/// Number of logical cores of this machine; at least 1.
pub fn core_count() -> (r: usize)
    ensures
        r >= 1,
{
    os_core_count()
}

/// Pins the calling worker thread to every core but the reserved one.
/// Failure is fatal to the run — a mis-pinned worker invalidates the load
/// pattern — and is reported as the affinity error. `core_count` may not
/// exceed the OS cpu mask: a larger machine cannot be named in one.
pub fn bind_worker_thread(core_count: usize) -> (r: Result<(), RunError>)
    requires
        core_count >= 1,
        core_count <= CORE_ID_LIMIT,
    ensures
        r is Err ==> r == Err::<(), RunError>(RunError::Affinity),
{
    let cores = worker_cores(core_count);
    match os_bind_thread(&cores) {
        Ok(_) => Ok(()),
        Err(_) => Err(RunError::Affinity),
    }
}

/// Pins the calling carrier thread to the reserved core alone. Failure is
/// fatal to the run and is reported as the affinity error.
pub fn bind_carrier_thread() -> (r: Result<(), RunError>)
    ensures
        r is Err ==> r == Err::<(), RunError>(RunError::Affinity),
{
    let cores = carrier_cores();
    match os_bind_thread(&cores) {
        Ok(_) => Ok(()),
        Err(_) => Err(RunError::Affinity),
    }
}

/// Elevates the calling carrier thread to the FIFO real-time class at the
/// given priority. Failure — typically insufficient privilege — is fatal
/// in this variant and is reported as the priority error.
pub fn elevate_carrier(priority: i32) -> (r: Result<(), RunError>)
    ensures
        r is Err ==> r == Err::<(), RunError>(RunError::Priority),
{
    match os_set_fifo(priority) {
        Ok(_) => Ok(()),
        Err(_) => Err(RunError::Priority),
    }
}

} // verus!
