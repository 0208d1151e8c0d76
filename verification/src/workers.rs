//! Planning of the spin-worker pool: how many workers run, which logical
//! cores the workers and the carrier thread are bound to, and the one step
//! a spin worker repeats. Exactly one core (core 0) is reserved for the
//! carrier; the workers share all the others, so the two affinity sets are
//! disjoint by construction.

use vstd::prelude::*;

verus! {

/// The cores the workers are confined to: every core except the reserved
/// core 0.
pub open spec fn spec_worker_cores(core_count: usize) -> Seq<usize>
    recommends
        core_count >= 1,
{
    Seq::new((core_count - 1) as nat, |j: int| (j + 1) as usize)
}

/// The core the carrier thread is confined to: the reserved core 0, alone.
pub open spec fn spec_carrier_cores() -> Seq<usize> {
    seq![0usize]
}

/// Number of spin workers for a machine with `core_count` logical cores:
/// every core except the reserved one runs `threads_per_core` workers.
/// `None` when there is no core to reserve (`core_count == 0`) or the
/// product does not fit in `usize`.
pub fn worker_count(core_count: usize, threads_per_core: usize) -> (r: Option<usize>)
    ensures
        core_count >= 1 && (core_count - 1) * threads_per_core <= usize::MAX
            ==> r == Some(((core_count - 1) * threads_per_core) as usize),
        core_count == 0 ==> r is None,
        core_count >= 1 && (core_count - 1) * threads_per_core > usize::MAX ==> r is None,
{
    if core_count == 0 {
        return None;
    }
    (core_count - 1).checked_mul(threads_per_core)
}

/// The worker affinity set, as handed to the OS: cores `1` to
/// `core_count - 1`, in order.
pub fn worker_cores(core_count: usize) -> (r: Vec<usize>)
    requires
        core_count >= 1,
    ensures
        r@ == spec_worker_cores(core_count),
        r@.len() == core_count - 1,
{
    let mut cores: Vec<usize> = Vec::new();
    let mut next: usize = 1;
    while next < core_count
        invariant
            1 <= next <= core_count,
            cores@.len() == next - 1,
            forall|j: int| 0 <= j < cores@.len() ==> cores@[j] == j + 1,
        decreases core_count - next,
    {
        cores.push(next);
        next = next + 1;
    }
    proof {
        assert(cores@ =~= spec_worker_cores(core_count));
    }
    cores
}

/// The carrier affinity set, as handed to the OS: the reserved core alone.
pub fn carrier_cores() -> (r: Vec<usize>)
    ensures
        r@ == spec_carrier_cores(),
        r@.len() == 1,
        r@[0] == 0,
{
    let mut cores: Vec<usize> = Vec::new();
    cores.push(0);
    proof {
        assert(cores@ =~= spec_carrier_cores());
    }
    cores
}

/// The two affinity sets are disjoint by construction: no worker core is
/// the reserved carrier core, whatever the machine's core count.
pub proof fn lemma_core_sets_disjoint(core_count: usize)
    requires
        core_count >= 1,
    ensures
        forall|j: int, k: int|
            0 <= j < spec_worker_cores(core_count).len() && 0 <= k < spec_carrier_cores().len()
                ==> spec_worker_cores(core_count)[j] != spec_carrier_cores()[k],
{
}

/// One round of a spin worker's busy loop: a wrapping increment of its
/// private counter. The worker repeats this through a volatile cell, so
/// the work cannot be optimized away; the arithmetic itself is this step.
pub fn spin_step(counter: u64) -> (r: u64)
    ensures
        counter < u64::MAX ==> r == counter + 1,
        counter == u64::MAX ==> r == 0,
{
    if counter == u64::MAX {
        0
    } else {
        counter + 1
    }
}

} // verus!
