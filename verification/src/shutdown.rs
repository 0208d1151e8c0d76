//! The cooperative shutdown protocol. One flag is shared by every worker and
//! by the carrier thread's consumption loop; it is written exactly once,
//! from "running" to "shut down", and never reset.

use vstd::prelude::*;

verus! {

/// The process-wide stop request. It starts unset; `request` is its only
/// transition, and nothing can clear it again.
#[derive(Clone, Copy, Debug, PartialEq, Eq, Structural)]
pub struct ShutdownFlag {
    fired: bool,
}

/// The flag after a shutdown request: signaled, whatever it held before.
pub closed spec fn spec_request(f: ShutdownFlag) -> ShutdownFlag {
    ShutdownFlag { fired: true }
}

impl ShutdownFlag {
    /// Whether shutdown has been requested.
    pub closed spec fn signaled(self) -> bool {
        self.fired
    }

    /// A fresh flag: no shutdown requested yet.
    pub fn new() -> (r: ShutdownFlag)
        ensures
            !r.signaled(),
    {
        ShutdownFlag { fired: false }
    }

    /// Requests shutdown. This is the flag's only transition.
    pub fn request(&mut self)
        ensures
            *final(self) == spec_request(*old(self)),
            final(self).signaled(),
    {
        self.fired = true;
    }

    /// Reads the flag, as every worker and the carrier loop do.
    pub fn observed(&self) -> (r: bool)
        ensures
            r == self.signaled(),
    {
        self.fired
    }
}

/// The flag transitions at most once per run, from unset to signaled, and
/// never back: a request always leaves it signaled, a request on an already
/// signaled flag changes nothing, and no sequence of requests can produce
/// an unsignaled flag from a signaled one.
pub proof fn lemma_shutdown_monotone(f: ShutdownFlag)
    ensures
        spec_request(f).signaled(),
        f.signaled() ==> spec_request(f) == f,
        spec_request(spec_request(f)) == spec_request(f),
{
}

} // verus!
