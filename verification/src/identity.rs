//! The carrier thread's identity, and the one-shot handoff that carries it
//! from the carrier thread to the code that arms the timer against it.
//!
//! An OS thread identifier is a strictly positive integer, valid only while
//! the thread is alive. The handoff is single-use: the carrier publishes its
//! identity exactly once, and the constructing side reads exactly what was
//! published — never a default or zero value, never a value from an earlier
//! publication.

use vstd::prelude::*;

verus! {

/// An OS-assigned identifier of a live thread. Every value of this type
/// holds a strictly positive raw identifier: a zero or negative value can
/// never be observed through it.
#[derive(Clone, Copy, Debug, PartialEq, Eq, Structural)]
pub struct ThreadIdentity {
    raw: i32,
}

impl ThreadIdentity {
    /// The raw OS identifier.
    pub closed spec fn value(self) -> i32 {
        self.raw
    }

    #[verifier::type_invariant]
    spec fn positive(self) -> bool {
        self.raw > 0
    }

    /// Wraps a raw OS thread identifier; `None` unless it is strictly
    /// positive, so no default or zero identity can be constructed.
    pub fn new(raw: i32) -> (r: Option<ThreadIdentity>)
        ensures
            raw > 0 ==> (r matches Some(t) && t.value() == raw),
            raw <= 0 ==> r is None,
    {
        if raw > 0 {
            Some(ThreadIdentity { raw })
        } else {
            None
        }
    }

    /// The raw identifier, always strictly positive.
    pub fn get(&self) -> (r: i32)
        ensures
            r == self.value(),
            r > 0,
    {
        proof {
            use_type_invariant(self);
        }
        self.raw
    }
}

/// The single-use slot through which the carrier thread hands its identity
/// to the code that builds the timer. `publish` fills it at most once;
/// `take` yields exactly what was published.
pub struct IdentityHandoff {
    slot: Option<ThreadIdentity>,
}

/// The slot after a publication: the first one fills it, any later one
/// leaves it as it was.
pub closed spec fn spec_publish(h: IdentityHandoff, id: ThreadIdentity) -> IdentityHandoff {
    if h.published() is None {
        IdentityHandoff { slot: Some(id) }
    } else {
        h
    }
}

impl IdentityHandoff {
    /// What has been published so far, if anything.
    pub closed spec fn published(self) -> Option<ThreadIdentity> {
        self.slot
    }

    /// A fresh, empty slot: nothing published yet.
    pub fn empty() -> (r: IdentityHandoff)
        ensures
            r.published() is None,
    {
        IdentityHandoff { slot: None }
    }

    /// Publishes `id`. Returns `true` and fills the slot only on the first
    /// publication; a repeated publication changes nothing and is refused.
    pub fn publish(&mut self, id: ThreadIdentity) -> (accepted: bool)
        ensures
            *final(self) == spec_publish(*old(self), id),
            accepted <==> old(self).published() is None,
            accepted ==> final(self).published() == Some(id),
    {
        match self.slot {
            None => {
                self.slot = Some(id);
                true
            },
            Some(_) => false,
        }
    }

    /// Reads the published identity; `None` while nothing was published.
    pub fn take(&self) -> (r: Option<ThreadIdentity>)
        ensures
            r == self.published(),
    {
        self.slot
    }
}

/// The handoff is race-free in the model: whatever the constructing side
/// reads out of a slot that began empty is exactly the identity the carrier
/// published — never a default value — and a second publication cannot
/// displace the first.
pub proof fn lemma_handoff_one_shot(h: IdentityHandoff, first: ThreadIdentity, second: ThreadIdentity)
    requires
        h.published() is None,
    ensures
        spec_publish(h, first).published() == Some(first),
        spec_publish(spec_publish(h, first), second).published() == Some(first),
{
}

} // verus!
