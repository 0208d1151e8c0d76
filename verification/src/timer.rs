//! The timer resource and its lifecycle. A `ThreadTimer` exclusively owns
//! one live OS timer, armed so that every expiry is delivered to one exact
//! target thread and to no other. The OS calls themselves (create, arm,
//! delete) are performed by the unverified shell around this library; this
//! module holds every decision of the construction and release protocol and
//! guarantees that, whatever the OS answered, the resource is accounted for:
//! released exactly once per successful creation, on the error path of a
//! failed arming as much as on the ordinary teardown path.

use vstd::prelude::*;
use crate::errors::RunError;
use crate::identity::ThreadIdentity;
use crate::interval::ArmRequest;
use crate::interval::Interval;

verus! {

/// Exclusive owner of at most one raw OS timer handle. `None` is the
/// sentinel for "no resource": releasing such a slot is a no-op. The type
/// is deliberately not `Clone`: a duplicated slot could yield the same
/// handle for deletion twice.
pub struct TimerSlot {
    handle: Option<u64>,
}

/// A slot after its release: empty, whatever it held.
pub closed spec fn spec_released_slot(s: TimerSlot) -> TimerSlot {
    TimerSlot { handle: None }
}

impl TimerSlot {
    /// The handle this slot owns, if any.
    pub closed spec fn held(self) -> Option<u64> {
        self.handle
    }

    /// A slot owning nothing.
    pub fn empty() -> (r: TimerSlot)
        ensures
            r.held() is None,
    {
        TimerSlot { handle: None }
    }

    /// A slot owning the freshly created handle `h`.
    pub fn acquired(h: u64) -> (r: TimerSlot)
        ensures
            r.held() == Some(h),
    {
        TimerSlot { handle: Some(h) }
    }

    /// Gives up ownership: returns the handle that must now be deleted with
    /// the OS (`None` when there is nothing to delete) and empties the slot,
    /// so a repeated release can never yield the handle a second time.
    pub fn release(&mut self) -> (r: Option<u64>)
        ensures
            r == old(self).held(),
            *final(self) == spec_released_slot(*old(self)),
            final(self).held() is None,
    {
        let h = self.handle;
        self.handle = None;
        h
    }
}

/// Releasing a slot twice deletes nothing twice: the second release of any
/// slot yields no handle, and releasing an already released slot leaves it
/// exactly as it was.
pub proof fn lemma_release_idempotent(s: TimerSlot)
    ensures
        spec_released_slot(s).held() is None,
        spec_released_slot(spec_released_slot(s)) == spec_released_slot(s),
{
}

/// What this library fixes for the OS timer: the exact thread the expiry
/// notification is directed to — no other thread may consume it — and the
/// equal initial-delay and period the timer is armed with. The clock and
/// the notification mode are constants of the shell's creation call.
#[derive(Clone, Copy, Debug, PartialEq, Eq, Structural)]
pub struct TimerPlan {
    /// The one thread the recurring notification is delivered to.
    pub target_tid: i32,
    /// Initial delay and repeat period, both equal to the interval.
    pub arm: ArmRequest,
}

/// Computes the creation plan for a timer bound to `target`, firing every
/// `interval`. The plan names the target thread exactly and arms with the
/// interval as both first delay and period.
pub fn plan(target: &ThreadIdentity, interval: &Interval) -> (r: TimerPlan)
    requires
        interval.wf(),
    ensures
        r.target_tid == target.value(),
        r.target_tid > 0,
        r.arm.value_secs == interval.secs() as i64,
        r.arm.value_nanos == interval.nanos() as i64,
        r.arm.interval_secs == r.arm.value_secs,
        r.arm.interval_nanos == r.arm.value_nanos,
{
    TimerPlan { target_tid: target.get(), arm: interval.arm_request() }
}

/// A timer that was created but not yet armed. It already owns the OS
/// handle: if arming fails, that handle must still be released.
pub struct PendingTimer {
    slot: TimerSlot,
    target: ThreadIdentity,
}

impl PendingTimer {
    /// The handle owned so far.
    pub closed spec fn held(self) -> Option<u64> {
        self.slot.held()
    }

    /// The thread the timer is being bound to.
    pub closed spec fn bound_to(self) -> ThreadIdentity {
        self.target
    }

    /// The handle owned so far, as a plain value.
    pub fn handle(&self) -> (r: Option<u64>)
        ensures
            r == self.held(),
    {
        self.slot.handle
    }
}

/// A live, armed timer, exclusively owning its OS handle and bound to the
/// one thread that consumes its notifications.
pub struct ThreadTimer {
    slot: TimerSlot,
    target: ThreadIdentity,
}

/// A timer's release: what must be deleted now, and the drained owner.
pub closed spec fn spec_timer_release(t: ThreadTimer) -> (Option<u64>, ThreadTimer) {
    (t.slot.held(), ThreadTimer { slot: spec_released_slot(t.slot), target: t.target })
}

impl ThreadTimer {
    /// The handle this timer owns, if not yet released.
    pub closed spec fn held(self) -> Option<u64> {
        self.slot.held()
    }

    /// The thread this timer is bound to.
    pub closed spec fn bound_to(self) -> ThreadIdentity {
        self.target
    }

    /// The handle this timer owns, as a plain value.
    pub fn handle(&self) -> (r: Option<u64>)
        ensures
            r == self.held(),
    {
        self.slot.handle
    }

    /// The identity of the thread the timer is bound to.
    pub fn target(&self) -> (r: ThreadIdentity)
        ensures
            r == self.bound_to(),
    {
        self.target
    }

    /// Gives up ownership of the timer resource: returns the handle that
    /// must now be deleted with the OS, exactly once — a second call yields
    /// `None` and deletes nothing.
    pub fn release(&mut self) -> (r: Option<u64>)
        ensures
            r == spec_timer_release(*old(self)).0,
            *final(self) == spec_timer_release(*old(self)).1,
            r == old(self).held(),
            final(self).held() is None,
            final(self).bound_to() == old(self).bound_to(),
    {
        self.slot.release()
    }
}

/// What `on_created` returns for each answer of the creating OS call.
pub closed spec fn spec_on_created(target: ThreadIdentity, created: Result<u64, i32>) -> Result<
    PendingTimer,
    RunError,
> {
    match created {
        Ok(h) => Ok(PendingTimer { slot: TimerSlot { handle: Some(h) }, target }),
        Err(e) => Err(RunError::ResourceCreation { errno: e }),
    }
}

/// What `on_armed` returns for each answer of the arming OS call.
pub closed spec fn spec_on_armed(p: PendingTimer, armed: Result<(), i32>) -> (
    Result<ThreadTimer, RunError>,
    Option<u64>,
) {
    match armed {
        Ok(_) => (Ok(ThreadTimer { slot: p.slot, target: p.target }), None),
        Err(e) => (Err(RunError::ResourceCreation { errno: e }), p.slot.held()),
    }
}

/// The outcome of the OS creation call, as the shell reports it back:
/// the fresh handle, or the OS error code.
pub fn on_created(target: ThreadIdentity, created: Result<u64, i32>) -> (r: Result<
    PendingTimer,
    RunError,
>)
    ensures
        r == spec_on_created(target, created),
        created matches Ok(h) ==> (r matches Ok(p) && p.held() == Some(h) && p.bound_to()
            == target),
        created matches Err(e) ==> r == Err::<PendingTimer, RunError>(
            RunError::ResourceCreation { errno: e },
        ),
{
    match created {
        Ok(h) => Ok(PendingTimer { slot: TimerSlot::acquired(h), target }),
        Err(e) => Err(RunError::ResourceCreation { errno: e }),
    }
}

/// The outcome of the OS arming call. On success the pending timer becomes
/// a live `ThreadTimer` owning the same handle, bound to the same thread,
/// and nothing is to be deleted now. On failure the partially created
/// resource is not leaked: the error is returned together with the handle
/// the shell must delete immediately.
pub fn on_armed(p: PendingTimer, armed: Result<(), i32>) -> (r: (
    Result<ThreadTimer, RunError>,
    Option<u64>,
))
    ensures
        r == spec_on_armed(p, armed),
        armed is Ok ==> (r.0 matches Ok(t) && t.held() == p.held() && t.bound_to() == p.bound_to()
            && r.1 is None),
        armed matches Err(e) ==> (r.0 == Err::<ThreadTimer, RunError>(
            RunError::ResourceCreation { errno: e },
        ) && r.1 == p.held()),
{
    match armed {
        Ok(_) => (Ok(ThreadTimer { slot: p.slot, target: p.target }), None),
        Err(e) => {
            let mut slot = p.slot;
            let to_delete = slot.release();
            (Err(RunError::ResourceCreation { errno: e }), to_delete)
        },
    }
}

/// The timer resource is never leaked and never double-freed. For every
/// construction attempt — whatever the creating and the arming OS call
/// answered — exactly one release of a successfully created handle occurs:
/// if creation failed there is nothing to release and the attempt reports
/// the OS error; if arming failed the created handle is handed back for
/// immediate deletion and the attempt reports the OS error; if both
/// succeeded the returned timer owns the handle and its release path
/// yields it exactly once, and nothing a second time.
pub proof fn lemma_timer_never_leaked(
    target: ThreadIdentity,
    created: Result<u64, i32>,
    armed: Result<(), i32>,
)
    ensures
        created matches Err(e) ==> spec_on_created(target, created) == Err::<
            PendingTimer,
            RunError,
        >((RunError::ResourceCreation { errno: e })),
        created matches Ok(h) ==> (spec_on_created(target, created) matches Ok(p) && {
            let outcome = spec_on_armed(p, armed);
            &&& (armed is Ok ==> (outcome.0 matches Ok(t) && t.held() == Some(h) && outcome.1
                is None && spec_timer_release(t).0 == Some(h) && spec_timer_release(
                spec_timer_release(t).1,
            ).0 is None))
            &&& (armed is Err ==> (outcome.0 is Err && outcome.1 == Some(h)))
        }),
{
}

} // verus!
