//! The carrier thread's lifecycle. The carrier is the single thread that
//! owns the reserved core and consumes the timer's notifications. Its run
//! is a four-state machine — it starts, publishes its identity, then blocks
//! on notifications until it observes the shutdown request, and stops — and
//! this module holds that machine together with a model of a whole session,
//! which bounds the shutdown latency by one timer interval.

use vstd::prelude::*;

verus! {

/// Where the carrier thread stands in its run.
#[derive(Clone, Copy, Debug, PartialEq, Eq, Structural)]
pub enum CarrierState {
    /// Thread begun: signal interception installed, core being bound.
    Starting,
    /// Its identity has been handed to the timer-constructing side.
    IdentityPublished,
    /// Blocked on the reserved signal, waking once per notification.
    AwaitingNotifications,
    /// Terminal: the thread has returned and may be joined.
    Stopped,
}

/// What happens to the carrier thread.
#[derive(Clone, Copy, Debug, PartialEq, Eq, Structural)]
pub enum CarrierEvent {
    /// It handed its identity through the one-shot handoff.
    Published,
    /// It entered the blocking wait for the reserved signal.
    WaitEntered,
    /// One timer notification arrived; `shutdown_seen` is the value of the
    /// shutdown flag read on that wake-up.
    Notified { shutdown_seen: bool },
}

/// The carrier machine's transition table. Any event outside the protocol
/// leaves the state unchanged; `Stopped` is terminal.
pub open spec fn spec_carrier_step(s: CarrierState, e: CarrierEvent) -> CarrierState {
    match (s, e) {
        (CarrierState::Starting, CarrierEvent::Published) => CarrierState::IdentityPublished,
        (CarrierState::IdentityPublished, CarrierEvent::WaitEntered)
            => CarrierState::AwaitingNotifications,
        (CarrierState::AwaitingNotifications, CarrierEvent::Notified { shutdown_seen }) => {
            if shutdown_seen {
                CarrierState::Stopped
            } else {
                CarrierState::AwaitingNotifications
            }
        },
        _ => s,
    }
}

/// How far along its run a state is.
pub open spec fn spec_carrier_phase(s: CarrierState) -> nat {
    match s {
        CarrierState::Starting => 0,
        CarrierState::IdentityPublished => 1,
        CarrierState::AwaitingNotifications => 2,
        CarrierState::Stopped => 3,
    }
}

/// Advances the carrier machine by one event.
pub fn carrier_step(s: CarrierState, e: CarrierEvent) -> (r: CarrierState)
    ensures
        r == spec_carrier_step(s, e),
{
    match (s, e) {
        (CarrierState::Starting, CarrierEvent::Published) => CarrierState::IdentityPublished,
        (CarrierState::IdentityPublished, CarrierEvent::WaitEntered)
            => CarrierState::AwaitingNotifications,
        (CarrierState::AwaitingNotifications, CarrierEvent::Notified { shutdown_seen }) => {
            if shutdown_seen {
                CarrierState::Stopped
            } else {
                CarrierState::AwaitingNotifications
            }
        },
        (other, _) => other,
    }
}

/// The run only moves forward — starting, publishing, awaiting, stopped,
/// never back — and the only way into `Stopped` is a notification on which
/// the shutdown flag was observed set, while awaiting. `Stopped` is
/// terminal.
pub proof fn lemma_carrier_progress(s: CarrierState, e: CarrierEvent)
    ensures
        spec_carrier_phase(spec_carrier_step(s, e)) >= spec_carrier_phase(s),
        spec_carrier_step(s, e) == CarrierState::Stopped && s != CarrierState::Stopped ==> (s
            == CarrierState::AwaitingNotifications && e == (CarrierEvent::Notified {
            shutdown_seen: true,
        })),
        spec_carrier_step(CarrierState::Stopped, e) == CarrierState::Stopped,
{
}

/// A whole consumption session, modelled on the notification clock: the
/// timer fires at `interval_ns`, `2 * interval_ns`, and so on; the shutdown
/// flag is set at `shutdown_at_ns`. The carrier wakes once per firing,
/// checks the flag, and stops on the first wake-up that sees it set.
///
/// Returns `(stop, before)`: the time the carrier stops, and how many
/// notifications it consumed before the one on which it observed shutdown.
/// The stop time never exceeds `shutdown_at_ns + interval_ns`: the whole
/// run terminates within one interval of the shutdown request.
pub fn carrier_session(interval_ns: u64, shutdown_at_ns: u64) -> (r: (u64, u64))
    requires
        interval_ns > 0,
        shutdown_at_ns <= u64::MAX - interval_ns,
    ensures
        r.0 == (r.1 + 1) * interval_ns,
        r.0 >= interval_ns,
        r.0 >= shutdown_at_ns,
        r.0 <= shutdown_at_ns + interval_ns,
        r.1 == 0 || r.1 * interval_ns < shutdown_at_ns,
{
    let mut state = CarrierState::AwaitingNotifications;
    let mut tick: u64 = interval_ns;
    let mut before: u64 = 0;
    loop
        invariant
            interval_ns > 0,
            shutdown_at_ns <= u64::MAX - interval_ns,
            state == CarrierState::AwaitingNotifications,
            tick == (before + 1) * interval_ns,
            tick >= interval_ns,
            tick <= shutdown_at_ns + interval_ns,
            before == 0 || before * interval_ns < shutdown_at_ns,
        decreases shutdown_at_ns + interval_ns - tick,
    {
        let shutdown_seen = tick >= shutdown_at_ns;
        state = carrier_step(state, CarrierEvent::Notified { shutdown_seen });
        if shutdown_seen {
            assert(state == CarrierState::Stopped);
            return (tick, before);
        }
        assert((before + 1) * interval_ns >= before + 1) by (nonlinear_arith)
            requires
                interval_ns >= 1,
        ;
        assert((before + 2) * interval_ns == (before + 1) * interval_ns + interval_ns)
            by (nonlinear_arith);
        before = before + 1;
        tick = tick + interval_ns;
    }
}

} // verus!
