use stress_lb::carrier::carrier_session;
use stress_lb::carrier::carrier_step;
use stress_lb::carrier::CarrierEvent;
use stress_lb::carrier::CarrierState;
use stress_lb::errors::RunError;
use stress_lb::identity::IdentityHandoff;
use stress_lb::identity::ThreadIdentity;
use stress_lb::interval::Interval;
use stress_lb::shutdown::ShutdownFlag;
use stress_lb::timer::on_armed;
use stress_lb::timer::on_created;
use stress_lb::timer::plan;
use stress_lb::timer::TimerSlot;

#[test]
fn identity_is_never_zero_or_negative() {
    assert!(ThreadIdentity::new(0).is_none());
    assert!(ThreadIdentity::new(-7).is_none());
    let id = ThreadIdentity::new(42).unwrap();
    assert_eq!(id.get(), 42);
}

#[test]
fn handoff_yields_exactly_what_was_published() {
    let id = ThreadIdentity::new(1234).unwrap();
    let mut slot = IdentityHandoff::empty();
    assert!(slot.take().is_none());
    assert!(slot.publish(id));
    assert_eq!(slot.take().unwrap().get(), 1234);
}

#[test]
fn handoff_is_single_use() {
    let first = ThreadIdentity::new(10).unwrap();
    let second = ThreadIdentity::new(20).unwrap();
    let mut slot = IdentityHandoff::empty();
    assert!(slot.publish(first));
    assert!(!slot.publish(second));
    assert_eq!(slot.take().unwrap().get(), 10);
}

#[test]
fn shutdown_flag_fires_once_and_stays() {
    let mut flag = ShutdownFlag::new();
    assert!(!flag.observed());
    flag.request();
    assert!(flag.observed());
    flag.request();
    assert!(flag.observed());
}

#[test]
fn timer_plan_targets_the_published_thread() {
    let id = ThreadIdentity::new(777).unwrap();
    let iv = Interval::from_millis(1).unwrap();
    let p = plan(&id, &iv);
    assert_eq!(p.target_tid, 777);
    assert_eq!(p.arm.value_nanos, 1_000_000);
    assert_eq!(p.arm.interval_nanos, 1_000_000);
}

#[test]
fn timer_bound_to_the_handed_identity() {
    let id = ThreadIdentity::new(555).unwrap();
    let pending = on_created(id, Ok(9)).ok().unwrap();
    let (built, freed) = on_armed(pending, Ok(()));
    assert!(freed.is_none());
    let timer = built.ok().unwrap();
    assert_eq!(timer.target().get(), 555);
    assert_eq!(timer.handle(), Some(9));
}

#[test]
fn create_failure_reports_the_os_error() {
    let id = ThreadIdentity::new(1).unwrap();
    let r = on_created(id, Err(12));
    assert!(matches!(r, Err(RunError::ResourceCreation { errno: 12 })));
}

#[test]
fn arm_failure_frees_the_created_handle() {
    // Error-then-cleanup path: the partially created resource is handed
    // back for deletion, exactly once.
    let id = ThreadIdentity::new(1).unwrap();
    let pending = on_created(id, Ok(31)).ok().unwrap();
    let (built, freed) = on_armed(pending, Err(22));
    assert!(matches!(built, Err(RunError::ResourceCreation { errno: 22 })));
    assert_eq!(freed, Some(31));
}

#[test]
fn release_happens_exactly_once_per_creation() {
    // Counting fake of the OS: every successful creation is matched by
    // exactly one deletion, on the success path as on the failure path.
    let mut creates: u32 = 0;
    let mut deletes: u32 = 0;

    // Attempt 1: created and armed, then torn down.
    let id = ThreadIdentity::new(2).unwrap();
    creates += 1;
    let pending = on_created(id, Ok(100)).ok().unwrap();
    let (built, freed) = on_armed(pending, Ok(()));
    assert!(freed.is_none());
    let mut timer = built.ok().unwrap();
    if timer.release().is_some() {
        deletes += 1;
    }
    // A second release must not delete a second time.
    if timer.release().is_some() {
        deletes += 1;
    }

    // Attempt 2: created, arming failed.
    creates += 1;
    let pending = on_created(id, Ok(200)).ok().unwrap();
    let (_, freed) = on_armed(pending, Err(1));
    if freed.is_some() {
        deletes += 1;
    }

    // Attempt 3: creation itself failed, nothing to delete.
    assert!(on_created(id, Err(3)).is_err());

    assert_eq!(creates, 2);
    assert_eq!(deletes, creates);
}

#[test]
fn releasing_an_empty_slot_is_a_no_op() {
    // Holding no resource, release deletes nothing — on every call.
    let mut slot = TimerSlot::empty();
    assert!(slot.release().is_none());
    assert!(slot.release().is_none());
}

#[test]
fn carrier_walks_its_states_in_order() {
    let s = CarrierState::Starting;
    let s = carrier_step(s, CarrierEvent::Published);
    assert_eq!(s, CarrierState::IdentityPublished);
    let s = carrier_step(s, CarrierEvent::WaitEntered);
    assert_eq!(s, CarrierState::AwaitingNotifications);
    let s = carrier_step(s, CarrierEvent::Notified { shutdown_seen: false });
    assert_eq!(s, CarrierState::AwaitingNotifications);
    let s = carrier_step(s, CarrierEvent::Notified { shutdown_seen: true });
    assert_eq!(s, CarrierState::Stopped);
}

#[test]
fn carrier_stops_only_on_observed_shutdown() {
    let awaiting = CarrierState::AwaitingNotifications;
    for _ in 0..100 {
        assert_eq!(
            carrier_step(awaiting, CarrierEvent::Notified { shutdown_seen: false }),
            CarrierState::AwaitingNotifications
        );
    }
}

#[test]
fn carrier_stopped_is_terminal() {
    let stopped = CarrierState::Stopped;
    assert_eq!(carrier_step(stopped, CarrierEvent::Published), CarrierState::Stopped);
    assert_eq!(carrier_step(stopped, CarrierEvent::WaitEntered), CarrierState::Stopped);
    assert_eq!(
        carrier_step(stopped, CarrierEvent::Notified { shutdown_seen: false }),
        CarrierState::Stopped
    );
}

#[test]
fn out_of_protocol_events_change_nothing() {
    assert_eq!(
        carrier_step(CarrierState::Starting, CarrierEvent::WaitEntered),
        CarrierState::Starting
    );
    assert_eq!(
        carrier_step(CarrierState::IdentityPublished, CarrierEvent::Published),
        CarrierState::IdentityPublished
    );
}

#[test]
fn ten_ms_timer_under_55_ms_run() {
    // interval = 10ms, shutdown requested at 55ms: notifications at
    // 10..50ms are consumed (5 of them), the one at 60ms observes the
    // flag, and the carrier stops within one interval of the request.
    let (stop, before) = carrier_session(10_000_000, 55_000_000);
    assert_eq!(before, 5);
    assert!(before == 5 || before == 6);
    assert_eq!(stop, 60_000_000);
    assert!(stop >= 55_000_000);
    assert!(stop <= 55_000_000 + 10_000_000);
}

#[test]
fn shutdown_before_the_first_notification() {
    // The carrier can only notice the flag on a wake-up: worst-case
    // latency is exactly one interval.
    let (stop, before) = carrier_session(1_000_000, 0);
    assert_eq!(before, 0);
    assert_eq!(stop, 1_000_000);
}

#[test]
fn shutdown_latency_is_bounded_by_one_interval() {
    for dur in [1u64, 9, 10, 11, 25, 1000, 999_983] {
        for iv in [1u64, 7, 10, 1024] {
            let (stop, _) = carrier_session(iv, dur);
            assert!(stop >= dur);
            assert!(stop <= dur + iv);
        }
    }
}
