use ble_sensor::attributes::{DataPoint, WriteTarget};
use ble_sensor::session::{LoopControl, WorkOutcome};
use ble_sensor::supervisor::{StartAction, Supervisor};

#[test]
fn reconnect_starts_fresh_session() {
    let mut sup = Supervisor::new(500);
    assert!(sup.session.is_none());
    assert_eq!(sup.on_start(true), StartAction::RunSession);
    {
        let s = sup.session.as_mut().unwrap();
        s.subscriptions.write(WriteTarget::AlertSubscription, 0, &vec![1]);
        for _ in 0..10 {
            s.tick(true);
        }
        assert_eq!(s.debounce.counter, 490);
    }
    assert_eq!(sup.on_work(WorkOutcome::Continue), LoopControl::KeepRunning);
    assert!(sup.session.is_some());
    assert_eq!(sup.on_work(WorkOutcome::Disconnected), LoopControl::EndSession);
    assert!(sup.session.is_none());
    assert_eq!(sup.on_start(true), StartAction::RunSession);
    let s = sup.session.as_ref().unwrap();
    assert!(!s.subscriptions.is_subscribed(DataPoint::Alert));
    assert_eq!(s.debounce.counter, 500);
}

#[test]
fn servicing_error_keeps_the_session() {
    let mut sup = Supervisor::new(5);
    sup.on_start(true);
    sup.session.as_mut().unwrap().subscriptions.write(WriteTarget::AlertSubscription, 0, &vec![1]);
    assert_eq!(sup.on_work(WorkOutcome::Failed), LoopControl::KeepRunning);
    assert!(sup.session.as_ref().unwrap().subscriptions.is_subscribed(DataPoint::Alert));
}

#[test]
fn stack_failure_aborts() {
    let mut sup = Supervisor::new(500);
    assert_eq!(sup.on_start(false), StartAction::Abort);
    assert!(sup.halted);
    assert!(sup.session.is_none());
}
