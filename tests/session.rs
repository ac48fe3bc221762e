use ble_sensor::attributes::{DataPoint, WriteTarget};
use ble_sensor::session::{
    after_work, on_sample, settle_reading, LoopControl, SampleError, SampleStep, Session,
    WorkOutcome,
};

#[test]
fn sample_failures_twice_then_reading() {
    let attempts = vec![Err(SampleError), Err(SampleError), Ok(1234u16)];
    assert_eq!(settle_reading(&attempts), Some((1234, 2)));
}

#[test]
fn sample_first_success_wins() {
    let attempts = vec![Ok(7u16), Err(SampleError), Ok(9)];
    assert_eq!(settle_reading(&attempts), Some((7, 0)));
}

#[test]
fn sample_never_succeeding_gives_none() {
    assert_eq!(settle_reading(&vec![Err(SampleError); 4]), None);
    assert_eq!(settle_reading(&Vec::new()), None);
}

#[test]
fn on_sample_retries_on_error() {
    assert_eq!(on_sample(Err(SampleError)), SampleStep::Retry);
    assert_eq!(on_sample(Ok(4095)), SampleStep::Proceed(4095));
}

#[test]
fn only_disconnection_ends_the_loop() {
    assert_eq!(after_work(WorkOutcome::Disconnected), LoopControl::EndSession);
    assert_eq!(after_work(WorkOutcome::Continue), LoopControl::KeepRunning);
    assert_eq!(after_work(WorkOutcome::Failed), LoopControl::KeepRunning);
}

#[test]
fn subscribed_hold_notifies_once() {
    let mut s = Session::new(500);
    s.subscriptions.write(WriteTarget::AlertSubscription, 0, &vec![1]);
    let mut sent = Vec::new();
    for i in 0..1200 {
        if let Some(n) = s.tick(true) {
            assert_eq!(n.point, DataPoint::Alert);
            assert_eq!(n.payload, b"Notification".to_vec());
            sent.push(i);
        }
    }
    assert_eq!(sent, vec![499]);
}

#[test]
fn unsubscribed_hold_sends_nothing() {
    let mut s = Session::new(500);
    for _ in 0..600 {
        assert!(s.tick(true).is_none());
    }
    assert_eq!(s.debounce.counter, 0);
}

#[test]
fn subscribing_after_confirmation_sends_nothing_until_next_press() {
    let mut s = Session::new(2);
    assert!(s.tick(true).is_none());
    assert!(s.tick(true).is_none());
    s.subscriptions.write(WriteTarget::AlertSubscription, 0, &vec![1]);
    assert!(s.tick(true).is_none());
    assert!(s.tick(false).is_none());
    assert!(s.tick(true).is_none());
    assert!(s.tick(true).is_some());
}

#[test]
fn new_session_is_idle_and_unsubscribed() {
    let s = Session::new(500);
    assert_eq!(s.debounce.counter, 500);
    assert_eq!(s.debounce.threshold, 500);
    assert!(!s.subscriptions.is_subscribed(DataPoint::Alert));
}
