use vstd::prelude::*;
use crate::attributes::{notification_bytes, notification_payload, DataPoint, Subscriptions};
use crate::debounce::{step_spec, Debouncer};

verus! {

/// A notification to hand to the transport in the current iteration.
pub struct Notification {
    pub point: DataPoint,
    pub payload: Vec<u8>,
}

/// A sensor conversion that failed; always worth retrying.
#[derive(Clone, Copy, Debug, PartialEq, Eq, Structural)]
pub struct SampleError;

/// What the loop does after one conversion attempt.
#[derive(Clone, Copy, Debug, PartialEq, Eq, Structural)]
pub enum SampleStep {
    Retry,
    Proceed(u16),
}

/// What the transport reported after servicing pending requests.
#[derive(Clone, Copy, Debug, PartialEq, Eq, Structural)]
pub enum WorkOutcome {
    Continue,
    Disconnected,
    /// Servicing failed; reported, but the connection stands.
    Failed,
}

/// Whether the session loop goes on or ends.
#[derive(Clone, Copy, Debug, PartialEq, Eq, Structural)]
pub enum LoopControl {
    KeepRunning,
    EndSession,
}

pub open spec fn control_after(outcome: WorkOutcome) -> LoopControl {
    if outcome == WorkOutcome::Disconnected {
        LoopControl::EndSession
    } else {
        LoopControl::KeepRunning
    }
}

/// A transient conversion failure is retried at once; a reading lets the
/// iteration go on.
pub fn on_sample(attempt: Result<u16, SampleError>) -> (r: SampleStep)
    ensures
        r == (match attempt {
            Ok(v) => SampleStep::Proceed(v),
            Err(_) => SampleStep::Retry,
        }),
{
    match attempt {
        Ok(v) => SampleStep::Proceed(v),
        Err(_) => SampleStep::Retry,
    }
}

/// Plays a sequence of conversion attempts through the retry policy: the
/// reading of the first successful attempt, with the number of failures
/// retried before it; `None` if none succeeded.
pub fn settle_reading(attempts: &Vec<Result<u16, SampleError>>) -> (r: Option<(u16, usize)>)
    ensures
        r matches Some((v, n)) ==> n < attempts@.len() && attempts@[n as int] == Ok::<u16, SampleError>(v)
            && forall|j: int| 0 <= j < n ==> attempts@[j] is Err,
        r is None <==> forall|j: int| 0 <= j < attempts@.len() ==> attempts@[j] is Err,
{
    let mut i: usize = 0;
    while i < attempts.len()
        invariant
            i <= attempts@.len(),
            forall|j: int| 0 <= j < i ==> attempts@[j] is Err,
        decreases attempts@.len() - i,
    {
        match on_sample(attempts[i]) {
            SampleStep::Proceed(v) => {
                return Some((v, i));
            },
            SampleStep::Retry => {},
        }
        i = i + 1;
    }
    None
}

/// Whether the session loop ends after the transport reported `outcome`:
/// only a disconnection ends it.
pub fn after_work(outcome: WorkOutcome) -> (r: LoopControl)
    ensures
        r == control_after(outcome),
{
    match outcome {
        WorkOutcome::Disconnected => LoopControl::EndSession,
        _ => LoopControl::KeepRunning,
    }
}

/// State owned by one connected session: the button's long-press detector and
/// the peer's subscription flags.
pub struct Session {
    pub debounce: Debouncer,
    pub subscriptions: Subscriptions,
}

impl Session {
    pub open spec fn wf(&self) -> bool {
        self.debounce.wf()
    }

    /// State of a session that just began.
    pub open spec fn is_fresh(&self, threshold: u32) -> bool {
        &&& self.wf()
        &&& self.debounce.threshold == threshold
        &&& self.debounce.counter == threshold
        &&& !self.subscriptions.alert
    }

    /// A session with an idle detector and no subscription.
    pub fn new(threshold: u32) -> (s: Session)
        requires
            threshold > 0,
        ensures
            s.is_fresh(threshold),
    {
        Session { debounce: Debouncer::new(threshold), subscriptions: Subscriptions::new() }
    }

    /// Advances the detector with the current input level and builds the
    /// notification owed this iteration: one exactly when this observation
    /// confirmed a hold and the peer is subscribed.
    pub fn tick(&mut self, active: bool) -> (n: Option<Notification>)
        requires
            old(self).wf(),
        ensures
            final(self).wf(),
            final(self).subscriptions == old(self).subscriptions,
            final(self).debounce.threshold == old(self).debounce.threshold,
            final(self).debounce.counter == step_spec(
                old(self).debounce.threshold,
                old(self).debounce.counter,
                active,
            ).0,
            n.is_some() <==> (step_spec(
                old(self).debounce.threshold,
                old(self).debounce.counter,
                active,
            ).1 && old(self).subscriptions.subscribed(DataPoint::Alert)),
            n matches Some(note) ==> note.point == DataPoint::Alert && note.payload@
                == notification_payload(),
    {
        let fired = self.debounce.step(active);
        if fired && self.subscriptions.is_subscribed(DataPoint::Alert) {
            Some(Notification { point: DataPoint::Alert, payload: notification_bytes() })
        } else {
            None
        }
    }
}

} // verus!
