use vstd::prelude::*;
use crate::session::{after_work, control_after, LoopControl, Session, WorkOutcome};

verus! {

/// What the supervisor asks of the caller after the transport was brought up.
#[derive(Clone, Copy, Debug, PartialEq, Eq, Structural)]
pub enum StartAction {
    /// Run the session loop on the new connection-capable session.
    RunSession,
    /// The radio stack could not be initialised: stop the device.
    Abort,
}

/// Outermost control: owns at most one session at a time, starts a fresh one
/// after every disconnection, and halts only when the radio stack fails to
/// initialise.
pub struct Supervisor {
    pub threshold: u32,
    pub session: Option<Session>,
    pub halted: bool,
}

impl Supervisor {
    pub open spec fn wf(&self) -> bool {
        &&& 0 < self.threshold
        &&& (self.session matches Some(s) ==> s.wf() && s.debounce.threshold == self.threshold)
        &&& (self.halted ==> self.session is None)
    }

    /// Whether the supervisor waits for the transport to be brought up.
    pub open spec fn awaiting_start(&self) -> bool {
        !self.halted && self.session is None
    }

    /// Result of reporting how the transport's start went.
    pub open spec fn start_spec(self, stack_ready: bool) -> (Supervisor, StartAction) {
        if stack_ready {
            (
                Supervisor {
                    session: Some(
                        Session {
                            debounce: crate::debounce::Debouncer {
                                threshold: self.threshold,
                                counter: self.threshold,
                            },
                            subscriptions: crate::attributes::Subscriptions { alert: false },
                        },
                    ),
                    ..self
                },
                StartAction::RunSession,
            )
        } else {
            (Supervisor { halted: true, ..self }, StartAction::Abort)
        }
    }

    /// Result of reporting the transport's outcome during a session.
    pub open spec fn work_spec(self, outcome: WorkOutcome) -> (Supervisor, LoopControl) {
        if outcome == WorkOutcome::Disconnected {
            (Supervisor { session: None, ..self }, LoopControl::EndSession)
        } else {
            (self, LoopControl::KeepRunning)
        }
    }

    /// A supervisor waiting to start its first session.
    pub fn new(threshold: u32) -> (s: Supervisor)
        requires
            threshold > 0,
        ensures
            s.wf(),
            s.awaiting_start(),
            s.threshold == threshold,
    {
        Supervisor { threshold, session: None, halted: false }
    }

    /// Reports whether the radio stack came up. On success a fresh session
    /// (idle detector, nothing subscribed) begins; on failure the device halts.
    pub fn on_start(&mut self, stack_ready: bool) -> (r: StartAction)
        requires
            old(self).wf(),
            old(self).awaiting_start(),
        ensures
            final(self).wf(),
            (*final(self), r) == old(self).start_spec(stack_ready),
    {
        if stack_ready {
            self.session = Some(Session::new(self.threshold));
            StartAction::RunSession
        } else {
            self.halted = true;
            StartAction::Abort
        }
    }

    /// Reports the transport's outcome for the current iteration; a
    /// disconnection drops the session, after which a new start is due.
    pub fn on_work(&mut self, outcome: WorkOutcome) -> (r: LoopControl)
        requires
            old(self).wf(),
            old(self).session is Some,
        ensures
            final(self).wf(),
            (*final(self), r) == old(self).work_spec(outcome),
            r == control_after(outcome),
    {
        let r = after_work(outcome);
        if let LoopControl::EndSession = r {
            self.session = None;
        }
        r
    }
}

/// After a disconnection the supervisor holds no session and waits for a
/// start; that start, when the stack comes up, begins exactly one new session,
/// with its subscription unset and its detector idle, whatever the old session
/// had. Any other outcome keeps the current session and starts none.
pub proof fn lemma_reconnect_starts_one_fresh_session(s: Supervisor, outcome: WorkOutcome)
    requires
        s.wf(),
        s.session is Some,
    ensures
        outcome == WorkOutcome::Disconnected ==> {
            let (after, control) = s.work_spec(outcome);
            let (restarted, action) = after.start_spec(true);
            &&& control == LoopControl::EndSession
            &&& after.awaiting_start()
            &&& action == StartAction::RunSession
            &&& restarted.session matches Some(n) && n.is_fresh(s.threshold)
            &&& !restarted.awaiting_start()
        },
        outcome != WorkOutcome::Disconnected ==> s.work_spec(outcome) == (s, LoopControl::KeepRunning),
{
}

} // verus!
