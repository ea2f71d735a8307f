//! The orchestrator: one shutdown source, two concurrent units, one exit.
//!
//! The runner (outside the library) starts the poller and the listener as
//! independent concurrent units over one shared storage handle, then
//! blocks on the external termination signal. Every arrival — the
//! termination signal, a unit reporting that it stopped — is fed into
//! [`Orchestrator::step`]; the contract says that shutdown is broadcast
//! exactly once, on the termination signal, and that the orchestrator
//! exits only after both units have reported completion.

use vstd::prelude::*;

verus! {

/// The state of the orchestrator.
#[derive(Debug, PartialEq, Eq, Structural, Clone, Copy)]
pub struct Orchestrator {
    /// The termination signal has arrived and shutdown was broadcast.
    pub shutdown_sent: bool,
    /// The poller unit has reported completion.
    pub poller_stopped: bool,
    /// The listener unit has reported completion.
    pub listener_stopped: bool,
}

/// One arrival at the orchestrator.
#[derive(Debug, PartialEq, Eq, Structural, Clone, Copy)]
pub enum OrchEvent {
    /// The external termination signal (operator interrupt) arrived.
    TerminationSignal,
    /// The poller unit finished.
    PollerStopped,
    /// The listener unit finished.
    ListenerStopped,
}

/// What the runner does next.
#[derive(Debug, PartialEq, Eq, Structural, Clone, Copy)]
pub enum OrchAction {
    /// Trigger both derived cancellation handles.
    BroadcastShutdown,
    /// Keep waiting for the next arrival.
    Wait,
    /// Both units are done: exit cleanly.
    Exit,
}

/// What [`Orchestrator::step`] does for each state and arrival.
pub open spec fn spec_orchestrator_step(o: Orchestrator, event: OrchEvent) -> (Orchestrator,
    OrchAction) {
    match event {
        OrchEvent::TerminationSignal => {
            if o.shutdown_sent {
                (o, OrchAction::Wait)
            } else {
                (Orchestrator { shutdown_sent: true, ..o }, OrchAction::BroadcastShutdown)
            }
        },
        OrchEvent::PollerStopped => {
            let next = Orchestrator { poller_stopped: true, ..o };
            if next.shutdown_sent && next.poller_stopped && next.listener_stopped {
                (next, OrchAction::Exit)
            } else {
                (next, OrchAction::Wait)
            }
        },
        OrchEvent::ListenerStopped => {
            let next = Orchestrator { listener_stopped: true, ..o };
            if next.shutdown_sent && next.poller_stopped && next.listener_stopped {
                (next, OrchAction::Exit)
            } else {
                (next, OrchAction::Wait)
            }
        },
    }
}

impl Orchestrator {
    /// A fresh orchestrator: both units running, no shutdown yet.
    pub fn new() -> (o: Orchestrator)
        ensures
            !o.shutdown_sent,
            !o.poller_stopped,
            !o.listener_stopped,
    {
        Orchestrator { shutdown_sent: false, poller_stopped: false, listener_stopped: false }
    }

    /// Advance by one arrival and decide what the runner does.
    ///
    /// Shutdown is broadcast exactly when the first termination signal
    /// arrives; the orchestrator asks to exit exactly when shutdown was
    /// sent and both units have reported completion — never before both
    /// are done.
    pub fn step(&mut self, event: OrchEvent) -> (action: OrchAction)
        ensures
            (*final(self), action) == spec_orchestrator_step(*old(self), event),
            action == OrchAction::BroadcastShutdown <==> (event == OrchEvent::TerminationSignal
                && !old(self).shutdown_sent),
            action == OrchAction::Exit ==> final(self).shutdown_sent
                && final(self).poller_stopped && final(self).listener_stopped,
    {
        match event {
            OrchEvent::TerminationSignal => {
                if self.shutdown_sent {
                    OrchAction::Wait
                } else {
                    self.shutdown_sent = true;
                    OrchAction::BroadcastShutdown
                }
            },
            OrchEvent::PollerStopped => {
                self.poller_stopped = true;
                if self.shutdown_sent && self.listener_stopped {
                    OrchAction::Exit
                } else {
                    OrchAction::Wait
                }
            },
            OrchEvent::ListenerStopped => {
                self.listener_stopped = true;
                if self.shutdown_sent && self.poller_stopped {
                    OrchAction::Exit
                } else {
                    OrchAction::Wait
                }
            },
        }
    }
}

} // verus!
