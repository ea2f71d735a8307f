//! The lifecycle of the request listener, as a state machine over plain
//! values: accepting, draining, stopped.
//!
//! The listener loop (outside the library) feeds every arrival — a new
//! connection, the completion of a request, the shutdown signal — into
//! [`Listener::step`] and performs the action it returns. Once shutdown
//! has fired the listener accepts no further connection, but a request
//! already in flight still runs to completion and its completion is still
//! processed; the listener only finishes when the last in-flight request
//! is done.

use vstd::prelude::*;

verus! {

/// The state of the request listener.
#[derive(Debug, PartialEq, Eq, Structural, Clone, Copy)]
pub struct Listener {
    /// Still accepting new connections.
    pub accepting: bool,
    /// How many accepted requests are still being handled.
    pub in_flight: u64,
    /// The listener has fully stopped.
    pub stopped: bool,
}

/// One arrival at the listener loop.
#[derive(Debug, PartialEq, Eq, Structural, Clone, Copy)]
pub enum ListenerEvent {
    /// A new inbound connection.
    Connect,
    /// One in-flight request finished and its response was delivered.
    RequestDone,
    /// The shutdown signal fired.
    Shutdown,
}

/// What the listener loop does next.
#[derive(Debug, PartialEq, Eq, Structural, Clone, Copy)]
pub enum ListenerAction {
    /// Accept the connection and handle its request.
    Accept,
    /// Turn the connection away without reading a request.
    Refuse,
    /// Keep going: wait for the next arrival.
    Wait,
    /// Nothing is in flight and shutdown has fired: return.
    Finish,
}

impl Listener {
    /// A stopped listener accepts nothing and handles nothing.
    pub open spec fn wf(self) -> bool {
        self.stopped ==> !self.accepting && self.in_flight == 0
    }

    /// A fresh listener: accepting, nothing in flight.
    pub fn new() -> (listener: Listener)
        ensures
            listener == spec_new_listener(),
    {
        Listener { accepting: true, in_flight: 0, stopped: false }
    }

    /// Advance the listener by one arrival and decide what the loop does.
    pub fn step(&mut self, event: ListenerEvent) -> (action: ListenerAction)
        requires
            old(self).wf(),
            !old(self).stopped,
            event == ListenerEvent::RequestDone ==> old(self).in_flight > 0,
            event == ListenerEvent::Connect && old(self).accepting ==> old(self).in_flight
                < u64::MAX,
        ensures
            final(self).wf(),
            (*final(self), action) == spec_listener_step(*old(self), event),
    {
        match event {
            ListenerEvent::Connect => {
                if self.accepting {
                    self.in_flight = self.in_flight + 1;
                    ListenerAction::Accept
                } else {
                    ListenerAction::Refuse
                }
            },
            ListenerEvent::RequestDone => {
                self.in_flight = self.in_flight - 1;
                if !self.accepting && self.in_flight == 0 {
                    self.stopped = true;
                    ListenerAction::Finish
                } else {
                    ListenerAction::Wait
                }
            },
            ListenerEvent::Shutdown => {
                self.accepting = false;
                if self.in_flight == 0 {
                    self.stopped = true;
                    ListenerAction::Finish
                } else {
                    ListenerAction::Wait
                }
            },
        }
    }
}

/// A fresh listener: accepting, nothing in flight.
pub open spec fn spec_new_listener() -> Listener {
    Listener { accepting: true, in_flight: 0, stopped: false }
}

/// What [`Listener::step`] does for each state and arrival. A connection
/// is accepted only while the listener accepts; shutdown ends acceptance
/// at once but leaves the in-flight count untouched; a completed request
/// is always processed; the listener stops exactly when it no longer
/// accepts and nothing is in flight.
pub open spec fn spec_listener_step(l: Listener, event: ListenerEvent) -> (Listener,
    ListenerAction) {
    match event {
        ListenerEvent::Connect => {
            if l.accepting {
                (
                    Listener { in_flight: (l.in_flight + 1) as u64, ..l },
                    ListenerAction::Accept,
                )
            } else {
                (l, ListenerAction::Refuse)
            }
        },
        ListenerEvent::RequestDone => {
            let left = if l.in_flight > 0 {
                (l.in_flight - 1) as u64
            } else {
                0u64
            };
            if !l.accepting && left == 0 {
                (
                    Listener { accepting: false, in_flight: 0, stopped: true },
                    ListenerAction::Finish,
                )
            } else {
                (Listener { in_flight: left, ..l }, ListenerAction::Wait)
            }
        },
        ListenerEvent::Shutdown => {
            if l.in_flight == 0 {
                (
                    Listener { accepting: false, in_flight: 0, stopped: true },
                    ListenerAction::Finish,
                )
            } else {
                (Listener { accepting: false, ..l }, ListenerAction::Wait)
            }
        },
    }
}

/// The listener state after a whole run of arrivals.
pub open spec fn spec_listener_run(l: Listener, events: Seq<ListenerEvent>) -> Listener
    decreases events.len(),
{
    if events.len() == 0 {
        l
    } else {
        spec_listener_step(spec_listener_run(l, events.drop_last()), events.last()).0
    }
}

/// Law (graceful drain): once the listener no longer accepts — as it does
/// the moment shutdown fires — no run of further arrivals makes it accept
/// again, and every connection that arrives from then on is refused; and
/// whatever the state, the listener finishes only with nothing left in
/// flight, so a request already accepted completes and its completion is
/// processed before the listener fully stops.
pub proof fn lemma_graceful_drain(l: Listener, events: Seq<ListenerEvent>)
    requires
        !l.accepting,
    ensures
        !spec_listener_run(l, events).accepting,
        forall|k: int|
            0 <= k < events.len() && events[k] == ListenerEvent::Connect
                ==> spec_listener_step(
                spec_listener_run(l, events.subrange(0, k)),
                ListenerEvent::Connect,
            ).1 == ListenerAction::Refuse,
        forall|l2: Listener, e: ListenerEvent|
            (#[trigger] spec_listener_step(l2, e)).1 == ListenerAction::Finish
                ==> spec_listener_step(l2, e).0.stopped && spec_listener_step(
                l2,
                e,
            ).0.in_flight == 0,
    decreases events.len(),
{
    if events.len() > 0 {
        let prefix = events.drop_last();
        lemma_graceful_drain(l, prefix);
        assert forall|k: int|
            0 <= k < events.len() && events[k] == ListenerEvent::Connect implies spec_listener_step(
            spec_listener_run(l, events.subrange(0, k)),
            ListenerEvent::Connect,
        ).1 == ListenerAction::Refuse by {
            if k < events.len() - 1 {
                assert(prefix[k] == events[k]);
                assert(events.subrange(0, k) =~= prefix.subrange(0, k));
                assert(spec_listener_step(
                    spec_listener_run(l, prefix.subrange(0, k)),
                    ListenerEvent::Connect,
                ).1 == ListenerAction::Refuse);
            } else {
                assert(events.subrange(0, k) =~= prefix);
                assert(!spec_listener_run(l, prefix).accepting);
            }
        }
    }
}

} // verus!
