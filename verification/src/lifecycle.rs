//! The listener lifecycle: a state machine from construction through
//! binding and serving to a graceful, in-flight-preserving drain, the
//! single-use shutdown trigger, and the caller-facing server handle.

use vstd::prelude::*;

verus! {

/// The stage the listener is in.
#[derive(Clone, Copy, PartialEq, Eq, Structural, Debug)]
pub enum Stage {
    Constructing,
    Bound,
    Serving,
    Draining,
    Terminated,
}

/// What the completion signal of the handle resolves to.
#[derive(Clone, Copy, PartialEq, Eq, Structural, Debug)]
pub enum Completion {
    Pending,
    Success,
    LifecycleError,
}

/// An observable event the lifecycle reacts to.
#[derive(Clone, Copy, PartialEq, Eq, Structural, Debug)]
pub enum Event {
    /// The listen address resolved and the socket bound.
    BindSucceeded,
    /// The listen address could not be bound: fatal, surfaced at
    /// construction.
    BindFailed,
    /// The accept loop started running.
    ServingStarted,
    /// A new connection was accepted and a request went in flight.
    RequestStarted,
    /// One in-flight request, streaming body included, ran to its end.
    RequestFinished,
    /// The shutdown trigger fired.
    ShutdownFired,
    /// The serving task failed outside the shutdown path.
    ServingFailed,
}

/// The listener lifecycle state.
pub struct Lifecycle {
    pub stage: Stage,
    /// Requests, streaming bodies included, still in flight.
    pub in_flight: u64,
    /// Whether the shutdown trigger has fired at least once.
    pub shutdown_requested: bool,
    /// Whether the serving task failed outside the shutdown path.
    pub failed: bool,
}

impl Lifecycle {
    /// What every reachable lifecycle state satisfies.
    pub open spec fn wf(self) -> bool {
        &&& (self.stage == Stage::Constructing || self.stage == Stage::Bound) ==> self.in_flight
            == 0
        &&& self.stage == Stage::Terminated ==> self.in_flight == 0
        &&& self.stage == Stage::Draining ==> (self.shutdown_requested && self.in_flight > 0)
        &&& self.failed ==> self.stage == Stage::Terminated
    }

    /// New connections are accepted exactly while serving.
    pub open spec fn accepting_new(self) -> bool {
        self.stage == Stage::Serving
    }

    /// What the completion signal shows of this state.
    pub open spec fn completion_of(self) -> Completion {
        if self.stage == Stage::Terminated {
            if self.failed {
                Completion::LifecycleError
            } else {
                Completion::Success
            }
        } else {
            Completion::Pending
        }
    }

    /// The state a server is constructed in.
    pub open spec fn spec_init() -> Lifecycle {
        Lifecycle { stage: Stage::Constructing, in_flight: 0, shutdown_requested: false, failed: false }
    }

    /// The one-step transition relation. Any pair not named here leaves
    /// the state unchanged: no other transition is valid.
    pub open spec fn spec_step(self, ev: Event) -> Lifecycle {
        match ev {
            Event::BindSucceeded => if self.stage == Stage::Constructing {
                (Lifecycle { stage: Stage::Bound, ..self })
            } else {
                self
            },
            Event::BindFailed => if self.stage == Stage::Constructing {
                (Lifecycle { stage: Stage::Terminated, failed: true, ..self })
            } else {
                self
            },
            Event::ServingStarted => if self.stage == Stage::Bound {
                if self.shutdown_requested {
                    (Lifecycle { stage: Stage::Terminated, ..self })
                } else {
                    (Lifecycle { stage: Stage::Serving, ..self })
                }
            } else {
                self
            },
            Event::RequestStarted => if self.stage == Stage::Serving && self.in_flight
                < u64::MAX {
                (Lifecycle { in_flight: (self.in_flight + 1) as u64, ..self })
            } else {
                self
            },
            Event::RequestFinished => if self.in_flight > 0 {
                if self.stage == Stage::Draining && self.in_flight == 1 {
                    (Lifecycle { stage: Stage::Terminated, in_flight: 0, ..self })
                } else {
                    (Lifecycle { in_flight: (self.in_flight - 1) as u64, ..self })
                }
            } else {
                self
            },
            Event::ShutdownFired => if self.stage == Stage::Serving {
                if self.in_flight > 0 {
                    (Lifecycle { stage: Stage::Draining, shutdown_requested: true, ..self })
                } else {
                    (Lifecycle { stage: Stage::Terminated, shutdown_requested: true, ..self })
                }
            } else {
                (Lifecycle { shutdown_requested: true, ..self })
            },
            Event::ServingFailed => if self.stage != Stage::Terminated {
                (Lifecycle { stage: Stage::Terminated, in_flight: 0, failed: true, ..self })
            } else {
                self
            },
        }
    }

    /// A fresh lifecycle at construction time.
    pub fn init() -> (s: Lifecycle)
        ensures
            s == Lifecycle::spec_init(),
            s.wf(),
    {
        Lifecycle { stage: Stage::Constructing, in_flight: 0, shutdown_requested: false, failed: false }
    }

    /// Advances the lifecycle by one event.
    pub fn step(&mut self, ev: Event)
        requires
            old(self).wf(),
        ensures
            *final(self) == old(self).spec_step(ev),
            final(self).wf(),
    {
        match ev {
            Event::BindSucceeded => {
                if self.stage == Stage::Constructing {
                    self.stage = Stage::Bound;
                }
            },
            Event::BindFailed => {
                if self.stage == Stage::Constructing {
                    self.stage = Stage::Terminated;
                    self.failed = true;
                }
            },
            Event::ServingStarted => {
                if self.stage == Stage::Bound {
                    if self.shutdown_requested {
                        self.stage = Stage::Terminated;
                    } else {
                        self.stage = Stage::Serving;
                    }
                }
            },
            Event::RequestStarted => {
                if self.stage == Stage::Serving && self.in_flight < u64::MAX {
                    self.in_flight = self.in_flight + 1;
                }
            },
            Event::RequestFinished => {
                if self.in_flight > 0 {
                    if self.stage == Stage::Draining && self.in_flight == 1 {
                        self.stage = Stage::Terminated;
                        self.in_flight = 0;
                    } else {
                        self.in_flight = self.in_flight - 1;
                    }
                }
            },
            Event::ShutdownFired => {
                if self.stage == Stage::Serving {
                    if self.in_flight > 0 {
                        self.stage = Stage::Draining;
                    } else {
                        self.stage = Stage::Terminated;
                    }
                }
                self.shutdown_requested = true;
            },
            Event::ServingFailed => {
                if self.stage != Stage::Terminated {
                    self.stage = Stage::Terminated;
                    self.in_flight = 0;
                    self.failed = true;
                }
            },
        }
    }

    /// What the completion signal currently shows.
    pub fn completion(&self) -> (c: Completion)
        ensures
            c == self.completion_of(),
    {
        if self.stage == Stage::Terminated {
            if self.failed {
                Completion::LifecycleError
            } else {
                Completion::Success
            }
        } else {
            Completion::Pending
        }
    }
}

/// Law: every event preserves well-formedness; there is no escape from
/// the machine's reachable states.
pub proof fn lemma_step_preserves_wf(s: Lifecycle, ev: Event)
    requires
        s.wf(),
    ensures
        s.spec_step(ev).wf(),
{
}

/// Law: firing the shutdown trigger twice is the same as firing it
/// once; the second firing is a harmless no-op.
pub proof fn lemma_shutdown_idempotent(s: Lifecycle)
    requires
        s.wf(),
    ensures
        s.spec_step(Event::ShutdownFired).spec_step(Event::ShutdownFired) == s.spec_step(
            Event::ShutdownFired,
        ),
{
}

/// Law: firing the shutdown trigger while responses are streaming
/// drains: every in-flight response keeps running, no new connection is
/// accepted any more, and the completion signal stays pending.
pub proof fn lemma_shutdown_preserves_in_flight(s: Lifecycle)
    requires
        s.wf(),
        s.stage == Stage::Serving,
        s.in_flight > 0,
    ensures
        s.spec_step(Event::ShutdownFired).stage == Stage::Draining,
        s.spec_step(Event::ShutdownFired).in_flight == s.in_flight,
        !s.spec_step(Event::ShutdownFired).accepting_new(),
        s.spec_step(Event::ShutdownFired).completion_of() == Completion::Pending,
{
}

/// Law: once the shutdown trigger has fired, no later event ever makes
/// the lifecycle accept new connections again.
pub proof fn lemma_no_accept_after_shutdown(s: Lifecycle, ev: Event)
    requires
        s.wf(),
        s.shutdown_requested,
        !s.accepting_new(),
    ensures
        !s.spec_step(ev).accepting_new(),
        s.spec_step(ev).shutdown_requested,
{
}

/// Law: the completion signal never resolves while any response is
/// still in flight.
pub proof fn lemma_pending_while_in_flight(s: Lifecycle)
    requires
        s.wf(),
        s.in_flight > 0,
    ensures
        s.completion_of() == Completion::Pending,
{
}

/// Law: when the last in-flight response of a draining server finishes,
/// the server terminates and the completion signal resolves to success.
pub proof fn lemma_drain_completes(s: Lifecycle)
    requires
        s.wf(),
        s.stage == Stage::Draining,
        s.in_flight == 1,
    ensures
        s.spec_step(Event::RequestFinished).stage == Stage::Terminated,
        s.spec_step(Event::RequestFinished).completion_of() == Completion::Success,
{
}

/// Law: a shutdown requested while still constructing is not lost and
/// does not deadlock: once the bind lands and serving would have
/// started, the server terminates cleanly without ever accepting a
/// connection.
pub proof fn lemma_early_shutdown_terminates(s: Lifecycle)
    requires
        s.wf(),
        s.stage == Stage::Constructing,
    ensures
        ({
            let started = s.spec_step(Event::ShutdownFired).spec_step(
                Event::BindSucceeded,
            ).spec_step(Event::ServingStarted);
            started.completion_of() == Completion::Success && !started.accepting_new()
        }),
{
}

/// The single-use shutdown signal of a handle.
pub struct ShutdownTrigger {
    pub fired: bool,
}

impl ShutdownTrigger {
    /// A trigger that has not fired yet.
    pub fn new() -> (t: ShutdownTrigger)
        ensures
            !t.fired,
    {
        ShutdownTrigger { fired: false }
    }

    /// Fires the trigger. The first call reports that it sent the
    /// signal; every later call is a safe no-op that reports the signal
    /// as already sent.
    pub fn fire(&mut self) -> (sent: bool)
        ensures
            final(self).fired,
            sent == !old(self).fired,
    {
        let sent = !self.fired;
        self.fired = true;
        sent
    }
}

/// The caller-facing handle: the actually bound address, the single-use
/// shutdown trigger, and the lifecycle whose completion the caller
/// awaits.
pub struct ServerHandle {
    pub listen_address: String,
    pub trigger: ShutdownTrigger,
    pub lifecycle: Lifecycle,
}

impl ServerHandle {
    /// What every handle satisfies: a reachable lifecycle whose record
    /// of the shutdown request agrees with the trigger.
    pub open spec fn wf(self) -> bool {
        &&& self.lifecycle.wf()
        &&& self.trigger.fired == self.lifecycle.shutdown_requested
    }

    /// The handle for a server just past a successful bind. The address
    /// is the actually bound one, wildcard port already resolved, and is
    /// reported to the caller verbatim.
    pub fn new(bound_address: String) -> (h: ServerHandle)
        ensures
            h.wf(),
            h.listen_address == bound_address,
            h.lifecycle.stage == Stage::Bound,
            h.lifecycle.in_flight == 0,
            !h.trigger.fired,
    {
        let mut lifecycle = Lifecycle::init();
        lifecycle.step(Event::BindSucceeded);
        ServerHandle { listen_address: bound_address, trigger: ShutdownTrigger::new(), lifecycle }
    }

    /// Fires the shutdown trigger: acceptance of new connections stops,
    /// in-flight responses keep streaming. Safe to call any number of
    /// times.
    pub fn shutdown(&mut self)
        requires
            old(self).wf(),
        ensures
            final(self).wf(),
            final(self).lifecycle == old(self).lifecycle.spec_step(Event::ShutdownFired),
            final(self).trigger.fired,
            !final(self).lifecycle.accepting_new(),
            final(self).listen_address == old(self).listen_address,
    {
        self.trigger.fire();
        self.lifecycle.step(Event::ShutdownFired);
    }

    /// Records a lifecycle event the serving task observed. The
    /// shutdown signal reaches the lifecycle through `shutdown` alone.
    pub fn note_event(&mut self, ev: Event)
        requires
            old(self).wf(),
            ev != Event::ShutdownFired,
        ensures
            final(self).wf(),
            final(self).lifecycle == old(self).lifecycle.spec_step(ev),
            final(self).trigger == old(self).trigger,
            final(self).listen_address == old(self).listen_address,
    {
        self.lifecycle.step(ev);
    }

    /// What the completion future currently shows.
    pub fn completion(&self) -> (c: Completion)
        ensures
            c == self.lifecycle.completion_of(),
    {
        self.lifecycle.completion()
    }
}

} // verus!
