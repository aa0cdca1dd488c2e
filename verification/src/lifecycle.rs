//! The server lifecycle as a state machine, and the shutdown trigger.
//!
//! The driver that owns the listening socket walks these states: it starts
//! unbound, serves after a successful bind (or fails, fatally, after an
//! unsuccessful one), drains in-flight requests after the first shutdown
//! trigger, and stops once the drain is complete. Stopped and failed states
//! are terminal: there is no restart path.

use vstd::prelude::*;

verus! {

/// The phases of the server lifecycle.
#[derive(Clone, Copy, Debug, PartialEq, Eq, Structural)]
pub enum Phase {
    /// No listener exists yet.
    Unbound,
    /// The listener is bound and new connections are accepted.
    Serving,
    /// No new connections are accepted; in-flight requests run to completion.
    Draining,
    /// All in-flight work has drained. Terminal.
    Stopped,
    /// The bind failed. Terminal and fatal.
    Failed,
}

/// The lifecycle state: the current phase together with the number of
/// accepted connections whose requests are still being handled.
pub struct Lifecycle {
    phase: Phase,
    in_flight: usize,
}

/// Which of the two shutdown trigger sources fired. The merged signal keeps
/// no record of it: the caller does not need to know.
#[derive(Clone, Copy, Debug, PartialEq, Eq, Structural)]
pub enum SignalSource {
    /// An interactive interrupt.
    Interrupt,
    /// A process termination request.
    Terminate,
}

/// The merged shutdown signal: a momentary event over two independent trigger
/// sources. The first occurrence of either source wins; the event carries no
/// payload and is not re-armable within a process lifetime.
pub struct ShutdownSignal {
    fired: bool,
}

impl Lifecycle {
    pub closed spec fn phase(&self) -> Phase {
        self.phase
    }

    pub closed spec fn in_flight(&self) -> nat {
        self.in_flight as nat
    }

    /// Work can be in flight only while the server serves or drains.
    pub open spec fn wf(&self) -> bool {
        self.phase() == Phase::Unbound || self.phase() == Phase::Stopped || self.phase()
            == Phase::Failed ==> self.in_flight() == 0
    }

    /// A lifecycle starts unbound, with nothing in flight.
    pub fn new() -> (s: Lifecycle)
        ensures
            s.phase() == Phase::Unbound,
            s.in_flight() == 0,
            s.wf(),
    {
        Lifecycle { phase: Phase::Unbound, in_flight: 0 }
    }

    /// Record the outcome of the bind: a successful bind starts serving; an
    /// unsuccessful one is fatal and terminal.
    pub fn on_bind(&mut self, ok: bool)
        requires
            old(self).phase() == Phase::Unbound,
            old(self).wf(),
        ensures
            final(self).phase() == (if ok {
                Phase::Serving
            } else {
                Phase::Failed
            }),
            final(self).in_flight() == 0,
            final(self).wf(),
    {
        self.phase = if ok {
            Phase::Serving
        } else {
            Phase::Failed
        };
    }

    /// Record one accepted connection. Only a serving server accepts.
    pub fn on_accept(&mut self)
        requires
            old(self).phase() == Phase::Serving,
            old(self).in_flight() < usize::MAX,
            old(self).wf(),
        ensures
            final(self).phase() == Phase::Serving,
            final(self).in_flight() == old(self).in_flight() + 1,
            final(self).wf(),
    {
        self.in_flight = self.in_flight + 1;
    }

    /// Record the first shutdown trigger: a serving server begins to drain.
    /// A trigger in any other phase changes nothing — the signal's later
    /// occurrences are ignored, and in-flight work is never cut short.
    pub fn on_shutdown(&mut self)
        requires
            old(self).wf(),
        ensures
            final(self).in_flight() == old(self).in_flight(),
            final(self).phase() == (if old(self).phase() == Phase::Serving {
                Phase::Draining
            } else {
                old(self).phase()
            }),
            final(self).wf(),
    {
        if self.phase == Phase::Serving {
            self.phase = Phase::Draining;
        }
    }

    /// Record one in-flight request running to completion. The phase does not
    /// change: requests finish the same way while serving and while draining.
    pub fn on_request_done(&mut self)
        requires
            old(self).in_flight() > 0,
            old(self).wf(),
        ensures
            final(self).phase() == old(self).phase(),
            final(self).in_flight() == old(self).in_flight() - 1,
            final(self).wf(),
    {
        self.in_flight = self.in_flight - 1;
    }

    /// Record the end of the drain: once nothing is in flight, a draining
    /// server stops. Terminal.
    pub fn on_drained(&mut self)
        requires
            old(self).phase() == Phase::Draining,
            old(self).in_flight() == 0,
            old(self).wf(),
        ensures
            final(self).phase() == Phase::Stopped,
            final(self).in_flight() == 0,
            final(self).wf(),
    {
        self.phase = Phase::Stopped;
    }

    /// Whether new connections are accepted: only while serving.
    pub fn accepting(&self) -> (b: bool)
        ensures
            b == (self.phase() == Phase::Serving),
    {
        self.phase == Phase::Serving
    }

    /// Whether the lifecycle has reached a terminal phase.
    pub fn is_terminal(&self) -> (b: bool)
        ensures
            b == (self.phase() == Phase::Stopped || self.phase() == Phase::Failed),
    {
        self.phase == Phase::Stopped || self.phase == Phase::Failed
    }

    /// The current phase.
    pub fn current_phase(&self) -> (p: Phase)
        ensures
            p == self.phase(),
    {
        self.phase
    }

    /// The number of requests still being handled.
    pub fn in_flight_count(&self) -> (n: usize)
        ensures
            n == self.in_flight(),
    {
        self.in_flight
    }
}

impl ShutdownSignal {
    pub closed spec fn has_fired(&self) -> bool {
        self.fired
    }

    /// A fresh signal has not fired.
    pub fn new() -> (s: ShutdownSignal)
        ensures
            !s.has_fired(),
    {
        ShutdownSignal { fired: false }
    }

    /// Record an occurrence of either trigger source. The result says whether
    /// this occurrence was the first — the one that wins — and does not depend
    /// on the source. Once fired, the signal stays fired: it is not re-armable.
    pub fn trigger(&mut self, _source: SignalSource) -> (first: bool)
        ensures
            final(self).has_fired(),
            first == !old(self).has_fired(),
    {
        let first = !self.fired;
        self.fired = true;
        first
    }

    /// Whether the signal has fired.
    pub fn fired(&self) -> (b: bool)
        ensures
            b == self.has_fired(),
    {
        self.fired
    }
}

} // verus!
