use vstd::prelude::*;

use crate::listener::Listener;
use crate::pool::SharedPool;
use crate::routes::RouteTable;

verus! {

/// The lifecycle of a server handle. A handle is created `Configured`,
/// moves to `Running` on an explicit start, and to `Stopped` on shutdown
/// or an unrecoverable listener failure. `Stopped` is terminal:
/// restarting requires constructing a new handle.
#[derive(Clone, Copy, PartialEq, Eq, Structural, Debug)]
pub enum ServerState {
    Configured,
    Running,
    Stopped,
}

/// The events a server handle reacts to while it exists.
#[derive(Clone, Copy, PartialEq, Eq, Structural, Debug)]
pub enum ServerEvent {
    /// The caller explicitly starts the accept loop.
    Start,
    /// The accept loop takes one new connection and a request begins.
    Accept,
    /// One in-flight request finishes (its response was fully written).
    Complete,
    /// The caller issues a graceful shutdown signal.
    Shutdown,
    /// One accepted connection fails with an I/O error. Isolated to that
    /// connection: it never stops the server.
    ConnectionIoError,
    /// The listener itself becomes invalid; no further connection can be
    /// accepted, and the server drains and stops.
    ListenerFailure,
}

/// A fully configured server: listener adopted, pool wrapped and injected,
/// logging middleware composed around the registered routes. Constructing
/// one never starts it; the caller drives it through `step`.
#[derive(Clone, Debug, PartialEq, Eq)]
pub struct ServerHandle {
    /// The adopted listener; owned by the handle from construction on.
    pub listener: Listener,
    /// The one shared pool instance every request handler observes.
    pub pool: SharedPool,
    /// The fixed route table; never mutated after construction.
    pub routes: RouteTable,
    /// Where the handle stands in its lifecycle.
    pub state: ServerState,
    /// Set once a shutdown signal or a listener failure arrived; the
    /// accept loop takes no further connection, in-flight requests drain.
    pub draining: bool,
    /// How many accepted requests have not finished yet.
    pub in_flight: u64,
}

/// How a handle reacts to one event. The counter of in-flight requests
/// stops rising at its machine bound; the bound is never reached in a
/// well-formed run, because each request must be accepted first.
pub open spec fn spec_step(h: ServerHandle, event: ServerEvent) -> ServerHandle {
    match h.state {
        // Stopped is terminal: every event leaves the handle as it is.
        ServerState::Stopped => h,
        // A configured handle only reacts to the explicit start action.
        ServerState::Configured => match event {
            ServerEvent::Start => ServerHandle { state: ServerState::Running, ..h },
            _ => h,
        },
        ServerState::Running => match event {
            ServerEvent::Start => h,
            ServerEvent::Accept => {
                if h.draining || h.in_flight == u64::MAX {
                    h
                } else {
                    ServerHandle { in_flight: (h.in_flight + 1) as u64, ..h }
                }
            },
            ServerEvent::Complete => {
                if h.in_flight == 0 {
                    h
                } else if h.in_flight == 1 && h.draining {
                    ServerHandle { state: ServerState::Stopped, in_flight: 0, ..h }
                } else {
                    ServerHandle { in_flight: (h.in_flight - 1) as u64, ..h }
                }
            },
            ServerEvent::Shutdown | ServerEvent::ListenerFailure => {
                if h.in_flight == 0 {
                    ServerHandle { state: ServerState::Stopped, draining: true, ..h }
                } else {
                    ServerHandle { draining: true, ..h }
                }
            },
            ServerEvent::ConnectionIoError => h,
        },
    }
}

/// Folds a whole sequence of events over a handle, first event first.
pub open spec fn spec_run_events(h: ServerHandle, events: Seq<ServerEvent>) -> ServerHandle
    decreases events.len(),
{
    if events.len() == 0 {
        h
    } else {
        spec_run_events(spec_step(h, events[0]), events.drop_first())
    }
}

impl ServerHandle {
    /// The handle's internal invariant: the route table is well-formed; a
    /// configured handle serves nothing and is not draining; a stopped
    /// handle has no request left in flight.
    pub open spec fn wf(&self) -> bool {
        &&& self.routes.wf()
        &&& (self.state == ServerState::Configured ==> self.in_flight == 0 && !self.draining)
        &&& (self.state == ServerState::Stopped ==> self.in_flight == 0)
    }

    /// Reacts to one lifecycle event. Total and never panicking: an event
    /// that makes no sense in the current state leaves the handle as it
    /// is.
    pub fn step(&mut self, event: ServerEvent)
        ensures
            *final(self) == spec_step(*old(self), event),
    {
        match self.state {
            ServerState::Stopped => {},
            ServerState::Configured => {
                if let ServerEvent::Start = event {
                    self.state = ServerState::Running;
                }
            },
            ServerState::Running => {
                match event {
                    ServerEvent::Start => {},
                    ServerEvent::Accept => {
                        if !self.draining && self.in_flight < u64::MAX {
                            self.in_flight = self.in_flight + 1;
                        }
                    },
                    ServerEvent::Complete => {
                        if self.in_flight == 1 && self.draining {
                            self.state = ServerState::Stopped;
                            self.in_flight = 0;
                        } else if self.in_flight > 0 {
                            self.in_flight = self.in_flight - 1;
                        }
                    },
                    ServerEvent::Shutdown | ServerEvent::ListenerFailure => {
                        self.draining = true;
                        if self.in_flight == 0 {
                            self.state = ServerState::Stopped;
                        }
                    },
                    ServerEvent::ConnectionIoError => {},
                }
            },
        }
    }

    /// The caller's explicit start action: `Configured -> Running`.
    /// Starting never happens implicitly at construction.
    pub fn start(&mut self)
        ensures
            *final(self) == spec_step(*old(self), ServerEvent::Start),
            old(self).state == ServerState::Configured ==> final(self).state
                == ServerState::Running,
    {
        self.step(ServerEvent::Start);
    }

    /// The caller's explicit graceful-shutdown action.
    pub fn shutdown(&mut self)
        ensures
            *final(self) == spec_step(*old(self), ServerEvent::Shutdown),
    {
        self.step(ServerEvent::Shutdown);
    }
}

/// Every step preserves the handle's invariant.
pub proof fn lemma_step_preserves_wf(h: ServerHandle, event: ServerEvent)
    requires
        h.wf(),
    ensures
        spec_step(h, event).wf(),
{
}

/// No step touches the wiring: the adopted listener, the shared pool and
/// the registered routes stay exactly as construction left them.
pub proof fn lemma_step_preserves_wiring(h: ServerHandle, event: ServerEvent)
    ensures
        spec_step(h, event).listener == h.listener,
        spec_step(h, event).pool == h.pool,
        spec_step(h, event).routes == h.routes,
{
}

/// Stopped is terminal: no sequence of events leads out of it.
pub proof fn lemma_stopped_is_terminal(h: ServerHandle, events: Seq<ServerEvent>)
    requires
        h.state == ServerState::Stopped,
    ensures
        spec_run_events(h, events) == h,
    decreases events.len(),
{
    if events.len() > 0 {
        lemma_stopped_is_terminal(h, events.drop_first());
    }
}

/// Any run of events preserves the invariant and the wiring.
pub proof fn lemma_run_events_preserves_wf_and_wiring(h: ServerHandle, events: Seq<ServerEvent>)
    requires
        h.wf(),
    ensures
        spec_run_events(h, events).wf(),
        spec_run_events(h, events).listener == h.listener,
        spec_run_events(h, events).pool == h.pool,
        spec_run_events(h, events).routes == h.routes,
    decreases events.len(),
{
    if events.len() > 0 {
        lemma_step_preserves_wf(h, events[0]);
        lemma_step_preserves_wiring(h, events[0]);
        lemma_run_events_preserves_wf_and_wiring(spec_step(h, events[0]), events.drop_first());
    }
}

/// Graceful drain: a shutdown signal issued while requests are in flight
/// does not stop the server. It keeps running, accepts nothing new, and
/// every in-flight request may still complete; only when the last one
/// completes does the handle reach `Stopped`.
pub proof fn lemma_shutdown_waits_for_in_flight(h: ServerHandle)
    requires
        h.wf(),
        h.state == ServerState::Running,
        h.in_flight > 0,
    ensures
        spec_step(h, ServerEvent::Shutdown).state == ServerState::Running,
        spec_step(h, ServerEvent::Shutdown).in_flight == h.in_flight,
        spec_step(h, ServerEvent::Shutdown).draining,
{
}

/// After a shutdown signal, exactly the in-flight requests still
/// complete: the handle stays `Running` through the completion of all but
/// the last one, and reaches `Stopped` with the last.
pub proof fn lemma_drain_stops_after_last_completion(h: ServerHandle, n: nat)
    requires
        h.wf(),
        h.state == ServerState::Running,
        h.draining,
        h.in_flight == n,
        n > 0,
    ensures
        spec_run_events(h, Seq::new(n, |i: int| ServerEvent::Complete)).state
            == ServerState::Stopped,
        spec_run_events(h, Seq::new((n - 1) as nat, |i: int| ServerEvent::Complete)).state
            == ServerState::Running,
    decreases n,
{
    let completes = Seq::new(n, |i: int| ServerEvent::Complete);
    let shorter = Seq::new((n - 1) as nat, |i: int| ServerEvent::Complete);
    let h1 = spec_step(h, ServerEvent::Complete);
    assert(completes[0] == ServerEvent::Complete);
    assert(completes.drop_first() =~= shorter);
    if n == 1 {
        assert(h1.state == ServerState::Stopped);
        lemma_stopped_is_terminal(h1, shorter);
        assert(spec_run_events(h, shorter) == h);
    } else {
        lemma_step_preserves_wf(h, ServerEvent::Complete);
        lemma_drain_stops_after_last_completion(h1, (n - 1) as nat);
        // The two claimed runs from `h` are one `Complete` followed by the
        // runs the recursive call speaks of from `h1`.
        assert(spec_run_events(h, completes) == spec_run_events(h1, shorter));
        assert(shorter[0] == ServerEvent::Complete);
        assert(shorter.drop_first() =~= Seq::new((n - 2) as nat, |i: int| ServerEvent::Complete));
        assert(spec_run_events(h, shorter) == spec_run_events(
            h1,
            Seq::new((n - 2) as nat, |i: int| ServerEvent::Complete),
        ));
    }
}

} // verus!
