use vstd::prelude::*;

verus! {

/// Where the supervisor stands in its life.
#[derive(Clone, Copy, PartialEq, Eq, Structural)]
pub enum Phase {
    Constructed,
    Starting,
    Serving,
    Draining,
    Stopped,
}

/// What the runtime reports to the supervisor.
#[derive(Clone, Copy, PartialEq, Eq, Structural)]
pub enum Event {
    /// `start` was called.
    Start,
    /// The listener is bound.
    Bound,
    /// The listener could not be bound.
    BindFailed,
    /// A new connection arrived.
    Connect,
    /// A request in flight finished.
    RequestDone,
    /// A termination signal arrived.
    Signal,
    /// `stop` was called.
    Stop,
    /// The drain deadline elapsed.
    DrainDeadline,
    /// Serving failed beyond recovery.
    Fatal,
}

/// What the runtime must do next.
#[derive(Clone, Copy, PartialEq, Eq, Structural)]
pub enum Action {
    /// Nothing.
    Idle,
    /// Bind the listener.
    Bind,
    /// Accept the new connection and serve its request.
    Accept,
    /// Refuse the new connection.
    Refuse,
    /// Deliver the finished request's response.
    Deliver,
    /// Deliver the finished request's response, then release the pool.
    DeliverThenRelease,
    /// Release the pool; the process may exit.
    ReleasePool,
}

/// The supervisor's state: its phase and the number of requests in flight.
#[derive(Clone, Copy, PartialEq, Eq, Structural)]
pub struct Supervisor {
    pub phase: Phase,
    pub in_flight: u64,
}

/// Whether an action releases the pool.
pub open spec fn releases(a: Action) -> bool {
    a == Action::ReleasePool || a == Action::DeliverThenRelease
}

/// Whether an action delivers a response.
pub open spec fn delivers(a: Action) -> bool {
    a == Action::Deliver || a == Action::DeliverThenRelease
}

/// A stopped supervisor has nothing in flight.
pub open spec fn wf(s: Supervisor) -> bool {
    s.phase == Phase::Stopped ==> s.in_flight == 0
}

/// The supervisor's transition on one event.
pub open spec fn next(s: Supervisor, e: Event) -> (Supervisor, Action) {
    let stopped = Supervisor { phase: Phase::Stopped, in_flight: 0 };
    match s.phase {
        Phase::Constructed => match e {
            Event::Start => (Supervisor { phase: Phase::Starting, ..s }, Action::Bind),
            Event::Connect => (s, Action::Refuse),
            Event::Stop | Event::Signal | Event::Fatal => (stopped, Action::ReleasePool),
            _ => (s, Action::Idle),
        },
        Phase::Starting => match e {
            Event::Bound => (Supervisor { phase: Phase::Serving, ..s }, Action::Idle),
            Event::Connect => (s, Action::Refuse),
            Event::BindFailed | Event::Stop | Event::Signal | Event::Fatal => (
                stopped,
                Action::ReleasePool,
            ),
            _ => (s, Action::Idle),
        },
        Phase::Serving => match e {
            Event::Connect => if s.in_flight < u64::MAX {
                (Supervisor { in_flight: (s.in_flight + 1) as u64, ..s }, Action::Accept)
            } else {
                (s, Action::Refuse)
            },
            Event::RequestDone => if s.in_flight > 0 {
                (Supervisor { in_flight: (s.in_flight - 1) as u64, ..s }, Action::Deliver)
            } else {
                (s, Action::Idle)
            },
            Event::Stop | Event::Signal => if s.in_flight == 0 {
                (stopped, Action::ReleasePool)
            } else {
                (Supervisor { phase: Phase::Draining, ..s }, Action::Idle)
            },
            Event::Fatal => (stopped, Action::ReleasePool),
            _ => (s, Action::Idle),
        },
        Phase::Draining => match e {
            Event::Connect => (s, Action::Refuse),
            Event::RequestDone => if s.in_flight > 1 {
                (Supervisor { in_flight: (s.in_flight - 1) as u64, ..s }, Action::Deliver)
            } else {
                (stopped, Action::DeliverThenRelease)
            },
            Event::DrainDeadline | Event::Fatal => (stopped, Action::ReleasePool),
            _ => (s, Action::Idle),
        },
        Phase::Stopped => match e {
            Event::Connect => (s, Action::Refuse),
            _ => (s, Action::Idle),
        },
    }
}

impl Supervisor {
    /// A supervisor whose components are wired but which does not serve yet.
    pub fn new() -> (r: Supervisor)
        ensures
            r.phase == Phase::Constructed,
            r.in_flight == 0,
    {
        Supervisor { phase: Phase::Constructed, in_flight: 0 }
    }

    /// Applies one event and says what the runtime must do.
    pub fn step(&mut self, e: Event) -> (r: Action)
        requires
            wf(*old(self)),
        ensures
            (*final(self), r) == next(*old(self), e),
            wf(*final(self)),
    {
        let stopped = Supervisor { phase: Phase::Stopped, in_flight: 0 };
        let (s, a) = match self.phase {
            Phase::Constructed => match e {
                Event::Start => (Supervisor { phase: Phase::Starting, in_flight: self.in_flight }, Action::Bind),
                Event::Connect => (*self, Action::Refuse),
                Event::Stop | Event::Signal | Event::Fatal => (stopped, Action::ReleasePool),
                _ => (*self, Action::Idle),
            },
            Phase::Starting => match e {
                Event::Bound => (Supervisor { phase: Phase::Serving, in_flight: self.in_flight }, Action::Idle),
                Event::Connect => (*self, Action::Refuse),
                Event::BindFailed | Event::Stop | Event::Signal | Event::Fatal => (
                    stopped,
                    Action::ReleasePool,
                ),
                _ => (*self, Action::Idle),
            },
            Phase::Serving => match e {
                Event::Connect => if self.in_flight < u64::MAX {
                    (Supervisor { phase: self.phase, in_flight: self.in_flight + 1 }, Action::Accept)
                } else {
                    (*self, Action::Refuse)
                },
                Event::RequestDone => if self.in_flight > 0 {
                    (Supervisor { phase: self.phase, in_flight: self.in_flight - 1 }, Action::Deliver)
                } else {
                    (*self, Action::Idle)
                },
                Event::Stop | Event::Signal => if self.in_flight == 0 {
                    (stopped, Action::ReleasePool)
                } else {
                    (Supervisor { phase: Phase::Draining, in_flight: self.in_flight }, Action::Idle)
                },
                Event::Fatal => (stopped, Action::ReleasePool),
                _ => (*self, Action::Idle),
            },
            Phase::Draining => match e {
                Event::Connect => (*self, Action::Refuse),
                Event::RequestDone => if self.in_flight > 1 {
                    (Supervisor { phase: self.phase, in_flight: self.in_flight - 1 }, Action::Deliver)
                } else {
                    (stopped, Action::DeliverThenRelease)
                },
                Event::DrainDeadline | Event::Fatal => (stopped, Action::ReleasePool),
                _ => (*self, Action::Idle),
            },
            Phase::Stopped => match e {
                Event::Connect => (*self, Action::Refuse),
                _ => (*self, Action::Idle),
            },
        };
        *self = s;
        a
    }

    /// `start`: asks for the listener to be bound.
    pub fn start(&mut self) -> (r: Action)
        requires
            wf(*old(self)),
        ensures
            (*final(self), r) == next(*old(self), Event::Start),
            wf(*final(self)),
    {
        self.step(Event::Start)
    }

    /// `stop`: begins a graceful shutdown; a second call changes nothing.
    pub fn stop(&mut self) -> (r: Action)
        requires
            wf(*old(self)),
        ensures
            (*final(self), r) == next(*old(self), Event::Stop),
            wf(*final(self)),
    {
        self.step(Event::Stop)
    }
}

/// Once shutdown has begun, a new connection is refused and the requests in
/// flight are left as they were.
pub proof fn lemma_no_new_connections_after_signal(s: Supervisor)
    requires
        s.phase == Phase::Draining || s.phase == Phase::Stopped,
    ensures
        next(s, Event::Connect) == (s, Action::Refuse),
{
}

/// A termination signal while serving stops accepting but keeps every
/// request in flight; the pool is released at once only when none is.
pub proof fn lemma_signal_keeps_in_flight(s: Supervisor)
    requires
        s.phase == Phase::Serving,
    ensures
        s.in_flight > 0 ==> next(s, Event::Signal) == (
            Supervisor { phase: Phase::Draining, in_flight: s.in_flight },
            Action::Idle,
        ),
        s.in_flight == 0 ==> next(s, Event::Signal).1 == Action::ReleasePool,
{
}

/// While draining, each finished request has its response delivered, and the
/// pool is released only together with the response of the last one.
pub proof fn lemma_drain_delivers(s: Supervisor)
    requires
        s.phase == Phase::Draining,
        s.in_flight > 0,
    ensures
        delivers(next(s, Event::RequestDone).1),
        next(s, Event::RequestDone).0.in_flight == s.in_flight - 1,
        releases(next(s, Event::RequestDone).1) <==> s.in_flight == 1,
        next(s, Event::RequestDone).0.phase == Phase::Stopped <==> s.in_flight == 1,
{
}

/// Stopping twice is stopping once: the second call changes nothing and
/// releases nothing.
pub proof fn lemma_stop_idempotent(s: Supervisor)
    requires
        wf(s),
    ensures
        next(next(s, Event::Stop).0, Event::Stop) == (next(s, Event::Stop).0, Action::Idle),
{
}

/// The pool is released exactly once: only on entering `Stopped`, which no
/// event leaves.
pub proof fn lemma_release_once(s: Supervisor, e: Event)
    ensures
        releases(next(s, e).1) ==> s.phase != Phase::Stopped && next(s, e).0.phase == Phase::Stopped,
        s.phase == Phase::Stopped ==> next(s, e).0 == s && !releases(next(s, e).1),
{
}

} // verus!
