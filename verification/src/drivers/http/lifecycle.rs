//! The life of the two listeners, from binding to the exit of the process.
//!
//! The orchestrator decides; whoever runs the listeners reports what happened
//! as an `Event` and carries out the `Action` it gets back.

use vstd::prelude::*;

verus! {

/// Where the service stands.
#[derive(Clone, Copy, Debug, PartialEq, Eq, Structural)]
pub enum Phase {
    /// Nothing is bound yet.
    Idle,
    /// Both listeners accept connections.
    Serving,
    /// No listener accepts any more; requests in flight are finishing.
    Draining,
    /// Nothing is left to do.
    Stopped,
}

/// One of the two listeners.
#[derive(Clone, Copy, Debug, PartialEq, Eq, Structural)]
pub enum Listener {
    Application,
    Metrics,
}

/// What happened outside.
#[derive(Clone, Copy, Debug, PartialEq, Eq, Structural)]
pub enum Event {
    /// Both listeners are bound and accept connections.
    Bound,
    /// A listener could not be bound.
    BindFailed(Listener),
    /// The operating system asked the process to end, by an interrupt or a
    /// termination request.
    ShutdownSignal,
    /// A listener has no request in flight any more.
    Drained(Listener),
}

/// What is to be done outside.
#[derive(Clone, Copy, Debug, PartialEq, Eq, Structural)]
pub enum Action {
    /// Nothing but to wait for the next event.
    Wait,
    /// Report that the service is ready.
    ReportReady,
    /// Give up with a failure status; nothing was served.
    Abort,
    /// Make both listeners stop accepting and let them drain.
    StopAccepting,
    /// Flush and release the telemetry pipeline, whether or not that
    /// succeeds, then leave with status zero.
    ShutdownTelemetry,
}

/// The state of the orchestration.
#[derive(Clone, Copy, Debug, PartialEq, Eq, Structural)]
pub struct Orchestrator {
    pub phase: Phase,
    /// The application listener has nothing in flight and accepts nothing.
    pub application_drained: bool,
    /// The metrics listener has nothing in flight and accepts nothing.
    pub metrics_drained: bool,
    /// A listener could not be bound.
    pub failed: bool,
}

/// The state before anything is bound.
pub open spec fn initial() -> Orchestrator {
    Orchestrator {
        phase: Phase::Idle,
        application_drained: false,
        metrics_drained: false,
        failed: false,
    }
}

/// The state with one more listener drained.
pub open spec fn with_drained(state: Orchestrator, listener: Listener) -> Orchestrator {
    let application = state.application_drained || listener == Listener::Application;
    let metrics = state.metrics_drained || listener == Listener::Metrics;
    Orchestrator {
        phase: if application && metrics {
            Phase::Stopped
        } else {
            Phase::Draining
        },
        application_drained: application,
        metrics_drained: metrics,
        failed: state.failed,
    }
}

/// The state that follows `state` on `event`. An event that the phase does
/// not wait for changes nothing; in particular a second shutdown signal does
/// not, and nothing leaves `Stopped`.
pub open spec fn next(state: Orchestrator, event: Event) -> Orchestrator {
    match (state.phase, event) {
        (Phase::Idle, Event::Bound) => Orchestrator { phase: Phase::Serving, ..state },
        (Phase::Idle, Event::BindFailed(_)) => Orchestrator {
            phase: Phase::Stopped,
            failed: true,
            ..state
        },
        (Phase::Idle, Event::ShutdownSignal) => Orchestrator {
            phase: Phase::Stopped,
            application_drained: true,
            metrics_drained: true,
            ..state
        },
        (Phase::Serving, Event::ShutdownSignal) => Orchestrator { phase: Phase::Draining, ..state },
        (Phase::Draining, Event::Drained(listener)) => with_drained(state, listener),
        _ => state,
    }
}

/// What is to be done when `event` arrives in `state`.
pub open spec fn action(state: Orchestrator, event: Event) -> Action {
    match (state.phase, event) {
        (Phase::Idle, Event::Bound) => Action::ReportReady,
        (Phase::Idle, Event::BindFailed(_)) => Action::Abort,
        (Phase::Idle, Event::ShutdownSignal) => Action::ShutdownTelemetry,
        (Phase::Serving, Event::ShutdownSignal) => Action::StopAccepting,
        (Phase::Draining, Event::Drained(listener)) => if with_drained(state, listener).phase
            == Phase::Stopped {
            Action::ShutdownTelemetry
        } else {
            Action::Wait
        },
        _ => Action::Wait,
    }
}

/// Whether the listeners accept new connections.
pub open spec fn accepting(state: Orchestrator) -> bool {
    state.phase == Phase::Serving
}

/// The status the process leaves with, once it may.
pub open spec fn exit_status(state: Orchestrator) -> Option<u8> {
    if state.phase != Phase::Stopped {
        None
    } else if state.failed {
        Some(1u8)
    } else {
        Some(0u8)
    }
}

/// The state after the events of `events`, in their order, from `state`.
pub open spec fn run(state: Orchestrator, events: Seq<Event>) -> Orchestrator
    decreases events.len(),
{
    if events.len() == 0 {
        state
    } else {
        next(run(state, events.drop_last()), events.last())
    }
}

/// How often the telemetry pipeline is told to shut down while the events
/// of `events` arrive, in their order, from `state`.
pub open spec fn telemetry_shutdowns(state: Orchestrator, events: Seq<Event>) -> nat
    decreases events.len(),
{
    if events.len() == 0 {
        0
    } else {
        telemetry_shutdowns(state, events.drop_last()) + (if action(
            run(state, events.drop_last()),
            events.last(),
        ) == Action::ShutdownTelemetry {
            1nat
        } else {
            0nat
        })
    }
}

impl Orchestrator {
    /// The orchestration of a service that has bound nothing yet.
    pub fn new() -> (state: Orchestrator)
        ensures
            state == initial(),
    {
        Orchestrator {
            phase: Phase::Idle,
            application_drained: false,
            metrics_drained: false,
            failed: false,
        }
    }

    /// Takes in one event and says what is to be done about it.
    pub fn step(&mut self, event: Event) -> (todo: Action)
        ensures
            *final(self) == next(*old(self), event),
            todo == action(*old(self), event),
    {
        match (self.phase, event) {
            (Phase::Idle, Event::Bound) => {
                self.phase = Phase::Serving;
                Action::ReportReady
            },
            (Phase::Idle, Event::BindFailed(_)) => {
                self.phase = Phase::Stopped;
                self.failed = true;
                Action::Abort
            },
            (Phase::Idle, Event::ShutdownSignal) => {
                self.phase = Phase::Stopped;
                self.application_drained = true;
                self.metrics_drained = true;
                Action::ShutdownTelemetry
            },
            (Phase::Serving, Event::ShutdownSignal) => {
                self.phase = Phase::Draining;
                Action::StopAccepting
            },
            (Phase::Draining, Event::Drained(listener)) => {
                match listener {
                    Listener::Application => {
                        self.application_drained = true;
                    },
                    Listener::Metrics => {
                        self.metrics_drained = true;
                    },
                }
                if self.application_drained && self.metrics_drained {
                    self.phase = Phase::Stopped;
                    Action::ShutdownTelemetry
                } else {
                    Action::Wait
                }
            },
            _ => Action::Wait,
        }
    }

    /// Whether the listeners accept new connections.
    pub fn is_accepting(&self) -> (yes: bool)
        ensures
            yes == accepting(*self),
    {
        self.phase == Phase::Serving
    }

    /// The status the process leaves with; `None` while it must stay.
    pub fn exit_code(&self) -> (status: Option<u8>)
        ensures
            status == exit_status(*self),
    {
        if self.phase != Phase::Stopped {
            None
        } else if self.failed {
            Some(1)
        } else {
            Some(0)
        }
    }
}

/// What holds of every state that events lead to from the initial one.
pub open spec fn orderly(state: Orchestrator) -> bool {
    &&& state.failed ==> state.phase == Phase::Stopped
    &&& state.phase == Phase::Stopped && !state.failed ==> state.application_drained
        && state.metrics_drained
    &&& state.phase == Phase::Idle || state.phase == Phase::Serving ==> !state.application_drained
        && !state.metrics_drained
}

/// Coordinated shutdown, part one. Whatever happens, the service stops
/// without a failure only when both listeners have drained.
pub proof fn lemma_stops_only_drained(events: Seq<Event>)
    ensures
        orderly(run(initial(), events)),
        exit_status(run(initial(), events)) == Some(0u8) ==> run(
            initial(),
            events,
        ).application_drained && run(initial(), events).metrics_drained,
    decreases events.len(),
{
    if events.len() > 0 {
        lemma_stops_only_drained(events.drop_last());
    }
}

/// Once the listeners have stopped accepting they never accept again.
pub proof fn lemma_never_accepts_again(state: Orchestrator, events: Seq<Event>)
    requires
        state.phase == Phase::Draining || state.phase == Phase::Stopped,
    ensures
        run(state, events).phase == Phase::Draining || run(state, events).phase == Phase::Stopped,
        !accepting(run(state, events)),
    decreases events.len(),
{
    if events.len() > 0 {
        lemma_never_accepts_again(state, events.drop_last());
    }
}

/// Running `first` and then `second` is running their concatenation.
pub proof fn lemma_run_split(state: Orchestrator, first: Seq<Event>, second: Seq<Event>)
    ensures
        run(state, first + second) == run(run(state, first), second),
    decreases second.len(),
{
    if second.len() == 0 {
        assert(first + second =~= first);
    } else {
        assert((first + second).drop_last() =~= first + second.drop_last());
        lemma_run_split(state, first, second.drop_last());
    }
}

/// Coordinated shutdown, part two. After a shutdown signal has arrived, in
/// whatever state, no listener accepts a connection, however many events
/// follow.
pub proof fn lemma_signal_ends_accepting(state: Orchestrator, before: Seq<Event>, after: Seq<Event>)
    ensures
        !accepting(run(state, (before + seq![Event::ShutdownSignal]) + after)),
{
    let at_signal = run(state, before);
    let signalled = before + seq![Event::ShutdownSignal];
    assert(signalled.drop_last() =~= before);
    assert(run(state, signalled) == next(at_signal, Event::ShutdownSignal));
    lemma_run_split(state, signalled, after);
    lemma_never_accepts_again(run(state, signalled), after);
}

/// The telemetry pipeline is shut down once in a run that ends without a
/// failure, and never in any other.
pub proof fn lemma_telemetry_shut_down_once(events: Seq<Event>)
    ensures
        telemetry_shutdowns(initial(), events) == (if exit_status(run(initial(), events)) == Some(
            0u8,
        ) {
            1nat
        } else {
            0nat
        }),
    decreases events.len(),
{
    if events.len() > 0 {
        lemma_telemetry_shut_down_once(events.drop_last());
        lemma_stops_only_drained(events.drop_last());
    }
}

} // verus!
