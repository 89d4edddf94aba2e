//! The server lifecycle as a state machine.
//!
//! One run of the server moves through `Starting`, `ProbingPorts`,
//! `Binding`, `Serving`, optionally `Draining`, and `Stopped`, with
//! `Failed` reachable from `Starting` (a bad directory),
//! `ProbingPorts` (exhaustion), `Binding` (the durable bind lost the
//! race that probing left open, or a permission problem), and `Serving`
//! (an unrecoverable accept-loop error). Per-request errors are handled
//! inside the delegated file responder and are not lifecycle events.
//!
//! The surrounding process performs each phase's outside work (checking
//! the directory, probing, binding, serving) and reports the outcome as
//! an event; `step` decides the next phase.

use vstd::prelude::*;
use crate::config::ConfigError;
use crate::ports::NoPortAvailable;

verus! {

/// Why a run ended without a clean shutdown. Each variant is fatal and
/// reported distinctly, so that "nothing was free" can be told apart
/// from "something grabbed the port at the last instant".
#[derive(Debug, Clone, Copy, PartialEq, Eq, Structural)]
pub enum ServerError {
    /// The serving directory was rejected before any network activity.
    Config(ConfigError),
    /// Probing exhausted every candidate port.
    NoPortAvailable(NoPortAvailable),
    /// The durable bind on the probed port failed after probing had
    /// reported it free.
    BindRaceFailure {
        /// The port the durable bind was attempted on.
        port: u16,
    },
    /// The accept loop hit an unrecoverable error while serving.
    AcceptLoopFailure,
}

/// Where one run of the server stands.
#[derive(Debug, Clone, Copy, PartialEq, Eq, Structural)]
pub enum Phase {
    /// Resolving and validating the configuration.
    Starting,
    /// Searching for a free port.
    ProbingPorts,
    /// Performing the durable bind on the winning port.
    Binding {
        /// The port probing chose.
        port: u16,
    },
    /// Accepting connections.
    Serving {
        /// The port the server is bound to.
        port: u16,
    },
    /// No longer accepting; in-flight responses may finish.
    Draining {
        /// The port the server was bound to.
        port: u16,
    },
    /// A clean end of the run.
    Stopped,
    /// A fatal end of the run.
    Failed(ServerError),
}

/// What the outside work of the current phase reported.
#[derive(Debug, Clone, Copy, PartialEq, Eq, Structural)]
pub enum Event {
    /// The serving directory exists and is a directory.
    DirectoryAccepted,
    /// The serving directory was rejected.
    DirectoryRejected(ConfigError),
    /// A probe found this port free.
    PortAcquired(u16),
    /// Probing ran out of candidates.
    PortsExhausted(NoPortAvailable),
    /// The durable bind succeeded.
    BindSucceeded,
    /// The durable bind failed.
    BindFailed,
    /// A termination signal arrived while serving.
    ShutdownRequested,
    /// The accept loop hit an unrecoverable error.
    AcceptFailed,
    /// Every in-flight response has completed.
    Drained,
}

/// Which events the outside work of each phase may report. `Stopped`
/// and `Failed` are terminal: nothing more may happen.
pub open spec fn valid_event(p: Phase, e: Event) -> bool {
    match p {
        Phase::Starting => e is DirectoryAccepted || e is DirectoryRejected,
        Phase::ProbingPorts => e is PortAcquired || e is PortsExhausted,
        Phase::Binding { .. } => e is BindSucceeded || e is BindFailed,
        Phase::Serving { .. } => e is ShutdownRequested || e is AcceptFailed,
        Phase::Draining { .. } => e is Drained,
        Phase::Stopped => false,
        Phase::Failed(_) => false,
    }
}

/// The phase that follows `p` when its outside work reports `e`.
pub open spec fn spec_step(p: Phase, e: Event) -> Phase {
    match (p, e) {
        (Phase::Starting, Event::DirectoryAccepted) => Phase::ProbingPorts,
        (Phase::Starting, Event::DirectoryRejected(err)) => Phase::Failed(ServerError::Config(err)),
        (Phase::ProbingPorts, Event::PortAcquired(port)) => Phase::Binding { port },
        (Phase::ProbingPorts, Event::PortsExhausted(err)) => Phase::Failed(
            ServerError::NoPortAvailable(err),
        ),
        (Phase::Binding { port }, Event::BindSucceeded) => Phase::Serving { port },
        (Phase::Binding { port }, Event::BindFailed) => Phase::Failed(
            ServerError::BindRaceFailure { port },
        ),
        (Phase::Serving { port }, Event::ShutdownRequested) => Phase::Draining { port },
        (Phase::Serving { .. }, Event::AcceptFailed) => Phase::Failed(
            ServerError::AcceptLoopFailure,
        ),
        (Phase::Draining { .. }, Event::Drained) => Phase::Stopped,
        (other, _) => other,
    }
}

/// Advance the lifecycle by one reported outcome.
pub fn step(p: Phase, e: Event) -> (next: Phase)
    requires
        valid_event(p, e),
    ensures
        next == spec_step(p, e),
{
    match (p, e) {
        (Phase::Starting, Event::DirectoryAccepted) => Phase::ProbingPorts,
        (Phase::Starting, Event::DirectoryRejected(err)) => Phase::Failed(ServerError::Config(err)),
        (Phase::ProbingPorts, Event::PortAcquired(port)) => Phase::Binding { port },
        (Phase::ProbingPorts, Event::PortsExhausted(err)) => Phase::Failed(
            ServerError::NoPortAvailable(err),
        ),
        (Phase::Binding { port }, Event::BindSucceeded) => Phase::Serving { port },
        (Phase::Binding { port }, Event::BindFailed) => Phase::Failed(
            ServerError::BindRaceFailure { port },
        ),
        (Phase::Serving { port }, Event::ShutdownRequested) => Phase::Draining { port },
        (Phase::Serving { .. }, Event::AcceptFailed) => Phase::Failed(
            ServerError::AcceptLoopFailure,
        ),
        (Phase::Draining { .. }, Event::Drained) => Phase::Stopped,
        (other, _) => other,
    }
}

/// Law: a failure arises only while starting, probing, binding, or
/// serving, and a failure while serving is an accept-loop failure:
/// nothing that happens during draining, and no single request, can
/// turn a run fatal.
pub proof fn lemma_failures_localised(p: Phase, e: Event)
    requires
        valid_event(p, e),
        !(p is Failed),
    ensures
        spec_step(p, e) is Failed ==> (p is Starting || p is ProbingPorts || p is Binding
            || p is Serving),
        p is Serving && spec_step(p, e) is Failed ==> spec_step(p, e) == Phase::Failed(
            ServerError::AcceptLoopFailure,
        ),
        p is Draining ==> spec_step(p, e) is Stopped,
{
}

/// Law: the end states are really ends: no event is valid in `Stopped`
/// or `Failed`, so a finished run cannot move again.
pub proof fn lemma_terminal_phases(p: Phase, e: Event)
    requires
        p is Stopped || p is Failed,
    ensures
        !valid_event(p, e),
{
}

/// Law: serving a port leads only to draining that port (on a shutdown
/// signal) or to a fatal accept-loop failure: the server never changes
/// port, and never stops accepting without one of the two causes.
pub proof fn lemma_serving_transitions(port: u16, e: Event)
    requires
        valid_event((Phase::Serving { port }), e),
    ensures
        spec_step((Phase::Serving { port }), e) == (Phase::Draining { port }) || spec_step(
            (Phase::Serving { port }),
            e,
        ) == Phase::Failed(ServerError::AcceptLoopFailure),
        e is ShutdownRequested ==> spec_step((Phase::Serving { port }), e) == (Phase::Draining {
            port,
        }),
{
}

} // verus!
