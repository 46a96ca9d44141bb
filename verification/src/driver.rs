//! The startup driver: a state machine over the phases of one run.
//!
//! The outer process performs the outside work — validating the session,
//! downloading the graph, running the probes — but every decision about what
//! happens next is taken here and verified: fatal setup failures abort the
//! run before the graph is fetched and before the dispatcher starts, and the
//! graph is only ever fetched once the session validation has passed.

use crate::errors::SetupError;
use vstd::prelude::*;

verus! {

/// Where a run stands.
#[derive(Clone, Copy, Debug, PartialEq, Eq, Structural)]
pub enum Phase {
    /// Nothing has happened yet.
    Init,
    /// The startup session was established: certificate, credential and
    /// address are usable.
    SessionValidated,
    /// The node list arrived; it holds `total` nodes.
    GraphFetched { total: usize },
    /// Every probe completed and the report was produced.
    Reported,
    /// A fatal failure ended the run.
    Aborted,
}

/// What the outside work reported back.
#[derive(Clone, Copy, Debug, PartialEq, Eq, Structural)]
pub enum RunEvent {
    /// The startup validation session was established.
    SessionOk,
    /// The startup validation failed: bad certificate, bad credential, or no
    /// connection.
    SessionFailed(SetupError),
    /// The full node list arrived, `total` nodes long.
    GraphOk { total: usize },
    /// The node list could not be downloaded.
    GraphFailed,
    /// The dispatcher reached its join barrier and the report was produced.
    ProbesDone,
}

/// What the outer process must do next.
#[derive(Clone, Copy, Debug, PartialEq, Eq, Structural)]
pub enum RunAction {
    /// Load certificate and credential and establish the validation session.
    ValidateSession,
    /// Download the full node list.
    FetchGraph,
    /// Run one probe per node through the dispatcher.
    RunProbes { total: usize },
    /// Print the report; the run is over.
    Finish,
    /// Print a diagnostic and stop with a failure status.
    Abort,
}

/// The action each phase calls for.
pub open spec fn action_of(p: Phase) -> RunAction {
    match p {
        Phase::Init => RunAction::ValidateSession,
        Phase::SessionValidated => RunAction::FetchGraph,
        Phase::GraphFetched { total } => RunAction::RunProbes { total },
        Phase::Reported => RunAction::Finish,
        Phase::Aborted => RunAction::Abort,
    }
}

/// The phase that follows `p` once the outside work reports `e`. Any event a
/// phase does not expect aborts the run: the driver never guesses.
pub open spec fn step(p: Phase, e: RunEvent) -> Phase {
    match (p, e) {
        (Phase::Init, RunEvent::SessionOk) => Phase::SessionValidated,
        (Phase::SessionValidated, RunEvent::GraphOk { total }) => Phase::GraphFetched { total },
        (Phase::GraphFetched { .. }, RunEvent::ProbesDone) => Phase::Reported,
        _ => Phase::Aborted,
    }
}

/// The action the current phase calls for.
pub fn next_action(p: &Phase) -> (a: RunAction)
    ensures
        a == action_of(*p),
{
    match p {
        Phase::Init => RunAction::ValidateSession,
        Phase::SessionValidated => RunAction::FetchGraph,
        Phase::GraphFetched { total } => RunAction::RunProbes { total: *total },
        Phase::Reported => RunAction::Finish,
        Phase::Aborted => RunAction::Abort,
    }
}

/// Advances the run by one observed event.
pub fn on_event(p: Phase, e: RunEvent) -> (q: Phase)
    ensures
        q == step(p, e),
{
    match (p, e) {
        (Phase::Init, RunEvent::SessionOk) => Phase::SessionValidated,
        (Phase::SessionValidated, RunEvent::GraphOk { total }) => Phase::GraphFetched { total },
        (Phase::GraphFetched { .. }, RunEvent::ProbesDone) => Phase::Reported,
        _ => Phase::Aborted,
    }
}

/// The graph is only ever fetched from a phase the session validation has
/// passed: no credential or certificate failure can be followed by a graph
/// download.
pub proof fn lemma_no_fetch_before_validation(p: Phase)
    ensures
        action_of(p) == RunAction::FetchGraph ==> p == Phase::SessionValidated,
{
}

/// Probing is only ever reached through a successful graph download from a
/// validated session: the one predecessor of the probing phase is
/// `SessionValidated`, under the event that delivered the node list.
pub proof fn lemma_probes_only_after_fetch(q: Phase, e: RunEvent, total: usize)
    ensures
        step(q, e) == (Phase::GraphFetched { total }) ==> q == Phase::SessionValidated && e == (
        RunEvent::GraphOk { total }),
{
}

/// A failed startup validation aborts the run at once.
pub proof fn lemma_setup_failure_aborts(err: SetupError)
    ensures
        step(Phase::Init, RunEvent::SessionFailed(err)) == Phase::Aborted,
        action_of(step(Phase::Init, RunEvent::SessionFailed(err))) == RunAction::Abort,
{
}

/// An aborted run stays aborted: no later event restarts probing.
pub proof fn lemma_abort_is_final(e: RunEvent)
    ensures
        step(Phase::Aborted, e) == Phase::Aborted,
{
}

} // verus!
