//! The values the race produces and the policy that maps them to an exit path.

use vstd::prelude::*;

verus! {

/// A fully validated configuration for the proxy service.
///
/// The supervisor never inspects it: it is handed, as an opaque value, to the
/// service task at launch. Resolving and validating a configuration from a
/// file or from built-in defaults happens before the supervisor runs.
#[derive(Debug)]
pub struct Config {}

impl Config {
    /// The built-in default configuration, used when no configuration source
    /// is supplied.
    pub fn new() -> (c: Config) {
        Config {}
    }
}

/// The error a failing service task reports: a message describing why the
/// proxy could not continue (a bind failure, a fatal I/O error, a
/// configuration rejected at runtime).
pub struct ServiceError {
    pub message: String,
}

impl ServiceError {
    pub fn new(message: String) -> (e: ServiceError)
        ensures
            e.message == message,
    {
        ServiceError { message }
    }
}

/// What the service task resolved with, produced exactly once when it
/// terminates. `Success` is anomalous: the proxy service is contracted to
/// run until shut down, so completing without an error signals a defect in
/// the service itself.
pub enum ServiceOutcome {
    Success,
    Failure(ServiceError),
}

/// The first-to-finish outcome of racing the service task against the
/// shutdown monitor. Constructed once per run and consumed immediately to
/// pick the exit path.
pub enum RaceResult {
    ServiceFinished(ServiceOutcome),
    ShutdownRequested,
}

/// How the process must end, as decided from the race outcome.
pub enum Decision {
    /// Operator-requested shutdown: the expected end of a healthy run;
    /// the caller exits with status 0.
    ExitCleanly,
    /// The service failed: the caller reports the error and exits with a
    /// non-zero status.
    ReportFailure(ServiceError),
    /// The service completed successfully, which its run-forever contract
    /// forbids: the caller must abort the process rather than return.
    Abort,
}

/// The policy table: the decision owed for each race outcome.
pub open spec fn decision_of(winner: RaceResult) -> Decision {
    match winner {
        RaceResult::ServiceFinished(ServiceOutcome::Success) => Decision::Abort,
        RaceResult::ServiceFinished(ServiceOutcome::Failure(e)) => Decision::ReportFailure(e),
        RaceResult::ShutdownRequested => Decision::ExitCleanly,
    }
}

/// Interpret the race outcome by the policy table.
pub fn decide(winner: RaceResult) -> (d: Decision)
    ensures
        d == decision_of(winner),
{
    match winner {
        RaceResult::ServiceFinished(ServiceOutcome::Success) => Decision::Abort,
        RaceResult::ServiceFinished(ServiceOutcome::Failure(e)) => Decision::ReportFailure(e),
        RaceResult::ShutdownRequested => Decision::ExitCleanly,
    }
}

/// A run the shutdown monitor wins ends cleanly: operator-requested
/// termination is the expected end of a healthy run, not an error.
pub proof fn lemma_shutdown_wins_clean_exit(winner: RaceResult)
    requires
        winner is ShutdownRequested,
    ensures
        decision_of(winner) == Decision::ExitCleanly,
{
}

/// A service failure is propagated as the run's outcome with the original
/// error unmodified: no wrapping that loses the error's content.
pub proof fn lemma_failure_preserved(e: ServiceError)
    ensures
        decision_of(RaceResult::ServiceFinished(ServiceOutcome::Failure(e)))
            == Decision::ReportFailure(e),
{
}

/// The decision is to abort exactly when the service task finished
/// successfully, the one outcome its run-forever contract forbids; neither
/// a service failure nor a requested shutdown aborts.
pub proof fn lemma_abort_only_on_anomalous_success(winner: RaceResult)
    ensures
        decision_of(winner) is Abort
            <==> winner == RaceResult::ServiceFinished(ServiceOutcome::Success),
{
}

} // verus!
