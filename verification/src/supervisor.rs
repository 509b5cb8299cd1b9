//! The supervisor: one proxy session run to completion-or-shutdown, with a
//! guaranteed teardown of every unit of work it started.

use vstd::prelude::*;

use crate::env::ExecEnv;
use crate::outcome::{decide, decision_of, Config, Decision, RaceResult, ServiceOutcome};

verus! {

/// Which way the race resolved, without the error payload: the tag the
/// supervisor's state machine records.
#[derive(Clone, Copy)]
pub enum ResolvedKind {
    ServiceFailed,
    ServiceSucceededAnomalously,
    ShutdownRequested,
}

/// The resolved tag of a race outcome.
pub open spec fn kind_of(winner: RaceResult) -> ResolvedKind {
    match winner {
        RaceResult::ServiceFinished(ServiceOutcome::Success) =>
            ResolvedKind::ServiceSucceededAnomalously,
        RaceResult::ServiceFinished(ServiceOutcome::Failure(_)) => ResolvedKind::ServiceFailed,
        RaceResult::ShutdownRequested => ResolvedKind::ShutdownRequested,
    }
}

/// The resolved tag of a race outcome, leaving the outcome itself intact.
pub fn resolve_kind(winner: &RaceResult) -> (k: ResolvedKind)
    ensures
        k == kind_of(*winner),
{
    match winner {
        RaceResult::ServiceFinished(ServiceOutcome::Success) =>
            ResolvedKind::ServiceSucceededAnomalously,
        RaceResult::ServiceFinished(ServiceOutcome::Failure(_)) => ResolvedKind::ServiceFailed,
        RaceResult::ShutdownRequested => ResolvedKind::ShutdownRequested,
    }
}

/// Where a run stands. `Idle` is initial, `Terminated` is terminal, and no
/// transition re-enters `Running`: `start` is the only way in, and it asks
/// for `Idle`.
pub enum Phase {
    Idle,
    Running,
    Resolved(ResolvedKind),
    ShuttingDown,
    Terminated,
}

/// The supervisor of one proxy session: it owns the task-execution
/// environment and both concurrent units of work for the duration of the
/// race, and afterwards owns the duty to cancel whichever unit did not
/// finish.
pub struct Supervisor {
    env: ExecEnv,
    phase: Phase,
}

impl Supervisor {
    /// Where this run stands.
    pub closed spec fn phase(self) -> Phase {
        self.phase
    }

    /// The task-execution environment this run owns.
    pub closed spec fn env(self) -> ExecEnv {
        self.env
    }

    /// Ties the phase to what the environment holds: two units run during
    /// the race, only the losing unit survives resolution, and nothing
    /// survives termination.
    pub open spec fn inv(self) -> bool {
        &&& self.env().inv()
        &&& match self.phase() {
            Phase::Idle => self.env().running_count() == 0 && !self.env().is_shut_down(),
            Phase::Running => self.env().running_count() == 2 && !self.env().is_shut_down(),
            Phase::Resolved(_) => self.env().running_count() == 1 && !self.env().is_shut_down(),
            Phase::ShuttingDown => self.env().running_count() <= 1,
            Phase::Terminated => self.env().running_count() == 0 && self.env().is_shut_down(),
        }
    }

    /// A supervisor for a fresh run, with a newly acquired environment.
    pub fn new() -> (s: Supervisor)
        ensures
            s.inv(),
            s.phase() is Idle,
    {
        Supervisor { env: ExecEnv::acquire(), phase: Phase::Idle }
    }

    /// Start the service task on the given configuration, and the shutdown
    /// monitor, as two independent concurrent units of work. The
    /// configuration goes to the service task untouched; the supervisor
    /// never inspects it.
    pub fn start(&mut self, _config: &Config)
        requires
            old(self).inv(),
            old(self).phase() is Idle,
        ensures
            final(self).inv(),
            final(self).phase() is Running,
            final(self).env().running_count() == 2,
    {
        self.env.spawn_unit();
        self.env.spawn_unit();
        self.phase = Phase::Running;
    }

    /// Record which unit of work won the race. The winner has completed;
    /// the loser stays in flight until teardown.
    pub fn observe(&mut self, winner: &RaceResult)
        requires
            old(self).inv(),
            old(self).phase() is Running,
        ensures
            final(self).inv(),
            final(self).phase() == Phase::Resolved(kind_of(*winner)),
            final(self).env().running_count() == 1,
    {
        self.env.unit_finished();
        self.phase = Phase::Resolved(resolve_kind(winner));
    }

    /// Tear the environment down: immediate, unconditional, reached on every
    /// exit path. The losing unit of work receives no graceful cancellation
    /// notice; it is dropped with the environment.
    pub fn teardown(&mut self)
        requires
            old(self).inv(),
            old(self).phase() is Resolved,
        ensures
            final(self).inv(),
            final(self).phase() is Terminated,
            final(self).env() == old(self).env().torn_down(),
            final(self).env().running_count() == 0,
            final(self).env().is_shut_down(),
    {
        self.phase = Phase::ShuttingDown;
        self.env.shutdown_now();
        self.phase = Phase::Terminated;
    }

    /// Whether this run has reached its terminal phase.
    pub fn is_terminated(&self) -> (b: bool)
        ensures
            b == (self.phase() is Terminated),
    {
        matches!(self.phase, Phase::Terminated)
    }

    /// How many units of work this run's environment still holds.
    pub fn running_units(&self) -> (n: u64)
        ensures
            n == self.env().running_count(),
    {
        self.env.running_units()
    }

    /// Whether this run's environment has been shut down.
    pub fn has_shut_down(&self) -> (b: bool)
        ensures
            b == self.env().is_shut_down(),
    {
        self.env.has_shut_down()
    }
}

/// What one inspection of the race yields, the service task checked first.
pub open spec fn race_step(service: Option<ServiceOutcome>, shutdown_ready: bool) -> Option<
    RaceResult,
> {
    match service {
        Option::Some(outcome) => Option::Some(RaceResult::ServiceFinished(outcome)),
        Option::None => if shutdown_ready {
            Option::Some(RaceResult::ShutdownRequested)
        } else {
            Option::None
        },
    }
}

/// Resolve one inspection of the race: `service` carries the service task's
/// outcome once it has completed, `shutdown_ready` says whether the shutdown
/// monitor has fired. First completion wins; when both are ready at the same
/// inspection, the service task is checked first — the deterministic
/// tie-break this crate documents, which repeated runs with the same inputs
/// reproduce.
pub fn resolve_race(service: Option<ServiceOutcome>, shutdown_ready: bool) -> (r: Option<
    RaceResult,
>)
    ensures
        r == race_step(service, shutdown_ready),
        r is None <==> service is None && !shutdown_ready,
{
    match service {
        Option::Some(outcome) => Option::Some(RaceResult::ServiceFinished(outcome)),
        Option::None => if shutdown_ready {
            Option::Some(RaceResult::ShutdownRequested)
        } else {
            Option::None
        },
    }
}

/// Run one proxy session to completion-or-shutdown.
///
/// The caller resolves the configuration beforehand and races the two units
/// of work in the real scheduling substrate; `winner` is the first
/// completion that race produced. This function drives the supervisor
/// through its whole life — acquire, start, resolve, tear down — and
/// returns the decision the policy table owes for `winner`, together with
/// the terminated supervisor: whichever side won, no unit of work is left
/// running afterwards.
pub fn launch_server(config: &Config, winner: RaceResult) -> (r: (Decision, Supervisor))
    ensures
        r.0 == decision_of(winner),
        r.1.inv(),
        r.1.phase() is Terminated,
        r.1.env().running_count() == 0,
        r.1.env().is_shut_down(),
{
    let mut supervisor = Supervisor::new();
    supervisor.start(config);
    supervisor.observe(&winner);
    supervisor.teardown();
    let decision = decide(winner);
    (decision, supervisor)
}

} // verus!
