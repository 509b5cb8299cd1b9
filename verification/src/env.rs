//! A model of the task-execution environment: the scheduling substrate that
//! runs concurrent units of work and can be torn down as a unit.

use vstd::prelude::*;

verus! {

/// The supervisor's view of the task-execution environment: how many spawned
/// units of work have neither finished nor been cancelled, and whether the
/// environment has been shut down.
///
/// The real scheduling substrate (worker threads, an event loop) lives
/// outside this crate; this type tracks exactly what the supervisor's
/// guarantees speak of, so that "no background work survives the call" is a
/// proved statement rather than a comment.
pub struct ExecEnv {
    running_units: u64,
    shut_down: bool,
}

impl ExecEnv {
    /// How many spawned units of work are still in flight.
    pub closed spec fn running_count(self) -> u64 {
        self.running_units
    }

    /// Whether the environment has been shut down.
    pub closed spec fn is_shut_down(self) -> bool {
        self.shut_down
    }

    /// A shut-down environment holds no running work.
    pub open spec fn inv(self) -> bool {
        self.is_shut_down() ==> self.running_count() == 0
    }

    /// The environment after an unconditional shutdown: nothing runs,
    /// whatever ran before.
    pub closed spec fn torn_down(self) -> ExecEnv {
        ExecEnv { running_units: 0, shut_down: true }
    }

    /// Acquire a fresh environment with no work in it.
    pub fn acquire() -> (e: ExecEnv)
        ensures
            e.running_count() == 0,
            !e.is_shut_down(),
            e.inv(),
    {
        ExecEnv { running_units: 0, shut_down: false }
    }

    /// Start one more concurrent unit of work.
    pub fn spawn_unit(&mut self)
        requires
            !old(self).is_shut_down(),
            old(self).running_count() < u64::MAX,
        ensures
            final(self).running_count() == old(self).running_count() + 1,
            !final(self).is_shut_down(),
            final(self).inv(),
    {
        self.running_units = self.running_units + 1;
    }

    /// Record that one running unit of work completed on its own.
    pub fn unit_finished(&mut self)
        requires
            !old(self).is_shut_down(),
            old(self).running_count() >= 1,
        ensures
            final(self).running_count() == old(self).running_count() - 1,
            !final(self).is_shut_down(),
            final(self).inv(),
    {
        self.running_units = self.running_units - 1;
    }

    /// Force an immediate, unconditional shutdown: every unit of work still
    /// in flight is cancelled, with no graceful in-band notice. Callable in
    /// any state — in particular after a completed shutdown, where it
    /// changes nothing.
    pub fn shutdown_now(&mut self)
        ensures
            *final(self) == old(self).torn_down(),
            final(self).running_count() == 0,
            final(self).is_shut_down(),
            final(self).inv(),
    {
        self.running_units = 0;
        self.shut_down = true;
    }

    /// How many units of work the environment reports as still running.
    pub fn running_units(&self) -> (n: u64)
        ensures
            n == self.running_count(),
    {
        self.running_units
    }

    /// Whether the environment reports itself shut down.
    pub fn has_shut_down(&self) -> (b: bool)
        ensures
            b == self.is_shut_down(),
    {
        self.shut_down
    }
}

/// Teardown is idempotent: shutting an environment down a second time leaves
/// it exactly as the first shutdown did, so a teardown step reached twice by
/// accident is harmless.
pub proof fn lemma_teardown_idempotent(e: ExecEnv)
    ensures
        e.torn_down().torn_down() == e.torn_down(),
{
}

} // verus!
