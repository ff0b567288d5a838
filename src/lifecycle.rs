use vstd::prelude::*;
use crate::exporter::{after_failure, AfterFailure, BatchConfig};

verus! {

/// The phases of the telemetry state, in the only order in which they occur.
#[derive(Clone, Copy, Debug, PartialEq, Eq, Structural)]
pub enum Phase {
    Uninitialized,
    Running,
    ShuttingDown,
    Stopped,
}

/// A transition asked for in a phase that does not allow it.
#[derive(Clone, Copy, Debug, PartialEq, Eq, Structural)]
pub struct WrongPhase {
    pub found: Phase,
}

pub open spec fn successor(p: Phase) -> Option<Phase> {
    match p {
        Phase::Uninitialized => Some(Phase::Running),
        Phase::Running => Some(Phase::ShuttingDown),
        Phase::ShuttingDown => Some(Phase::Stopped),
        Phase::Stopped => None,
    }
}

/// Owner of the telemetry state's phase. Each transition moves one step
/// forward; `Stopped` is final.
pub struct Lifecycle {
    phase: Phase,
}

impl Lifecycle {
    pub closed spec fn spec_phase(&self) -> Phase {
        self.phase
    }

    pub fn new() -> (r: Lifecycle)
        ensures
            r.spec_phase() == Phase::Uninitialized,
    {
        Lifecycle { phase: Phase::Uninitialized }
    }

    pub fn phase(&self) -> (r: Phase)
        ensures
            r == self.spec_phase(),
    {
        self.phase
    }

    /// New requests are taken only while running.
    pub fn accepts_requests(&self) -> (r: bool)
        ensures
            r == (self.spec_phase() == Phase::Running),
    {
        self.phase == Phase::Running
    }

    fn advance(&mut self, from: Phase) -> (r: Result<(), WrongPhase>)
        requires
            successor(from) is Some,
        ensures
            old(self).spec_phase() == from ==> r is Ok && final(self).spec_phase() == successor(from)->0,
            old(self).spec_phase() != from ==> r == Err::<(), WrongPhase>(WrongPhase { found: old(self).spec_phase() })
                && final(self).spec_phase() == old(self).spec_phase(),
    {
        if self.phase == from {
            self.phase = match from {
                Phase::Uninitialized => Phase::Running,
                Phase::Running => Phase::ShuttingDown,
                _ => Phase::Stopped,
            };
            Ok(())
        } else {
            Err(WrongPhase { found: self.phase })
        }
    }

    /// `Uninitialized -> Running`, once the exporter and span factory exist.
    pub fn start(&mut self) -> (r: Result<(), WrongPhase>)
        ensures
            old(self).spec_phase() == Phase::Uninitialized ==> r is Ok && final(self).spec_phase() == Phase::Running,
            old(self).spec_phase() != Phase::Uninitialized ==> r == Err::<(), WrongPhase>(
                WrongPhase { found: old(self).spec_phase() },
            ) && final(self).spec_phase() == old(self).spec_phase(),
    {
        self.advance(Phase::Uninitialized)
    }

    /// `Running -> ShuttingDown`, on a termination signal.
    pub fn begin_shutdown(&mut self) -> (r: Result<(), WrongPhase>)
        ensures
            old(self).spec_phase() == Phase::Running ==> r is Ok && final(self).spec_phase() == Phase::ShuttingDown,
            old(self).spec_phase() != Phase::Running ==> r == Err::<(), WrongPhase>(
                WrongPhase { found: old(self).spec_phase() },
            ) && final(self).spec_phase() == old(self).spec_phase(),
    {
        self.advance(Phase::Running)
    }

    /// `ShuttingDown -> Stopped`, once the final flush has ended.
    pub fn finish(&mut self) -> (r: Result<(), WrongPhase>)
        ensures
            old(self).spec_phase() == Phase::ShuttingDown ==> r is Ok && final(self).spec_phase() == Phase::Stopped,
            old(self).spec_phase() != Phase::ShuttingDown ==> r == Err::<(), WrongPhase>(
                WrongPhase { found: old(self).spec_phase() },
            ) && final(self).spec_phase() == old(self).spec_phase(),
    {
        self.advance(Phase::ShuttingDown)
    }
}

#[derive(Clone, Copy, Debug, PartialEq, Eq, Structural)]
pub enum FlushOutcome {
    Pending,
    Delivered,
    Abandoned,
}

/// Progress of the final flush at shutdown: time spent so far, failed attempts,
/// and whether it has ended.
#[derive(Clone, Copy, Debug, PartialEq, Eq, Structural)]
pub struct ShutdownFlush {
    pub elapsed: u64,
    pub failures: u32,
    pub outcome: FlushOutcome,
}

pub open spec fn min_u64(a: u64, b: u64) -> u64 {
    if a <= b { a } else { b }
}

impl ShutdownFlush {
    /// Time spent stays within the deadline, and a flush still going on has
    /// time left and retries left.
    pub open spec fn wf(self, cfg: BatchConfig) -> bool {
        &&& self.elapsed <= cfg.shutdown_deadline
        &&& self.outcome == FlushOutcome::Pending ==> self.elapsed < cfg.shutdown_deadline
            && self.failures <= cfg.max_retries
    }

    /// The wait allowed to the next attempt: the export timeout, cut to the
    /// time left before the deadline.
    pub open spec fn spec_budget(self, cfg: BatchConfig) -> u64 {
        min_u64(cfg.export_timeout, (cfg.shutdown_deadline - self.elapsed) as u64)
    }

    pub fn new(cfg: &BatchConfig) -> (r: ShutdownFlush)
        ensures
            r.wf(*cfg),
            r == flush_start(*cfg),
    {
        let outcome = if cfg.shutdown_deadline > 0 { FlushOutcome::Pending } else { FlushOutcome::Abandoned };
        ShutdownFlush { elapsed: 0, failures: 0, outcome }
    }

    /// The wait for the next attempt, or `None` once the flush has ended.
    pub fn next_budget(&self, cfg: &BatchConfig) -> (r: Option<u64>)
        requires
            self.wf(*cfg),
        ensures
            self.outcome == FlushOutcome::Pending ==> r == Some(self.spec_budget(*cfg)),
            self.outcome != FlushOutcome::Pending ==> r is None,
            r matches Some(b) ==> self.elapsed + b <= cfg.shutdown_deadline,
    {
        if self.outcome == FlushOutcome::Pending {
            let left = cfg.shutdown_deadline - self.elapsed;
            Some(if cfg.export_timeout <= left { cfg.export_timeout } else { left })
        } else {
            None
        }
    }

    /// Records an attempt that took `took`, cut to its budget (the attempt was
    /// given no more). A delivered batch ends the flush; a failed one is
    /// retried while retries and time are left, and abandoned otherwise. The
    /// deadline is never passed.
    pub fn record(&mut self, cfg: &BatchConfig, took: u64, delivered: bool)
        requires
            old(self).wf(*cfg),
            old(self).outcome == FlushOutcome::Pending,
        ensures
            *final(self) == flush_step(*old(self), *cfg, took, delivered),
            final(self).wf(*cfg),
            final(self).elapsed <= cfg.shutdown_deadline,
    {
        let left = cfg.shutdown_deadline - self.elapsed;
        let budget = if cfg.export_timeout <= left { cfg.export_timeout } else { left };
        let spent = if took <= budget { took } else { budget };
        self.elapsed = self.elapsed + spent;
        if delivered {
            self.outcome = FlushOutcome::Delivered;
        } else {
            let again = if self.failures < u32::MAX {
                after_failure(self.failures + 1, cfg.max_retries)
            } else {
                AfterFailure::Discard
            };
            self.failures = if self.failures == u32::MAX { u32::MAX } else { self.failures + 1 };
            self.outcome = if again == AfterFailure::Retry && self.elapsed < cfg.shutdown_deadline {
                FlushOutcome::Pending
            } else {
                FlushOutcome::Abandoned
            };
        }
    }
}

/// The flush after one attempt that took `took` (cut to its budget) and did or
/// did not deliver. A flush that has ended does not change.
pub open spec fn flush_step(st: ShutdownFlush, cfg: BatchConfig, took: u64, delivered: bool) -> ShutdownFlush {
    if st.outcome != FlushOutcome::Pending {
        st
    } else {
        let elapsed = (st.elapsed + min_u64(took, st.spec_budget(cfg))) as u64;
        if delivered {
            ShutdownFlush { elapsed, failures: st.failures, outcome: FlushOutcome::Delivered }
        } else {
            let failures = if st.failures == u32::MAX { u32::MAX } else { (st.failures + 1) as u32 };
            ShutdownFlush {
                elapsed,
                failures,
                outcome: if st.failures < cfg.max_retries && elapsed < cfg.shutdown_deadline {
                    FlushOutcome::Pending
                } else {
                    FlushOutcome::Abandoned
                },
            }
        }
    }
}

/// The flush after a series of attempts, each a duration and whether it delivered.
pub open spec fn flush_run(st: ShutdownFlush, cfg: BatchConfig, steps: Seq<(u64, bool)>) -> ShutdownFlush
    decreases steps.len(),
{
    if steps.len() == 0 {
        st
    } else {
        flush_run(flush_step(st, cfg, steps[0].0, steps[0].1), cfg, steps.drop_first())
    }
}

/// The flush as `ShutdownFlush::new` starts it.
pub open spec fn flush_start(cfg: BatchConfig) -> ShutdownFlush {
    ShutdownFlush {
        elapsed: 0,
        failures: 0,
        outcome: if cfg.shutdown_deadline > 0 { FlushOutcome::Pending } else { FlushOutcome::Abandoned },
    }
}

proof fn lemma_flush_run_from(st: ShutdownFlush, cfg: BatchConfig, steps: Seq<(u64, bool)>)
    requires
        st.wf(cfg),
    ensures
        flush_run(st, cfg, steps).wf(cfg),
        flush_run(st, cfg, steps).outcome == FlushOutcome::Pending ==> st.failures + steps.len()
            == flush_run(st, cfg, steps).failures,
    decreases steps.len(),
{
    if steps.len() > 0 {
        let next = flush_step(st, cfg, steps[0].0, steps[0].1);
        lemma_flush_run_from(next, cfg, steps.drop_first());
        if next.outcome != FlushOutcome::Pending {
            lemma_ended_flush_stays(next, cfg, steps.drop_first());
        }
    }
}

proof fn lemma_ended_flush_stays(st: ShutdownFlush, cfg: BatchConfig, steps: Seq<(u64, bool)>)
    requires
        st.outcome != FlushOutcome::Pending,
    ensures
        flush_run(st, cfg, steps) == st,
    decreases steps.len(),
{
    if steps.len() > 0 {
        lemma_ended_flush_stays(st, cfg, steps.drop_first());
    }
}

/// Shutdown ends within its deadline whatever the collector does: over any
/// series of attempts, each cut to its budget, the time spent never passes the
/// deadline, and after `max_retries + 1` attempts the flush has ended.
pub proof fn lemma_shutdown_within_deadline(cfg: BatchConfig, steps: Seq<(u64, bool)>)
    ensures
        flush_run(flush_start(cfg), cfg, steps).elapsed <= cfg.shutdown_deadline,
        steps.len() > cfg.max_retries ==> flush_run(flush_start(cfg), cfg, steps).outcome
            != FlushOutcome::Pending,
{
    lemma_flush_run_from(flush_start(cfg), cfg, steps);
}

} // verus!
