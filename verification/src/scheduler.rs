//! The adaptive scheduler: one serialized sequence of reconciliation
//! cycles, re-armed after each outcome.
//!
//! The main loop holds exactly one of: an armed one-shot timer, a
//! running cycle, or nothing (stopped). A cycle's outcome dictates the
//! next delay; arming happens only when the previous cycle's outcome
//! is known, so cycles never overlap and a fresh delay fully replaces
//! the previous one. The timers themselves tick outside; this module
//! is the state they drive.

use vstd::prelude::*;
use crate::errors::PortError;
use crate::reconcile::ReconciliationOutcome;

verus! {

/// How a finished reconciliation cycle reports itself.
#[derive(Clone, Copy, Debug, PartialEq, Eq, Structural)]
pub enum CycleResult {
    /// The cycle chose a port; the provider's expiry put the next
    /// check this many seconds away.
    Success { delay_secs: u64 },
    /// The cycle failed and was reported; retry after the fixed delay.
    Failure,
}

/// Conclude a cycle that chose a port: it succeeded with the computed
/// delay, whatever the per-client fan-out results were. A downstream
/// failure is reported for that client alone and never turns the
/// cycle into a failure.
pub fn conclude_cycle(
    outcome: &ReconciliationOutcome,
    fanout_results: &Vec<Result<bool, PortError>>,
) -> (r: CycleResult)
    ensures
        r == (CycleResult::Success { delay_secs: outcome.delay_secs }),
{
    let _ = fanout_results;
    CycleResult::Success { delay_secs: outcome.delay_secs }
}

/// The delay until the next cycle: a failed cycle retries after the
/// fixed retry delay; a successful one waits for the computed delay,
/// capped by the fixed poll interval where one is configured.
pub open spec fn spec_next_delay(
    result: CycleResult,
    check_interval: Option<u64>,
    retry_delay: u64,
) -> u64 {
    match result {
        CycleResult::Failure => retry_delay,
        CycleResult::Success { delay_secs } => match check_interval {
            None => delay_secs,
            Some(interval) => if delay_secs < interval {
                delay_secs
            } else {
                interval
            },
        },
    }
}

/// Compute the delay until the next cycle from the last outcome.
pub fn next_cycle_delay(result: &CycleResult, check_interval: Option<u64>, retry_delay: u64) -> (r:
    u64)
    ensures
        r == spec_next_delay(*result, check_interval, retry_delay),
{
    match result {
        CycleResult::Failure => retry_delay,
        CycleResult::Success { delay_secs } => {
            match check_interval {
                None => *delay_secs,
                Some(interval) => {
                    if *delay_secs < interval {
                        *delay_secs
                    } else {
                        interval
                    }
                },
            }
        },
    }
}

/// The main loop's state: at most one cycle armed or running at any
/// instant, by construction.
#[derive(Clone, Copy, Debug, PartialEq, Eq, Structural)]
pub enum LoopState {
    /// Exactly one future cycle is armed, this many seconds away.
    Armed { delay_secs: u64 },
    /// Exactly one cycle is in flight; nothing is armed. A stop
    /// request observed meanwhile lets it finish.
    Running { stop_requested: bool },
    /// The loop has exited: nothing is armed, nothing runs.
    Stopped,
}

/// The main reconciliation loop: its state plus the fixed policy.
pub struct SchedulerLoop {
    pub state: LoopState,
    pub check_interval: Option<u64>,
    pub retry_delay: u64,
}

impl SchedulerLoop {
    /// A fresh loop: the first cycle is armed to run at once.
    pub fn new(check_interval: Option<u64>, retry_delay: u64) -> (r: SchedulerLoop)
        ensures
            r.state == (LoopState::Armed { delay_secs: 0u64 }),
            r.check_interval == check_interval,
            r.retry_delay == retry_delay,
    {
        SchedulerLoop { state: LoopState::Armed { delay_secs: 0 }, check_interval, retry_delay }
    }

    /// The armed timer fired: the one cycle starts running.
    pub fn fire(&mut self)
        requires
            old(self).state matches LoopState::Armed { .. },
        ensures
            final(self).state == (LoopState::Running { stop_requested: false }),
            final(self).check_interval == old(self).check_interval,
            final(self).retry_delay == old(self).retry_delay,
    {
        self.state = LoopState::Running { stop_requested: false };
    }

    /// The running cycle finished with `result` (its results are
    /// already applied): arm exactly one future cycle after the delay
    /// the outcome dictates — unless a stop arrived meanwhile, in
    /// which case the loop exits and nothing is armed.
    pub fn complete(&mut self, result: &CycleResult) -> (armed: Option<u64>)
        requires
            old(self).state matches LoopState::Running { .. },
        ensures
            final(self).check_interval == old(self).check_interval,
            final(self).retry_delay == old(self).retry_delay,
            ({
                let d = spec_next_delay(*result, old(self).check_interval, old(self).retry_delay);
                if old(self).state == (LoopState::Running { stop_requested: true }) {
                    final(self).state is Stopped && armed is None
                } else {
                    final(self).state == (LoopState::Armed { delay_secs: d }) && armed == Some(d)
                }
            }),
    {
        let stop = match self.state {
            LoopState::Running { stop_requested } => stop_requested,
            _ => false,
        };
        if stop {
            self.state = LoopState::Stopped;
            None
        } else {
            let d = next_cycle_delay(result, self.check_interval, self.retry_delay);
            self.state = LoopState::Armed { delay_secs: d };
            Some(d)
        }
    }

    /// An external stop request: an armed loop exits at once without
    /// scheduling further work; a running cycle is let finish; a
    /// stopped loop stays stopped.
    pub fn stop(&mut self)
        ensures
            final(self).check_interval == old(self).check_interval,
            final(self).retry_delay == old(self).retry_delay,
            match old(self).state {
                LoopState::Armed { .. } => final(self).state is Stopped,
                LoopState::Running { .. } => final(self).state == (LoopState::Running {
                    stop_requested: true,
                }),
                LoopState::Stopped => final(self).state is Stopped,
            },
    {
        let next = match self.state {
            LoopState::Armed { .. } => LoopState::Stopped,
            LoopState::Running { .. } => LoopState::Running { stop_requested: true },
            LoopState::Stopped => LoopState::Stopped,
        };
        self.state = next;
    }
}

/// Law: a successful cycle with no fixed poll interval arms exactly
/// one future cycle, after exactly the computed delay; and no state
/// both runs a cycle and holds an armed timer, there being only one
/// slot. The arming is stated by `complete`'s contract; this records
/// the delay it uses.
pub proof fn lemma_uncapped_success_uses_computed_delay(delay_secs: u64, retry_delay: u64)
    ensures
        spec_next_delay(CycleResult::Success { delay_secs }, None, retry_delay) == delay_secs,
{
}

} // verus!
