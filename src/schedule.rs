//! The cadence of the check loop: one batch, or batches separated by a fixed
//! sleep, as a state machine whose caller performs each step.

use vstd::prelude::*;

verus! {

/// What the loop does next.
#[derive(Debug, Clone, Copy, PartialEq, Eq, Structural)]
pub enum Step {
    /// Probe every URL and report the batch.
    RunBatch,
    /// Sleep this many seconds.
    Sleep(u64),
    /// End the loop with success.
    Stop,
}

/// Where the loop stands.
#[derive(Debug, Clone, Copy, PartialEq, Eq, Structural)]
pub enum Phase {
    /// A batch is due.
    Due,
    /// A batch has been handed out and reported.
    Reported,
    /// The loop has ended.
    Done,
}

/// The step taken from `phase`, and the phase after it.
pub open spec fn transition(once: bool, interval_secs: u64, phase: Phase) -> (Step, Phase) {
    match phase {
        Phase::Due => (Step::RunBatch, Phase::Reported),
        Phase::Reported => if once {
            (Step::Stop, Phase::Done)
        } else {
            (Step::Sleep(interval_secs), Phase::Due)
        },
        Phase::Done => (Step::Stop, Phase::Done),
    }
}

/// The phase after `k` steps from a fresh loop.
pub open spec fn phase_after(once: bool, interval_secs: u64, k: nat) -> Phase
    decreases k,
{
    if k == 0 {
        Phase::Due
    } else {
        transition(once, interval_secs, phase_after(once, interval_secs, (k - 1) as nat)).1
    }
}

/// The step taken at position `k` (counting from zero) of a fresh loop.
pub open spec fn step_at(once: bool, interval_secs: u64, k: nat) -> Step {
    transition(once, interval_secs, phase_after(once, interval_secs, k)).0
}

/// How many batches a fresh loop runs in its first `k` steps.
pub open spec fn batches_within(once: bool, interval_secs: u64, k: nat) -> nat
    decreases k,
{
    if k == 0 {
        0
    } else {
        batches_within(once, interval_secs, (k - 1) as nat) + if step_at(
            once,
            interval_secs,
            (k - 1) as nat,
        ) == Step::RunBatch {
            1nat
        } else {
            0nat
        }
    }
}

/// The check loop's state: run once, or forever with `interval_secs` of
/// sleep between batches.
pub struct Scheduler {
    pub once: bool,
    pub interval_secs: u64,
    pub phase: Phase,
}

impl Scheduler {
    /// A loop that has not yet run a batch.
    pub fn new(once: bool, interval_secs: u64) -> (r: Scheduler)
        ensures
            r.once == once,
            r.interval_secs == interval_secs,
            r.phase == Phase::Due,
    {
        Scheduler { once, interval_secs, phase: Phase::Due }
    }

    /// The next step, which the caller performs before asking again.
    pub fn next_step(&mut self) -> (r: Step)
        ensures
            final(self).once == old(self).once,
            final(self).interval_secs == old(self).interval_secs,
            (r, final(self).phase) == transition(old(self).once, old(self).interval_secs, old(self).phase),
    {
        match self.phase {
            Phase::Due => {
                self.phase = Phase::Reported;
                Step::RunBatch
            },
            Phase::Reported => {
                if self.once {
                    self.phase = Phase::Done;
                    Step::Stop
                } else {
                    self.phase = Phase::Due;
                    Step::Sleep(self.interval_secs)
                }
            },
            Phase::Done => Step::Stop,
        }
    }
}

/// Run once, the loop runs exactly one batch and then stops for good: after
/// any number of steps past the first, one batch has run and the next step is
/// to stop.
pub proof fn once_runs_one_batch(interval_secs: u64, k: nat)
    requires
        k >= 1,
    ensures
        batches_within(true, interval_secs, k) == 1,
        step_at(true, interval_secs, k) == Step::Stop,
        step_at(true, interval_secs, 0) == Step::RunBatch,
    decreases k,
{
    assert(phase_after(true, interval_secs, 0) == Phase::Due);
    assert(phase_after(true, interval_secs, 1) == Phase::Reported);
    assert(batches_within(true, interval_secs, 0) == 0);
    if k > 1 {
        once_runs_one_batch(interval_secs, (k - 1) as nat);
        once_stays_done(interval_secs, k);
        assert(batches_within(true, interval_secs, k) == batches_within(
            true,
            interval_secs,
            (k - 1) as nat,
        ));
    }
}

proof fn once_stays_done(interval_secs: u64, k: nat)
    requires
        k >= 2,
    ensures
        phase_after(true, interval_secs, k) == Phase::Done,
    decreases k,
{
    if k > 2 {
        once_stays_done(interval_secs, (k - 1) as nat);
    } else {
        assert(phase_after(true, interval_secs, 0) == Phase::Due);
        assert(phase_after(true, interval_secs, 1) == Phase::Reported);
    }
}

/// Run repeatedly, the loop alternates a batch and a sleep of the interval,
/// never two batches without a sleep between them: after `2n` steps it has
/// run `n` batches, step `2n` runs a batch and step `2n + 1` sleeps.
pub proof fn repeated_batches_alternate_with_sleep(interval_secs: u64, n: nat)
    ensures
        batches_within(false, interval_secs, 2 * n) == n,
        step_at(false, interval_secs, 2 * n) == Step::RunBatch,
        step_at(false, interval_secs, 2 * n + 1) == Step::Sleep(interval_secs),
    decreases n,
{
    assert(phase_after(false, interval_secs, 0) == Phase::Due);
    if n == 0 {
        assert(phase_after(false, interval_secs, 1) == Phase::Reported);
    } else {
        repeated_batches_alternate_with_sleep(interval_secs, (n - 1) as nat);
        let m = (2 * n) as nat;
        assert(phase_after(false, interval_secs, (m - 1) as nat) == Phase::Reported);
        assert(phase_after(false, interval_secs, m) == Phase::Due);
        assert(phase_after(false, interval_secs, m + 1) == Phase::Reported);
        assert(batches_within(false, interval_secs, (m - 1) as nat) == n);
    }
}

} // verus!
