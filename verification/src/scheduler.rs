//! The perpetual driver: which subject to reconcile next, how often to try
//! it again, and how long to wait.

use vstd::prelude::*;

verus! {

/// The two waits of the scheduler.
#[derive(Clone, Copy, Debug, PartialEq, Eq, Structural)]
pub enum Cadence {
    /// The steady-state wait between two passes over the subjects.
    Long,
    /// The backoff before a failed subject is tried again.
    Short,
}

/// What the driver has to do next.
#[derive(Clone, Copy, Debug, PartialEq, Eq, Structural)]
pub enum Action {
    /// Reconcile the subject at this position of the subject list.
    Attempt { subject: usize },
    /// Sleep for one tick of this cadence.
    Wait { cadence: Cadence },
}

/// How the action last handed out ended.
#[derive(Clone, Copy, Debug, PartialEq, Eq, Structural)]
pub enum Outcome {
    /// The attempt succeeded, or the wait is over.
    Succeeded,
    /// The attempt failed.
    Failed,
}

/// Where the scheduler stands.
#[derive(Clone, Copy, Debug, PartialEq, Eq, Structural)]
pub enum Phase {
    /// Between two passes, waiting out the long cadence.
    Idle,
    /// A subject is being reconciled; `attempts_left` counts this attempt.
    Attempting { subject: usize, attempts_left: u32 },
    /// A failed subject waits out the short cadence; `attempts_left`
    /// attempts remain for it.
    RetryWait { subject: usize, attempts_left: u32 },
}

/// The scheduler of a fixed subject list. It holds nothing but its place in
/// the current pass, so a restart begins a fresh pass.
#[derive(Clone, Copy, Debug, PartialEq, Eq, Structural)]
pub struct Scheduler {
    /// Length of the subject list.
    pub subjects: usize,
    /// Attempts a subject gets in one pass.
    pub retry_budget: u32,
    /// Where the scheduler stands.
    pub phase: Phase,
}

/// The phase that opens a pass: the first subject with a full budget. With
/// no subject, or no attempt to give, a pass is nothing but its wait.
pub open spec fn pass_start(subjects: usize, retry_budget: u32) -> Phase {
    if subjects == 0 || retry_budget == 0 {
        Phase::Idle
    } else {
        Phase::Attempting { subject: 0, attempts_left: retry_budget }
    }
}

/// The action that a phase asks of the driver.
pub open spec fn action_of(phase: Phase) -> Action {
    match phase {
        Phase::Idle => Action::Wait { cadence: Cadence::Long },
        Phase::Attempting { subject, .. } => Action::Attempt { subject },
        Phase::RetryWait { .. } => Action::Wait { cadence: Cadence::Short },
    }
}

impl Scheduler {
    /// A subject in work is one of the list, and it has an attempt left
    /// within the budget.
    pub open spec fn wf(&self) -> bool {
        match self.phase {
            Phase::Idle => true,
            Phase::Attempting { subject, attempts_left } => subject < self.subjects && 1
                <= attempts_left <= self.retry_budget,
            Phase::RetryWait { subject, attempts_left } => subject < self.subjects && 1
                <= attempts_left <= self.retry_budget,
        }
    }

    /// The phase once `subject` is done with, by success or by skipping:
    /// the next subject with a full budget, or the wait that ends the pass.
    pub open spec fn phase_after(&self, subject: usize) -> Phase {
        if subject + 1 < self.subjects && self.retry_budget > 0 {
            Phase::Attempting { subject: (subject + 1) as usize, attempts_left: self.retry_budget }
        } else {
            Phase::Idle
        }
    }

    /// The phase that follows the current one when its action ended with
    /// `outcome`. A wait can only end, so its outcome is not read.
    pub open spec fn next_phase(&self, outcome: Outcome) -> Phase {
        match self.phase {
            Phase::Idle => pass_start(self.subjects, self.retry_budget),
            Phase::Attempting { subject, attempts_left } => {
                if outcome is Failed && attempts_left > 1 {
                    Phase::RetryWait { subject, attempts_left: (attempts_left - 1) as u32 }
                } else {
                    self.phase_after(subject)
                }
            },
            Phase::RetryWait { subject, attempts_left } => Phase::Attempting {
                subject,
                attempts_left,
            },
        }
    }

    /// The scheduler one step on.
    pub open spec fn stepped(&self, outcome: Outcome) -> Scheduler {
        Scheduler {
            subjects: self.subjects,
            retry_budget: self.retry_budget,
            phase: self.next_phase(outcome),
        }
    }

    /// The scheduler that `new` makes.
    pub open spec fn new_spec(subjects: usize, retry_budget: u32) -> Scheduler {
        Scheduler { subjects, retry_budget, phase: pass_start(subjects, retry_budget) }
    }

    /// A scheduler at the start of a pass over `subjects` subjects, each of
    /// which gets `retry_budget` attempts per pass.
    pub fn new(subjects: usize, retry_budget: u32) -> (scheduler: Scheduler)
        ensures
            scheduler == Self::new_spec(subjects, retry_budget),
            scheduler.wf(),
    {
        let phase = if subjects == 0 || retry_budget == 0 {
            Phase::Idle
        } else {
            Phase::Attempting { subject: 0, attempts_left: retry_budget }
        };
        Scheduler { subjects, retry_budget, phase }
    }

    /// The action that the scheduler is waiting on.
    pub fn current_action(&self) -> (action: Action)
        ensures
            action == action_of(self.phase),
    {
        match self.phase {
            Phase::Idle => Action::Wait { cadence: Cadence::Long },
            Phase::Attempting { subject, .. } => Action::Attempt { subject },
            Phase::RetryWait { .. } => Action::Wait { cadence: Cadence::Short },
        }
    }

    /// Takes the outcome of the current action and hands out the next one.
    ///
    /// A subject that succeeded is left for the next one. A subject that
    /// failed is tried again after a short wait while its budget lasts, and
    /// skipped once it is spent. After the last subject comes the long wait,
    /// and after that a new pass from the first subject.
    pub fn advance(&mut self, outcome: Outcome) -> (action: Action)
        ensures
            *final(self) == old(self).stepped(outcome),
            action == action_of(final(self).phase),
            old(self).wf() ==> final(self).wf(),
    {
        let next = match self.phase {
            Phase::Idle => {
                if self.subjects == 0 || self.retry_budget == 0 {
                    Phase::Idle
                } else {
                    Phase::Attempting { subject: 0, attempts_left: self.retry_budget }
                }
            },
            Phase::Attempting { subject, attempts_left } => {
                let failed = match outcome {
                    Outcome::Failed => true,
                    Outcome::Succeeded => false,
                };
                if failed && attempts_left > 1 {
                    Phase::RetryWait { subject, attempts_left: attempts_left - 1 }
                } else if subject < self.subjects && subject + 1 < self.subjects
                    && self.retry_budget > 0 {
                    Phase::Attempting { subject: subject + 1, attempts_left: self.retry_budget }
                } else {
                    Phase::Idle
                }
            },
            Phase::RetryWait { subject, attempts_left } => Phase::Attempting {
                subject,
                attempts_left,
            },
        };
        self.phase = next;
        self.current_action()
    }
}

/// The scheduler after `failures` failed attempts in a row, each wait in
/// between waited out.
pub open spec fn after_failures(scheduler: Scheduler, failures: nat) -> Scheduler
    decreases failures,
{
    if failures == 0 {
        scheduler
    } else {
        let failed = scheduler.stepped(Outcome::Failed);
        let resumed = if failed.phase is RetryWait {
            failed.stepped(Outcome::Succeeded)
        } else {
            failed
        };
        after_failures(resumed, (failures - 1) as nat)
    }
}

/// The scheduler after `successes` attempts in a row that all succeeded.
pub open spec fn after_successes(scheduler: Scheduler, successes: nat) -> Scheduler
    decreases successes,
{
    if successes == 0 {
        scheduler
    } else {
        after_successes(scheduler.stepped(Outcome::Succeeded), (successes - 1) as nat)
    }
}

/// A subject that keeps failing is attempted as often as its budget allows
/// and no more: while the budget lasts the scheduler stays with the subject,
/// and with the attempt that spends it the subject is skipped for this pass.
pub proof fn lemma_persistent_failure_skips_subject(scheduler: Scheduler, failures: nat)
    requires
        scheduler.wf(),
        scheduler.phase is Attempting,
        failures <= scheduler.phase->Attempting_attempts_left,
    ensures
        ({
            let subject = scheduler.phase->Attempting_subject;
            let left = scheduler.phase->Attempting_attempts_left;
            let later = after_failures(scheduler, failures);
            &&& later.subjects == scheduler.subjects
            &&& later.retry_budget == scheduler.retry_budget
            &&& failures < left ==> later.phase == (Phase::Attempting {
                subject,
                attempts_left: (left - failures) as u32,
            })
            &&& failures == left ==> later.phase == scheduler.phase_after(subject)
        }),
    decreases failures,
{
    if failures > 0 {
        let failed = scheduler.stepped(Outcome::Failed);
        if failed.phase is RetryWait {
            lemma_persistent_failure_skips_subject(
                failed.stepped(Outcome::Succeeded),
                (failures - 1) as nat,
            );
        } else {
            assert(failures == 1);
            assert(after_failures(failed, 0) == failed);
        }
    }
}

/// A pass in which every attempt succeeds visits each subject once, in the
/// order of the list, and ends in the long wait.
pub proof fn lemma_clean_pass_visits_every_subject(scheduler: Scheduler, successes: nat)
    requires
        scheduler.wf(),
        scheduler.phase is Attempting,
        scheduler.phase->Attempting_subject + successes <= scheduler.subjects,
    ensures
        ({
            let subject = scheduler.phase->Attempting_subject;
            let later = after_successes(scheduler, successes);
            &&& 0 < successes && subject + successes < scheduler.subjects ==> later.phase == (
            Phase::Attempting {
                subject: (subject + successes) as usize,
                attempts_left: scheduler.retry_budget,
            })
            &&& 0 < successes && subject + successes == scheduler.subjects ==> later.phase
                == Phase::Idle
        }),
    decreases successes,
{
    if successes > 0 {
        let next = scheduler.stepped(Outcome::Succeeded);
        if next.phase is Attempting {
            lemma_clean_pass_visits_every_subject(next, (successes - 1) as nat);
        } else {
            assert(successes == 1);
            assert(after_successes(next, 0) == next);
        }
    }
}

/// The most steps that a pass can still take before it reaches its long
/// wait: for the subject in work two steps for each attempt left but the
/// last, which takes one, and for each subject after it the same with a
/// full budget.
pub open spec fn steps_left(scheduler: Scheduler) -> int {
    let per_subject = 2 * scheduler.retry_budget - 1;
    match scheduler.phase {
        Phase::Idle => 0,
        Phase::Attempting { subject, attempts_left } => (scheduler.subjects - subject - 1)
            * per_subject + 2 * attempts_left - 1,
        Phase::RetryWait { subject, attempts_left } => (scheduler.subjects - subject - 1)
            * per_subject + 2 * attempts_left,
    }
}

/// Every pass ends: whatever the outcomes, each step of a pass brings the
/// long wait nearer. A subject that fails again and again holds the pass up
/// for the length of its budget and no longer, and the subjects after it
/// get their turn.
pub proof fn lemma_pass_always_ends(scheduler: Scheduler, outcome: Outcome)
    requires
        scheduler.wf(),
        !(scheduler.phase is Idle),
    ensures
        scheduler.stepped(outcome).wf(),
        0 <= steps_left(scheduler.stepped(outcome)) < steps_left(scheduler),
{
    let per_subject = 2 * scheduler.retry_budget - 1;
    let subject: int = match scheduler.phase {
        Phase::Attempting { subject, .. } => subject as int,
        Phase::RetryWait { subject, .. } => subject as int,
        Phase::Idle => 0,
    };
    let rest = scheduler.subjects - subject - 1;
    assert(rest >= 0 && per_subject >= 1);
    assert(rest * per_subject >= 0) by (nonlinear_arith)
        requires
            rest >= 0,
            per_subject >= 1,
    ;
    assert((rest - 1) * per_subject == rest * per_subject - per_subject) by (nonlinear_arith);
}

/// The latch that lets the polling loop start once. The platform may signal
/// readiness any number of times; the first signal wins.
#[derive(Debug)]
pub struct StartLatch {
    /// Whether a signal has arrived.
    pub started: bool,
}

impl StartLatch {
    /// A latch that no signal has reached.
    pub fn new() -> (latch: StartLatch)
        ensures
            !latch.started,
    {
        StartLatch { started: false }
    }

    /// Takes a start signal. Returns whether this signal is the first, that
    /// is whether the caller is the one to start the loop. From then on the
    /// latch is set, and every later signal is answered with `false`.
    pub fn signal(&mut self) -> (first: bool)
        ensures
            first == !old(self).started,
            final(self).started,
    {
        let first = !self.started;
        self.started = true;
        first
    }
}

} // verus!
