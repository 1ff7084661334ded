use vstd::prelude::*;

use crate::progress::ProgressState;

verus! {

/// The scheduler's state as plain numbers: jobs `0 .. started` have been
/// handed out, `running` of them hold a permit, `completed` have ended.
pub struct SchedulerView {
    pub cap: nat,
    pub total: nat,
    pub started: nat,
    pub running: nat,
    pub completed: nat,
}

/// What the caller does next.
#[derive(Debug, PartialEq, Eq, Structural, Clone, Copy)]
pub enum Step {
    /// Run the job of this index; it holds a permit until it is finished.
    Start(usize),
    /// Every permit is taken, or every job handed out: wait for a running job
    /// to end and call `finish`.
    Wait,
    /// Every job has run and ended.
    Drained,
}

/// Hands out the jobs `0 .. total` in order, each once, with at most `cap`
/// of them running at any time, and counts those that have ended.
pub struct Scheduler {
    cap: usize,
    next: usize,
    running: usize,
    progress: ProgressState,
}

impl View for Scheduler {
    type V = SchedulerView;

    closed spec fn view(&self) -> SchedulerView {
        SchedulerView {
            cap: self.cap as nat,
            total: self.progress@.total,
            started: self.next as nat,
            running: self.running as nat,
            completed: self.progress@.completed,
        }
    }
}

/// A scheduler that has handed out nothing.
pub open spec fn fresh(cap: nat, total: nat) -> SchedulerView {
    SchedulerView { cap, total, started: 0, running: 0, completed: 0 }
}

impl Scheduler {
    closed spec fn inner_wf(&self) -> bool {
        &&& self.progress.wf()
        &&& self.next as nat <= self.progress@.total
    }

    /// The scheduler's invariant: at least one permit; no more running jobs
    /// than permits; every job handed out is either running or completed.
    pub open spec fn wf(&self) -> bool {
        &&& self.inner()
        &&& 1 <= self@.cap
        &&& self@.running <= self@.cap
        &&& self@.started <= self@.total
        &&& self@.completed + self@.running == self@.started
    }

    /// The invariant of the private parts.
    pub closed spec fn inner(&self) -> bool {
        self.inner_wf()
    }

    /// Every job has been handed out and has ended.
    pub open spec fn is_drained(&self) -> bool {
        self@.started == self@.total && self@.running == 0
    }

    /// A scheduler for `total` jobs with `cap` permits.
    pub fn new(cap: usize, total: usize) -> (r: Scheduler)
        requires
            cap >= 1,
        ensures
            r.wf(),
            r@ == fresh(cap as nat, total as nat),
    {
        Scheduler { cap, next: 0, running: 0, progress: ProgressState::new(total) }
    }

    /// Decides what happens next: start the next job where one is left and
    /// a permit is free, else wait while jobs run, else report the batch
    /// drained.
    pub fn next_step(&mut self) -> (r: Step)
        requires
            old(self).wf(),
        ensures
            final(self).wf(),
            final(self)@.cap == old(self)@.cap,
            final(self)@.total == old(self)@.total,
            final(self)@.completed == old(self)@.completed,
            (r matches Step::Start(i)) <==> (old(self)@.started < old(self)@.total
                && old(self)@.running < old(self)@.cap),
            r matches Step::Start(i) ==> {
                &&& i as nat == old(self)@.started
                &&& final(self)@.started == old(self)@.started + 1
                &&& final(self)@.running == old(self)@.running + 1
            },
            !(r matches Step::Start(_)) ==> final(self)@ == old(self)@,
            r == Step::Drained <==> old(self).is_drained(),
            r == Step::Drained ==> final(self)@.completed == final(self)@.total,
    {
        if self.next < self.progress.total() && self.running < self.cap {
            let i = self.next;
            self.next = self.next + 1;
            self.running = self.running + 1;
            Step::Start(i)
        } else if self.running > 0 {
            Step::Wait
        } else {
            Step::Drained
        }
    }

    /// Records that a running job has ended, whether it succeeded or not:
    /// its permit is free again and the count goes up by one. Gives the new
    /// count with the total.
    pub fn finish(&mut self) -> (r: (usize, usize))
        requires
            old(self).wf(),
            old(self)@.running > 0,
        ensures
            final(self).wf(),
            final(self)@ == (SchedulerView {
                running: (old(self)@.running - 1) as nat,
                completed: old(self)@.completed + 1,
                ..old(self)@
            }),
            r.0 as nat == final(self)@.completed,
            r.1 as nat == final(self)@.total,
    {
        self.running = self.running - 1;
        self.progress.record()
    }

    /// The number of jobs that hold a permit now.
    pub fn running(&self) -> (r: usize)
        ensures
            r as nat == self@.running,
    {
        self.running
    }

    /// The number of permits.
    pub fn cap(&self) -> (r: usize)
        ensures
            r as nat == self@.cap,
    {
        self.cap
    }

    /// The completion count and the total.
    pub fn progress(&self) -> (r: (usize, usize))
        ensures
            r.0 as nat == self@.completed,
            r.1 as nat == self@.total,
    {
        (self.progress.completed(), self.progress.total())
    }
}

/// No state that the scheduler reaches has more jobs holding permits than
/// there are permits.
pub proof fn lemma_permits_within_cap(s: &Scheduler)
    requires
        s.wf(),
    ensures
        s@.running <= s@.cap,
{
}

/// Once the batch is drained every job has been counted exactly once:
/// the completion count equals the total, whatever the jobs' outcomes and
/// the order in which they ended.
pub proof fn lemma_drained_counts_all(s: &Scheduler)
    requires
        s.wf(),
        s.is_drained(),
    ensures
        s@.completed == s@.total,
{
}

} // verus!
