use vstd::prelude::*;

verus! {

/// How far a batch has come, as plain numbers.
pub struct ProgressView {
    pub completed: nat,
    pub total: nat,
}

/// The completion count of one batch: `total` is fixed when the batch
/// starts, and `completed` goes up by one for each job that ends, however it
/// ended.
pub struct ProgressState {
    completed: usize,
    total: usize,
}

impl View for ProgressState {
    type V = ProgressView;

    closed spec fn view(&self) -> ProgressView {
        ProgressView { completed: self.completed as nat, total: self.total as nat }
    }
}

impl ProgressState {
    /// The count never passes the total.
    pub open spec fn wf(&self) -> bool {
        self@.completed <= self@.total
    }

    /// Every job has been counted.
    pub open spec fn is_done(&self) -> bool {
        self@.completed == self@.total
    }

    /// A count of nothing completed out of `total`.
    pub fn new(total: usize) -> (r: ProgressState)
        ensures
            r.wf(),
            r@ == (ProgressView { completed: 0, total: total as nat }),
    {
        ProgressState { completed: 0, total }
    }

    /// Counts one more completed job and gives the new count with the total.
    pub fn record(&mut self) -> (r: (usize, usize))
        requires
            old(self).wf(),
            !old(self).is_done(),
        ensures
            final(self).wf(),
            final(self)@ == (ProgressView {
                completed: old(self)@.completed + 1,
                total: old(self)@.total,
            }),
            r.0 as nat == final(self)@.completed,
            r.1 as nat == final(self)@.total,
    {
        self.completed = self.completed + 1;
        (self.completed, self.total)
    }

    /// The number of completed jobs.
    pub fn completed(&self) -> (r: usize)
        ensures
            r as nat == self@.completed,
    {
        self.completed
    }

    /// The number of jobs in the batch.
    pub fn total(&self) -> (r: usize)
        ensures
            r as nat == self@.total,
    {
        self.total
    }
}

} // verus!
