use vstd::prelude::*;

use crate::repo::url_of;
use crate::types::Repo;

verus! {

/// What a job does to its repository.
#[derive(Debug, PartialEq, Eq)]
pub enum JobAction {
    /// Refresh every remote-tracking reference of the working copy at `path`.
    Fetch { path: String },
    /// Make a new working copy from `url`.
    Clone { url: String },
}

/// One repository's unit of work: its working copy's directory and the
/// action to take.
#[derive(Debug, PartialEq, Eq)]
pub struct Job {
    pub name: String,
    pub action: JobAction,
}

/// The job for `repo`, given whether a directory of its name exists: an
/// existing working copy is fetched, a missing one cloned over the
/// repository's transport.
pub fn plan_job(repo: &Repo, exists: bool) -> (r: Job)
    ensures
        r.name@ == repo.name@,
        exists ==> (r.action matches JobAction::Fetch { path } && path@ == repo.name@),
        !exists ==> (r.action matches JobAction::Clone { url } && url@ == url_of(*repo)),
{
    let action = if exists {
        JobAction::Fetch { path: repo.name.clone() }
    } else {
        JobAction::Clone { url: repo.url() }
    };
    Job { name: repo.name.clone(), action }
}

} // verus!
