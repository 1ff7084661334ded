use vstd::prelude::*;

use crate::filter::{filter_repos, filtered};
use crate::repo::{use_method, with_method};
use crate::scheduler::{fresh, Scheduler};
use crate::types::{Args, BatchError, Repo, RepoMethod};

verus! {

/// The number of concurrent jobs from which a batch is refused.
pub const MAX_THREADS: usize = 10;

/// How the batch goes on once its repositories are chosen.
pub enum BatchMode {
    /// Only report the chosen repositories; no job runs.
    DryRun { count: usize },
    /// Run one job per chosen repository under the scheduler.
    Run(Scheduler),
}

/// The repositories of a batch and how it goes on.
pub struct BatchPlan {
    pub repos: Vec<Repo>,
    pub mode: BatchMode,
}

/// The transport that the https option selects.
pub open spec fn method_for(https: bool) -> RepoMethod {
    if https {
        RepoMethod::Https
    } else {
        RepoMethod::Ssh
    }
}

/// The repositories of a batch: those that the filters keep, in their order,
/// each reached over the transport that the options select.
pub open spec fn selected(repos: Seq<Repo>, filters: Option<Vec<String>>, https: bool) -> Seq<
    Repo,
> {
    filtered(repos, filters).map_values(|x: Repo| with_method(x, method_for(https)))
}

/// `p` reports the repositories `chosen` and runs nothing: its count is
/// theirs.
pub open spec fn is_dry_run_of(p: BatchPlan, chosen: Seq<Repo>) -> bool {
    &&& p.repos@ == chosen
    &&& p.mode matches BatchMode::DryRun { count }
    &&& count == chosen.len()
}

/// `p` runs one job for each repository of `chosen`, under a scheduler with
/// `cap` permits that has handed out nothing yet.
pub open spec fn is_run_of(p: BatchPlan, chosen: Seq<Repo>, cap: nat) -> bool {
    &&& p.repos@ == chosen
    &&& p.mode matches BatchMode::Run(s)
    &&& s.wf()
    &&& s@ == fresh(cap, chosen.len())
}

/// Checks a requested number of concurrent jobs: at least one, and under
/// the limit.
pub fn check_threads(requested: usize) -> (r: Result<usize, BatchError>)
    ensures
        requested == 0 ==> r == Err::<usize, BatchError>(BatchError::NoThreads),
        requested >= MAX_THREADS ==> r == Err::<usize, BatchError>(
            BatchError::TooManyThreads { requested, limit: MAX_THREADS },
        ),
        1 <= requested < MAX_THREADS ==> r == Ok::<usize, BatchError>(requested),
{
    if requested == 0 {
        Err(BatchError::NoThreads)
    } else if requested >= MAX_THREADS {
        Err(BatchError::TooManyThreads { requested, limit: MAX_THREADS })
    } else {
        Ok(requested)
    }
}

/// Chooses the repositories of a batch and how it goes on. A dry run is
/// never refused and runs nothing; otherwise the requested number of
/// concurrent jobs is checked before any job starts.
pub fn plan_batch(repos: Vec<Repo>, args: Args) -> (r: Result<BatchPlan, BatchError>)
    ensures
        args.dry_run ==> (r matches Ok(p) && is_dry_run_of(
            p,
            selected(repos@, args.filters, args.https),
        )),
        !args.dry_run && args.max_threads == 0 ==> r matches Err(BatchError::NoThreads),
        !args.dry_run && args.max_threads >= MAX_THREADS ==> r == Err::<BatchPlan, BatchError>(
            BatchError::TooManyThreads { requested: args.max_threads, limit: MAX_THREADS },
        ),
        !args.dry_run && 1 <= args.max_threads < MAX_THREADS ==> (r matches Ok(p) && is_run_of(
            p,
            selected(repos@, args.filters, args.https),
            args.max_threads as nat,
        )),
{
    let kept = filter_repos(repos, args.filters);
    let method = if args.https {
        RepoMethod::Https
    } else {
        RepoMethod::Ssh
    };
    let chosen = use_method(kept, method);
    let total = chosen.len();
    if args.dry_run {
        return Ok(BatchPlan { repos: chosen, mode: BatchMode::DryRun { count: total } });
    }
    match check_threads(args.max_threads) {
        Ok(cap) => Ok(BatchPlan { repos: chosen, mode: BatchMode::Run(Scheduler::new(cap, total)) }),
        Err(e) => Err(e),
    }
}

/// A dry run hands out no job, and the count it reports is the number of
/// repositories that the filters keep.
pub proof fn lemma_dry_run_count(
    p: BatchPlan,
    repos: Seq<Repo>,
    filters: Option<Vec<String>>,
    https: bool,
)
    requires
        is_dry_run_of(p, selected(repos, filters, https)),
    ensures
        !(p.mode is Run),
        p.mode matches BatchMode::DryRun { count } && count == filtered(repos, filters).len(),
{
}

} // verus!
