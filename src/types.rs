use vstd::prelude::*;

verus! {

/// One entry of the repository listing, with the listing's own field names.
#[allow(non_snake_case)]
pub struct GHOuput {
    pub sshUrl: String,
    /// The web address of the repository; empty where the listing gave none.
    pub url: String,
}

/// How a repository is reached: over ssh or over https.
#[derive(Debug, PartialEq, Eq, Structural, Clone, Copy)]
pub enum RepoMethod {
    Ssh,
    Https,
}

/// A repository to synchronise.
#[derive(Debug, PartialEq)]
pub struct Repo {
    pub ssh_url: String,
    pub https_url: String,
    /// The directory that holds the working copy; derived from `ssh_url`.
    pub name: String,
    pub method: RepoMethod,
}

/// The options of one batch.
pub struct Args {
    /// The organisation whose repositories are listed.
    pub github_org: String,
    /// Report what would be synchronised and run nothing.
    pub dry_run: bool,
    /// Substrings of repository names to leave out, matched ignoring case.
    pub filters: Option<Vec<String>>,
    /// The largest number of jobs that may run at once.
    pub max_threads: usize,
    /// Reach every repository over https rather than ssh.
    pub https: bool,
}

/// What stops a batch before any job runs.
#[derive(Debug, PartialEq, Eq)]
pub enum BatchError {
    /// The listing service could not be run or reported failure.
    SourceRetrieval(String),
    /// The listing does not have the expected shape.
    Parse(String),
    /// The requested number of concurrent jobs is at or above the limit.
    TooManyThreads { requested: usize, limit: usize },
    /// No job could ever run with zero concurrent jobs.
    NoThreads,
}

} // verus!
