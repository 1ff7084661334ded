use vstd::prelude::*;
use vstd::string::StringExecFns;

use crate::naming::{get_repo_name, git_suffix, repo_name_of};
use crate::types::{BatchError, GHOuput, Repo, RepoMethod};

verus! {

/// The https address to clone from: the web address with `.git` appended;
/// empty where the listing gave no web address.
pub open spec fn https_url_of(url: Seq<char>) -> Seq<char> {
    if url.len() == 0 {
        Seq::empty()
    } else {
        url + git_suffix()
    }
}

/// `r` is the repository that the listing entry `e` describes.
pub open spec fn describes(r: Repo, e: GHOuput) -> bool {
    &&& r.ssh_url@ == e.sshUrl@
    &&& r.https_url@ == https_url_of(e.url@)
    &&& r.name@ == repo_name_of(e.sshUrl@)
    &&& r.method == RepoMethod::Ssh
}

/// The address that `r`'s transport selects.
pub open spec fn url_of(r: Repo) -> Seq<char> {
    match r.method {
        RepoMethod::Https => r.https_url@,
        RepoMethod::Ssh => r.ssh_url@,
    }
}

/// `r` with its transport set to `m`, and all else kept.
pub open spec fn with_method(r: Repo, m: RepoMethod) -> Repo {
    Repo { method: m, ..r }
}

impl Repo {
    /// The address to clone from, over the repository's transport.
    pub fn url(&self) -> (r: String)
        ensures
            r@ == url_of(*self),
    {
        match self.method {
            RepoMethod::Https => self.https_url.clone(),
            RepoMethod::Ssh => self.ssh_url.clone(),
        }
    }

    /// The repository that a listing entry describes, reached over ssh.
    pub fn try_from(value: &GHOuput) -> (r: Result<Repo, BatchError>)
        ensures
            r matches Ok(repo) && describes(repo, *value),
    {
        let name = match get_repo_name(&value.sshUrl) {
            Ok(name) => name,
            Err(e) => {
                return Err(e);
            },
        };
        let https_url = if value.url.as_str().is_empty() {
            String::new()
        } else {
            let suffix = ".git";
            proof {
                reveal_strlit(".git");
                assert(suffix@ =~= git_suffix());
            }
            value.url.clone().concat(suffix)
        };
        Ok(Repo { ssh_url: value.sshUrl.clone(), https_url, name, method: RepoMethod::Ssh })
    }
}

/// The repositories that the listing entries describe, one for each entry,
/// in the listing's order.
pub fn repos_from_listing(listing: &Vec<GHOuput>) -> (r: Vec<Repo>)
    ensures
        r@.len() == listing@.len(),
        forall|i: int| 0 <= i < listing@.len() ==> describes(#[trigger] r@[i], listing@[i]),
{
    let mut out: Vec<Repo> = Vec::new();
    let mut i: usize = 0;
    while i < listing.len()
        invariant
            i <= listing@.len(),
            out@.len() == i,
            forall|j: int| 0 <= j < i ==> describes(#[trigger] out@[j], listing@[j]),
        decreases listing.len() - i,
    {
        match Repo::try_from(&listing[i]) {
            Ok(repo) => out.push(repo),
            Err(_) => {},
        }
        i = i + 1;
    }
    out
}

/// The repositories, in their order, each set to be reached over `method`.
pub fn use_method(repos: Vec<Repo>, method: RepoMethod) -> (r: Vec<Repo>)
    ensures
        r@ == repos@.map_values(|x: Repo| with_method(x, method)),
{
    let ghost all = repos@;
    let mut rest = repos;
    let mut out: Vec<Repo> = Vec::new();
    while rest.len() > 0
        invariant
            rest.len() <= all.len(),
            rest@ == all.subrange(all.len() - rest.len(), all.len() as int),
            out@ == all.subrange(0, all.len() - rest.len()).map_values(
                |x: Repo| with_method(x, method),
            ),
        decreases rest.len(),
    {
        let ghost k = all.len() - rest.len();
        let mut repo = rest.remove(0);
        assert(rest@ =~= all.subrange(all.len() - rest.len(), all.len() as int));
        repo.method = method;
        out.push(repo);
        assert(out@ =~= all.subrange(0, k + 1).map_values(|x: Repo| with_method(x, method)));
    }
    assert(all.subrange(0, all.len() as int) =~= all);
    out
}

} // verus!
