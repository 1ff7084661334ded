use vstd::prelude::*;

use crate::types::Repo;

verus! {

/// What `str::to_lowercase` makes of a string.
pub uninterp spec fn lower_of(s: Seq<char>) -> Seq<char>;

/// `needle` occurs in `hay` as a run of consecutive characters.
pub open spec fn has_substring(hay: Seq<char>, needle: Seq<char>) -> bool {
    exists|i: int|
        0 <= i && i + needle.len() <= hay.len() && #[trigger] hay.subrange(i, i + needle.len())
            == needle
}

/// `name` contains `filter`, ignoring case.
pub open spec fn matches_filter(name: Seq<char>, filter: Seq<char>) -> bool {
    has_substring(lower_of(name), lower_of(filter))
}

/// Some filter of `filters` matches `name`.
pub open spec fn excluded(name: Seq<char>, filters: Seq<String>) -> bool {
    exists|i: int| 0 <= i < filters.len() && #[trigger] matches_filter(name, filters[i]@)
}

/// Whether a repository stays in a batch under `filters`.
pub open spec fn kept_by(filters: Seq<String>) -> spec_fn(Repo) -> bool {
    |r: Repo| !excluded(r.name@, filters)
}

/// The repositories of `repos` that `filters` keeps, in their order; all of
/// them where there are no filters.
pub open spec fn filtered(repos: Seq<Repo>, filters: Option<Vec<String>>) -> Seq<Repo> {
    match filters {
        None => repos,
        Some(f) => repos.filter(kept_by(f@)),
    }
}

/// Relies on str::to_lowercase: the result depends on the characters alone,
/// and the empty string stays empty.
#[verifier::external_body]
fn lowercase(s: &str) -> (r: String)
    ensures
        r@ == lower_of(s@),
        s@.len() == 0 ==> r@.len() == 0,
{
    s.to_lowercase()
}

/// Relies on str::contains with a string pattern: whether the pattern occurs
/// in the string.
#[verifier::external_body]
fn contains_str(hay: &str, needle: &str) -> (r: bool)
    ensures
        r == has_substring(hay@, needle@),
{
    hay.contains(needle)
}

/// Whether some filter occurs in the repository's name, ignoring case.
pub fn check_filter(repo: &Repo, filters: &Vec<String>) -> (r: bool)
    ensures
        r == excluded(repo.name@, filters@),
{
    let name = lowercase(repo.name.as_str());
    let mut i: usize = 0;
    while i < filters.len()
        invariant
            i <= filters.len(),
            name@ == lower_of(repo.name@),
            forall|j: int| 0 <= j < i ==> !matches_filter(repo.name@, #[trigger] filters@[j]@),
        decreases filters.len() - i,
    {
        let filter = lowercase(filters[i].as_str());
        if contains_str(name.as_str(), filter.as_str()) {
            assert(matches_filter(repo.name@, filters@[i as int]@));
            return true;
        }
        i = i + 1;
    }
    false
}

/// The repositories that no filter matches, in their order; all of them
/// where there are no filters.
pub fn filter_repos(repos: Vec<Repo>, filters: Option<Vec<String>>) -> (r: Vec<Repo>)
    ensures
        r@ == filtered(repos@, filters),
{
    match filters {
        None => repos,
        Some(custom_filters) => {
            let ghost all = repos@;
            let ghost keep = kept_by(custom_filters@);
            let mut rest = repos;
            let mut out: Vec<Repo> = Vec::new();
            proof {
                reveal(Seq::filter);
                assert(all.subrange(0, 0).filter(keep) =~= Seq::<Repo>::empty());
            }
            while rest.len() > 0
                invariant
                    rest.len() <= all.len(),
                    rest@ == all.subrange(all.len() - rest.len(), all.len() as int),
                    out@ == all.subrange(0, all.len() - rest.len()).filter(keep),
                    keep == kept_by(custom_filters@),
                decreases rest.len(),
            {
                let ghost k = all.len() - rest.len();
                let repo = rest.remove(0);
                assert(repo == all[k]);
                assert(rest@ =~= all.subrange(all.len() - rest.len(), all.len() as int));
                proof {
                    reveal(Seq::filter);
                    assert(all.subrange(0, k + 1).drop_last() =~= all.subrange(0, k));
                    assert(all.subrange(0, k + 1).last() == all[k]);
                }
                if !check_filter(&repo, &custom_filters) {
                    out.push(repo);
                }
            }
            assert(all.subrange(0, all.len() as int) =~= all);
            out
        },
    }
}

/// The filter keeps exactly the repositories whose name contains none of the
/// filters, ignoring case, and nothing that was not given; without filters
/// it keeps every repository.
pub proof fn lemma_filter_keeps_exactly(repos: Seq<Repo>, filters: Vec<String>)
    ensures
        forall|r: Repo|
            #[trigger] filtered(repos, Some(filters)).contains(r) <==> (repos.contains(r)
                && !excluded(r.name@, filters@)),
        filtered(repos, None) == repos,
{
    let keep = kept_by(filters@);
    let out = repos.filter(keep);
    assert forall|r: Repo| #[trigger]
        filtered(repos, Some(filters)).contains(r) <==> (repos.contains(r) && !excluded(
            r.name@,
            filters@,
        )) by {
        if out.contains(r) {
            let i = choose|i: int| 0 <= i < out.len() && out[i] == r;
            repos.lemma_filter_pred(keep, i);
            repos.lemma_filter_contains_rev(keep, r);
        }
        if repos.contains(r) && !excluded(r.name@, filters@) {
            let i = choose|i: int| 0 <= i < repos.len() && repos[i] == r;
            repos.lemma_filter_contains(keep, i);
        }
    }
}

} // verus!
