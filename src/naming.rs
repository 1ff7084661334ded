use vstd::prelude::*;

use crate::types::BatchError;

verus! {

/// The characters of `s` after its last `/`; all of `s` where it has none.
pub open spec fn last_segment(s: Seq<char>) -> Seq<char>
    decreases s.len(),
{
    if s.len() == 0 {
        s
    } else if s.last() == '/' {
        Seq::empty()
    } else {
        last_segment(s.drop_last()).push(s.last())
    }
}

pub open spec fn git_suffix() -> Seq<char> {
    seq!['.', 'g', 'i', 't']
}

pub open spec fn ends_with(s: Seq<char>, suffix: Seq<char>) -> bool {
    s.len() >= suffix.len() && s.subrange(s.len() - suffix.len(), s.len() as int) == suffix
}

/// `s` without one trailing `.git`, where it has one.
pub open spec fn strip_git(s: Seq<char>) -> Seq<char> {
    if ends_with(s, git_suffix()) {
        s.subrange(0, s.len() - 4)
    } else {
        s
    }
}

/// The name of the repository at `url`: its last `/`-separated segment,
/// without one trailing `.git`.
pub open spec fn repo_name_of(url: Seq<char>) -> Seq<char> {
    strip_git(last_segment(url))
}

/// Relies on str::rsplit_once: it splits at the last occurrence of the
/// delimiter, and gives `None` where there is none.
#[verifier::external_body]
fn split_last<'a>(s: &'a str, c: char) -> (r: Option<(&'a str, &'a str)>)
    ensures
        r is None <==> !s@.contains(c),
        r matches Some((a, b)) ==> s@ == a@.push(c) + b@ && !b@.contains(c),
{
    s.rsplit_once(c)
}

/// Relies on str::strip_suffix: the rest of the string where it ends with
/// the suffix, `None` where it does not.
#[verifier::external_body]
fn without_suffix<'a>(s: &'a str, suffix: &str) -> (r: Option<&'a str>)
    ensures
        r is None <==> !ends_with(s@, suffix@),
        r matches Some(a) ==> s@ == a@ + suffix@,
{
    s.strip_suffix(suffix)
}

proof fn lemma_last_segment_after(a: Seq<char>, b: Seq<char>)
    requires
        !b.contains('/'),
    ensures
        last_segment(a.push('/') + b) == b,
        last_segment(b) == b,
    decreases b.len(),
{
    if b.len() == 0 {
        assert(a.push('/') + b =~= a.push('/'));
    } else {
        let s = a.push('/') + b;
        assert(s.drop_last() =~= a.push('/') + b.drop_last());
        assert(b.drop_last().push(b.last()) =~= b);
        assert(!b.drop_last().contains('/')) by {
            if b.drop_last().contains('/') {
                let i = choose|i: int| 0 <= i < b.drop_last().len() && b.drop_last()[i] == '/';
                assert(b[i] == '/');
            }
        }
        assert(b.last() != '/') by {
            assert(b[b.len() - 1] == b.last());
        }
        lemma_last_segment_after(a, b.drop_last());
    }
}

proof fn lemma_last_segment_shape(s: Seq<char>)
    ensures
        !last_segment(s).contains('/'),
        last_segment(s).len() <= s.len(),
        last_segment(s) == s.subrange(s.len() - last_segment(s).len(), s.len() as int),
        last_segment(s).len() < s.len() ==> s[s.len() - last_segment(s).len() - 1] == '/',
    decreases s.len(),
{
    if s.len() > 0 && s.last() != '/' {
        let p = s.drop_last();
        lemma_last_segment_shape(p);
        let seg = last_segment(p).push(s.last());
        assert(seg =~= s.subrange(s.len() - seg.len(), s.len() as int));
        assert(!seg.contains('/')) by {
            if seg.contains('/') {
                let i = choose|i: int| 0 <= i < seg.len() && seg[i] == '/';
                if i < seg.len() - 1 {
                    assert(last_segment(p)[i] == '/');
                }
            }
        }
        if seg.len() < s.len() {
            assert(s[s.len() - seg.len() - 1] == p[p.len() - last_segment(p).len() - 1]);
        }
    } else if s.len() > 0 {
        assert(s.subrange(s.len() as int, s.len() as int) =~= Seq::<char>::empty());
    }
}

/// A repository's name holds no `/`; it is the last `/`-separated segment of
/// the address with exactly one trailing `.git` taken off where the segment
/// has one, and the whole segment where it has none. That segment ends the
/// address, just after its last `/`. The name of a name is that name again,
/// unless the name itself still ends with `.git`.
pub proof fn lemma_repo_name_shape(url: Seq<char>)
    ensures
        !repo_name_of(url).contains('/'),
        ends_with(last_segment(url), git_suffix()) ==> last_segment(url) == repo_name_of(url)
            + git_suffix(),
        !ends_with(last_segment(url), git_suffix()) ==> repo_name_of(url) == last_segment(url),
        ends_with(url, last_segment(url)),
        last_segment(url).len() < url.len() ==> url[url.len() - last_segment(url).len() - 1]
            == '/',
        !ends_with(repo_name_of(url), git_suffix()) ==> repo_name_of(repo_name_of(url))
            == repo_name_of(url),
{
    let seg = last_segment(url);
    let name = repo_name_of(url);
    lemma_last_segment_shape(url);
    if ends_with(seg, git_suffix()) {
        assert(seg =~= name + git_suffix());
        assert(!name.contains('/')) by {
            if name.contains('/') {
                let i = choose|i: int| 0 <= i < name.len() && name[i] == '/';
                assert(seg[i] == '/');
            }
        }
    }
    lemma_last_segment_after(Seq::empty(), name);
}

/// The name of the repository at `ssh_url`: the part after the last `/`,
/// without one trailing `.git`. Every address has a name, so the result is
/// always `Ok`.
pub fn get_repo_name(ssh_url: &String) -> (r: Result<String, BatchError>)
    ensures
        r matches Ok(name) && name@ == repo_name_of(ssh_url@),
{
    let s = ssh_url.as_str();
    let segment = match split_last(s, '/') {
        Some((a, b)) => {
            proof {
                lemma_last_segment_after(a@, b@);
            }
            b
        },
        None => {
            proof {
                lemma_last_segment_after(Seq::empty(), s@);
            }
            s
        },
    };
    assert(segment@ == last_segment(s@));
    let ghost seg = segment@;
    let suffix = ".git";
    proof {
        reveal_strlit(".git");
        assert(suffix@ =~= git_suffix());
    }
    let name = match without_suffix(segment, suffix) {
        Some(rest) => {
            proof {
                assert(rest@ =~= seg.subrange(0, seg.len() - 4));
            }
            rest
        },
        None => segment,
    };
    Ok(name.to_owned())
}

} // verus!
