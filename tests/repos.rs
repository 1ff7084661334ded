use repo_sync::filter::{check_filter, filter_repos};
use repo_sync::naming::get_repo_name;
use repo_sync::repo::{repos_from_listing, use_method};
use repo_sync::types::{GHOuput, Repo, RepoMethod};

fn entry_from_json(v: &serde_json::Value) -> GHOuput {
    GHOuput {
        sshUrl: v["sshUrl"].as_str().unwrap().to_string(),
        url: v.get("url").and_then(|u| u.as_str()).unwrap_or("").to_string(),
    }
}

fn listing_from_json(payload: &str) -> Vec<GHOuput> {
    let v: serde_json::Value = serde_json::from_str(payload).unwrap();
    v.as_array().unwrap().iter().map(entry_from_json).collect()
}

fn named(name: &str) -> Repo {
    Repo {
        ssh_url: format!("git@github.com:org/{name}.git"),
        https_url: format!("https://github.com/org/{name}.git"),
        name: name.to_string(),
        method: RepoMethod::Ssh,
    }
}

fn names(repos: &[Repo]) -> Vec<String> {
    repos.iter().map(|r| r.name.clone()).collect()
}

#[test]
fn test_check_filter() {
    let repo = Repo {
        ssh_url: "git@github.com:chimbosonic/Github-fetch-repos.git".to_string(),
        https_url: "https://github.com/chimbosonic/Github-fetch-repos.git".to_string(),
        name: "Github-fetch-repos".to_string(),
        method: RepoMethod::Ssh,
    };

    assert_eq!(
        check_filter(&repo, &vec!["github-fetch-repos".to_string()]),
        true
    );
}

#[test]
fn test_get_repo_name() {
    let repo_ssh_url: String =
        "git@github.com:chimbosonic/hackers.chimbosonic.com.git".to_string();
    assert_eq!(
        get_repo_name(&repo_ssh_url).unwrap(),
        "hackers.chimbosonic.com"
    );
}

#[test]
fn test_parse_gh_output() {
    let data = r#"[{"sshUrl":"git@github.com:chimbosonic/github-fetch-repos.git","url":"https://github.com/chimbosonic/github-fetch-repos"},{"sshUrl":"git@github.com:chimbosonic/cli-kneeboard.git","url":"https://github.com/chimbosonic/cli-kneeboard"}]"#;

    let repos = repos_from_listing(&listing_from_json(data));

    assert_eq!(repos.len(), 2);

    assert_eq!(
        repos[0],
        Repo {
            ssh_url: "git@github.com:chimbosonic/github-fetch-repos.git".to_string(),
            https_url: "https://github.com/chimbosonic/github-fetch-repos.git".to_string(),
            name: "github-fetch-repos".to_string(),
            method: RepoMethod::Ssh
        }
    );

    assert_eq!(
        repos[1],
        Repo {
            ssh_url: "git@github.com:chimbosonic/cli-kneeboard.git".to_string(),
            https_url: "https://github.com/chimbosonic/cli-kneeboard.git".to_string(),
            name: "cli-kneeboard".to_string(),
            method: RepoMethod::Ssh
        }
    );
}

#[test]
fn test_try_from_repo() {
    let gh_output = GHOuput {
        sshUrl: "git@github.com:chimbosonic/cli-kneeboard.git".to_string(),
        url: "https://github.com/chimbosonic/cli-kneeboard".to_string(),
    };
    let repo: Repo = Repo::try_from(&gh_output).unwrap();

    assert_eq!(
        repo,
        Repo {
            ssh_url: "git@github.com:chimbosonic/cli-kneeboard.git".to_string(),
            https_url: "https://github.com/chimbosonic/cli-kneeboard.git".to_string(),
            name: "cli-kneeboard".to_string(),
            method: RepoMethod::Ssh
        }
    )
}

#[test]
fn listing_with_ssh_url_only_gives_one_repo() {
    let repos = repos_from_listing(&listing_from_json(r#"[{"sshUrl":"git@host:org/repo.git"}]"#));
    assert_eq!(repos.len(), 1);
    assert_eq!(repos[0].name, "repo");
    assert_eq!(repos[0].ssh_url, "git@host:org/repo.git");
    assert_eq!(repos[0].https_url, "");
    assert_eq!(repos[0].method, RepoMethod::Ssh);
}

#[test]
fn empty_listing_gives_no_repo() {
    assert!(repos_from_listing(&Vec::new()).is_empty());
}

#[test]
fn name_strips_one_git_suffix_only() {
    let url = "git@host:org/tool.git.git".to_string();
    assert_eq!(get_repo_name(&url).unwrap(), "tool.git");
    let again = get_repo_name(&url).unwrap();
    assert_eq!(get_repo_name(&url).unwrap(), again);
}

#[test]
fn name_keeps_last_segment() {
    assert_eq!(get_repo_name(&"https://host/a/b/c".to_string()).unwrap(), "c");
    assert_eq!(get_repo_name(&"plain.git".to_string()).unwrap(), "plain");
    assert_eq!(get_repo_name(&"git@host:org/".to_string()).unwrap(), "");
    assert_eq!(get_repo_name(&"git@host:org/repo.GIT".to_string()).unwrap(), "repo.GIT");
}

#[test]
fn name_of_a_name_is_itself() {
    let first = get_repo_name(&"git@host:org/widget.git".to_string()).unwrap();
    assert_eq!(get_repo_name(&first).unwrap(), first);
}

#[test]
fn filter_example_excludes_test() {
    let repos = vec![named("alpha"), named("beta-test"), named("Gamma")];
    let kept = filter_repos(repos, Some(vec!["test".to_string()]));
    assert_eq!(names(&kept), vec!["alpha", "Gamma"]);
}

#[test]
fn filter_absent_keeps_all() {
    let repos = vec![named("alpha"), named("beta-test"), named("Gamma")];
    let kept = filter_repos(repos, None);
    assert_eq!(names(&kept), vec!["alpha", "beta-test", "Gamma"]);
}

#[test]
fn filter_ignores_case_and_uses_any_pattern() {
    let repos = vec![named("alpha"), named("beta-test"), named("Gamma"), named("delta")];
    let kept = filter_repos(repos, Some(vec!["GAM".to_string(), "Alp".to_string()]));
    assert_eq!(names(&kept), vec!["beta-test", "delta"]);
}

#[test]
fn filter_empty_list_keeps_all() {
    let repos = vec![named("alpha"), named("beta")];
    let kept = filter_repos(repos, Some(Vec::new()));
    assert_eq!(names(&kept), vec!["alpha", "beta"]);
}

#[test]
fn check_filter_without_match_is_false() {
    let repo = named("alpha");
    assert!(!check_filter(&repo, &vec!["beta".to_string(), "ALPHAS".to_string()]));
    assert!(check_filter(&repo, &vec!["beta".to_string(), "LPH".to_string()]));
}

#[test]
fn url_follows_transport() {
    let repo = named("alpha");
    assert_eq!(repo.url(), "git@github.com:org/alpha.git");
    let https = use_method(vec![repo], RepoMethod::Https);
    assert_eq!(https[0].method, RepoMethod::Https);
    assert_eq!(https[0].url(), "https://github.com/org/alpha.git");
    assert_eq!(https[0].name, "alpha");
}
