use my_prs::local::{
    expand_tilde_with_home, is_hidden_name, local_repo_from_remote, parse_github_url, parse_repo,
    RepoRefError,
};

#[test]
fn parses_ssh_url() {
    let (o, r) = parse_github_url("git@github.com:owner/repo.git").unwrap();
    assert_eq!((o.as_str(), r.as_str()), ("owner", "repo"));
}

#[test]
fn parses_https_url_without_suffix() {
    let (o, r) = parse_github_url("https://github.com/snyk/cli").unwrap();
    assert_eq!((o.as_str(), r.as_str()), ("snyk", "cli"));
}

#[test]
fn rejects_other_hosts() {
    assert_eq!(parse_github_url("https://gitlab.com/a/b.git").unwrap_err(), RepoRefError::NotGitHubUrl);
}

#[test]
fn rejects_deep_paths() {
    assert_eq!(
        parse_github_url("https://github.com/a/b/c.git").unwrap_err(),
        RepoRefError::InvalidGitHubUrl
    );
    assert_eq!(parse_github_url("git@github.com:justone").unwrap_err(), RepoRefError::InvalidGitHubUrl);
}

#[test]
fn url_with_empty_parts_still_splits() {
    let (o, r) = parse_github_url("https://github.com//.git").unwrap();
    assert_eq!((o.as_str(), r.as_str()), ("", ""));
}

#[test]
fn parses_owner_slash_repo() {
    let (o, r) = parse_repo("owner/repo").unwrap();
    assert_eq!((o.as_str(), r.as_str()), ("owner", "repo"));
    assert_eq!(parse_repo("owner").unwrap_err(), RepoRefError::NotOwnerSlashRepo);
    assert_eq!(parse_repo("a/b/c").unwrap_err(), RepoRefError::NotOwnerSlashRepo);
}

#[test]
fn error_messages() {
    assert_eq!(RepoRefError::NotGitHubUrl.message("x"), "Not a GitHub URL: x");
    assert_eq!(RepoRefError::InvalidGitHubUrl.message("y"), "Invalid GitHub URL format: y");
    assert_eq!(
        RepoRefError::NotOwnerSlashRepo.message("z"),
        "Repository must be in format 'owner/repo'"
    );
}

#[test]
fn tilde_expansion() {
    assert_eq!(expand_tilde_with_home("~/repos", Some("/home/u".to_string())), "/home/u/repos");
    assert_eq!(expand_tilde_with_home("~/repos", None), "~/repos");
    assert_eq!(expand_tilde_with_home("/abs", Some("/home/u".to_string())), "/abs");
    assert_eq!(expand_tilde_with_home("~user", Some("/home/u".to_string())), "~user");
}

#[test]
fn hidden_names() {
    assert!(is_hidden_name(".cache"));
    assert!(!is_hidden_name("repo"));
}

#[test]
fn local_repo_from_github_remote() {
    let l = local_repo_from_remote(
        "dir".to_string(),
        "/p/dir".to_string(),
        "git@github.com:o/r.git".to_string(),
    )
    .unwrap();
    assert_eq!((l.owner.as_str(), l.repo.as_str(), l.name.as_str()), ("o", "r", "dir"));
    assert!(local_repo_from_remote("d".to_string(), "p".to_string(), "https://x.org/o/r".to_string()).is_none());
}
