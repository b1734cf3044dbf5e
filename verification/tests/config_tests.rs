use my_prs::cli::{scan_pr_limit, scan_repo_limit};
use my_prs::config::{expand_path_with_home, username_from_git_output, wizard_confirms, Config, WizardStep};
use my_prs::local::LocalRepo;

#[test]
fn default_settings() {
    let c = Config::default();
    assert_eq!(c.github_token, None);
    assert_eq!(c.github_username, None);
    assert_eq!(c.github_base_url, "https://api.github.com");
    assert_eq!(c.local_repos_path, "~/repos");
    assert_eq!(c.github_organization.as_deref(), Some("snyk"));
    assert_eq!(c.default_pr_state, "open");
    assert_eq!(c.default_pr_limit, 10);
    assert_eq!(c.default_repo_limit, 20);
    assert!(!c.show_workflows_by_default);
}

#[test]
fn token_precedence() {
    let mut c = Config::default();
    assert_eq!(c.get_github_token(Some("p".into()), Some("t".into())).as_deref(), Some("p"));
    assert_eq!(c.get_github_token(None, Some("t".into())).as_deref(), Some("t"));
    assert_eq!(c.get_github_token(None, None), None);
    c.github_token = Some("cfg".into());
    assert_eq!(c.get_github_token(Some("p".into()), None).as_deref(), Some("cfg"));
}

#[test]
fn username_resolution() {
    let mut c = Config::default();
    assert_eq!(username_from_git_output(Some("Knut Funkel\n".into())), "acke");
    assert_eq!(username_from_git_output(Some("  jdoe \n".into())), "jdoe");
    assert_eq!(username_from_git_output(Some("   ".into())), "acke");
    assert_eq!(username_from_git_output(None), "acke");
    assert_eq!(c.get_github_username(|| Some("jdoe\n".to_string())), "jdoe");
    c.github_username = Some("me".into());
    assert_eq!(c.get_github_username(|| -> Option<String> { panic!("git must not be asked") }), "me");
}

#[test]
fn user_filter_defaults_to_own_prs() {
    let c = Config::default();
    assert_eq!(c.user_filter(true, Some("x".into()), || None), None);
    assert_eq!(c.user_filter(false, Some("x".into()), || None).as_deref(), Some("x"));
    assert_eq!(c.user_filter(false, None, || Some("Knut Funkel".into())).as_deref(), Some("acke"));
}

#[test]
fn home_expansion_joins_paths() {
    assert_eq!(expand_path_with_home("~/repos", Some("/home/u".into())), "/home/u/repos");
    assert_eq!(expand_path_with_home("~/repos", None), "~/repos");
    assert_eq!(expand_path_with_home("rel/x", Some("/home/u".into())), "rel/x");
}

#[test]
fn local_repos_path_expands_home() {
    let mut c = Config::default();
    c.local_repos_path = "/srv/repos".into();
    assert_eq!(c.get_local_repos_path(), "/srv/repos");
    c.local_repos_path = "~/code".into();
    let p = c.get_local_repos_path();
    assert!(p.ends_with("code"));
}

#[test]
fn wizard_answers() {
    let mut c = Config::default();
    c.apply_wizard_answer(WizardStep::Token, "  secret \n");
    assert_eq!(c.github_token.as_deref(), Some("secret"));
    c.apply_wizard_answer(WizardStep::Username, "\n");
    assert_eq!(c.github_username, None);
    c.apply_wizard_answer(WizardStep::BaseUrl, "https://ghe.example/api\n");
    assert_eq!(c.github_base_url, "https://ghe.example/api");
    c.apply_wizard_answer(WizardStep::ReposPath, "/code\n");
    assert_eq!(c.local_repos_path, "/code");
    c.apply_wizard_answer(WizardStep::Organization, "NONE\n");
    assert_eq!(c.github_organization, None);
    c.apply_wizard_answer(WizardStep::Organization, "acme\n");
    assert_eq!(c.github_organization.as_deref(), Some("acme"));
    c.apply_wizard_answer(WizardStep::PrState, "merged\n");
    assert_eq!(c.default_pr_state, "open");
    c.apply_wizard_answer(WizardStep::PrState, "closed\n");
    assert_eq!(c.default_pr_state, "closed");
    c.apply_wizard_answer(WizardStep::PrLimit, "abc\n");
    assert_eq!(c.default_pr_limit, 10);
    c.apply_wizard_answer(WizardStep::PrLimit, "+25\n");
    assert_eq!(c.default_pr_limit, 25);
    c.apply_wizard_answer(WizardStep::RepoLimit, "7\n");
    assert_eq!(c.default_repo_limit, 7);
    c.apply_wizard_answer(WizardStep::ShowWorkflows, "YES\n");
    assert!(c.show_workflows_by_default);
    c.apply_wizard_answer(WizardStep::ShowWorkflows, "maybe\n");
    assert!(c.show_workflows_by_default);
    c.apply_wizard_answer(WizardStep::ShowWorkflows, "n\n");
    assert!(!c.show_workflows_by_default);
}

#[test]
fn wizard_save_question() {
    assert!(wizard_confirms("y\n"));
    assert!(wizard_confirms(" Yes "));
    assert!(!wizard_confirms("no"));
    assert!(!wizard_confirms(""));
    assert!(!wizard_confirms(" \t\n"));
}

fn repo(owner: &str) -> LocalRepo {
    LocalRepo {
        name: owner.to_string(),
        path: String::new(),
        remote_url: String::new(),
        owner: owner.to_string(),
        repo: "r".to_string(),
    }
}

#[test]
fn organization_scope() {
    let mut c = Config::default();
    assert!(c.owner_in_scope("snyk"));
    assert!(!c.owner_in_scope("other"));
    let kept = c.repos_in_scope(vec![repo("snyk"), repo("other"), repo("snyk")]);
    assert_eq!(kept.len(), 2);
    assert_eq!(c.organization_label(), "snyk");
    c.github_organization = None;
    assert!(c.owner_in_scope("other"));
    assert_eq!(c.repos_in_scope(vec![repo("a"), repo("b")]).len(), 2);
    assert_eq!(c.organization_label(), "organization");
}

#[test]
fn effective_values() {
    let c = Config::default();
    assert_eq!(c.effective_state(None), "open");
    assert_eq!(c.effective_state(Some("all".into())), "all");
    assert_eq!(c.effective_pr_limit(None), 10);
    assert_eq!(c.effective_pr_limit(Some(3)), 3);
    assert_eq!(c.effective_repo_limit(None), 20);
    assert!(!c.effective_workflows(None));
    assert!(c.effective_workflows(Some(true)));
}

#[test]
fn blank_wizard_answers_keep_settings() {
    let before = Config::default();
    let mut c = Config::default();
    for step in [
        WizardStep::Token,
        WizardStep::Username,
        WizardStep::BaseUrl,
        WizardStep::ReposPath,
        WizardStep::Organization,
        WizardStep::PrState,
        WizardStep::PrLimit,
        WizardStep::RepoLimit,
        WizardStep::ShowWorkflows,
    ] {
        c.apply_wizard_answer(step, " \t\u{a0}\u{3000}\n");
        c.apply_wizard_answer(step, "");
    }
    assert_eq!(c.github_token, before.github_token);
    assert_eq!(c.github_username, before.github_username);
    assert_eq!(c.github_base_url, before.github_base_url);
    assert_eq!(c.local_repos_path, before.local_repos_path);
    assert_eq!(c.github_organization, before.github_organization);
    assert_eq!(c.default_pr_state, before.default_pr_state);
    assert_eq!(c.default_pr_limit, before.default_pr_limit);
    assert_eq!(c.default_repo_limit, before.default_repo_limit);
    assert_eq!(c.show_workflows_by_default, before.show_workflows_by_default);
}

#[test]
fn wizard_trims_unicode_white_space() {
    let mut c = Config::default();
    c.apply_wizard_answer(WizardStep::Username, "\u{2003}octo cat\u{85}\r\n");
    assert_eq!(c.github_username.as_deref(), Some("octo cat"));
}

#[test]
fn scan_and_local_defaults() {
    assert_eq!(scan_pr_limit(None), 5);
    assert_eq!(scan_pr_limit(Some(12)), 12);
    assert_eq!(scan_repo_limit(None), 10);
    assert_eq!(scan_repo_limit(Some(3)), 3);
}
