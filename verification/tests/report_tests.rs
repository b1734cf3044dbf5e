use my_prs::github::{Branch, CheckRun, PullRequest, StatusCheck, User, WorkflowRun};
use my_prs::output::{
    check_failure_label_of, checked_total_prs, count_drafts, draft_note, draft_note_among, draft_totals,
    get_failure_reason, get_overall_ci_status, get_running_reason, overall_ci_state,
    pr_status_report, run_marker, state_color, status_marker, workflow_failure_label_of, CiState,
    PrWithChecks, StateColor,
};

fn wf(name: &str, status: &str, conclusion: Option<&str>) -> WorkflowRun {
    WorkflowRun {
        id: 1,
        name: name.to_string(),
        status: status.to_string(),
        conclusion: conclusion.map(str::to_string),
        created_at: 0,
        updated_at: 0,
        html_url: String::new(),
        workflow_id: 1,
    }
}

fn ck(name: &str, status: &str, conclusion: Option<&str>) -> CheckRun {
    CheckRun {
        id: 1,
        name: name.to_string(),
        status: status.to_string(),
        conclusion: conclusion.map(str::to_string),
        started_at: None,
        completed_at: None,
        html_url: String::new(),
    }
}

fn sc(state: &str, context: &str) -> StatusCheck {
    StatusCheck { state: state.to_string(), description: None, context: context.to_string(), target_url: None }
}

fn pr(number: u64, draft: bool) -> PullRequest {
    PullRequest {
        number,
        title: format!("PR {}", number),
        state: "open".to_string(),
        user: User { login: "me".to_string(), id: 1, avatar_url: String::new() },
        created_at: 0,
        updated_at: 0,
        html_url: String::new(),
        head: Branch { label: String::new(), git_ref: String::new(), sha: String::new() },
        base: Branch { label: String::new(), git_ref: String::new(), sha: String::new() },
        draft,
        mergeable: None,
        mergeable_state: None,
    }
}

#[test]
fn failure_reasons() {
    assert_eq!(get_failure_reason(&[wf("macOS Integration", "completed", Some("failure"))], &[], &[]), "macOS integration tests failing");
    assert_eq!(get_failure_reason(&[wf("Integration", "completed", Some("failure"))], &[], &[]), "Integration tests failing");
    assert_eq!(get_failure_reason(&[wf("Unit Tests", "completed", Some("failure"))], &[], &[]), "Tests failing");
    assert_eq!(get_failure_reason(&[wf("Docker build", "completed", Some("failure"))], &[], &[]), "Build failing");
    assert_eq!(get_failure_reason(&[wf("Lint", "completed", Some("failure"))], &[], &[]), "Linting issues");
    // A failing generic "Build" and an unrecognised name are passed over.
    assert_eq!(
        get_failure_reason(&[wf("Build", "completed", Some("failure")), wf("Deploy", "completed", Some("failure"))], &[ck("e2e-test", "completed", Some("failure"))], &[]),
        "Tests failing"
    );
    assert_eq!(get_failure_reason(&[], &[ck("deploy", "completed", Some("failure"))], &[]), "Some checks failing");
}

#[test]
fn running_reasons() {
    assert_eq!(get_running_reason(&[wf("MacOS integration", "queued", None)], &[], &[]), "macOS integration tests running");
    assert_eq!(get_running_reason(&[wf("Lint", "in_progress", None)], &[], &[]), "Linting in progress");
    assert_eq!(get_running_reason(&[wf("Deploy", "in_progress", None)], &[], &[]), "Deploy running");
    assert_eq!(get_running_reason(&[wf("Build", "in_progress", None)], &[ck("docs", "queued", None)], &[]), "docs running");
    assert_eq!(get_running_reason(&[], &[ck("integration", "queued", None)], &[]), "Integration tests running");
    assert_eq!(get_running_reason(&[], &[], &[sc("pending", "ci/jenkins")]), "ci/jenkins pending");
    assert_eq!(get_running_reason(&[], &[], &[]), "Checks running");
}

#[test]
fn labels_of_lowercased_names() {
    assert_eq!(workflow_failure_label_of("nightly macos integration"), Some("macOS integration tests failing"));
    assert_eq!(workflow_failure_label_of("deploy"), None);
    assert_eq!(check_failure_label_of("lint"), None);
    assert_eq!(check_failure_label_of("build"), Some("Build failing"));
}

#[test]
fn markers() {
    assert_eq!(run_marker(&Some("cancelled".to_string()), "completed"), "⏭️");
    assert_eq!(run_marker(&Some("skipped".to_string()), "completed"), "⚪");
    assert_eq!(run_marker(&None, "queued"), "⏳");
    assert_eq!(run_marker(&None, "in_progress"), "🔄");
    assert_eq!(run_marker(&Some("neutral".to_string()), "completed"), "⚪");
    assert_eq!(run_marker(&Some("timed_out".to_string()), "completed"), "❓");
    assert_eq!(status_marker("error"), "🔴");
    assert_eq!(status_marker("success"), "✅");
    assert_eq!(status_marker("weird"), "❓");
    assert_eq!(CiState::Passing.marker(), "✅");
}

#[test]
fn generic_builds_do_not_change_the_state() {
    let ok = wf("Tests", "completed", Some("success"));
    let build = wf("Build", "in_progress", None);
    assert_eq!(overall_ci_state(&[ok.clone()], &[], &[]), CiState::Passing);
    assert_eq!(overall_ci_state(&[ok, build], &[], &[]), CiState::Passing);
}

#[test]
fn order_of_runs_does_not_matter() {
    let a = wf("Tests", "completed", Some("failure"));
    let b = wf("Lint", "completed", Some("success"));
    assert_eq!(
        get_overall_ci_status(&[a.clone(), b.clone()], &[], &[]),
        get_overall_ci_status(&[b, a], &[], &[])
    );
}

#[test]
fn status_report_sorts_lines() {
    let failing: PrWithChecks = (pr(1, false), vec![wf("Unit tests", "completed", Some("failure"))], vec![], vec![]);
    let running: PrWithChecks = (pr(2, true), vec![], vec![ck("docs", "in_progress", None)], vec![]);
    let good: PrWithChecks = (pr(3, true), vec![], vec![], vec![sc("success", "ci")]);
    let unknown: PrWithChecks = (pr(4, false), vec![], vec![], vec![]);
    let groups = vec![
        ("o/a".to_string(), vec![failing, good]),
        ("o/b".to_string(), vec![]),
        ("o/c".to_string(), vec![running, unknown]),
    ];
    let report = pr_status_report(&groups);
    assert_eq!(report.needs_attention, vec!["o/a #1 - Tests failing".to_string(), "o/c #2 - docs running".to_string()]);
    assert_eq!(report.looking_good, vec!["o/a #3 - All checks passing".to_string(), "o/c #4 - All checks passing".to_string()]);
    assert_eq!(report.draft_count, 2);
    assert_eq!(checked_total_prs(&groups), Some(4));
}

#[test]
fn draft_counting_and_notes() {
    let prs = vec![pr(1, true), pr(2, false), pr(3, true)];
    assert_eq!(count_drafts(&prs), 2);
    let groups = vec![("a".to_string(), prs), ("b".to_string(), vec![pr(4, true)])];
    assert_eq!(draft_totals(&groups), (4, 3));
    assert_eq!(draft_note(1, true), "All your PR is in DRAFT status, so they're works in progress.");
    assert_eq!(draft_note(3, false), "3 of your PRs are in DRAFT status, so they're works in progress.");
    assert_eq!(draft_note(2, true), "All your PRs are in DRAFT status, so they're works in progress.");
}

#[test]
fn state_colors() {
    assert_eq!(state_color("open"), StateColor::Green);
    assert_eq!(state_color("closed"), StateColor::Red);
    assert_eq!(state_color("merged"), StateColor::Magenta);
    assert_eq!(state_color("draft"), StateColor::White);
}

#[test]
fn draft_note_among_totals() {
    assert_eq!(draft_note_among(2, 2), "All your PRs are in DRAFT status, so they're works in progress.");
    assert_eq!(draft_note_among(1, 4), "1 of your PR is in DRAFT status, so they're works in progress.");
}
