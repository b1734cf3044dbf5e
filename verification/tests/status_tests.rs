use my_prs::github::{Branch, PullRequest, User};
use my_prs::status::{
    all_clear_message, group_statuses, is_running_check_status, pr_key, pr_workflow_status, prs_by_author,
    split_pr_key, CiRecord, MonitorMemory, OverallStatus, StatusRecord, WorkflowStatus,
};

fn rec(name: Option<&str>, status: Option<&str>, conclusion: Option<&str>) -> CiRecord {
    CiRecord {
        name: name.map(str::to_string),
        status: status.map(str::to_string),
        conclusion: conclusion.map(str::to_string),
    }
}

fn st(state: &str) -> StatusRecord {
    StatusRecord { state: Some(state.to_string()) }
}

#[test]
fn named_check_runs_decide() {
    let pending = rec(Some("tests"), Some("queued"), None);
    let failed = rec(Some("lint"), Some("completed"), Some("timed_out"));
    let ok = rec(Some("unit"), Some("completed"), Some("success"));
    let failing_wf = rec(Some("CI"), Some("completed"), Some("failure"));
    assert_eq!(pr_workflow_status(&[], &[pending.clone(), failed.clone()], &[]), WorkflowStatus::BuildRunning);
    assert_eq!(pr_workflow_status(&[], &[failed, ok.clone()], &[]), WorkflowStatus::BuildFailing);
    assert_eq!(pr_workflow_status(&[failing_wf], &[ok], &[st("failure")]), WorkflowStatus::BuildPassing);
}

#[test]
fn fallback_when_only_build_checks() {
    let build_running = rec(Some("Build"), Some("in_progress"), None);
    assert_eq!(pr_workflow_status(&[], &[build_running], &[]), WorkflowStatus::BuildRunning);
    let wf_failed = rec(Some("CI"), Some("completed"), Some("failure"));
    assert_eq!(pr_workflow_status(&[wf_failed], &[], &[]), WorkflowStatus::BuildFailing);
    let build_wf_failed = rec(Some("Build"), Some("completed"), Some("failure"));
    assert_eq!(pr_workflow_status(&[build_wf_failed], &[], &[]), WorkflowStatus::BuildPassing);
    assert_eq!(pr_workflow_status(&[], &[], &[st("error")]), WorkflowStatus::SomeChecksFailing);
    assert_eq!(pr_workflow_status(&[], &[], &[st("pending")]), WorkflowStatus::BuildRunning);
    assert_eq!(pr_workflow_status(&[], &[], &[st("success")]), WorkflowStatus::NoChecks);
    assert_eq!(pr_workflow_status(&[], &[], &[]), WorkflowStatus::NoChecks);
    let unnamed = rec(None, Some("completed"), Some("failure"));
    assert_eq!(pr_workflow_status(&[], &[unnamed], &[]), WorkflowStatus::SomeChecksFailing);
}

#[test]
fn status_texts_and_markers() {
    assert_eq!(WorkflowStatus::BuildRunning.as_str(), "Build running");
    assert_eq!(WorkflowStatus::SomeChecksFailing.as_str(), "Some checks failing");
    assert_eq!(WorkflowStatus::NoChecks.as_str(), "No checks");
    assert!(WorkflowStatus::BuildFailing.needs_attention());
    assert!(WorkflowStatus::BuildRunning.needs_attention());
    assert!(!WorkflowStatus::BuildPassing.needs_attention());
    assert_eq!(WorkflowStatus::SomeChecksFailing.failing_marker(), "⚠️");
    assert_eq!(WorkflowStatus::BuildRunning.check_marker(), "🔄");
    assert!(!WorkflowStatus::NoChecks.has_ci_data());
    assert!(is_running_check_status("requested"));
    assert!(!is_running_check_status("completed"));
}

#[test]
fn groups_and_overall_status() {
    let s = [
        WorkflowStatus::BuildPassing,
        WorkflowStatus::SomeChecksFailing,
        WorkflowStatus::NoChecks,
        WorkflowStatus::BuildRunning,
        WorkflowStatus::BuildFailing,
    ];
    let g = group_statuses(&s);
    assert_eq!(g.failing, vec![1, 4]);
    assert_eq!(g.running, vec![3]);
    assert_eq!(g.passing, vec![0]);
    assert_eq!(g.review, vec![2]);
    assert_eq!(g.overall, OverallStatus::Failing);
    assert_eq!(g.overall.as_str(), "failing");
    assert_eq!(group_statuses(&[]).overall.as_str(), "no_prs");
    assert_eq!(group_statuses(&[WorkflowStatus::NoChecks, WorkflowStatus::BuildPassing]).overall, OverallStatus::NeedsReview);
    assert_eq!(group_statuses(&[WorkflowStatus::BuildPassing]).overall.as_str(), "passing");
    assert_eq!(group_statuses(&[WorkflowStatus::BuildRunning, WorkflowStatus::NoChecks]).overall.as_str(), "running");
}

#[test]
fn monitor_reports_changes_once() {
    let mut m = MonitorMemory::new();
    assert_eq!(m.record("o/r#1".to_string(), WorkflowStatus::BuildRunning), None);
    assert_eq!(m.record("o/r#2".to_string(), WorkflowStatus::NoChecks), None);
    assert_eq!(
        m.record("o/r#1".to_string(), WorkflowStatus::BuildFailing),
        Some(WorkflowStatus::BuildRunning)
    );
    assert_eq!(m.record("o/r#1".to_string(), WorkflowStatus::BuildFailing), None);
    assert_eq!(m.record("o/r#2".to_string(), WorkflowStatus::NoChecks), None);
}

#[test]
fn pr_keys_round_trip() {
    let k = pr_key("snyk", "cli", 4211);
    assert_eq!(k, "snyk/cli#4211");
    let (o, r) = split_pr_key(&k).unwrap();
    assert_eq!((o.as_str(), r.as_str()), ("snyk", "cli"));
    assert!(split_pr_key("nokey#1").is_none());
    let (o, r) = split_pr_key("a/b").unwrap();
    assert_eq!((o.as_str(), r.as_str()), ("a", "b"));
}

fn pr(login: &str, number: u64) -> PullRequest {
    PullRequest {
        number,
        title: String::new(),
        state: "open".to_string(),
        user: User { login: login.to_string(), id: 1, avatar_url: String::new() },
        created_at: 0,
        updated_at: 0,
        html_url: String::new(),
        head: Branch { label: String::new(), git_ref: String::new(), sha: String::new() },
        base: Branch { label: String::new(), git_ref: String::new(), sha: String::new() },
        draft: false,
        mergeable: None,
        mergeable_state: None,
    }
}

#[test]
fn filters_by_author() {
    let kept = prs_by_author(vec![pr("a", 1), pr("b", 2), pr("a", 3)], "a");
    assert_eq!(kept.iter().map(|p| p.number).collect::<Vec<_>>(), vec![1, 3]);
}

#[test]
fn monitor_all_clear_messages() {
    assert_eq!(all_clear_message(3), "✅ All 3 monitored PRs are looking good!");
    assert_eq!(all_clear_message(0), "📭 No open PRs found to monitor.");
}

#[test]
fn monitor_announces_against_last_check_of_each_pr() {
    let mut m = MonitorMemory::new();
    assert_eq!(m.record("o/r#1".to_string(), WorkflowStatus::BuildRunning), None);
    assert_eq!(m.record("o/r#2".to_string(), WorkflowStatus::NoChecks), None);
    assert_eq!(m.record("o/r#1".to_string(), WorkflowStatus::BuildRunning), None);
    assert_eq!(m.record("o/r#2".to_string(), WorkflowStatus::BuildFailing), Some(WorkflowStatus::NoChecks));
    assert_eq!(m.record("o/r#1".to_string(), WorkflowStatus::BuildPassing), Some(WorkflowStatus::BuildRunning));
    assert_eq!(m.record("o/r#2".to_string(), WorkflowStatus::NoChecks), Some(WorkflowStatus::BuildFailing));
}
