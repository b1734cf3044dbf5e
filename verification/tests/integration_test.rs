use my_prs::github::{CheckRun, StatusCheck, WorkflowRun};
use my_prs::output::get_overall_ci_status;

fn make_workflow(name: &str, status: &str, conclusion: Option<&str>) -> WorkflowRun {
    WorkflowRun {
        id: 1,
        name: name.to_string(),
        status: status.to_string(),
        conclusion: conclusion.map(str::to_string),
        created_at: chrono::Utc::now().timestamp(),
        updated_at: chrono::Utc::now().timestamp(),
        html_url: String::new(),
        workflow_id: 1,
    }
}

#[test]
fn test_ci_status_success_end_to_end() {
    let wf = make_workflow("Tests", "completed", Some("success"));
    assert_eq!(get_overall_ci_status(&[wf], &[], &[]), "✅");
}

#[test]
fn test_ci_status_in_progress_end_to_end() {
    let wf = make_workflow("Tests", "in_progress", None);
    assert_eq!(get_overall_ci_status(&[wf], &[], &[]), "🔄");
}

#[test]
fn test_ci_status_failure_end_to_end() {
    let wf = make_workflow("Tests", "completed", Some("failure"));
    assert_eq!(get_overall_ci_status(&[wf], &[], &[]), "❌");
}

#[test]
fn test_ci_status_mixed_running_and_failed() {
    let failing = make_workflow("Tests", "completed", Some("failure"));
    let running = WorkflowRun {
        id: 2,
        name: "Lint".to_string(),
        status: "in_progress".to_string(),
        conclusion: None,
        created_at: chrono::Utc::now().timestamp(),
        updated_at: chrono::Utc::now().timestamp(),
        html_url: String::new(),
        workflow_id: 2,
    };
    // Running takes priority over failure
    assert_eq!(get_overall_ci_status(&[failing, running], &[], &[]), "🔄");
}

#[test]
fn test_ci_status_with_check_runs() {
    let check = CheckRun {
        id: 1,
        name: "unit-tests".to_string(),
        status: "completed".to_string(),
        conclusion: Some("success".to_string()),
        started_at: None,
        completed_at: None,
        html_url: String::new(),
    };
    assert_eq!(get_overall_ci_status(&[], &[check], &[]), "✅");
}

#[test]
fn test_ci_status_with_status_checks() {
    let s = StatusCheck {
        state: "success".to_string(),
        description: Some("All good".to_string()),
        context: "ci/test".to_string(),
        target_url: None,
    };
    assert_eq!(get_overall_ci_status(&[], &[], &[s]), "✅");
}
