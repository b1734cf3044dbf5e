use my_prs::mcp_client::{
    api_url, bearer, check_runs_endpoint, combined_status_endpoint, commit_workflow_runs_endpoint,
    pr_reviews_endpoint, pr_workflow_runs_endpoint, pull_request_endpoint, pull_requests_endpoint,
    search_pull_requests_endpoint, select_pr_workflow_runs, status_checks_endpoint,
    user_repositories_endpoint, RunLinks,
};

#[test]
fn request_paths() {
    assert_eq!(
        pull_requests_endpoint("o", "r", "open", 10),
        "repos/o/r/pulls?state=open&per_page=10&sort=updated&direction=desc"
    );
    assert_eq!(pull_request_endpoint("o", "r", 42), "repos/o/r/pulls/42");
    assert_eq!(pr_reviews_endpoint("o", "r", 7), "repos/o/r/pulls/7/reviews");
    assert_eq!(user_repositories_endpoint(20), "user/repos?sort=updated&per_page=20&type=all");
    assert_eq!(status_checks_endpoint("o", "r", "abc"), "repos/o/r/commits/abc/statuses");
    assert_eq!(combined_status_endpoint("o", "r", "abc"), "repos/o/r/commits/abc/status");
    assert_eq!(check_runs_endpoint("o", "r", "abc"), "repos/o/r/commits/abc/check-runs");
    assert_eq!(
        pr_workflow_runs_endpoint("o", "r"),
        "repos/o/r/actions/runs?event=pull_request&per_page=50"
    );
    assert_eq!(
        commit_workflow_runs_endpoint("o", "r", "abc"),
        "repos/o/r/actions/runs?head_sha=abc&per_page=20"
    );
    assert_eq!(api_url("https://api.github.com", "user/repos"), "https://api.github.com/user/repos");
    assert_eq!(bearer("tok"), "Bearer tok");
}

#[test]
fn search_query_is_percent_encoded() {
    assert_eq!(
        search_pull_requests_endpoint("jdoe", "open", 5),
        "search/issues?q=is%3Apr%20author%3Ajdoe%20state%3Aopen&sort=updated&per_page=5"
    );
    assert_eq!(
        search_pull_requests_endpoint("é~", "all", 1),
        "search/issues?q=is%3Apr%20author%3A%C3%A9~%20state%3Aall&sort=updated&per_page=1"
    );
}

fn run(created: Option<&str>, prs: Option<Vec<Option<u64>>>) -> RunLinks {
    RunLinks { created_at: created.map(str::to_string), pull_requests: prs }
}

#[test]
fn selects_runs_of_the_pr_newest_first() {
    let runs = vec![
        run(Some("2024-01-01T00:00:00Z"), Some(vec![Some(7)])),
        run(Some("2024-03-01T00:00:00Z"), Some(vec![Some(8)])),
        run(Some("2024-02-01T00:00:00Z"), Some(vec![None, Some(7)])),
        run(None, Some(vec![Some(7)])),
        run(Some("2024-02-01T00:00:00Z"), Some(vec![Some(7)])),
        run(Some("2024-05-01T00:00:00Z"), None),
    ];
    assert_eq!(select_pr_workflow_runs(&runs, 7), vec![2, 4, 0, 3]);
    assert_eq!(select_pr_workflow_runs(&runs, 9), Vec::<usize>::new());
}

#[test]
fn keeps_at_most_twenty_runs() {
    let runs: Vec<RunLinks> = (0..30)
        .map(|i| run(Some(&format!("2024-01-{:02}", i % 28 + 1)), Some(vec![Some(1)])))
        .collect();
    let picked = select_pr_workflow_runs(&runs, 1);
    assert_eq!(picked.len(), 20);
    assert_eq!(picked[0], 27);
    assert_eq!(&picked[..3], &[27, 26, 25]);
}
