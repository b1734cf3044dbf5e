//! The GitHub records the tool works with, as plain values.
//!
//! Times are whole seconds since the Unix epoch, in UTC.
use vstd::prelude::*;
use crate::text::str_eq;

verus! {

/// A pull request as the GitHub API describes it.
#[derive(Debug, Clone)]
pub struct PullRequest {
    pub number: u64,
    pub title: String,
    pub state: String,
    pub user: User,
    pub created_at: i64,
    pub updated_at: i64,
    pub html_url: String,
    pub head: Branch,
    pub base: Branch,
    pub draft: bool,
    pub mergeable: Option<bool>,
    pub mergeable_state: Option<String>,
}

/// A GitHub account.
#[derive(Debug, Clone)]
pub struct User {
    pub login: String,
    pub id: u64,
    pub avatar_url: String,
}

/// One end of a pull request: a branch and the commit it points at.
#[derive(Debug, Clone)]
pub struct Branch {
    pub label: String,
    /// The branch name (`ref` in the GitHub API).
    pub git_ref: String,
    pub sha: String,
}

/// A repository as the GitHub API describes it.
#[derive(Debug)]
pub struct Repository {
    pub id: u64,
    pub name: String,
    pub full_name: String,
    pub owner: User,
    pub private: bool,
    pub html_url: String,
    pub description: Option<String>,
    pub updated_at: i64,
    pub language: Option<String>,
    pub stargazers_count: u64,
    pub forks_count: u64,
}

/// A GitHub Actions workflow run.
#[derive(Debug, Clone)]
pub struct WorkflowRun {
    pub id: u64,
    pub name: String,
    pub status: String,
    pub conclusion: Option<String>,
    pub created_at: i64,
    pub updated_at: i64,
    pub html_url: String,
    pub workflow_id: u64,
}

/// A check run of the checks API.
#[derive(Debug, Clone)]
pub struct CheckRun {
    pub id: u64,
    pub name: String,
    pub status: String,
    pub conclusion: Option<String>,
    pub started_at: Option<i64>,
    pub completed_at: Option<i64>,
    pub html_url: String,
}

/// A commit status of the statuses API.
#[derive(Debug, Clone)]
pub struct StatusCheck {
    pub state: String,
    pub description: Option<String>,
    pub context: String,
    pub target_url: Option<String>,
}

/// The marker shown for a pull request in the given state.
pub open spec fn state_marker(state: Seq<char>) -> Seq<char> {
    if state == "open"@ {
        "🟢"@
    } else if state == "closed"@ {
        "🔴"@
    } else if state == "merged"@ {
        "🟣"@
    } else {
        "⚪"@
    }
}

/// The marker shown for a pull request's mergeable state.
pub open spec fn mergeable_marker(mergeable_state: Option<String>) -> Seq<char> {
    match mergeable_state {
        Some(m) => if m@ == "clean"@ {
            "✅"@
        } else if m@ == "dirty"@ {
            "⚠️"@
        } else if m@ == "unstable"@ {
            "❌"@
        } else if m@ == "blocked"@ {
            "🚫"@
        } else {
            "❓"@
        },
        None => "❓"@,
    }
}

impl PullRequest {
    /// The marker of the pull request's state: open, closed, merged or anything else.
    pub fn status_emoji(&self) -> (r: &'static str)
        ensures
            r@ == state_marker(self.state@),
    {
        let state = self.state.as_str();
        if str_eq(state, "open") {
            "🟢"
        } else if str_eq(state, "closed") {
            "🔴"
        } else if str_eq(state, "merged") {
            "🟣"
        } else {
            "⚪"
        }
    }

    /// The marker of the pull request's mergeable state.
    pub fn mergeable_emoji(&self) -> (r: &'static str)
        ensures
            r@ == mergeable_marker(self.mergeable_state),
    {
        match &self.mergeable_state {
            Some(m) => {
                let m = m.as_str();
                if str_eq(m, "clean") {
                    "✅"
                } else if str_eq(m, "dirty") {
                    "⚠️"
                } else if str_eq(m, "unstable") {
                    "❌"
                } else if str_eq(m, "blocked") {
                    "🚫"
                } else {
                    "❓"
                }
            },
            None => "❓",
        }
    }

    /// Whether the pull request is a draft.
    pub fn is_draft(&self) -> (r: bool)
        ensures
            r == self.draft,
    {
        self.draft
    }
}

} // verus!
