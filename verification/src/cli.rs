//! The command line: the global options and the subcommands.
use vstd::prelude::*;

verus! {

/// The command line of the tool.
#[derive(Debug, Clone)]
pub struct Cli {
    pub command: Option<Commands>,
    /// GitHub token for authentication
    pub token: Option<String>,
    /// GitHub repository in format owner/repo
    pub repo: Option<String>,
}

/// The subcommands.
#[derive(Debug, Clone)]
pub enum Commands {
    /// List your pull requests in a specific repository
    List { state: Option<String>, limit: Option<usize> },
    /// Get status of all open PRs (or specific PR if number provided)
    Status { pr_number: Option<u64> },
    /// List repositories you have access to
    Repos { limit: usize },
    /// Check PRs across multiple repositories (defaults to your PRs only)
    Scan {
        state: Option<String>,
        limit: Option<usize>,
        max_repos: Option<usize>,
        all: bool,
        username: Option<String>,
    },
    /// Check PRs for local repositories (defaults to your PRs only)
    Local {
        state: Option<String>,
        limit: Option<usize>,
        path: Option<String>,
        workflows: Option<bool>,
        all: bool,
        username: Option<String>,
    },
    /// Show only your PRs with workflow status
    MyPrs { state: Option<String>, path: Option<String>, username: Option<String> },
    /// Configure my-prs settings
    Config { wizard: bool, show: bool },
    /// Monitor PRs with running workflows and alert on status changes
    Monitor { path: Option<String>, interval: u64, username: Option<String>, json: bool },
    /// Get current PR status (single check, no monitoring)
    StatusCheck { path: Option<String>, username: Option<String>, json: bool },
}

/// The subcommand that runs: the one given, else `my-prs` with no options.
pub open spec fn command_to_run(command: Option<Commands>) -> Commands {
    match command {
        Some(c) => c,
        None => Commands::MyPrs { state: None, path: None, username: None },
    }
}

impl Cli {
    /// The subcommand that runs: the one given, else `my-prs` with no options.
    pub fn command_or_default(self) -> (r: Commands)
        ensures
            r == command_to_run(self.command),
    {
        match self.command {
            Some(c) => c,
            None => Commands::MyPrs { state: None, path: None, username: None },
        }
    }
}

/// Pull requests listed per repository by `scan` and `local` when `--limit` is not given.
pub const SCAN_PR_LIMIT: usize = 5;

/// Repositories checked by `scan` when `--max-repos` is not given.
pub const SCAN_REPO_LIMIT: usize = 10;

/// The number of pull requests per repository that `scan` and `local` list: the one
/// given, else five.
pub fn scan_pr_limit(limit: Option<usize>) -> (r: usize)
    ensures
        r == (match limit {
            Some(n) => n,
            None => SCAN_PR_LIMIT,
        }),
{
    match limit {
        Some(n) => n,
        None => SCAN_PR_LIMIT,
    }
}

/// The number of repositories that `scan` checks: the one given, else ten.
pub fn scan_repo_limit(max_repos: Option<usize>) -> (r: usize)
    ensures
        r == (match max_repos {
            Some(n) => n,
            None => SCAN_REPO_LIMIT,
        }),
{
    match max_repos {
        Some(n) => n,
        None => SCAN_REPO_LIMIT,
    }
}

} // verus!
