//! What the terminal reports say about pull requests and their CI status.
use vstd::prelude::*;
use vstd::string::*;
use vstd::utf8::{decode_utf8, encode_scalar, encode_utf8, is_char_boundary};
use crate::github::{CheckRun, PullRequest, StatusCheck, WorkflowRun};
use crate::text::{
    contains_str, decimal, decimal_string, has_substring, lowercased, str_eq, to_lowercase,
};

verus! {

// ---------------------------------------------------------------------------
// The overall CI state of a pull request
// ---------------------------------------------------------------------------

/// A workflow called "Build" is generic and says nothing about the pull request.
pub open spec fn is_generic_build(name: Seq<char>) -> bool {
    name == "Build"@
}

/// A run or check that has not finished yet.
pub open spec fn is_active(status: Seq<char>) -> bool {
    status == "in_progress"@ || status == "queued"@
}

/// The conclusion is present and equals `what`.
pub open spec fn concluded_as(conclusion: Option<String>, what: Seq<char>) -> bool {
    conclusion matches Some(c) && c@ == what
}

/// The conclusion counts as a success: success or skipped.
pub open spec fn concluded_ok(conclusion: Option<String>) -> bool {
    concluded_as(conclusion, "success"@) || concluded_as(conclusion, "skipped"@)
}

/// Some workflow run other than a generic build is still running.
pub open spec fn some_workflow_active(w: Seq<WorkflowRun>) -> bool {
    exists|i: int| 0 <= i < w.len() && !is_generic_build(#[trigger] w[i].name@) && is_active(w[i].status@)
}

/// Some check run is still running.
pub open spec fn some_check_active(c: Seq<CheckRun>) -> bool {
    exists|i: int| 0 <= i < c.len() && is_active(#[trigger] c[i].status@)
}

/// Some commit status is pending.
pub open spec fn some_status_pending(s: Seq<StatusCheck>) -> bool {
    exists|i: int| 0 <= i < s.len() && #[trigger] s[i].state@ == "pending"@
}

/// Some workflow run other than a generic build failed.
pub open spec fn some_workflow_failed(w: Seq<WorkflowRun>) -> bool {
    exists|i: int|
        0 <= i < w.len() && !is_generic_build(#[trigger] w[i].name@) && concluded_as(
            w[i].conclusion,
            "failure"@,
        )
}

/// Some check run failed.
pub open spec fn some_check_failed(c: Seq<CheckRun>) -> bool {
    exists|i: int| 0 <= i < c.len() && concluded_as(#[trigger] c[i].conclusion, "failure"@)
}

/// Some commit status failed or errored.
pub open spec fn some_status_failed(s: Seq<StatusCheck>) -> bool {
    exists|i: int|
        0 <= i < s.len() && (#[trigger] s[i].state@ == "failure"@ || s[i].state@ == "error"@)
}

/// Every workflow run other than a generic build succeeded or was skipped.
pub open spec fn all_workflows_ok(w: Seq<WorkflowRun>) -> bool {
    forall|i: int|
        0 <= i < w.len() && !is_generic_build(#[trigger] w[i].name@) ==> concluded_ok(
            w[i].conclusion,
        )
}

/// Every check run succeeded or was skipped.
pub open spec fn all_checks_ok(c: Seq<CheckRun>) -> bool {
    forall|i: int| 0 <= i < c.len() ==> concluded_ok(#[trigger] c[i].conclusion)
}

/// Every commit status succeeded.
pub open spec fn all_statuses_ok(s: Seq<StatusCheck>) -> bool {
    forall|i: int| 0 <= i < s.len() ==> #[trigger] s[i].state@ == "success"@
}

/// There is at least one workflow run other than a generic build.
pub open spec fn some_meaningful_workflow(w: Seq<WorkflowRun>) -> bool {
    exists|i: int| 0 <= i < w.len() && !is_generic_build(#[trigger] w[i].name@)
}

/// The overall CI state of a pull request.
#[derive(Debug, Clone, Copy, PartialEq, Eq, Structural)]
pub enum CiState {
    Running,
    Failing,
    Passing,
    Unknown,
}

/// The overall CI state: anything running wins, then any failure, then success of
/// everything (when there is anything at all); otherwise the state is unknown.
pub open spec fn ci_state(w: Seq<WorkflowRun>, c: Seq<CheckRun>, s: Seq<StatusCheck>) -> CiState {
    if some_workflow_active(w) || some_check_active(c) || some_status_pending(s) {
        CiState::Running
    } else if some_workflow_failed(w) || some_check_failed(c) || some_status_failed(s) {
        CiState::Failing
    } else if all_workflows_ok(w) && all_checks_ok(c) && all_statuses_ok(s) && (
    some_meaningful_workflow(w) || c.len() > 0 || s.len() > 0) {
        CiState::Passing
    } else {
        CiState::Unknown
    }
}

/// The marker shown for a CI state.
pub open spec fn ci_marker(state: CiState) -> Seq<char> {
    match state {
        CiState::Running => "🔄"@,
        CiState::Failing => "❌"@,
        CiState::Passing => "✅"@,
        CiState::Unknown => "❓"@,
    }
}

fn is_generic_build_name(name: &String) -> (r: bool)
    ensures
        r == is_generic_build(name@),
{
    str_eq(name.as_str(), "Build")
}

fn is_active_status(status: &String) -> (r: bool)
    ensures
        r == is_active(status@),
{
    str_eq(status.as_str(), "in_progress") || str_eq(status.as_str(), "queued")
}

fn conclusion_is(conclusion: &Option<String>, what: &str) -> (r: bool)
    ensures
        r == concluded_as(*conclusion, what@),
{
    match conclusion {
        Some(c) => str_eq(c.as_str(), what),
        None => false,
    }
}

fn any_workflow_active(w: &[WorkflowRun]) -> (r: bool)
    ensures
        r == some_workflow_active(w@),
{
    let mut i: usize = 0;
    while i < w.len()
        invariant
            i <= w@.len(),
            forall|j: int| 0 <= j < i ==> !(!is_generic_build(#[trigger] w@[j].name@) && is_active(w@[j].status@)),
        decreases w.len() - i,
    {
        if !is_generic_build_name(&w[i].name) && is_active_status(&w[i].status) {
            return true;
        }
        i = i + 1;
    }
    false
}

fn any_check_active(c: &[CheckRun]) -> (r: bool)
    ensures
        r == some_check_active(c@),
{
    let mut i: usize = 0;
    while i < c.len()
        invariant
            i <= c@.len(),
            forall|j: int| 0 <= j < i ==> !is_active(#[trigger] c@[j].status@),
        decreases c.len() - i,
    {
        if is_active_status(&c[i].status) {
            return true;
        }
        i = i + 1;
    }
    false
}

fn any_status_pending(s: &[StatusCheck]) -> (r: bool)
    ensures
        r == some_status_pending(s@),
{
    let mut i: usize = 0;
    while i < s.len()
        invariant
            i <= s@.len(),
            forall|j: int| 0 <= j < i ==> #[trigger] s@[j].state@ != "pending"@,
        decreases s.len() - i,
    {
        if str_eq(s[i].state.as_str(), "pending") {
            return true;
        }
        i = i + 1;
    }
    false
}

fn any_workflow_failed(w: &[WorkflowRun]) -> (r: bool)
    ensures
        r == some_workflow_failed(w@),
{
    let mut i: usize = 0;
    while i < w.len()
        invariant
            i <= w@.len(),
            forall|j: int|
                0 <= j < i ==> !(!is_generic_build(#[trigger] w@[j].name@) && concluded_as(
                    w@[j].conclusion,
                    "failure"@,
                )),
        decreases w.len() - i,
    {
        if !is_generic_build_name(&w[i].name) && conclusion_is(&w[i].conclusion, "failure") {
            assert(!is_generic_build(w@[i as int].name@) && concluded_as(w@[i as int].conclusion, "failure"@));
            return true;
        }
        i = i + 1;
    }
    false
}

fn any_check_failed(c: &[CheckRun]) -> (r: bool)
    ensures
        r == some_check_failed(c@),
{
    let mut i: usize = 0;
    while i < c.len()
        invariant
            i <= c@.len(),
            forall|j: int| 0 <= j < i ==> !concluded_as(#[trigger] c@[j].conclusion, "failure"@),
        decreases c.len() - i,
    {
        if conclusion_is(&c[i].conclusion, "failure") {
            return true;
        }
        i = i + 1;
    }
    false
}

fn any_status_failed(s: &[StatusCheck]) -> (r: bool)
    ensures
        r == some_status_failed(s@),
{
    let mut i: usize = 0;
    while i < s.len()
        invariant
            i <= s@.len(),
            forall|j: int|
                0 <= j < i ==> !(#[trigger] s@[j].state@ == "failure"@ || s@[j].state@ == "error"@),
        decreases s.len() - i,
    {
        if str_eq(s[i].state.as_str(), "failure") || str_eq(s[i].state.as_str(), "error") {
            return true;
        }
        i = i + 1;
    }
    false
}

fn every_workflow_ok(w: &[WorkflowRun]) -> (r: bool)
    ensures
        r == all_workflows_ok(w@),
{
    let mut i: usize = 0;
    while i < w.len()
        invariant
            i <= w@.len(),
            forall|j: int|
                0 <= j < i && !is_generic_build(#[trigger] w@[j].name@) ==> concluded_ok(
                    w@[j].conclusion,
                ),
        decreases w.len() - i,
    {
        if !is_generic_build_name(&w[i].name) && !(conclusion_is(&w[i].conclusion, "success")
            || conclusion_is(&w[i].conclusion, "skipped")) {
            return false;
        }
        i = i + 1;
    }
    true
}

fn every_check_ok(c: &[CheckRun]) -> (r: bool)
    ensures
        r == all_checks_ok(c@),
{
    let mut i: usize = 0;
    while i < c.len()
        invariant
            i <= c@.len(),
            forall|j: int| 0 <= j < i ==> concluded_ok(#[trigger] c@[j].conclusion),
        decreases c.len() - i,
    {
        if !(conclusion_is(&c[i].conclusion, "success") || conclusion_is(
            &c[i].conclusion,
            "skipped",
        )) {
            return false;
        }
        i = i + 1;
    }
    true
}

fn every_status_ok(s: &[StatusCheck]) -> (r: bool)
    ensures
        r == all_statuses_ok(s@),
{
    let mut i: usize = 0;
    while i < s.len()
        invariant
            i <= s@.len(),
            forall|j: int| 0 <= j < i ==> #[trigger] s@[j].state@ == "success"@,
        decreases s.len() - i,
    {
        if !str_eq(s[i].state.as_str(), "success") {
            return false;
        }
        i = i + 1;
    }
    true
}

fn any_meaningful_workflow(w: &[WorkflowRun]) -> (r: bool)
    ensures
        r == some_meaningful_workflow(w@),
{
    let mut i: usize = 0;
    while i < w.len()
        invariant
            i <= w@.len(),
            forall|j: int| 0 <= j < i ==> is_generic_build(#[trigger] w@[j].name@),
        decreases w.len() - i,
    {
        if !is_generic_build_name(&w[i].name) {
            assert(!is_generic_build(w@[i as int].name@));
            return true;
        }
        i = i + 1;
    }
    false
}

impl CiState {
    /// The marker shown for this state.
    pub fn marker(&self) -> (r: &'static str)
        ensures
            r@ == ci_marker(*self),
    {
        match self {
            CiState::Running => "🔄",
            CiState::Failing => "❌",
            CiState::Passing => "✅",
            CiState::Unknown => "❓",
        }
    }
}

/// The overall CI state of a pull request from its workflow runs, check runs and
/// commit statuses.
pub fn overall_ci_state(
    workflow_runs: &[WorkflowRun],
    check_runs: &[CheckRun],
    status_checks: &[StatusCheck],
) -> (r: CiState)
    ensures
        r == ci_state(workflow_runs@, check_runs@, status_checks@),
{
    if any_workflow_active(workflow_runs) || any_check_active(check_runs) || any_status_pending(
        status_checks,
    ) {
        return CiState::Running;
    }
    if any_workflow_failed(workflow_runs) {
        return CiState::Failing;
    }
    if any_check_failed(check_runs) {
        return CiState::Failing;
    }
    if any_status_failed(status_checks) {
        return CiState::Failing;
    }
    let all_ok = every_workflow_ok(workflow_runs) && every_check_ok(check_runs) && every_status_ok(
        status_checks,
    );
    if all_ok && (any_meaningful_workflow(workflow_runs) || check_runs.len() > 0
        || status_checks.len() > 0) {
        return CiState::Passing;
    }
    CiState::Unknown
}

/// The marker of the overall CI state of a pull request: "🔄" while anything runs,
/// "❌" when something failed, "✅" when everything passed, "❓" otherwise.
pub fn get_overall_ci_status(
    workflow_runs: &[WorkflowRun],
    check_runs: &[CheckRun],
    status_checks: &[StatusCheck],
) -> (r: &'static str)
    ensures
        r@ == ci_marker(ci_state(workflow_runs@, check_runs@, status_checks@)),
{
    let state = overall_ci_state(workflow_runs, check_runs, status_checks);
    state.marker()
}

/// Workflow runs called "Build" never change the overall CI state: appending any
/// number of them leaves it as it was.
pub proof fn lemma_generic_builds_ignored(
    w: Seq<WorkflowRun>,
    builds: Seq<WorkflowRun>,
    c: Seq<CheckRun>,
    s: Seq<StatusCheck>,
)
    requires
        forall|i: int| 0 <= i < builds.len() ==> is_generic_build(#[trigger] builds[i].name@),
    ensures
        ci_state(w + builds, c, s) == ci_state(w, c, s),
{
    let ws = w + builds;
    assert forall|i: int| 0 <= i < w.len() implies #[trigger] ws[i] == w[i] by {}
    assert forall|i: int| w.len() <= i < ws.len() implies is_generic_build(#[trigger] ws[i].name@) by {
        assert(ws[i] == builds[i - w.len()]);
    }
    if some_workflow_active(ws) {
        let i = choose|i: int| 0 <= i < ws.len() && !is_generic_build(#[trigger] ws[i].name@) && is_active(ws[i].status@);
        assert(i < w.len());
        assert(w[i] == ws[i]);
    }
    if some_workflow_active(w) {
        let i = choose|i: int| 0 <= i < w.len() && !is_generic_build(#[trigger] w[i].name@) && is_active(w[i].status@);
        assert(ws[i] == w[i]);
    }
    if some_workflow_failed(ws) {
        let i = choose|i: int| 0 <= i < ws.len() && !is_generic_build(#[trigger] ws[i].name@) && concluded_as(ws[i].conclusion, "failure"@);
        assert(i < w.len());
        assert(w[i] == ws[i]);
    }
    if some_workflow_failed(w) {
        let i = choose|i: int| 0 <= i < w.len() && !is_generic_build(#[trigger] w[i].name@) && concluded_as(w[i].conclusion, "failure"@);
        assert(ws[i] == w[i]);
    }
    if some_meaningful_workflow(ws) {
        let i = choose|i: int| 0 <= i < ws.len() && !is_generic_build(#[trigger] ws[i].name@);
        assert(i < w.len());
        assert(w[i] == ws[i]);
    }
    if some_meaningful_workflow(w) {
        let i = choose|i: int| 0 <= i < w.len() && !is_generic_build(#[trigger] w[i].name@);
        assert(ws[i] == w[i]);
    }
    assert(all_workflows_ok(ws) == all_workflows_ok(w)) by {
        if all_workflows_ok(w) {
            assert forall|i: int| 0 <= i < ws.len() && !is_generic_build(#[trigger] ws[i].name@) implies concluded_ok(ws[i].conclusion) by {
                assert(i < w.len());
                assert(w[i] == ws[i]);
            }
        }
        if all_workflows_ok(ws) {
            assert forall|i: int| 0 <= i < w.len() && !is_generic_build(#[trigger] w[i].name@) implies concluded_ok(w[i].conclusion) by {
                assert(ws[i] == w[i]);
            }
        }
    }
}

/// The overall CI state does not depend on the order in which the workflow runs
/// are listed: two lists of runs give the same state in either order.
pub proof fn lemma_workflow_order_irrelevant(
    w1: Seq<WorkflowRun>,
    w2: Seq<WorkflowRun>,
    c: Seq<CheckRun>,
    s: Seq<StatusCheck>,
)
    ensures
        ci_state(w1 + w2, c, s) == ci_state(w2 + w1, c, s),
{
    let a = w1 + w2;
    let b = w2 + w1;
    assert forall|i: int| 0 <= i < a.len() implies b.contains(#[trigger] a[i]) by {
        if i < w1.len() {
            assert(a[i] == b[w2.len() + i]);
        } else {
            assert(a[i] == b[i - w1.len()]);
        }
    }
    assert forall|i: int| 0 <= i < b.len() implies a.contains(#[trigger] b[i]) by {
        if i < w2.len() {
            assert(b[i] == a[w1.len() + i]);
        } else {
            assert(b[i] == a[i - w2.len()]);
        }
    }
    lemma_same_elements_same_state(a, b, c, s);
    lemma_same_elements_same_state(b, a, c, s);
}

/// When every run of `a` also occurs in `b` and the other way round, both give the
/// same overall CI state.
proof fn lemma_same_elements_same_state(
    a: Seq<WorkflowRun>,
    b: Seq<WorkflowRun>,
    c: Seq<CheckRun>,
    s: Seq<StatusCheck>,
)
    requires
        forall|i: int| 0 <= i < a.len() ==> b.contains(#[trigger] a[i]),
        forall|i: int| 0 <= i < b.len() ==> a.contains(#[trigger] b[i]),
    ensures
        ci_state(a, c, s) == ci_state(b, c, s),
{
    if some_workflow_active(a) {
        let i = choose|i: int| 0 <= i < a.len() && !is_generic_build(#[trigger] a[i].name@) && is_active(a[i].status@);
        assert(b.contains(a[i]));
        let j = choose|j: int| 0 <= j < b.len() && b[j] == a[i];
        assert(!is_generic_build(b[j].name@));
    }
    if some_workflow_active(b) {
        let i = choose|i: int| 0 <= i < b.len() && !is_generic_build(#[trigger] b[i].name@) && is_active(b[i].status@);
        assert(a.contains(b[i]));
        let j = choose|j: int| 0 <= j < a.len() && a[j] == b[i];
        assert(!is_generic_build(a[j].name@));
    }
    if some_workflow_failed(a) {
        let i = choose|i: int| 0 <= i < a.len() && !is_generic_build(#[trigger] a[i].name@) && concluded_as(a[i].conclusion, "failure"@);
        assert(b.contains(a[i]));
        let j = choose|j: int| 0 <= j < b.len() && b[j] == a[i];
        assert(!is_generic_build(b[j].name@));
    }
    if some_workflow_failed(b) {
        let i = choose|i: int| 0 <= i < b.len() && !is_generic_build(#[trigger] b[i].name@) && concluded_as(b[i].conclusion, "failure"@);
        assert(a.contains(b[i]));
        let j = choose|j: int| 0 <= j < a.len() && a[j] == b[i];
        assert(!is_generic_build(a[j].name@));
    }
    if some_meaningful_workflow(a) {
        let i = choose|i: int| 0 <= i < a.len() && !is_generic_build(#[trigger] a[i].name@);
        assert(b.contains(a[i]));
        let j = choose|j: int| 0 <= j < b.len() && b[j] == a[i];
        assert(!is_generic_build(b[j].name@));
    }
    if some_meaningful_workflow(b) {
        let i = choose|i: int| 0 <= i < b.len() && !is_generic_build(#[trigger] b[i].name@);
        assert(a.contains(b[i]));
        let j = choose|j: int| 0 <= j < a.len() && a[j] == b[i];
        assert(!is_generic_build(a[j].name@));
    }
    if all_workflows_ok(a) {
        assert forall|i: int| 0 <= i < b.len() && !is_generic_build(#[trigger] b[i].name@) implies concluded_ok(b[i].conclusion) by {
            assert(a.contains(b[i]));
            let j = choose|j: int| 0 <= j < a.len() && a[j] == b[i];
            assert(!is_generic_build(a[j].name@));
        }
    }
    if all_workflows_ok(b) {
        assert forall|i: int| 0 <= i < a.len() && !is_generic_build(#[trigger] a[i].name@) implies concluded_ok(a[i].conclusion) by {
            assert(b.contains(a[i]));
            let j = choose|j: int| 0 <= j < b.len() && b[j] == a[i];
            assert(!is_generic_build(b[j].name@));
        }
    }
}

/// A check run that is in progress or queued, a workflow run other than "Build" that
/// is, or a pending commit status shows the pull request as running ("🔄"), whatever
/// the other runs and statuses say.
pub proof fn lemma_anything_active_shows_running(
    w: Seq<WorkflowRun>,
    c: Seq<CheckRun>,
    s: Seq<StatusCheck>,
)
    ensures
        (exists|i: int| 0 <= i < c.len() && (#[trigger] c[i].status@ == "in_progress"@ || c[i].status@
            == "queued"@)) ==> ci_marker(ci_state(w, c, s)) == "🔄"@,
        (exists|i: int|
            0 <= i < w.len() && #[trigger] w[i].name@ != "Build"@ && (w[i].status@ == "in_progress"@
                || w[i].status@ == "queued"@)) ==> ci_marker(ci_state(w, c, s)) == "🔄"@,
        (exists|i: int| 0 <= i < s.len() && #[trigger] s[i].state@ == "pending"@) ==> ci_marker(
            ci_state(w, c, s),
        ) == "🔄"@,
{
    if exists|i: int| 0 <= i < c.len() && (#[trigger] c[i].status@ == "in_progress"@ || c[i].status@ == "queued"@) {
        let i = choose|i: int| 0 <= i < c.len() && (#[trigger] c[i].status@ == "in_progress"@ || c[i].status@ == "queued"@);
        assert(is_active(c[i].status@));
    }
    if exists|i: int| 0 <= i < w.len() && #[trigger] w[i].name@ != "Build"@ && (w[i].status@ == "in_progress"@ || w[i].status@ == "queued"@) {
        let i = choose|i: int| 0 <= i < w.len() && #[trigger] w[i].name@ != "Build"@ && (w[i].status@ == "in_progress"@ || w[i].status@ == "queued"@);
        assert(!is_generic_build(w[i].name@) && is_active(w[i].status@));
    }
}

/// Where nothing is in progress, queued or pending, a check run or a workflow run
/// other than "Build" that concluded with failure, or a commit status that failed or
/// errored, shows the pull request as failing ("❌").
pub proof fn lemma_failure_shows_failing(w: Seq<WorkflowRun>, c: Seq<CheckRun>, s: Seq<StatusCheck>)
    requires
        forall|i: int| 0 <= i < c.len() ==> #[trigger] c[i].status@ != "in_progress"@ && c[i].status@
            != "queued"@,
        forall|i: int|
            0 <= i < w.len() && #[trigger] w[i].name@ != "Build"@ ==> w[i].status@ != "in_progress"@
                && w[i].status@ != "queued"@,
        forall|i: int| 0 <= i < s.len() ==> #[trigger] s[i].state@ != "pending"@,
    ensures
        (exists|i: int| 0 <= i < c.len() && (#[trigger] c[i].conclusion matches Some(x) && x@
            == "failure"@)) ==> ci_marker(ci_state(w, c, s)) == "❌"@,
        (exists|i: int|
            0 <= i < w.len() && #[trigger] w[i].name@ != "Build"@ && (w[i].conclusion matches Some(
                x,
            ) && x@ == "failure"@)) ==> ci_marker(ci_state(w, c, s)) == "❌"@,
        (exists|i: int|
            0 <= i < s.len() && (#[trigger] s[i].state@ == "failure"@ || s[i].state@ == "error"@))
            ==> ci_marker(ci_state(w, c, s)) == "❌"@,
{
    lemma_nothing_active(w, c, s);
    if exists|i: int| 0 <= i < c.len() && (#[trigger] c[i].conclusion matches Some(x) && x@ == "failure"@) {
        let i = choose|i: int| 0 <= i < c.len() && (#[trigger] c[i].conclusion matches Some(x) && x@ == "failure"@);
        assert(concluded_as(c[i].conclusion, "failure"@));
    }
    if exists|i: int| 0 <= i < w.len() && #[trigger] w[i].name@ != "Build"@ && (w[i].conclusion matches Some(x) && x@ == "failure"@) {
        let i = choose|i: int| 0 <= i < w.len() && #[trigger] w[i].name@ != "Build"@ && (w[i].conclusion matches Some(x) && x@ == "failure"@);
        assert(concluded_as(w[i].conclusion, "failure"@));
    }
}

/// Where nothing is in progress, queued or pending, every check run and every
/// workflow run other than "Build" concluded with success or skipped, every commit
/// status succeeded, and there is at least one of them, the pull request shows as
/// passing ("✅").
pub proof fn lemma_all_good_shows_passing(w: Seq<WorkflowRun>, c: Seq<CheckRun>, s: Seq<StatusCheck>)
    requires
        forall|i: int| 0 <= i < c.len() ==> #[trigger] c[i].status@ != "in_progress"@ && c[i].status@
            != "queued"@,
        forall|i: int|
            0 <= i < w.len() && #[trigger] w[i].name@ != "Build"@ ==> w[i].status@ != "in_progress"@
                && w[i].status@ != "queued"@,
        forall|i: int|
            0 <= i < c.len() ==> (#[trigger] c[i].conclusion matches Some(x) && (x@ == "success"@
                || x@ == "skipped"@)),
        forall|i: int|
            0 <= i < w.len() && #[trigger] w[i].name@ != "Build"@ ==> (w[i].conclusion matches Some(
                x,
            ) && (x@ == "success"@ || x@ == "skipped"@)),
        forall|i: int| 0 <= i < s.len() ==> #[trigger] s[i].state@ == "success"@,
        (exists|i: int| 0 <= i < w.len() && #[trigger] w[i].name@ != "Build"@) || c.len() > 0
            || s.len() > 0,
    ensures
        ci_marker(ci_state(w, c, s)) == "✅"@,
{
    reveal_strlit("success");
    reveal_strlit("skipped");
    reveal_strlit("failure");
    reveal_strlit("error");
    reveal_strlit("pending");
    assert("success"@ != "pending"@) by { assert("success"@[0] != "pending"@[0]); }
    assert("success"@ != "failure"@) by { assert("success"@[0] != "failure"@[0]); }
    assert("success"@ != "error"@) by { assert("success"@[0] != "error"@[0]); }
    assert("skipped"@ != "failure"@) by { assert("skipped"@[0] != "failure"@[0]); }
    assert forall|i: int| 0 <= i < s.len() implies #[trigger] s[i].state@ != "pending"@ by {
        assert(s[i].state@ == "success"@);
    }
    lemma_nothing_active(w, c, s);
    if some_workflow_failed(w) {
        let i = choose|i: int| 0 <= i < w.len() && !is_generic_build(#[trigger] w[i].name@) && concluded_as(w[i].conclusion, "failure"@);
        assert(w[i].name@ != "Build"@);
    }
    if some_check_failed(c) {
        let i = choose|i: int| 0 <= i < c.len() && concluded_as(#[trigger] c[i].conclusion, "failure"@);
        assert(c[i].conclusion matches Some(x) && (x@ == "success"@ || x@ == "skipped"@));
    }
    if some_status_failed(s) {
        let i = choose|i: int| 0 <= i < s.len() && (#[trigger] s[i].state@ == "failure"@ || s[i].state@ == "error"@);
        assert(s[i].state@ == "success"@);
    }
    assert forall|i: int| 0 <= i < w.len() && !is_generic_build(#[trigger] w[i].name@) implies concluded_ok(w[i].conclusion) by {}
    assert forall|i: int| 0 <= i < c.len() implies concluded_ok(#[trigger] c[i].conclusion) by {}
    if exists|i: int| 0 <= i < w.len() && #[trigger] w[i].name@ != "Build"@ {
        let i = choose|i: int| 0 <= i < w.len() && #[trigger] w[i].name@ != "Build"@;
        assert(!is_generic_build(w[i].name@));
    }
}

/// Nothing is in progress, queued or pending.
proof fn lemma_nothing_active(w: Seq<WorkflowRun>, c: Seq<CheckRun>, s: Seq<StatusCheck>)
    requires
        forall|i: int| 0 <= i < c.len() ==> #[trigger] c[i].status@ != "in_progress"@ && c[i].status@
            != "queued"@,
        forall|i: int|
            0 <= i < w.len() && #[trigger] w[i].name@ != "Build"@ ==> w[i].status@ != "in_progress"@
                && w[i].status@ != "queued"@,
        forall|i: int| 0 <= i < s.len() ==> #[trigger] s[i].state@ != "pending"@,
    ensures
        !some_workflow_active(w),
        !some_check_active(c),
        !some_status_pending(s),
{
    if some_workflow_active(w) {
        let i = choose|i: int| 0 <= i < w.len() && !is_generic_build(#[trigger] w[i].name@) && is_active(w[i].status@);
        assert(w[i].name@ != "Build"@);
    }
    if some_check_active(c) {
        let i = choose|i: int| 0 <= i < c.len() && is_active(#[trigger] c[i].status@);
        assert(c[i].status@ != "in_progress"@);
    }
}

// ---------------------------------------------------------------------------
// Truncation of titles and descriptions
// ---------------------------------------------------------------------------

proof fn lemma_encode_utf8_concat(a: Seq<char>, b: Seq<char>)
    ensures
        encode_utf8(a + b) == encode_utf8(a) + encode_utf8(b),
    decreases a.len(),
{
    if a.len() == 0 {
        assert(a + b =~= b);
        assert(encode_utf8(a) + encode_utf8(b) =~= encode_utf8(b));
    } else {
        lemma_encode_utf8_concat(a.drop_first(), b);
        assert((a + b).drop_first() =~= a.drop_first() + b);
        assert((a + b)[0] == a[0]);
        assert(encode_utf8(a + b) =~= encode_utf8(a) + encode_utf8(b));
    }
}

proof fn lemma_ellipsis_bytes()
    ensures
        encode_utf8("..."@).len() == 3,
{
    reveal_strlit("...");
    let d = "..."@;
    assert(d.len() == 3 && d[0] == '.' && d[1] == '.' && d[2] == '.');
    assert(d.drop_first().drop_first().drop_first() =~= Seq::<char>::empty());
    assert(encode_scalar(d[0] as u32).len() == 1);
    assert(encode_utf8(d.drop_first().drop_first().drop_first()).len() == 0);
    assert(encode_utf8(d.drop_first().drop_first()).len() == 1);
    assert(encode_utf8(d.drop_first()).len() == 2);
}

/// Shortens `s` to `max_len` bytes: a string of at most `max_len` bytes is kept
/// whole; a longer one keeps its first `max_len - 3` bytes and gets "..." appended.
pub fn truncate_string(s: &str, max_len: usize) -> (r: String)
    requires
        encode_utf8(s@).len() > max_len ==> max_len >= 3 && is_char_boundary(
            encode_utf8(s@),
            max_len - 3,
        ),
    ensures
        encode_utf8(s@).len() <= max_len ==> r@ == s@,
        encode_utf8(s@).len() > max_len ==> r@ == decode_utf8(
            encode_utf8(s@).take(max_len - 3),
        ) + "..."@,
        encode_utf8(r@).len() <= max_len,
{
    let byte_len = s.as_bytes().len();
    if byte_len <= max_len {
        String::from_str(s)
    } else {
        let (head, _rest) = s.split_at(max_len - 3);
        proof {
            vstd::utf8::encode_utf8_decode_utf8(head@);
            assert(head.spec_bytes() == encode_utf8(head@));
            assert(s.spec_bytes() == encode_utf8(s@));
            assert(encode_utf8(s@).subrange(0, max_len - 3) =~= encode_utf8(s@).take(max_len - 3));
            assert(encode_utf8(head@) == encode_utf8(s@).take(max_len - 3));
            assert(head@ == decode_utf8(encode_utf8(s@).take(max_len - 3)));
        }
        let mut r = String::from_str(head);
        r.append("...");
        assert(r@ == head@ + "..."@);
        proof {
            lemma_encode_utf8_concat(head@, "..."@);
            lemma_ellipsis_bytes();
        }
        r
    }
}


// ---------------------------------------------------------------------------
// Why a pull request needs attention
// ---------------------------------------------------------------------------

/// The description of a failed workflow run, from its lowercased name, where the
/// name says what kind of run it is.
pub open spec fn workflow_failure_label(l: Seq<char>) -> Option<Seq<char>> {
    if has_substring(l, "integration"@) {
        if has_substring(l, "macos"@) {
            Some("macOS integration tests failing"@)
        } else {
            Some("Integration tests failing"@)
        }
    } else if has_substring(l, "test"@) {
        Some("Tests failing"@)
    } else if has_substring(l, "build"@) {
        Some("Build failing"@)
    } else if has_substring(l, "lint"@) {
        Some("Linting issues"@)
    } else {
        None
    }
}

/// The description of a failed check run, from its lowercased name, where the name
/// says what kind of check it is.
pub open spec fn check_failure_label(l: Seq<char>) -> Option<Seq<char>> {
    if has_substring(l, "integration"@) {
        Some("Integration tests failing"@)
    } else if has_substring(l, "test"@) {
        Some("Tests failing"@)
    } else if has_substring(l, "build"@) {
        Some("Build failing"@)
    } else {
        None
    }
}

/// The description of a running workflow run, from its lowercased name and its name.
pub open spec fn workflow_running_label(l: Seq<char>, name: Seq<char>) -> Seq<char> {
    if has_substring(l, "integration"@) {
        if has_substring(l, "macos"@) {
            "macOS integration tests running"@
        } else {
            "Integration tests running"@
        }
    } else if has_substring(l, "test"@) {
        "Tests running"@
    } else if has_substring(l, "build"@) {
        "Build running"@
    } else if has_substring(l, "lint"@) {
        "Linting in progress"@
    } else {
        name + " running"@
    }
}

/// The description of a running check run, from its lowercased name and its name.
pub open spec fn check_running_label(l: Seq<char>, name: Seq<char>) -> Seq<char> {
    if has_substring(l, "integration"@) {
        "Integration tests running"@
    } else if has_substring(l, "test"@) {
        "Tests running"@
    } else if has_substring(l, "build"@) {
        "Build running"@
    } else {
        name + " running"@
    }
}

/// The description of the first failed workflow run (other than a generic build)
/// whose name says what kind of run it is.
pub open spec fn first_workflow_failure(w: Seq<WorkflowRun>) -> Option<Seq<char>>
    decreases w.len(),
{
    if w.len() == 0 {
        None
    } else {
        let here = if !is_generic_build(w[0].name@) && concluded_as(w[0].conclusion, "failure"@) {
            workflow_failure_label(lowercased(w[0].name@))
        } else {
            None
        };
        match here {
            Some(l) => Some(l),
            None => first_workflow_failure(w.drop_first()),
        }
    }
}

/// The description of the first failed check run whose name says what kind of check
/// it is.
pub open spec fn first_check_failure(c: Seq<CheckRun>) -> Option<Seq<char>>
    decreases c.len(),
{
    if c.len() == 0 {
        None
    } else {
        let here = if concluded_as(c[0].conclusion, "failure"@) {
            check_failure_label(lowercased(c[0].name@))
        } else {
            None
        };
        match here {
            Some(l) => Some(l),
            None => first_check_failure(c.drop_first()),
        }
    }
}

/// Why a pull request's CI is failing.
pub open spec fn failure_reason(w: Seq<WorkflowRun>, c: Seq<CheckRun>) -> Seq<char> {
    match first_workflow_failure(w) {
        Some(l) => l,
        None => match first_check_failure(c) {
            Some(l) => l,
            None => "Some checks failing"@,
        },
    }
}

/// The description of the first running workflow run other than a generic build.
pub open spec fn first_workflow_running(w: Seq<WorkflowRun>) -> Option<Seq<char>>
    decreases w.len(),
{
    if w.len() == 0 {
        None
    } else if !is_generic_build(w[0].name@) && is_active(w[0].status@) {
        Some(workflow_running_label(lowercased(w[0].name@), w[0].name@))
    } else {
        first_workflow_running(w.drop_first())
    }
}

/// The description of the first running check run.
pub open spec fn first_check_running(c: Seq<CheckRun>) -> Option<Seq<char>>
    decreases c.len(),
{
    if c.len() == 0 {
        None
    } else if is_active(c[0].status@) {
        Some(check_running_label(lowercased(c[0].name@), c[0].name@))
    } else {
        first_check_running(c.drop_first())
    }
}

/// The description of the first pending commit status.
pub open spec fn first_pending_status(s: Seq<StatusCheck>) -> Option<Seq<char>>
    decreases s.len(),
{
    if s.len() == 0 {
        None
    } else if s[0].state@ == "pending"@ {
        Some(s[0].context@ + " pending"@)
    } else {
        first_pending_status(s.drop_first())
    }
}

/// Why a pull request's CI is still running.
pub open spec fn running_reason(w: Seq<WorkflowRun>, c: Seq<CheckRun>, s: Seq<StatusCheck>) -> Seq<
    char,
> {
    match first_workflow_running(w) {
        Some(l) => l,
        None => match first_check_running(c) {
            Some(l) => l,
            None => match first_pending_status(s) {
                Some(l) => l,
                None => "Checks running"@,
            },
        },
    }
}

/// The failure description of a workflow run with the given lowercased name.
pub fn workflow_failure_label_of(lowered: &str) -> (r: Option<&'static str>)
    ensures
        r is Some == workflow_failure_label(lowered@) is Some,
        r is Some ==> r->0@ == workflow_failure_label(lowered@)->0,
{
    if contains_str(lowered, "integration") {
        if contains_str(lowered, "macos") {
            Some("macOS integration tests failing")
        } else {
            Some("Integration tests failing")
        }
    } else if contains_str(lowered, "test") {
        Some("Tests failing")
    } else if contains_str(lowered, "build") {
        Some("Build failing")
    } else if contains_str(lowered, "lint") {
        Some("Linting issues")
    } else {
        None
    }
}

/// The failure description of a check run with the given lowercased name.
pub fn check_failure_label_of(lowered: &str) -> (r: Option<&'static str>)
    ensures
        r is Some == check_failure_label(lowered@) is Some,
        r is Some ==> r->0@ == check_failure_label(lowered@)->0,
{
    if contains_str(lowered, "integration") {
        Some("Integration tests failing")
    } else if contains_str(lowered, "test") {
        Some("Tests failing")
    } else if contains_str(lowered, "build") {
        Some("Build failing")
    } else {
        None
    }
}

/// The running description of a workflow run with the given lowercased name and name.
pub fn workflow_running_label_of(lowered: &str, name: &str) -> (r: String)
    ensures
        r@ == workflow_running_label(lowered@, name@),
{
    if contains_str(lowered, "integration") {
        if contains_str(lowered, "macos") {
            String::from_str("macOS integration tests running")
        } else {
            String::from_str("Integration tests running")
        }
    } else if contains_str(lowered, "test") {
        String::from_str("Tests running")
    } else if contains_str(lowered, "build") {
        String::from_str("Build running")
    } else if contains_str(lowered, "lint") {
        String::from_str("Linting in progress")
    } else {
        let mut r = String::from_str(name);
        r.append(" running");
        r
    }
}

/// The running description of a check run with the given lowercased name and name.
pub fn check_running_label_of(lowered: &str, name: &str) -> (r: String)
    ensures
        r@ == check_running_label(lowered@, name@),
{
    if contains_str(lowered, "integration") {
        String::from_str("Integration tests running")
    } else if contains_str(lowered, "test") {
        String::from_str("Tests running")
    } else if contains_str(lowered, "build") {
        String::from_str("Build running")
    } else {
        let mut r = String::from_str(name);
        r.append(" running");
        r
    }
}

/// Why a pull request's CI is failing: the first failed workflow run (other than a
/// generic build) whose name says integration tests (on macOS), tests, build or lint;
/// else the first failed check run whose name says integration tests, tests or build;
/// else "Some checks failing".
pub fn get_failure_reason(
    workflow_runs: &[WorkflowRun],
    check_runs: &[CheckRun],
    _status_checks: &[StatusCheck],
) -> (r: String)
    ensures
        r@ == failure_reason(workflow_runs@, check_runs@),
{
    let w = workflow_runs;
    let mut i: usize = 0;
    assert(w@.skip(0) =~= w@);
    while i < w.len()
        invariant
            w@ == workflow_runs@,
            i <= w@.len(),
            first_workflow_failure(w@) == first_workflow_failure(w@.skip(i as int)),
        decreases w.len() - i,
    {
        proof {
            assert(w@.skip(i as int).drop_first() =~= w@.skip(i as int + 1));
            assert(w@.skip(i as int)[0] == w@[i as int]);
        }
        if !is_generic_build_name(&w[i].name) && conclusion_is(&w[i].conclusion, "failure") {
            let lowered = to_lowercase(w[i].name.as_str());
            match workflow_failure_label_of(lowered.as_str()) {
                Some(l) => {
                    assert(first_workflow_failure(w@.skip(i as int)) == Some(l@));
                    return String::from_str(l);
                },
                None => {},
            }
        }
        i = i + 1;
    }
    assert(w@.skip(i as int) =~= Seq::<WorkflowRun>::empty());
    let c = check_runs;
    let mut k: usize = 0;
    assert(c@.skip(0) =~= c@);
    while k < c.len()
        invariant
            w@ == workflow_runs@,
            c@ == check_runs@,
            k <= c@.len(),
            first_workflow_failure(w@) is None,
            first_check_failure(c@) == first_check_failure(c@.skip(k as int)),
        decreases c.len() - k,
    {
        proof {
            assert(c@.skip(k as int).drop_first() =~= c@.skip(k as int + 1));
            assert(c@.skip(k as int)[0] == c@[k as int]);
        }
        if conclusion_is(&c[k].conclusion, "failure") {
            let lowered = to_lowercase(c[k].name.as_str());
            match check_failure_label_of(lowered.as_str()) {
                Some(l) => {
                    assert(first_check_failure(c@.skip(k as int)) == Some(l@));
                    return String::from_str(l);
                },
                None => {},
            }
        }
        k = k + 1;
    }
    assert(c@.skip(k as int) =~= Seq::<CheckRun>::empty());
    String::from_str("Some checks failing")
}

/// Why a pull request's CI is still running: the first running workflow run other
/// than a generic build, else the first running check run (described by what their
/// names say, or as "<name> running"), else the first pending commit status
/// ("<context> pending"), else "Checks running".
pub fn get_running_reason(
    workflow_runs: &[WorkflowRun],
    check_runs: &[CheckRun],
    status_checks: &[StatusCheck],
) -> (r: String)
    ensures
        r@ == running_reason(workflow_runs@, check_runs@, status_checks@),
{
    let w = workflow_runs;
    let mut i: usize = 0;
    assert(w@.skip(0) =~= w@);
    while i < w.len()
        invariant
            w@ == workflow_runs@,
            i <= w@.len(),
            first_workflow_running(w@) == first_workflow_running(w@.skip(i as int)),
        decreases w.len() - i,
    {
        proof {
            assert(w@.skip(i as int).drop_first() =~= w@.skip(i as int + 1));
            assert(w@.skip(i as int)[0] == w@[i as int]);
        }
        if !is_generic_build_name(&w[i].name) && is_active_status(&w[i].status) {
            let lowered = to_lowercase(w[i].name.as_str());
            return workflow_running_label_of(lowered.as_str(), w[i].name.as_str());
        }
        i = i + 1;
    }
    assert(w@.skip(i as int) =~= Seq::<WorkflowRun>::empty());
    let c = check_runs;
    let mut k: usize = 0;
    assert(c@.skip(0) =~= c@);
    while k < c.len()
        invariant
            w@ == workflow_runs@,
            c@ == check_runs@,
            k <= c@.len(),
            first_workflow_running(w@) is None,
            first_check_running(c@) == first_check_running(c@.skip(k as int)),
        decreases c.len() - k,
    {
        proof {
            assert(c@.skip(k as int).drop_first() =~= c@.skip(k as int + 1));
            assert(c@.skip(k as int)[0] == c@[k as int]);
        }
        if is_active_status(&c[k].status) {
            let lowered = to_lowercase(c[k].name.as_str());
            return check_running_label_of(lowered.as_str(), c[k].name.as_str());
        }
        k = k + 1;
    }
    assert(c@.skip(k as int) =~= Seq::<CheckRun>::empty());
    let s = status_checks;
    let mut j: usize = 0;
    assert(s@.skip(0) =~= s@);
    while j < s.len()
        invariant
            w@ == workflow_runs@,
            c@ == check_runs@,
            s@ == status_checks@,
            j <= s@.len(),
            first_workflow_running(w@) is None,
            first_check_running(c@) is None,
            first_pending_status(s@) == first_pending_status(s@.skip(j as int)),
        decreases s.len() - j,
    {
        proof {
            assert(s@.skip(j as int).drop_first() =~= s@.skip(j as int + 1));
            assert(s@.skip(j as int)[0] == s@[j as int]);
        }
        if str_eq(s[j].state.as_str(), "pending") {
            let mut r = s[j].context.clone();
            r.append(" pending");
            return r;
        }
        j = j + 1;
    }
    assert(s@.skip(j as int) =~= Seq::<StatusCheck>::empty());
    String::from_str("Checks running")
}

/// Workflow runs named "Build" and workflow runs that did not conclude with failure
/// never change the failure reason: inserting one anywhere among the workflow runs
/// leaves it as it was, and so does removing one.
pub proof fn lemma_failure_reason_ignores_unfailed_workflow_runs(
    w: Seq<WorkflowRun>,
    k: int,
    r: WorkflowRun,
    c: Seq<CheckRun>,
)
    requires
        0 <= k <= w.len(),
        r.name@ == "Build"@ || !(r.conclusion matches Some(x) && x@ == "failure"@),
    ensures
        failure_reason(w.insert(k, r), c) == failure_reason(w, c),
{
    lemma_insert_keeps_workflow_failure(w, k, r);
}

/// Check runs that did not conclude with failure never change the failure reason:
/// inserting one anywhere among the check runs leaves it as it was, and so does
/// removing one.
pub proof fn lemma_failure_reason_ignores_unfailed_check_runs(
    w: Seq<WorkflowRun>,
    c: Seq<CheckRun>,
    k: int,
    r: CheckRun,
)
    requires
        0 <= k <= c.len(),
        !(r.conclusion matches Some(x) && x@ == "failure"@),
    ensures
        failure_reason(w, c.insert(k, r)) == failure_reason(w, c),
{
    lemma_insert_keeps_check_failure(c, k, r);
}

/// Workflow runs named "Build" and workflow runs neither in progress nor queued never
/// change the running reason: inserting one anywhere among the workflow runs leaves
/// it as it was, and so does removing one.
pub proof fn lemma_running_reason_ignores_idle_workflow_runs(
    w: Seq<WorkflowRun>,
    k: int,
    r: WorkflowRun,
    c: Seq<CheckRun>,
    s: Seq<StatusCheck>,
)
    requires
        0 <= k <= w.len(),
        r.name@ == "Build"@ || (r.status@ != "in_progress"@ && r.status@ != "queued"@),
    ensures
        running_reason(w.insert(k, r), c, s) == running_reason(w, c, s),
{
    lemma_insert_keeps_workflow_running(w, k, r);
}

/// Check runs neither in progress nor queued never change the running reason:
/// inserting one anywhere among the check runs leaves it as it was, and so does
/// removing one.
pub proof fn lemma_running_reason_ignores_idle_check_runs(
    w: Seq<WorkflowRun>,
    c: Seq<CheckRun>,
    k: int,
    r: CheckRun,
    s: Seq<StatusCheck>,
)
    requires
        0 <= k <= c.len(),
        r.status@ != "in_progress"@ && r.status@ != "queued"@,
    ensures
        running_reason(w, c.insert(k, r), s) == running_reason(w, c, s),
{
    lemma_insert_keeps_check_running(c, k, r);
}

/// Commit statuses that are not pending never change the running reason: inserting
/// one anywhere among the commit statuses leaves it as it was, and so does removing
/// one.
pub proof fn lemma_running_reason_ignores_settled_statuses(
    w: Seq<WorkflowRun>,
    c: Seq<CheckRun>,
    s: Seq<StatusCheck>,
    k: int,
    r: StatusCheck,
)
    requires
        0 <= k <= s.len(),
        r.state@ != "pending"@,
    ensures
        running_reason(w, c, s.insert(k, r)) == running_reason(w, c, s),
{
    lemma_insert_keeps_pending_status(s, k, r);
}

/// A failed workflow run other than "Build" that comes first is described by what
/// its lowercased name says: integration tests on macOS, integration tests, tests,
/// build, lint, in that order; a name that says none of these passes the reason on to
/// the runs after it.
pub proof fn lemma_first_failed_run_names_reason(r: WorkflowRun, w: Seq<WorkflowRun>, c: Seq<CheckRun>)
    requires
        r.name@ != "Build"@,
        r.conclusion matches Some(x) && x@ == "failure"@,
    ensures
        ({
            let l = lowercased(r.name@);
            let reason = failure_reason(seq![r] + w, c);
            &&& has_substring(l, "integration"@) && has_substring(l, "macos"@) ==> reason
                == "macOS integration tests failing"@
            &&& has_substring(l, "integration"@) && !has_substring(l, "macos"@) ==> reason
                == "Integration tests failing"@
            &&& !has_substring(l, "integration"@) && has_substring(l, "test"@) ==> reason
                == "Tests failing"@
            &&& !has_substring(l, "integration"@) && !has_substring(l, "test"@) && has_substring(
                l,
                "build"@,
            ) ==> reason == "Build failing"@
            &&& !has_substring(l, "integration"@) && !has_substring(l, "test"@) && !has_substring(
                l,
                "build"@,
            ) && has_substring(l, "lint"@) ==> reason == "Linting issues"@
            &&& !has_substring(l, "integration"@) && !has_substring(l, "test"@) && !has_substring(
                l,
                "build"@,
            ) && !has_substring(l, "lint"@) ==> reason == failure_reason(w, c)
        }),
{
    let x = seq![r] + w;
    assert(x[0] == r);
    assert(x.drop_first() =~= w);
}

/// Where no workflow run other than "Build" and no check run concluded with
/// failure, the failure reason is "Some checks failing".
pub proof fn lemma_no_failed_runs_reason(w: Seq<WorkflowRun>, c: Seq<CheckRun>)
    requires
        forall|i: int|
            0 <= i < w.len() ==> #[trigger] w[i].name@ == "Build"@ || !(w[i].conclusion matches Some(
                x,
            ) && x@ == "failure"@),
        forall|i: int| 0 <= i < c.len() ==> !(#[trigger] c[i].conclusion matches Some(x) && x@
            == "failure"@),
    ensures
        failure_reason(w, c) == "Some checks failing"@,
    decreases w.len() + c.len(),
{
    if w.len() > 0 {
        let p = w.drop_last();
        assert forall|i: int| 0 <= i < p.len() implies #[trigger] p[i].name@ == "Build"@ || !(p[i].conclusion matches Some(x) && x@ == "failure"@) by {
            assert(p[i] == w[i]);
        }
        lemma_no_failed_runs_reason(p, c);
        assert(p.insert(p.len() as int, w.last()) =~= w);
        lemma_insert_keeps_workflow_failure(p, p.len() as int, w.last());
    } else if c.len() > 0 {
        let p = c.drop_last();
        assert forall|i: int| 0 <= i < p.len() implies !(#[trigger] p[i].conclusion matches Some(x) && x@ == "failure"@) by {
            assert(p[i] == c[i]);
        }
        lemma_no_failed_runs_reason(w, p);
        assert(p.insert(p.len() as int, c.last()) =~= c);
        lemma_insert_keeps_check_failure(p, p.len() as int, c.last());
    }
}

/// A workflow run other than "Build" that is in progress or queued and comes first
/// is described by what its lowercased name says: integration tests on macOS,
/// integration tests, tests, build, lint, in that order; else by its own name
/// followed by " running".
pub proof fn lemma_first_active_run_names_reason(
    r: WorkflowRun,
    w: Seq<WorkflowRun>,
    c: Seq<CheckRun>,
    s: Seq<StatusCheck>,
)
    requires
        r.name@ != "Build"@,
        r.status@ == "in_progress"@ || r.status@ == "queued"@,
    ensures
        ({
            let l = lowercased(r.name@);
            let reason = running_reason(seq![r] + w, c, s);
            &&& has_substring(l, "integration"@) && has_substring(l, "macos"@) ==> reason
                == "macOS integration tests running"@
            &&& has_substring(l, "integration"@) && !has_substring(l, "macos"@) ==> reason
                == "Integration tests running"@
            &&& !has_substring(l, "integration"@) && has_substring(l, "test"@) ==> reason
                == "Tests running"@
            &&& !has_substring(l, "integration"@) && !has_substring(l, "test"@) && has_substring(
                l,
                "build"@,
            ) ==> reason == "Build running"@
            &&& !has_substring(l, "integration"@) && !has_substring(l, "test"@) && !has_substring(
                l,
                "build"@,
            ) && has_substring(l, "lint"@) ==> reason == "Linting in progress"@
            &&& !has_substring(l, "integration"@) && !has_substring(l, "test"@) && !has_substring(
                l,
                "build"@,
            ) && !has_substring(l, "lint"@) ==> reason == r.name@ + " running"@
        }),
{
    let x = seq![r] + w;
    assert(x[0] == r);
}

/// Where no workflow run other than "Build" and no check run is in progress or
/// queued, the running reason is that of the first pending commit status,
/// "<context> pending", and "Checks running" where none is pending.
pub proof fn lemma_no_active_runs_reason(w: Seq<WorkflowRun>, c: Seq<CheckRun>, s: Seq<StatusCheck>)
    requires
        forall|i: int|
            0 <= i < w.len() ==> #[trigger] w[i].name@ == "Build"@ || (w[i].status@ != "in_progress"@
                && w[i].status@ != "queued"@),
        forall|i: int| 0 <= i < c.len() ==> #[trigger] c[i].status@ != "in_progress"@ && c[i].status@
            != "queued"@,
    ensures
        forall|j: int|
            0 <= j < s.len() && #[trigger] s[j].state@ == "pending"@ && (forall|m: int|
                0 <= m < j ==> #[trigger] s[m].state@ != "pending"@) ==> running_reason(w, c, s)
                == s[j].context@ + " pending"@,
        (forall|j: int| 0 <= j < s.len() ==> #[trigger] s[j].state@ != "pending"@) ==> running_reason(
            w,
            c,
            s,
        ) == "Checks running"@,
    decreases w.len() + c.len(),
{
    if w.len() > 0 {
        let p = w.drop_last();
        assert forall|i: int| 0 <= i < p.len() implies #[trigger] p[i].name@ == "Build"@ || (p[i].status@ != "in_progress"@ && p[i].status@ != "queued"@) by {
            assert(p[i] == w[i]);
        }
        lemma_no_active_runs_reason(p, c, s);
        assert(p.insert(p.len() as int, w.last()) =~= w);
        lemma_insert_keeps_workflow_running(p, p.len() as int, w.last());
    } else if c.len() > 0 {
        let p = c.drop_last();
        assert forall|i: int| 0 <= i < p.len() implies #[trigger] p[i].status@ != "in_progress"@ && p[i].status@ != "queued"@ by {
            assert(p[i] == c[i]);
        }
        lemma_no_active_runs_reason(w, p, s);
        assert(p.insert(p.len() as int, c.last()) =~= c);
        lemma_insert_keeps_check_running(p, p.len() as int, c.last());
    } else {
        assert forall|j: int|
            0 <= j < s.len() && #[trigger] s[j].state@ == "pending"@ && (forall|m: int|
                0 <= m < j ==> #[trigger] s[m].state@ != "pending"@) implies first_pending_status(s)
                == Some(s[j].context@ + " pending"@) by {
            lemma_first_pending_at(s, j);
        }
        if forall|j: int| 0 <= j < s.len() ==> #[trigger] s[j].state@ != "pending"@ {
            lemma_no_pending(s);
        }
    }
}

/// The first pending commit status is described.
proof fn lemma_first_pending_at(s: Seq<StatusCheck>, j: int)
    requires
        0 <= j < s.len(),
        s[j].state@ == "pending"@,
        forall|m: int| 0 <= m < j ==> #[trigger] s[m].state@ != "pending"@,
    ensures
        first_pending_status(s) == Some(s[j].context@ + " pending"@),
    decreases j,
{
    if j > 0 {
        let p = s.drop_first();
        assert(s[0].state@ != "pending"@);
        assert forall|m: int| 0 <= m < j - 1 implies #[trigger] p[m].state@ != "pending"@ by {
            assert(p[m] == s[m + 1]);
        }
        lemma_first_pending_at(p, j - 1);
    }
}

/// Without a pending commit status there is no pending description.
proof fn lemma_no_pending(s: Seq<StatusCheck>)
    requires
        forall|j: int| 0 <= j < s.len() ==> #[trigger] s[j].state@ != "pending"@,
    ensures
        first_pending_status(s) is None,
    decreases s.len(),
{
    if s.len() > 0 {
        let p = s.drop_first();
        assert(s[0].state@ != "pending"@);
        assert forall|m: int| 0 <= m < p.len() implies #[trigger] p[m].state@ != "pending"@ by {
            assert(p[m] == s[m + 1]);
        }
        lemma_no_pending(p);
    }
}

/// Inserting a run that is a generic build or did not fail keeps the first workflow failure.
proof fn lemma_insert_keeps_workflow_failure(x: Seq<WorkflowRun>, k: int, r: WorkflowRun)
    requires
        0 <= k <= x.len(),
        r.name@ == "Build"@ || !(r.conclusion matches Some(x) && x@ == "failure"@),
    ensures
        first_workflow_failure(x.insert(k, r)) == first_workflow_failure(x),
    decreases k,
{
    let y = x.insert(k, r);
    if k == 0 {
        assert(y[0] == r);
        assert(y.drop_first() =~= x);
    } else {
        assert(y[0] == x[0]);
        assert(y.drop_first() =~= x.drop_first().insert(k - 1, r));
        lemma_insert_keeps_workflow_failure(x.drop_first(), k - 1, r);
    }
}

/// Inserting a check run that did not fail keeps the first check failure.
proof fn lemma_insert_keeps_check_failure(x: Seq<CheckRun>, k: int, r: CheckRun)
    requires
        0 <= k <= x.len(),
        !(r.conclusion matches Some(x) && x@ == "failure"@),
    ensures
        first_check_failure(x.insert(k, r)) == first_check_failure(x),
    decreases k,
{
    let y = x.insert(k, r);
    if k == 0 {
        assert(y[0] == r);
        assert(y.drop_first() =~= x);
    } else {
        assert(y[0] == x[0]);
        assert(y.drop_first() =~= x.drop_first().insert(k - 1, r));
        lemma_insert_keeps_check_failure(x.drop_first(), k - 1, r);
    }
}

/// Inserting a run that is a generic build or is idle keeps the first running workflow run.
proof fn lemma_insert_keeps_workflow_running(x: Seq<WorkflowRun>, k: int, r: WorkflowRun)
    requires
        0 <= k <= x.len(),
        r.name@ == "Build"@ || (r.status@ != "in_progress"@ && r.status@ != "queued"@),
    ensures
        first_workflow_running(x.insert(k, r)) == first_workflow_running(x),
    decreases k,
{
    let y = x.insert(k, r);
    if k == 0 {
        assert(y[0] == r);
        assert(y.drop_first() =~= x);
    } else {
        assert(y[0] == x[0]);
        assert(y.drop_first() =~= x.drop_first().insert(k - 1, r));
        lemma_insert_keeps_workflow_running(x.drop_first(), k - 1, r);
    }
}

/// Inserting an idle check run keeps the first running check run.
proof fn lemma_insert_keeps_check_running(x: Seq<CheckRun>, k: int, r: CheckRun)
    requires
        0 <= k <= x.len(),
        r.status@ != "in_progress"@ && r.status@ != "queued"@,
    ensures
        first_check_running(x.insert(k, r)) == first_check_running(x),
    decreases k,
{
    let y = x.insert(k, r);
    if k == 0 {
        assert(y[0] == r);
        assert(y.drop_first() =~= x);
    } else {
        assert(y[0] == x[0]);
        assert(y.drop_first() =~= x.drop_first().insert(k - 1, r));
        lemma_insert_keeps_check_running(x.drop_first(), k - 1, r);
    }
}

/// Inserting a commit status that is not pending keeps the first pending one.
proof fn lemma_insert_keeps_pending_status(x: Seq<StatusCheck>, k: int, r: StatusCheck)
    requires
        0 <= k <= x.len(),
        r.state@ != "pending"@,
    ensures
        first_pending_status(x.insert(k, r)) == first_pending_status(x),
    decreases k,
{
    let y = x.insert(k, r);
    if k == 0 {
        assert(y[0] == r);
        assert(y.drop_first() =~= x);
    } else {
        assert(y[0] == x[0]);
        assert(y.drop_first() =~= x.drop_first().insert(k - 1, r));
        lemma_insert_keeps_pending_status(x.drop_first(), k - 1, r);
    }
}

// ---------------------------------------------------------------------------
// Markers of single runs and statuses
// ---------------------------------------------------------------------------

/// The marker of one workflow run or check run, from its conclusion and status.
pub open spec fn run_marker_of(conclusion: Option<String>, status: Seq<char>) -> Seq<char> {
    match conclusion {
        Some(c) => if c@ == "success"@ {
            "✅"@
        } else if c@ == "failure"@ {
            "❌"@
        } else if c@ == "cancelled"@ {
            "⏭️"@
        } else if c@ == "skipped"@ || c@ == "neutral"@ {
            "⚪"@
        } else {
            "❓"@
        },
        None => if status == "in_progress"@ {
            "🔄"@
        } else if status == "queued"@ {
            "⏳"@
        } else {
            "❓"@
        },
    }
}

/// The marker of one commit status, from its state.
pub open spec fn status_marker_of(state: Seq<char>) -> Seq<char> {
    if state == "success"@ {
        "✅"@
    } else if state == "failure"@ {
        "❌"@
    } else if state == "error"@ {
        "🔴"@
    } else if state == "pending"@ {
        "🔄"@
    } else {
        "❓"@
    }
}

/// The marker shown beside a workflow run or check run.
pub fn run_marker(conclusion: &Option<String>, status: &str) -> (r: &'static str)
    ensures
        r@ == run_marker_of(*conclusion, status@),
{
    match conclusion {
        Some(c) => {
            let c = c.as_str();
            if str_eq(c, "success") {
                "✅"
            } else if str_eq(c, "failure") {
                "❌"
            } else if str_eq(c, "cancelled") {
                "⏭️"
            } else if str_eq(c, "skipped") || str_eq(c, "neutral") {
                "⚪"
            } else {
                "❓"
            }
        },
        None => if str_eq(status, "in_progress") {
            "🔄"
        } else if str_eq(status, "queued") {
            "⏳"
        } else {
            "❓"
        },
    }
}

/// The marker shown beside a commit status.
pub fn status_marker(state: &str) -> (r: &'static str)
    ensures
        r@ == status_marker_of(state@),
{
    if str_eq(state, "success") {
        "✅"
    } else if str_eq(state, "failure") {
        "❌"
    } else if str_eq(state, "error") {
        "🔴"
    } else if str_eq(state, "pending") {
        "🔄"
    } else {
        "❓"
    }
}

/// The color a pull request's state is printed in.
#[derive(Debug, Clone, Copy, PartialEq, Eq, Structural)]
pub enum StateColor {
    Green,
    Red,
    Magenta,
    White,
}

/// The color of a state: open green, closed red, merged magenta, anything else white.
pub open spec fn state_color_of(state: Seq<char>) -> StateColor {
    if state == "open"@ {
        StateColor::Green
    } else if state == "closed"@ {
        StateColor::Red
    } else if state == "merged"@ {
        StateColor::Magenta
    } else {
        StateColor::White
    }
}

/// The color a pull request's state is printed in.
pub fn state_color(state: &str) -> (r: StateColor)
    ensures
        r == state_color_of(state@),
{
    if str_eq(state, "open") {
        StateColor::Green
    } else if str_eq(state, "closed") {
        StateColor::Red
    } else if str_eq(state, "merged") {
        StateColor::Magenta
    } else {
        StateColor::White
    }
}

/// Whether a workflow run is listed in the CI details: generic builds are not.
pub fn is_listed_workflow(run: &WorkflowRun) -> (r: bool)
    ensures
        r == !is_generic_build(run.name@),
{
    !is_generic_build_name(&run.name)
}

// ---------------------------------------------------------------------------
// Counting pull requests and drafts
// ---------------------------------------------------------------------------

/// The number of drafts among the pull requests.
pub open spec fn draft_count_of(prs: Seq<PullRequest>) -> nat
    decreases prs.len(),
{
    if prs.len() == 0 {
        0
    } else {
        draft_count_of(prs.drop_last()) + if prs.last().draft {
            1nat
        } else {
            0nat
        }
    }
}

/// The number of pull requests over all repositories.
pub open spec fn total_prs_of<T>(groups: Seq<(String, Vec<T>)>) -> nat
    decreases groups.len(),
{
    if groups.len() == 0 {
        0
    } else {
        total_prs_of(groups.drop_last()) + groups.last().1@.len()
    }
}

/// The number of drafts over all repositories.
pub open spec fn total_drafts_of(groups: Seq<(String, Vec<PullRequest>)>) -> nat
    decreases groups.len(),
{
    if groups.len() == 0 {
        0
    } else {
        total_drafts_of(groups.drop_last()) + draft_count_of(groups.last().1@)
    }
}

proof fn lemma_draft_count_bound(prs: Seq<PullRequest>)
    ensures
        draft_count_of(prs) <= prs.len(),
    decreases prs.len(),
{
    if prs.len() > 0 {
        lemma_draft_count_bound(prs.drop_last());
    }
}

proof fn lemma_total_drafts_bound(groups: Seq<(String, Vec<PullRequest>)>)
    ensures
        total_drafts_of(groups) <= total_prs_of(groups),
    decreases groups.len(),
{
    if groups.len() > 0 {
        lemma_total_drafts_bound(groups.drop_last());
        lemma_draft_count_bound(groups.last().1@);
    }
}

proof fn lemma_total_prs_prefix<T>(groups: Seq<(String, Vec<T>)>, i: int)
    requires
        0 <= i <= groups.len(),
    ensures
        total_prs_of(groups.take(i)) <= total_prs_of(groups),
    decreases groups.len(),
{
    if i < groups.len() {
        assert(groups.drop_last().take(i) =~= groups.take(i));
        lemma_total_prs_prefix(groups.drop_last(), i);
    } else {
        assert(groups.take(i) =~= groups);
    }
}

/// The number of drafts among the pull requests.
pub fn count_drafts(prs: &[PullRequest]) -> (r: usize)
    ensures
        r == draft_count_of(prs@),
{
    let mut n: usize = 0;
    let mut i: usize = 0;
    while i < prs.len()
        invariant
            i <= prs@.len(),
            n == draft_count_of(prs@.take(i as int)),
        decreases prs.len() - i,
    {
        proof {
            assert(prs@.take(i as int + 1).drop_last() =~= prs@.take(i as int));
            lemma_draft_count_bound(prs@.take(i as int));
        }
        if prs[i].draft {
            n = n + 1;
        }
        i = i + 1;
    }
    assert(prs@.take(i as int) =~= prs@);
    n
}

/// The number of pull requests over all repositories, or `None` where it does not
/// fit a `usize`.
pub fn checked_total_prs<T>(prs_by_repo: &[(String, Vec<T>)]) -> (r: Option<usize>)
    ensures
        r matches Some(n) ==> n == total_prs_of(prs_by_repo@),
        r is None ==> total_prs_of(prs_by_repo@) > usize::MAX,
{
    let mut n: usize = 0;
    let mut i: usize = 0;
    while i < prs_by_repo.len()
        invariant
            i <= prs_by_repo@.len(),
            n == total_prs_of(prs_by_repo@.take(i as int)),
        decreases prs_by_repo.len() - i,
    {
        proof {
            assert(prs_by_repo@.take(i as int + 1).drop_last() =~= prs_by_repo@.take(i as int));
        }
        let len = prs_by_repo[i].1.len();
        match n.checked_add(len) {
            Some(m) => {
                n = m;
            },
            None => {
                proof {
                    lemma_total_prs_prefix(prs_by_repo@, i as int + 1);
                }
                return None;
            },
        }
        i = i + 1;
    }
    assert(prs_by_repo@.take(i as int) =~= prs_by_repo@);
    Some(n)
}

/// The numbers of pull requests and of drafts over all repositories.
pub fn draft_totals(prs_by_repo: &[(String, Vec<PullRequest>)]) -> (r: (usize, usize))
    requires
        total_prs_of(prs_by_repo@) <= usize::MAX,
    ensures
        r.0 == total_prs_of(prs_by_repo@),
        r.1 == total_drafts_of(prs_by_repo@),
{
    let mut total: usize = 0;
    let mut drafts: usize = 0;
    let mut i: usize = 0;
    while i < prs_by_repo.len()
        invariant
            i <= prs_by_repo@.len(),
            total_prs_of(prs_by_repo@) <= usize::MAX,
            total == total_prs_of(prs_by_repo@.take(i as int)),
            drafts == total_drafts_of(prs_by_repo@.take(i as int)),
        decreases prs_by_repo.len() - i,
    {
        proof {
            assert(prs_by_repo@.take(i as int + 1).drop_last() =~= prs_by_repo@.take(i as int));
            lemma_total_prs_prefix(prs_by_repo@, i as int + 1);
            lemma_total_drafts_bound(prs_by_repo@.take(i as int + 1));
        }
        let d = count_drafts(prs_by_repo[i].1.as_slice());
        total = total + prs_by_repo[i].1.len();
        drafts = drafts + d;
        i = i + 1;
    }
    assert(prs_by_repo@.take(i as int) =~= prs_by_repo@);
    (total, drafts)
}

/// The note on drafts: "All your PRs are ..." when every pull request is a draft,
/// else "<n> of your PR is / PRs are ...".
pub open spec fn draft_note_of(draft_count: nat, all_drafts: bool) -> Seq<char> {
    let draft_text = if draft_count == 1 {
        "PR is"@
    } else {
        "PRs are"@
    };
    if all_drafts {
        "All your "@ + draft_text + " in DRAFT status, so they're works in progress."@
    } else {
        decimal(draft_count) + " of your "@ + draft_text
            + " in DRAFT status, so they're works in progress."@
    }
}

/// The note printed about draft pull requests.
pub fn draft_note(draft_count: usize, all_drafts: bool) -> (r: String)
    ensures
        r@ == draft_note_of(draft_count as nat, all_drafts),
{
    let draft_text = if draft_count == 1 {
        "PR is"
    } else {
        "PRs are"
    };
    if all_drafts {
        let mut r = String::from_str("All your ");
        r.append(draft_text);
        r.append(" in DRAFT status, so they're works in progress.");
        r
    } else {
        let mut r = decimal_string(draft_count as u64);
        r.append(" of your ");
        r.append(draft_text);
        r.append(" in DRAFT status, so they're works in progress.");
        r
    }
}

/// The note on drafts among a number of pull requests: the "All your ..." form
/// exactly when every one of them is a draft.
pub fn draft_note_among(draft_count: usize, total_prs: usize) -> (r: String)
    ensures
        r@ == draft_note_of(draft_count as nat, draft_count == total_prs),
{
    draft_note(draft_count, draft_count == total_prs)
}

// ---------------------------------------------------------------------------
// The status summary over all pull requests
// ---------------------------------------------------------------------------

/// A pull request with its workflow runs, check runs and commit statuses.
pub type PrWithChecks = (PullRequest, Vec<WorkflowRun>, Vec<CheckRun>, Vec<StatusCheck>);

/// The CI state of a pull request with its checks.
pub open spec fn entry_state(e: PrWithChecks) -> CiState {
    ci_state(e.1@, e.2@, e.3@)
}

/// A pull request needs attention while its CI fails or runs.
pub open spec fn entry_needs_attention(e: PrWithChecks) -> bool {
    entry_state(e) == CiState::Failing || entry_state(e) == CiState::Running
}

/// What the summary says of a pull request's CI.
pub open spec fn entry_description(e: PrWithChecks) -> Seq<char> {
    if entry_state(e) == CiState::Failing {
        failure_reason(e.1@, e.2@)
    } else if entry_state(e) == CiState::Running {
        running_reason(e.1@, e.2@, e.3@)
    } else {
        "All checks passing"@
    }
}

/// The summary line of a pull request: "<repo> #<number> - <description>".
pub open spec fn entry_line(repo: Seq<char>, e: PrWithChecks) -> Seq<char> {
    repo + " #"@ + decimal(e.0.number as nat) + " - "@ + entry_description(e)
}

/// The pull requests of all repositories in order, each with its repository's name.
pub open spec fn flatten_groups(groups: Seq<(String, Vec<PrWithChecks>)>) -> Seq<
    (Seq<char>, PrWithChecks),
>
    decreases groups.len(),
{
    if groups.len() == 0 {
        seq![]
    } else {
        let last = groups.last();
        flatten_groups(groups.drop_last()) + last.1@.map_values(
            |e: PrWithChecks| (last.0@, e),
        )
    }
}

/// The summary lines of the entries that need attention (`attention`) or that
/// look good (`!attention`), in order.
pub open spec fn summary_lines(f: Seq<(Seq<char>, PrWithChecks)>, attention: bool) -> Seq<
    Seq<char>,
>
    decreases f.len(),
{
    if f.len() == 0 {
        seq![]
    } else {
        let rest = summary_lines(f.drop_last(), attention);
        let (repo, e) = f.last();
        if entry_needs_attention(e) == attention {
            rest.push(entry_line(repo, e))
        } else {
            rest
        }
    }
}

/// The number of drafts among the entries.
pub open spec fn entry_drafts(f: Seq<(Seq<char>, PrWithChecks)>) -> nat
    decreases f.len(),
{
    if f.len() == 0 {
        0
    } else {
        entry_drafts(f.drop_last()) + if f.last().1.0.draft {
            1nat
        } else {
            0nat
        }
    }
}

/// What the status summary lists.
pub struct PrStatusReport {
    /// Lines of the pull requests whose CI fails or runs.
    pub needs_attention: Vec<String>,
    /// Lines of the other pull requests.
    pub looking_good: Vec<String>,
    /// The number of drafts.
    pub draft_count: usize,
}

proof fn lemma_entry_drafts_bound(f: Seq<(Seq<char>, PrWithChecks)>)
    ensures
        entry_drafts(f) <= f.len(),
    decreases f.len(),
{
    if f.len() > 0 {
        lemma_entry_drafts_bound(f.drop_last());
    }
}

/// The view of a list of strings as a sequence of character sequences.
pub open spec fn string_views(v: Seq<String>) -> Seq<Seq<char>> {
    v.map_values(|s: String| s@)
}

/// The entry line of one pull request.
fn entry_line_of(repo: &String, e: &PrWithChecks) -> (r: String)
    ensures
        r@ == entry_line(repo@, *e),
{
    let state = overall_ci_state(e.1.as_slice(), e.2.as_slice(), e.3.as_slice());
    let description = match state {
        CiState::Failing => get_failure_reason(e.1.as_slice(), e.2.as_slice(), e.3.as_slice()),
        CiState::Running => get_running_reason(e.1.as_slice(), e.2.as_slice(), e.3.as_slice()),
        _ => String::from_str("All checks passing"),
    };
    let mut r = repo.clone();
    r.append(" #");
    let number = decimal_string(e.0.number);
    r.append(number.as_str());
    r.append(" - ");
    r.append(description.as_str());
    r
}

/// The status summary of the pull requests of all repositories: the lines of those
/// whose CI fails or runs, the lines of the others, and the number of drafts.
pub fn pr_status_report(prs_by_repo: &[(String, Vec<PrWithChecks>)]) -> (r: PrStatusReport)
    requires
        total_prs_of(prs_by_repo@) <= usize::MAX,
    ensures
        string_views(r.needs_attention@) == summary_lines(flatten_groups(prs_by_repo@), true),
        string_views(r.looking_good@) == summary_lines(flatten_groups(prs_by_repo@), false),
        r.draft_count == entry_drafts(flatten_groups(prs_by_repo@)),
{
    let mut needs: Vec<String> = Vec::new();
    let mut good: Vec<String> = Vec::new();
    let mut drafts: usize = 0;
    let ghost all = flatten_groups(prs_by_repo@);
    proof {
        lemma_flatten_len(prs_by_repo@);
    }
    let mut i: usize = 0;
    while i < prs_by_repo.len()
        invariant
            i <= prs_by_repo@.len(),
            all == flatten_groups(prs_by_repo@),
            all.len() <= usize::MAX,
            string_views(needs@) == summary_lines(flatten_groups(prs_by_repo@.take(i as int)), true),
            string_views(good@) == summary_lines(flatten_groups(prs_by_repo@.take(i as int)), false),
            drafts == entry_drafts(flatten_groups(prs_by_repo@.take(i as int))),
        decreases prs_by_repo.len() - i,
    {
        let ghost before = flatten_groups(prs_by_repo@.take(i as int));
        let repo = &prs_by_repo[i].0;
        let prs = &prs_by_repo[i].1;
        let ghost mapped = prs@.map_values(|e: PrWithChecks| (repo@, e));
        proof {
            assert(prs_by_repo@.take(i as int + 1).drop_last() =~= prs_by_repo@.take(i as int));
            assert(flatten_groups(prs_by_repo@.take(i as int + 1)) == before + mapped);
            lemma_flatten_prefix_len(prs_by_repo@, i as int + 1);
            assert(before + mapped.take(0) =~= before);
        }
        let mut j: usize = 0;
        while j < prs.len()
            invariant
                j <= prs@.len(),
                mapped == prs@.map_values(|e: PrWithChecks| (repo@, e)),
                (before + mapped).len() <= all.len(),
                all.len() <= usize::MAX,
                string_views(needs@) == summary_lines(before + mapped.take(j as int), true),
                string_views(good@) == summary_lines(before + mapped.take(j as int), false),
                drafts == entry_drafts(before + mapped.take(j as int)),
            decreases prs.len() - j,
        {
            let ghost cur = before + mapped.take(j as int + 1);
            proof {
                assert(cur.drop_last() =~= before + mapped.take(j as int));
                assert(cur.last() == (repo@, prs@[j as int]));
                lemma_entry_drafts_bound(before + mapped.take(j as int));
                assert((before + mapped.take(j as int)).len() < (before + mapped).len());
            }
            let e = &prs[j];
            let line = entry_line_of(repo, e);
            let state = overall_ci_state(e.1.as_slice(), e.2.as_slice(), e.3.as_slice());
            let attention = match state {
                CiState::Failing => true,
                CiState::Running => true,
                _ => false,
            };
            if attention {
                let ghost old_needs = needs@;
                needs.push(line);
                proof {
                    assert(string_views(needs@) =~= string_views(old_needs).push(line@));
                }
            } else {
                let ghost old_good = good@;
                good.push(line);
                proof {
                    assert(string_views(good@) =~= string_views(old_good).push(line@));
                }
            }
            if e.0.draft {
                drafts = drafts + 1;
            }
            j = j + 1;
        }
        proof {
            assert(mapped.take(prs@.len() as int) =~= mapped);
        }
        i = i + 1;
    }
    proof {
        assert(prs_by_repo@.take(i as int) =~= prs_by_repo@);
    }
    PrStatusReport { needs_attention: needs, looking_good: good, draft_count: drafts }
}

/// Every pull request of the summary is listed exactly once: either as needing
/// attention or as looking good.
pub proof fn lemma_summary_lists_every_pr(f: Seq<(Seq<char>, PrWithChecks)>)
    ensures
        summary_lines(f, true).len() + summary_lines(f, false).len() == f.len(),
    decreases f.len(),
{
    if f.len() > 0 {
        lemma_summary_lists_every_pr(f.drop_last());
    }
}

proof fn lemma_flatten_len(groups: Seq<(String, Vec<PrWithChecks>)>)
    ensures
        flatten_groups(groups).len() == total_prs_of(groups),
    decreases groups.len(),
{
    if groups.len() > 0 {
        lemma_flatten_len(groups.drop_last());
    }
}

proof fn lemma_flatten_prefix_len(groups: Seq<(String, Vec<PrWithChecks>)>, i: int)
    requires
        0 <= i <= groups.len(),
    ensures
        flatten_groups(groups.take(i)).len() <= flatten_groups(groups).len(),
    decreases groups.len(),
{
    if i < groups.len() {
        assert(groups.drop_last().take(i) =~= groups.take(i));
        lemma_flatten_prefix_len(groups.drop_last(), i);
    } else {
        assert(groups.take(i) =~= groups);
    }
}

} // verus!
