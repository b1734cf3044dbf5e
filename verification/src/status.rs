//! The CI status of a pull request as the monitor and the status check report it,
//! and how those reports group pull requests.
use vstd::prelude::*;
use vstd::string::*;
use vstd::hash_map::StringHashMap;
use crate::github::PullRequest;
use crate::local::{holds_char, is_owner_slash_repo, has_single_slash};
use crate::text::{chars_of, decimal, decimal_string, str_eq, take_chars};

verus! {

// ---------------------------------------------------------------------------
// The records the status is computed from
// ---------------------------------------------------------------------------

/// The fields of a workflow run or check run that the status depends on, each
/// `None` where the API gave no string for it.
#[derive(Debug, Clone)]
pub struct CiRecord {
    pub name: Option<String>,
    pub status: Option<String>,
    pub conclusion: Option<String>,
}

/// The state of a commit status, `None` where the API gave no string for it.
#[derive(Debug, Clone)]
pub struct StatusRecord {
    pub state: Option<String>,
}

/// The CI status of a pull request.
#[derive(Debug, Clone, Copy, PartialEq, Eq, Structural)]
pub enum WorkflowStatus {
    BuildRunning,
    BuildFailing,
    SomeChecksFailing,
    BuildPassing,
    NoChecks,
}

/// The optional string is present and equals `what`.
pub open spec fn is_text(o: Option<String>, what: Seq<char>) -> bool {
    o matches Some(x) && x@ == what
}

/// The questions asked of run records.
#[derive(Debug, Clone, Copy, PartialEq, Eq, Structural)]
pub enum CiTest {
    /// A check run with a name other than "Build".
    Required,
    /// A required check run that is in progress, queued or requested.
    RequiredPending,
    /// A required check run that completed with a conclusion other than success or
    /// skipped.
    RequiredFailed,
    /// A workflow run, not named "Build", that is in progress or queued.
    WorkflowRunning,
    /// A workflow run, not named "Build", that completed with failure.
    WorkflowFailed,
    /// A check run that is in progress, queued or requested.
    CheckRunning,
    /// A check run that completed with failure.
    CheckFailed,
}

/// A check run with a name other than "Build".
pub open spec fn is_required(r: CiRecord) -> bool {
    r.name matches Some(n) && n@ != "Build"@
}

/// In progress, queued or requested.
pub open spec fn is_pending_status(o: Option<String>) -> bool {
    is_text(o, "in_progress"@) || is_text(o, "queued"@) || is_text(o, "requested"@)
}

/// Whether a run record passes a test.
pub open spec fn passes(t: CiTest, r: CiRecord) -> bool {
    match t {
        CiTest::Required => is_required(r),
        CiTest::RequiredPending => is_required(r) && is_pending_status(r.status),
        CiTest::RequiredFailed => is_required(r) && is_text(r.status, "completed"@) && (
        r.conclusion matches Some(c) && !(c@ == "skipped"@ || c@ == "success"@)),
        CiTest::WorkflowRunning => !is_text(r.name, "Build"@) && (is_text(r.status, "in_progress"@)
            || is_text(r.status, "queued"@)),
        CiTest::WorkflowFailed => !is_text(r.name, "Build"@) && is_text(r.status, "completed"@)
            && is_text(r.conclusion, "failure"@),
        CiTest::CheckRunning => is_pending_status(r.status),
        CiTest::CheckFailed => is_text(r.status, "completed"@) && is_text(r.conclusion, "failure"@),
    }
}

/// Some record passes the test.
pub open spec fn some_passes(rs: Seq<CiRecord>, t: CiTest) -> bool {
    exists|i: int| 0 <= i < rs.len() && passes(t, #[trigger] rs[i])
}

/// Some commit status has the given state.
pub open spec fn some_state(ss: Seq<StatusRecord>, what: Seq<char>) -> bool {
    exists|i: int| 0 <= i < ss.len() && is_text(#[trigger] ss[i].state, what)
}

/// The CI status of a pull request. Check runs named other than "Build" decide
/// where there are any: pending ones mean running, failed ones failing, else
/// passing. Otherwise anything running means running; then a failed workflow run
/// means failing and a failed check run or commit status means some checks fail;
/// then any workflow run or check run means passing; then a pending commit status
/// means running; and without any of these there are no checks.
pub open spec fn workflow_status_of(
    w: Seq<CiRecord>,
    c: Seq<CiRecord>,
    s: Seq<StatusRecord>,
) -> WorkflowStatus {
    if some_passes(c, CiTest::Required) {
        if some_passes(c, CiTest::RequiredPending) {
            WorkflowStatus::BuildRunning
        } else if some_passes(c, CiTest::RequiredFailed) {
            WorkflowStatus::BuildFailing
        } else {
            WorkflowStatus::BuildPassing
        }
    } else if some_passes(w, CiTest::WorkflowRunning) || some_passes(c, CiTest::CheckRunning) {
        WorkflowStatus::BuildRunning
    } else if some_passes(w, CiTest::WorkflowFailed) {
        WorkflowStatus::BuildFailing
    } else if some_passes(c, CiTest::CheckFailed) || some_state(s, "failure"@) || some_state(
        s,
        "error"@,
    ) {
        WorkflowStatus::SomeChecksFailing
    } else if w.len() > 0 || c.len() > 0 {
        WorkflowStatus::BuildPassing
    } else if some_state(s, "pending"@) {
        WorkflowStatus::BuildRunning
    } else {
        WorkflowStatus::NoChecks
    }
}

fn text_is(o: &Option<String>, what: &str) -> (r: bool)
    ensures
        r == is_text(*o, what@),
{
    match o {
        Some(x) => str_eq(x.as_str(), what),
        None => false,
    }
}

fn pending_status(o: &Option<String>) -> (r: bool)
    ensures
        r == is_pending_status(*o),
{
    text_is(o, "in_progress") || text_is(o, "queued") || text_is(o, "requested")
}

fn required(r: &CiRecord) -> (b: bool)
    ensures
        b == is_required(*r),
{
    match &r.name {
        Some(n) => !str_eq(n.as_str(), "Build"),
        None => false,
    }
}

/// Whether a run record passes a test.
pub fn check_passes(t: CiTest, r: &CiRecord) -> (b: bool)
    ensures
        b == passes(t, *r),
{
    match t {
        CiTest::Required => required(r),
        CiTest::RequiredPending => required(r) && pending_status(&r.status),
        CiTest::RequiredFailed => {
            required(r) && text_is(&r.status, "completed") && match &r.conclusion {
                Some(c) => !(str_eq(c.as_str(), "skipped") || str_eq(c.as_str(), "success")),
                None => false,
            }
        },
        CiTest::WorkflowRunning => !text_is(&r.name, "Build") && (text_is(&r.status, "in_progress")
            || text_is(&r.status, "queued")),
        CiTest::WorkflowFailed => !text_is(&r.name, "Build") && text_is(&r.status, "completed")
            && text_is(&r.conclusion, "failure"),
        CiTest::CheckRunning => pending_status(&r.status),
        CiTest::CheckFailed => text_is(&r.status, "completed") && text_is(&r.conclusion, "failure"),
    }
}

/// Whether some record passes the test.
fn any_passes(rs: &[CiRecord], t: CiTest) -> (b: bool)
    ensures
        b == some_passes(rs@, t),
{
    let mut i: usize = 0;
    while i < rs.len()
        invariant
            i <= rs@.len(),
            forall|j: int| 0 <= j < i ==> !passes(t, #[trigger] rs@[j]),
        decreases rs.len() - i,
    {
        if check_passes(t, &rs[i]) {
            return true;
        }
        i = i + 1;
    }
    false
}

/// Whether some commit status has the given state.
fn any_state(ss: &[StatusRecord], what: &str) -> (b: bool)
    ensures
        b == some_state(ss@, what@),
{
    let mut i: usize = 0;
    while i < ss.len()
        invariant
            i <= ss@.len(),
            forall|j: int| 0 <= j < i ==> !is_text(#[trigger] ss@[j].state, what@),
        decreases ss.len() - i,
    {
        if text_is(&ss[i].state, what) {
            return true;
        }
        i = i + 1;
    }
    false
}

/// The CI status of a pull request from the workflow runs of its head commit, its
/// check runs and its commit statuses (see `workflow_status_of`).
pub fn pr_workflow_status(
    workflow_runs: &[CiRecord],
    check_runs: &[CiRecord],
    statuses: &[StatusRecord],
) -> (r: WorkflowStatus)
    ensures
        r == workflow_status_of(workflow_runs@, check_runs@, statuses@),
{
    if any_passes(check_runs, CiTest::Required) {
        if any_passes(check_runs, CiTest::RequiredPending) {
            return WorkflowStatus::BuildRunning;
        } else if any_passes(check_runs, CiTest::RequiredFailed) {
            return WorkflowStatus::BuildFailing;
        } else {
            return WorkflowStatus::BuildPassing;
        }
    }
    if any_passes(workflow_runs, CiTest::WorkflowRunning) || any_passes(
        check_runs,
        CiTest::CheckRunning,
    ) {
        WorkflowStatus::BuildRunning
    } else if any_passes(workflow_runs, CiTest::WorkflowFailed) {
        WorkflowStatus::BuildFailing
    } else if any_passes(check_runs, CiTest::CheckFailed) || any_state(statuses, "failure")
        || any_state(statuses, "error") {
        WorkflowStatus::SomeChecksFailing
    } else if workflow_runs.len() > 0 || check_runs.len() > 0 {
        WorkflowStatus::BuildPassing
    } else if any_state(statuses, "pending") {
        WorkflowStatus::BuildRunning
    } else {
        WorkflowStatus::NoChecks
    }
}

/// A check run named other than "Build" that is in progress, queued or requested
/// makes the build running, whatever else the pull request has.
pub proof fn lemma_pending_named_check_runs_build(
    w: Seq<CiRecord>,
    c: Seq<CiRecord>,
    s: Seq<StatusRecord>,
    i: int,
)
    requires
        0 <= i < c.len(),
        c[i].name matches Some(n) && n@ != "Build"@,
        c[i].status matches Some(x) && (x@ == "in_progress"@ || x@ == "queued"@ || x@
            == "requested"@),
    ensures
        workflow_status_of(w, c, s) == WorkflowStatus::BuildRunning,
{
    assert(passes(CiTest::Required, c[i]));
    assert(passes(CiTest::RequiredPending, c[i]));
}

/// Where no check run named other than "Build" is in progress, queued or requested,
/// one such check run that completed with a conclusion other than success or
/// skipped makes the build failing, whatever else the pull request has.
pub proof fn lemma_failed_named_check_fails_build(
    w: Seq<CiRecord>,
    c: Seq<CiRecord>,
    s: Seq<StatusRecord>,
    i: int,
)
    requires
        0 <= i < c.len(),
        c[i].name matches Some(n) && n@ != "Build"@,
        c[i].status matches Some(x) && x@ == "completed"@,
        c[i].conclusion matches Some(x) && x@ != "success"@ && x@ != "skipped"@,
        forall|j: int|
            0 <= j < c.len() && (#[trigger] c[j].name matches Some(n) && n@ != "Build"@) ==> !(
            c[j].status matches Some(x) && (x@ == "in_progress"@ || x@ == "queued"@ || x@
                == "requested"@)),
    ensures
        workflow_status_of(w, c, s) == WorkflowStatus::BuildFailing,
{
    assert(passes(CiTest::Required, c[i]));
    assert(passes(CiTest::RequiredFailed, c[i]));
    if some_passes(c, CiTest::RequiredPending) {
        let j = choose|j: int| 0 <= j < c.len() && passes(CiTest::RequiredPending, #[trigger] c[j]);
        assert(c[j].name matches Some(n) && n@ != "Build"@);
    }
}

/// Where there are check runs named other than "Build", and none of them is in
/// progress, queued or requested or completed with a conclusion other than success
/// or skipped, the build passes, whatever the workflow runs and commit statuses say.
pub proof fn lemma_good_named_checks_pass_build(
    w: Seq<CiRecord>,
    c: Seq<CiRecord>,
    s: Seq<StatusRecord>,
    i: int,
)
    requires
        0 <= i < c.len(),
        c[i].name matches Some(n) && n@ != "Build"@,
        forall|j: int|
            0 <= j < c.len() && (#[trigger] c[j].name matches Some(n) && n@ != "Build"@) ==> !(
            c[j].status matches Some(x) && (x@ == "in_progress"@ || x@ == "queued"@ || x@
                == "requested"@)) && !((c[j].status matches Some(x) && x@ == "completed"@)
                && (c[j].conclusion matches Some(y) && y@ != "success"@ && y@ != "skipped"@)),
    ensures
        workflow_status_of(w, c, s) == WorkflowStatus::BuildPassing,
{
    assert(passes(CiTest::Required, c[i]));
    if some_passes(c, CiTest::RequiredPending) {
        let j = choose|j: int| 0 <= j < c.len() && passes(CiTest::RequiredPending, #[trigger] c[j]);
        assert(c[j].name matches Some(n) && n@ != "Build"@);
    }
    if some_passes(c, CiTest::RequiredFailed) {
        let j = choose|j: int| 0 <= j < c.len() && passes(CiTest::RequiredFailed, #[trigger] c[j]);
        assert(c[j].name matches Some(n) && n@ != "Build"@);
    }
}

/// Where every check run is unnamed or named "Build", a workflow run named other than
/// "Build" that is in progress or queued makes the build running.
pub proof fn lemma_active_workflow_runs_build(
    w: Seq<CiRecord>,
    c: Seq<CiRecord>,
    s: Seq<StatusRecord>,
    i: int,
)
    requires
        forall|j: int| 0 <= j < c.len() ==> !(#[trigger] c[j].name matches Some(n) && n@ != "Build"@),
        0 <= i < w.len(),
        !(w[i].name matches Some(n) && n@ == "Build"@),
        w[i].status matches Some(x) && (x@ == "in_progress"@ || x@ == "queued"@),
    ensures
        workflow_status_of(w, c, s) == WorkflowStatus::BuildRunning,
{
    if some_passes(c, CiTest::Required) {
        let j = choose|j: int| 0 <= j < c.len() && passes(CiTest::Required, #[trigger] c[j]);
        assert(!(c[j].name matches Some(n) && n@ != "Build"@));
    }
    assert(passes(CiTest::WorkflowRunning, w[i]));
}

/// A pull request without workflow runs and check runs has no checks when no commit
/// status is pending, failed or errored, and a running build when one is pending and
/// none failed or errored.
pub proof fn lemma_statuses_alone(s: Seq<StatusRecord>)
    requires
        forall|j: int| 0 <= j < s.len() ==> !(#[trigger] s[j].state matches Some(x) && (x@
            == "failure"@ || x@ == "error"@)),
    ensures
        (forall|j: int| 0 <= j < s.len() ==> !(#[trigger] s[j].state matches Some(x) && x@
            == "pending"@)) ==> workflow_status_of(seq![], seq![], s) == WorkflowStatus::NoChecks,
        (exists|j: int| 0 <= j < s.len() && (#[trigger] s[j].state matches Some(x) && x@
            == "pending"@)) ==> workflow_status_of(seq![], seq![], s)
            == WorkflowStatus::BuildRunning,
{
    let e = Seq::<CiRecord>::empty();
    assert(!some_passes(e, CiTest::Required));
    assert(!some_passes(e, CiTest::WorkflowRunning));
    assert(!some_passes(e, CiTest::CheckRunning));
    assert(!some_passes(e, CiTest::WorkflowFailed));
    assert(!some_passes(e, CiTest::CheckFailed));
    if some_state(s, "failure"@) {
        let j = choose|j: int| 0 <= j < s.len() && is_text(#[trigger] s[j].state, "failure"@);
        assert(s[j].state matches Some(x) && (x@ == "failure"@ || x@ == "error"@));
    }
    if some_state(s, "error"@) {
        let j = choose|j: int| 0 <= j < s.len() && is_text(#[trigger] s[j].state, "error"@);
        assert(s[j].state matches Some(x) && (x@ == "failure"@ || x@ == "error"@));
    }
    if some_state(s, "pending"@) {
        let j = choose|j: int| 0 <= j < s.len() && is_text(#[trigger] s[j].state, "pending"@);
        assert(s[j].state matches Some(x) && x@ == "pending"@);
    }
    if exists|j: int| 0 <= j < s.len() && (#[trigger] s[j].state matches Some(x) && x@ == "pending"@) {
        let j = choose|j: int| 0 <= j < s.len() && (#[trigger] s[j].state matches Some(x) && x@ == "pending"@);
        assert(is_text(s[j].state, "pending"@));
    }
}

// ---------------------------------------------------------------------------
// What a status means
// ---------------------------------------------------------------------------

/// The text of a status.
pub open spec fn status_text(s: WorkflowStatus) -> Seq<char> {
    match s {
        WorkflowStatus::BuildRunning => "Build running"@,
        WorkflowStatus::BuildFailing => "Build failing"@,
        WorkflowStatus::SomeChecksFailing => "Some checks failing"@,
        WorkflowStatus::BuildPassing => "Build passing"@,
        WorkflowStatus::NoChecks => "No checks"@,
    }
}

/// The group a pull request with a status belongs to.
#[derive(Debug, Clone, Copy, PartialEq, Eq, Structural)]
pub enum StatusGroup {
    Failing,
    Running,
    Passing,
    Review,
}

/// The group of a status: failing builds or checks, running builds, passing
/// builds, and the rest, which need a review.
pub open spec fn group_of(s: WorkflowStatus) -> StatusGroup {
    match s {
        WorkflowStatus::BuildFailing => StatusGroup::Failing,
        WorkflowStatus::SomeChecksFailing => StatusGroup::Failing,
        WorkflowStatus::BuildRunning => StatusGroup::Running,
        WorkflowStatus::BuildPassing => StatusGroup::Passing,
        WorkflowStatus::NoChecks => StatusGroup::Review,
    }
}

/// The monitor watches pull requests whose builds fail or run.
pub open spec fn attention_needed(s: WorkflowStatus) -> bool {
    group_of(s) == StatusGroup::Failing || group_of(s) == StatusGroup::Running
}

/// The marker of a failing status in the monitor's list.
pub open spec fn failing_marker_of(s: WorkflowStatus) -> Seq<char> {
    match s {
        WorkflowStatus::BuildFailing => "❌"@,
        WorkflowStatus::SomeChecksFailing => "⚠️"@,
        _ => "🔴"@,
    }
}

/// The marker of a status in the status check's list.
pub open spec fn check_marker_of(s: WorkflowStatus) -> Seq<char> {
    match s {
        WorkflowStatus::BuildFailing => "❌"@,
        WorkflowStatus::SomeChecksFailing => "⚠️"@,
        WorkflowStatus::BuildRunning => "🔄"@,
        WorkflowStatus::BuildPassing => "✅"@,
        WorkflowStatus::NoChecks => "❓"@,
    }
}

impl WorkflowStatus {
    /// The text of the status, as the reports and the JSON summary show it.
    pub fn as_str(&self) -> (r: &'static str)
        ensures
            r@ == status_text(*self),
    {
        match self {
            WorkflowStatus::BuildRunning => "Build running",
            WorkflowStatus::BuildFailing => "Build failing",
            WorkflowStatus::SomeChecksFailing => "Some checks failing",
            WorkflowStatus::BuildPassing => "Build passing",
            WorkflowStatus::NoChecks => "No checks",
        }
    }

    /// The group of the status.
    pub fn group(&self) -> (r: StatusGroup)
        ensures
            r == group_of(*self),
    {
        match self {
            WorkflowStatus::BuildFailing => StatusGroup::Failing,
            WorkflowStatus::SomeChecksFailing => StatusGroup::Failing,
            WorkflowStatus::BuildRunning => StatusGroup::Running,
            WorkflowStatus::BuildPassing => StatusGroup::Passing,
            WorkflowStatus::NoChecks => StatusGroup::Review,
        }
    }

    /// Whether the monitor watches a pull request with this status.
    pub fn needs_attention(&self) -> (r: bool)
        ensures
            r == attention_needed(*self),
    {
        match self.group() {
            StatusGroup::Failing => true,
            StatusGroup::Running => true,
            _ => false,
        }
    }

    /// Whether any CI data was found.
    pub fn has_ci_data(&self) -> (r: bool)
        ensures
            r == (*self != WorkflowStatus::NoChecks),
    {
        match self {
            WorkflowStatus::NoChecks => false,
            _ => true,
        }
    }

    /// The marker of a failing status in the monitor's list.
    pub fn failing_marker(&self) -> (r: &'static str)
        ensures
            r@ == failing_marker_of(*self),
    {
        match self {
            WorkflowStatus::BuildFailing => "❌",
            WorkflowStatus::SomeChecksFailing => "⚠️",
            _ => "🔴",
        }
    }

    /// The marker of the status in the status check's list.
    pub fn check_marker(&self) -> (r: &'static str)
        ensures
            r@ == check_marker_of(*self),
    {
        match self {
            WorkflowStatus::BuildFailing => "❌",
            WorkflowStatus::SomeChecksFailing => "⚠️",
            WorkflowStatus::BuildRunning => "🔄",
            WorkflowStatus::BuildPassing => "✅",
            WorkflowStatus::NoChecks => "❓",
        }
    }
}

/// A check run that the monitor lists as running: in progress, queued or requested.
pub fn is_running_check_status(status: &str) -> (r: bool)
    ensures
        r == (status@ == "in_progress"@ || status@ == "queued"@ || status@ == "requested"@),
{
    str_eq(status, "in_progress") || str_eq(status, "queued") || str_eq(status, "requested")
}

// ---------------------------------------------------------------------------
// Grouping pull requests by status
// ---------------------------------------------------------------------------

/// The positions, in order, of the statuses in the group.
pub open spec fn positions_in_group(s: Seq<WorkflowStatus>, g: StatusGroup) -> Seq<usize>
    decreases s.len(),
{
    if s.len() == 0 {
        seq![]
    } else {
        let rest = positions_in_group(s.drop_last(), g);
        if group_of(s.last()) == g {
            rest.push((s.len() - 1) as usize)
        } else {
            rest
        }
    }
}

/// The positions, in order, of the statuses in the group.
pub fn positions_of_group(statuses: &[WorkflowStatus], g: StatusGroup) -> (r: Vec<usize>)
    ensures
        r@ == positions_in_group(statuses@, g),
{
    let mut r: Vec<usize> = Vec::new();
    let mut i: usize = 0;
    while i < statuses.len()
        invariant
            i <= statuses@.len(),
            r@ == positions_in_group(statuses@.take(i as int), g),
        decreases statuses.len() - i,
    {
        proof {
            assert(statuses@.take(i as int + 1).drop_last() =~= statuses@.take(i as int));
        }
        if statuses[i].group() == g {
            r.push(i);
        }
        i = i + 1;
    }
    assert(statuses@.take(i as int) =~= statuses@);
    r
}

/// The overall status of the status check's JSON summary.
#[derive(Debug, Clone, Copy, PartialEq, Eq, Structural)]
pub enum OverallStatus {
    Failing,
    Running,
    NeedsReview,
    Passing,
    NoPrs,
}

/// Some status is in the group.
pub open spec fn some_in_group(s: Seq<WorkflowStatus>, g: StatusGroup) -> bool {
    exists|i: int| 0 <= i < s.len() && group_of(#[trigger] s[i]) == g
}

/// The overall status: failing if any pull request fails, else running if any runs,
/// else needing review if any has no checks, else passing if any passes, else no
/// pull requests.
pub open spec fn overall_of(s: Seq<WorkflowStatus>) -> OverallStatus {
    if some_in_group(s, StatusGroup::Failing) {
        OverallStatus::Failing
    } else if some_in_group(s, StatusGroup::Running) {
        OverallStatus::Running
    } else if some_in_group(s, StatusGroup::Review) {
        OverallStatus::NeedsReview
    } else if some_in_group(s, StatusGroup::Passing) {
        OverallStatus::Passing
    } else {
        OverallStatus::NoPrs
    }
}

/// The text of an overall status in the JSON summary.
pub open spec fn overall_text(o: OverallStatus) -> Seq<char> {
    match o {
        OverallStatus::Failing => "failing"@,
        OverallStatus::Running => "running"@,
        OverallStatus::NeedsReview => "needs_review"@,
        OverallStatus::Passing => "passing"@,
        OverallStatus::NoPrs => "no_prs"@,
    }
}

impl OverallStatus {
    /// The text of the overall status in the JSON summary.
    pub fn as_str(&self) -> (r: &'static str)
        ensures
            r@ == overall_text(*self),
    {
        match self {
            OverallStatus::Failing => "failing",
            OverallStatus::Running => "running",
            OverallStatus::NeedsReview => "needs_review",
            OverallStatus::Passing => "passing",
            OverallStatus::NoPrs => "no_prs",
        }
    }
}

proof fn lemma_positions_nonempty(s: Seq<WorkflowStatus>, g: StatusGroup)
    ensures
        (positions_in_group(s, g).len() > 0) == some_in_group(s, g),
    decreases s.len(),
{
    if s.len() > 0 {
        lemma_positions_nonempty(s.drop_last(), g);
        if some_in_group(s.drop_last(), g) {
            let i = choose|i: int| 0 <= i < s.drop_last().len() && group_of(#[trigger] s.drop_last()[i]) == g;
            assert(s[i] == s.drop_last()[i]);
        }
        if some_in_group(s, g) {
            let i = choose|i: int| 0 <= i < s.len() && group_of(#[trigger] s[i]) == g;
            if i < s.len() - 1 {
                assert(s.drop_last()[i] == s[i]);
            }
        }
    }
}

/// The pull requests of the status check's JSON summary, by group, as positions.
pub struct StatusGroups {
    pub failing: Vec<usize>,
    pub running: Vec<usize>,
    pub passing: Vec<usize>,
    pub review: Vec<usize>,
    pub overall: OverallStatus,
}

/// Groups the statuses of the pull requests for the JSON summary.
pub fn group_statuses(statuses: &[WorkflowStatus]) -> (r: StatusGroups)
    ensures
        r.failing@ == positions_in_group(statuses@, StatusGroup::Failing),
        r.running@ == positions_in_group(statuses@, StatusGroup::Running),
        r.passing@ == positions_in_group(statuses@, StatusGroup::Passing),
        r.review@ == positions_in_group(statuses@, StatusGroup::Review),
        r.overall == overall_of(statuses@),
{
    let failing = positions_of_group(statuses, StatusGroup::Failing);
    let running = positions_of_group(statuses, StatusGroup::Running);
    let passing = positions_of_group(statuses, StatusGroup::Passing);
    let review = positions_of_group(statuses, StatusGroup::Review);
    proof {
        lemma_positions_nonempty(statuses@, StatusGroup::Failing);
        lemma_positions_nonempty(statuses@, StatusGroup::Running);
        lemma_positions_nonempty(statuses@, StatusGroup::Passing);
        lemma_positions_nonempty(statuses@, StatusGroup::Review);
    }
    let overall = if failing.len() > 0 {
        OverallStatus::Failing
    } else if running.len() > 0 {
        OverallStatus::Running
    } else if review.len() > 0 {
        OverallStatus::NeedsReview
    } else if passing.len() > 0 {
        OverallStatus::Passing
    } else {
        OverallStatus::NoPrs
    };
    StatusGroups { failing, running, passing, review, overall }
}

/// The overall status is "no_prs" exactly when there are no pull requests, and
/// "failing" exactly when some pull request fails.
pub proof fn lemma_overall_status_meaning(s: Seq<WorkflowStatus>)
    ensures
        (overall_of(s) == OverallStatus::NoPrs) == (s.len() == 0),
        (overall_of(s) == OverallStatus::Failing) == some_in_group(s, StatusGroup::Failing),
{
    if s.len() > 0 {
        let g = group_of(s[0]);
        assert(some_in_group(s, g));
    }
}

// ---------------------------------------------------------------------------
// Pull requests of one author
// ---------------------------------------------------------------------------

/// The pull requests opened by the given login, in their order.
pub fn prs_by_author(prs: Vec<PullRequest>, login: &str) -> (r: Vec<PullRequest>)
    ensures
        r@ == prs@.filter(|p: PullRequest| p.user.login@ == login@),
{
    let ghost orig = prs@;
    let mut rest = prs;
    let mut kept: Vec<PullRequest> = Vec::new();
    let ghost mut i: int = 0;
    assert(orig.take(0).filter(|p: PullRequest| p.user.login@ == login@) =~= Seq::<PullRequest>::empty());
    while rest.len() > 0
        invariant
            0 <= i <= orig.len(),
            rest@ == orig.skip(i),
            kept@ == orig.take(i).filter(|p: PullRequest| p.user.login@ == login@),
        decreases rest.len(),
    {
        let pr = rest.remove(0);
        proof {
            assert(orig.take(i + 1).drop_last() =~= orig.take(i));
            assert(orig.take(i + 1).last() == pr);
            reveal_with_fuel(Seq::filter, 1);
        }
        if str_eq(pr.user.login.as_str(), login) {
            kept.push(pr);
        }
        proof {
            i = i + 1;
            assert(rest@ =~= orig.skip(i));
        }
    }
    assert(orig.take(i) =~= orig);
    kept
}

// ---------------------------------------------------------------------------
// The monitor's memory of statuses
// ---------------------------------------------------------------------------

/// The key of a pull request in the monitor: "owner/repo#number".
pub open spec fn pr_key_of(owner: Seq<char>, repo: Seq<char>, number: u64) -> Seq<char> {
    owner + seq!['/'] + repo + seq!['#'] + decimal(number as nat)
}

/// The key of a pull request in the monitor: "owner/repo#number".
pub fn pr_key(owner: &str, repo: &str, number: u64) -> (r: String)
    ensures
        r@ == pr_key_of(owner@, repo@, number),
{
    proof {
        reveal_strlit("/");
        reveal_strlit("#");
    }
    let mut r = String::from_str(owner);
    r.append("/");
    r.append(repo);
    r.append("#");
    let n = decimal_string(number);
    r.append(n.as_str());
    assert(r@ =~= pr_key_of(owner@, repo@, number));
    r
}

/// The part of `s` before its first `#`, or all of it.
pub open spec fn before_hash(s: Seq<char>) -> Seq<char> {
    if holds_char(s, '#') {
        s.take(first_index_of(s, '#'))
    } else {
        s
    }
}

/// The position of the first `c` in `s`.
pub open spec fn first_index_of(s: Seq<char>, c: char) -> int {
    choose|i: int| 0 <= i < s.len() && s[i] == c && forall|j: int| 0 <= j < i ==> s[j] != c
}

/// The owner and repository of a monitor key: the part before the first `#` read as
/// `owner/repo`; `None` where that part is not `owner/repo`.
pub fn split_pr_key(key: &str) -> (r: Option<(String, String)>)
    ensures
        r is Some <==> has_single_slash(before_hash(key@)),
        r matches Some((o, n)) ==> is_owner_slash_repo(before_hash(key@), o@, n@),
{
    let cs = chars_of(key);
    let mut i: usize = 0;
    while i < cs.len()
        invariant
            cs@ == key@,
            i <= cs@.len(),
            forall|j: int| 0 <= j < i ==> cs@[j] != '#',
        ensures
            i <= cs@.len(),
            forall|j: int| 0 <= j < i ==> cs@[j] != '#',
            i < cs@.len() ==> cs@[i as int] == '#',
        decreases cs.len() - i,
    {
        if cs[i] == '#' {
            break;
        }
        i = i + 1;
    }
    proof {
        if i < cs@.len() {
            assert(key@[i as int] == '#');
            assert(holds_char(key@, '#'));
            let f = first_index_of(key@, '#');
            assert(0 <= f < key@.len() && key@[f] == '#' && forall|j: int| 0 <= j < f ==> key@[j] != '#');
            if f < i {
                assert(cs@[f] != '#');
            }
            if i < f {
                assert(key@[i as int] != '#');
            }
            assert(f == i);
        } else {
            assert(!holds_char(key@, '#'));
            assert(key@.take(i as int) =~= key@);
        }
    }
    let head = take_chars(key, i);
    let parts = crate::local::parse_repo(head.as_str());
    match parts {
        Ok(p) => Some(p),
        Err(_) => None,
    }
}

/// What the monitor remembers of each pull request: the last status it saw, by key.
pub struct MonitorMemory {
    seen: StringHashMap<WorkflowStatus>,
}

impl MonitorMemory {
    /// The last status seen of each key.
    pub closed spec fn statuses(&self) -> Map<Seq<char>, WorkflowStatus> {
        self.seen@
    }

    /// A memory that has seen nothing.
    pub fn new() -> (r: Self)
        ensures
            r.statuses() == Map::<Seq<char>, WorkflowStatus>::empty(),
    {
        MonitorMemory { seen: StringHashMap::new() }
    }

    /// Records the status just seen of a key and tells the status it changed from:
    /// the earlier status where there was one and it differs, else `None`.
    pub fn record(&mut self, key: String, status: WorkflowStatus) -> (r: Option<WorkflowStatus>)
        ensures
            final(self).statuses() == old(self).statuses().insert(key@, status),
            r == status_change(old(self).statuses(), key@, status),
    {
        let previous: Option<WorkflowStatus> = match self.seen.get(key.as_str()) {
            Some(p) => Some(*p),
            None => None,
        };
        self.seen.insert(key, status);
        match previous {
            Some(p) => if p != status {
                Some(p)
            } else {
                None
            },
            None => None,
        }
    }
}

/// The status a key changed from when `status` is seen: its earlier status, where it
/// had one and that differs.
pub open spec fn status_change(
    seen: Map<Seq<char>, WorkflowStatus>,
    key: Seq<char>,
    status: WorkflowStatus,
) -> Option<WorkflowStatus> {
    if seen.contains_key(key) && seen[key] != status {
        Some(seen[key])
    } else {
        None
    }
}

/// Seeing the same status of a pull request twice in a row reports no change the
/// second time, and the memory then holds that status.
pub proof fn lemma_repeat_reports_no_change(
    seen: Map<Seq<char>, WorkflowStatus>,
    key: Seq<char>,
    status: WorkflowStatus,
)
    ensures
        status_change(seen.insert(key, status), key, status) is None,
        seen.insert(key, status).insert(key, status) == seen.insert(key, status),
        seen.insert(key, status)[key] == status,
{
    assert(seen.insert(key, status).insert(key, status) =~= seen.insert(key, status));
}

/// What a memory that has seen nothing holds after the reports, each a key and the
/// status seen of it, are recorded in order.
pub open spec fn statuses_after(reports: Seq<(Seq<char>, WorkflowStatus)>) -> Map<
    Seq<char>,
    WorkflowStatus,
>
    decreases reports.len(),
{
    if reports.len() == 0 {
        Map::empty()
    } else {
        statuses_after(reports.drop_last()).insert(reports.last().0, reports.last().1)
    }
}

/// `i` is the last of the reports that is of `key`.
pub open spec fn is_last_report_of(
    reports: Seq<(Seq<char>, WorkflowStatus)>,
    key: Seq<char>,
    i: int,
) -> bool {
    &&& 0 <= i < reports.len()
    &&& reports[i].0 == key
    &&& forall|m: int| i < m < reports.len() ==> #[trigger] reports[m].0 != key
}

/// After a run of reports the memory knows exactly the keys reported, each with the
/// status of its last report.
proof fn lemma_statuses_after(reports: Seq<(Seq<char>, WorkflowStatus)>, key: Seq<char>)
    ensures
        statuses_after(reports).contains_key(key) <==> exists|i: int|
            0 <= i < reports.len() && #[trigger] reports[i].0 == key,
        forall|i: int|
            #[trigger] is_last_report_of(reports, key, i) ==> statuses_after(reports)[key]
                == reports[i].1,
    decreases reports.len(),
{
    if reports.len() > 0 {
        let p = reports.drop_last();
        let n = reports.len() - 1;
        lemma_statuses_after(p, key);
        if key == reports.last().0 {
            assert(reports[n].0 == key);
            assert forall|i: int| #[trigger] is_last_report_of(reports, key, i) implies statuses_after(
                reports,
            )[key] == reports[i].1 by {
                if i < n {
                    assert(reports[n].0 != key);
                }
            }
        } else {
            if statuses_after(reports).contains_key(key) {
                let i = choose|i: int| 0 <= i < p.len() && #[trigger] p[i].0 == key;
                assert(reports[i].0 == key);
            }
            if exists|i: int| 0 <= i < reports.len() && #[trigger] reports[i].0 == key {
                let i = choose|i: int| 0 <= i < reports.len() && #[trigger] reports[i].0 == key;
                assert(i < n);
                assert(p[i].0 == key);
            }
            assert forall|i: int| #[trigger] is_last_report_of(reports, key, i) implies statuses_after(
                reports,
            )[key] == reports[i].1 by {
                assert(i < n);
                assert forall|m: int| i < m < p.len() implies #[trigger] p[m].0 != key by {
                    assert(reports[m].0 != key);
                }
                assert(is_last_report_of(p, key, i));
            }
        }
    }
}

/// Over any run of checks, the monitor announces a change of a pull request's status
/// exactly when the status now seen differs from the one seen at the last earlier
/// check of that pull request, and announces nothing at the first check that sees it.
pub proof fn lemma_change_announced_iff_status_differs(
    reports: Seq<(Seq<char>, WorkflowStatus)>,
    j: int,
)
    requires
        0 <= j < reports.len(),
    ensures
        (forall|i: int| 0 <= i < j ==> #[trigger] reports[i].0 != reports[j].0) ==> status_change(
            statuses_after(reports.take(j)),
            reports[j].0,
            reports[j].1,
        ) is None,
        forall|i: int|
            #[trigger] is_last_report_of(reports.take(j), reports[j].0, i) ==> status_change(
                statuses_after(reports.take(j)),
                reports[j].0,
                reports[j].1,
            ) == if reports[i].1 != reports[j].1 {
                Some(reports[i].1)
            } else {
                None
            },
{
    let p = reports.take(j);
    let key = reports[j].0;
    lemma_statuses_after(p, key);
    if forall|i: int| 0 <= i < j ==> #[trigger] reports[i].0 != reports[j].0 {
        if statuses_after(p).contains_key(key) {
            let i = choose|i: int| 0 <= i < p.len() && #[trigger] p[i].0 == key;
            assert(reports[i].0 == key);
        }
    }
    assert forall|i: int| #[trigger] is_last_report_of(p, key, i) implies statuses_after(p).contains_key(key)
        && statuses_after(p)[key] == reports[i].1 by {
        assert(p[i].0 == key);
        assert(p[i] == reports[i]);
    }
}

/// A monitor key splits back into the owner and repository it was made from, where
/// neither holds a `/` or a `#`.
pub proof fn lemma_pr_key_round_trip(owner: Seq<char>, repo: Seq<char>, number: u64)
    requires
        !holds_char(owner, '/'),
        !holds_char(owner, '#'),
        !holds_char(repo, '/'),
        !holds_char(repo, '#'),
    ensures
        before_hash(pr_key_of(owner, repo, number)) == owner + seq!['/'] + repo,
        has_single_slash(before_hash(pr_key_of(owner, repo, number))),
{
    let k = pr_key_of(owner, repo, number);
    let h = owner + seq!['/'] + repo;
    let at = h.len() as int;
    assert(k[at] == '#');
    assert forall|j: int| 0 <= j < at implies k[j] != '#' by {
        assert(k[j] == h[j]);
        if j < owner.len() {
            assert(h[j] == owner[j]);
        } else if j > owner.len() {
            assert(h[j] == repo[j - owner.len() - 1]);
        }
    }
    assert(holds_char(k, '#'));
    let f = first_index_of(k, '#');
    if f < at {
        assert(k[f] != '#');
    }
    if f > at {
        assert(k[at] != '#');
    }
    assert(f == at);
    assert(k.take(at) =~= h);
    let s = owner.len() as int;
    assert(h[s] == '/');
    assert forall|j: int| 0 <= j < h.len() && j != s implies h[j] != '/' by {
        if j < s {
            assert(h[j] == owner[j]);
        } else {
            assert(h[j] == repo[j - s - 1]);
        }
    }
}


/// What the monitor says after a round in which no pull request needed attention:
/// that the monitored ones look good, or that there was none to monitor.
pub open spec fn all_clear_message_of(monitored: nat) -> Seq<char> {
    if monitored > 0 {
        "✅ All "@ + decimal(monitored) + " monitored PRs are looking good!"@
    } else {
        "📭 No open PRs found to monitor."@
    }
}

/// The monitor's message after a round in which no pull request needed attention,
/// given how many pull requests it looked at.
pub fn all_clear_message(monitored: usize) -> (r: String)
    ensures
        r@ == all_clear_message_of(monitored as nat),
{
    if monitored > 0 {
        let mut r = String::from_str("✅ All ");
        let n = decimal_string(monitored as u64);
        r.append(n.as_str());
        r.append(" monitored PRs are looking good!");
        r
    } else {
        String::from_str("📭 No open PRs found to monitor.")
    }
}

} // verus!
