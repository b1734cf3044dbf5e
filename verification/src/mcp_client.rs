//! The GitHub API requests the tool makes, and the selection of a pull request's
//! workflow runs from the runs of its repository.
use vstd::prelude::*;
use vstd::string::*;
use vstd::utf8::encode_utf8;
use crate::text::{chars_of, decimal, decimal_string};

verus! {

/// An error object of a JSON-RPC response.
#[derive(Debug, Clone)]
pub struct MCPError {
    pub code: i32,
    pub message: String,
}

// ---------------------------------------------------------------------------
// Percent-encoding of query text
// ---------------------------------------------------------------------------

/// The bytes that percent-encoding keeps as they are: ASCII letters and digits and
/// `-`, `.`, `_`, `~`.
pub open spec fn is_unreserved(b: u8) -> bool {
    (48 <= b <= 57) || (65 <= b <= 90) || (97 <= b <= 122) || b == 45 || b == 46 || b == 95
        || b == 126
}

/// The upper-case hexadecimal digit of a value below 16.
pub open spec fn hex_digit(d: u8) -> char {
    if d < 10 {
        (48 + d) as char
    } else {
        (55 + d) as char
    }
}

/// Percent-encoding of bytes: each unreserved byte stays, every other byte becomes
/// `%` and two upper-case hexadecimal digits.
pub open spec fn percent_encoded(bytes: Seq<u8>) -> Seq<char>
    decreases bytes.len(),
{
    if bytes.len() == 0 {
        seq![]
    } else {
        let b = bytes[0];
        let head = if is_unreserved(b) {
            seq![b as char]
        } else {
            seq!['%', hex_digit(b / 16), hex_digit(b % 16)]
        };
        head + percent_encoded(bytes.drop_first())
    }
}

/// Calls `urlencoding::encode`, which percent-encodes every byte of the UTF-8
/// encoding of `s` except ASCII letters, digits and `-`, `_`, `.`, `~`, writing the
/// hexadecimal digits in upper case (as its source shows).
#[verifier::external_body]
fn url_encode(s: &str) -> (r: String)
    ensures
        r@ == percent_encoded(encode_utf8(s@)),
{
    urlencoding::encode(s).into_owned()
}

// ---------------------------------------------------------------------------
// Request paths
// ---------------------------------------------------------------------------

/// "repos/<owner>/<repo>".
pub open spec fn repo_path(owner: Seq<char>, repo: Seq<char>) -> Seq<char> {
    "repos/"@ + owner + "/"@ + repo
}

fn repo_path_of(owner: &str, repo: &str) -> (r: String)
    ensures
        r@ == repo_path(owner@, repo@),
{
    let mut r = String::from_str("repos/");
    r.append(owner);
    r.append("/");
    r.append(repo);
    r
}

/// The URL of an API path under the base URL.
pub fn api_url(base_url: &str, endpoint: &str) -> (r: String)
    ensures
        r@ == base_url@ + "/"@ + endpoint@,
{
    let mut r = String::from_str(base_url);
    r.append("/");
    r.append(endpoint);
    r
}

/// The value of the `Authorization` header for a token.
pub fn bearer(token: &str) -> (r: String)
    ensures
        r@ == "Bearer "@ + token@,
{
    let mut r = String::from_str("Bearer ");
    r.append(token);
    r
}

/// The path listing a repository's pull requests in a state, most recently updated
/// first.
pub fn pull_requests_endpoint(owner: &str, repo: &str, state: &str, per_page: usize) -> (r:
    String)
    ensures
        r@ == repo_path(owner@, repo@) + "/pulls?state="@ + state@ + "&per_page="@ + decimal(
            per_page as nat,
        ) + "&sort=updated&direction=desc"@,
{
    let mut r = repo_path_of(owner, repo);
    r.append("/pulls?state=");
    r.append(state);
    r.append("&per_page=");
    let n = decimal_string(per_page as u64);
    r.append(n.as_str());
    r.append("&sort=updated&direction=desc");
    r
}

/// The path of one pull request.
pub fn pull_request_endpoint(owner: &str, repo: &str, pr_number: u64) -> (r: String)
    ensures
        r@ == repo_path(owner@, repo@) + "/pulls/"@ + decimal(pr_number as nat),
{
    let mut r = repo_path_of(owner, repo);
    r.append("/pulls/");
    let n = decimal_string(pr_number);
    r.append(n.as_str());
    r
}

/// The path of a pull request's reviews.
pub fn pr_reviews_endpoint(owner: &str, repo: &str, pr_number: u64) -> (r: String)
    ensures
        r@ == repo_path(owner@, repo@) + "/pulls/"@ + decimal(pr_number as nat) + "/reviews"@,
{
    let mut r = pull_request_endpoint(owner, repo, pr_number);
    r.append("/reviews");
    r
}

/// The path listing the user's repositories, most recently updated first.
pub fn user_repositories_endpoint(limit: usize) -> (r: String)
    ensures
        r@ == "user/repos?sort=updated&per_page="@ + decimal(limit as nat) + "&type=all"@,
{
    let mut r = String::from_str("user/repos?sort=updated&per_page=");
    let n = decimal_string(limit as u64);
    r.append(n.as_str());
    r.append("&type=all");
    r
}

/// The search query for the pull requests of an author in a state.
pub open spec fn pr_search_query(username: Seq<char>, state: Seq<char>) -> Seq<char> {
    "is:pr author:"@ + username + " state:"@ + state
}

/// The path searching the pull requests of an author in a state, most recently
/// updated first; the query is percent-encoded.
pub fn search_pull_requests_endpoint(username: &str, state: &str, limit: usize) -> (r: String)
    ensures
        r@ == "search/issues?q="@ + percent_encoded(
            encode_utf8(pr_search_query(username@, state@)),
        ) + "&sort=updated&per_page="@ + decimal(limit as nat),
{
    let mut query = String::from_str("is:pr author:");
    query.append(username);
    query.append(" state:");
    query.append(state);
    let encoded = url_encode(query.as_str());
    let mut r = String::from_str("search/issues?q=");
    r.append(encoded.as_str());
    r.append("&sort=updated&per_page=");
    let n = decimal_string(limit as u64);
    r.append(n.as_str());
    r
}

/// The path of a commit's path below its repository: "/commits/<sha>/<what>".
pub open spec fn commit_path(owner: Seq<char>, repo: Seq<char>, sha: Seq<char>, what: Seq<char>) -> Seq<char> {
    repo_path(owner, repo) + "/commits/"@ + sha + what
}

fn commit_endpoint(owner: &str, repo: &str, sha: &str, what: &str) -> (r: String)
    ensures
        r@ == commit_path(owner@, repo@, sha@, what@),
{
    let mut r = repo_path_of(owner, repo);
    r.append("/commits/");
    r.append(sha);
    r.append(what);
    r
}

/// The path of a commit's statuses.
pub fn status_checks_endpoint(owner: &str, repo: &str, sha: &str) -> (r: String)
    ensures
        r@ == commit_path(owner@, repo@, sha@, "/statuses"@),
{
    commit_endpoint(owner, repo, sha, "/statuses")
}

/// The path of a commit's combined status.
pub fn combined_status_endpoint(owner: &str, repo: &str, sha: &str) -> (r: String)
    ensures
        r@ == commit_path(owner@, repo@, sha@, "/status"@),
{
    commit_endpoint(owner, repo, sha, "/status")
}

/// The path of a commit's check runs.
pub fn check_runs_endpoint(owner: &str, repo: &str, sha: &str) -> (r: String)
    ensures
        r@ == commit_path(owner@, repo@, sha@, "/check-runs"@),
{
    commit_endpoint(owner, repo, sha, "/check-runs")
}

/// The path listing a repository's latest 50 workflow runs of pull request events.
pub fn pr_workflow_runs_endpoint(owner: &str, repo: &str) -> (r: String)
    ensures
        r@ == repo_path(owner@, repo@) + "/actions/runs?event=pull_request&per_page=50"@,
{
    let mut r = repo_path_of(owner, repo);
    r.append("/actions/runs?event=pull_request&per_page=50");
    r
}

/// The path listing the latest 20 workflow runs of a commit.
pub fn commit_workflow_runs_endpoint(owner: &str, repo: &str, sha: &str) -> (r: String)
    ensures
        r@ == repo_path(owner@, repo@) + "/actions/runs?head_sha="@ + sha@ + "&per_page=20"@,
{
    let mut r = repo_path_of(owner, repo);
    r.append("/actions/runs?head_sha=");
    r.append(sha);
    r.append("&per_page=20");
    r
}

// ---------------------------------------------------------------------------
// The workflow runs of one pull request
// ---------------------------------------------------------------------------

/// The fields of a workflow run that decide whether and where it is listed for a pull
/// request: when it was created, and the numbers of its pull requests (`None` where
/// the API gave no list, an inner `None` where an entry had no number).
#[derive(Debug, Clone)]
pub struct RunLinks {
    pub created_at: Option<String>,
    pub pull_requests: Option<Vec<Option<u64>>>,
}

/// The most runs listed for a pull request.
pub const MAX_PR_RUNS: usize = 20;

/// The run belongs to the pull request with the given number.
pub open spec fn links_pr(r: RunLinks, pr_number: u64) -> bool {
    r.pull_requests matches Some(v) && v@.contains(Some(pr_number))
}

/// The creation time a run is ordered by; an absent one orders as "".
pub open spec fn sort_key(r: RunLinks) -> Seq<char> {
    match r.created_at {
        Some(s) => s@,
        None => Seq::empty(),
    }
}

/// `a` and `b` agree on their first `k` characters.
pub open spec fn agree_upto(a: Seq<char>, b: Seq<char>, k: int) -> bool {
    forall|i: int| 0 <= i < k ==> a[i] == b[i]
}

/// `a` and `b` differ first at `k`, with `a` the smaller there.
pub open spec fn less_at(a: Seq<char>, b: Seq<char>, k: int) -> bool {
    &&& 0 <= k <= a.len()
    &&& k <= b.len()
    &&& agree_upto(a, b, k)
    &&& (k == a.len() && k < b.len()) || (k < a.len() && k < b.len() && a[k] < b[k])
}

/// `a` sorts before `b`: the lexicographic order of strings, by character code.
pub open spec fn str_less(a: Seq<char>, b: Seq<char>) -> bool {
    exists|k: int| #[trigger] less_at(a, b, k)
}

/// Among the runs, run `a` is listed before run `b`: it was created later, or at the
/// same time and comes first in the API's list.
pub open spec fn listed_before(runs: Seq<RunLinks>, a: usize, b: usize) -> bool {
    str_less(sort_key(runs[b as int]), sort_key(runs[a as int])) || (sort_key(runs[a as int])
        == sort_key(runs[b as int]) && a < b)
}

proof fn lemma_str_less_irreflexive(a: Seq<char>)
    ensures
        !str_less(a, a),
{
    if str_less(a, a) {
        let k = choose|k: int| #[trigger] less_at(a, a, k);
    }
}

proof fn lemma_str_less_transitive(a: Seq<char>, b: Seq<char>, c: Seq<char>)
    requires
        str_less(a, b),
        str_less(b, c),
    ensures
        str_less(a, c),
{
    let k1 = choose|k: int| #[trigger] less_at(a, b, k);
    let k2 = choose|k: int| #[trigger] less_at(b, c, k);
    if k1 < k2 {
        assert(less_at(a, c, k1));
    } else if k2 < k1 {
        assert(a[k2] == b[k2]);
        assert(less_at(a, c, k2));
    } else {
        assert(less_at(a, c, k1));
    }
}

proof fn lemma_listed_before_transitive(runs: Seq<RunLinks>, a: usize, b: usize, c: usize)
    requires
        listed_before(runs, a, b),
        listed_before(runs, b, c),
    ensures
        listed_before(runs, a, c),
{
    let ka = sort_key(runs[a as int]);
    let kb = sort_key(runs[b as int]);
    let kc = sort_key(runs[c as int]);
    if str_less(kb, ka) && str_less(kc, kb) {
        lemma_str_less_transitive(kc, kb, ka);
    }
}

proof fn lemma_listed_before_irreflexive(runs: Seq<RunLinks>, a: usize)
    ensures
        !listed_before(runs, a, a),
{
    lemma_str_less_irreflexive(sort_key(runs[a as int]));
}

/// How two strings compare.
#[derive(Debug, Clone, Copy, PartialEq, Eq, Structural)]
enum KeyOrder {
    Smaller,
    Same,
    Larger,
}

/// Compares two strings lexicographically by character code.
fn compare_keys(a: &Vec<char>, b: &Vec<char>) -> (r: KeyOrder)
    ensures
        r == KeyOrder::Smaller ==> str_less(a@, b@),
        r == KeyOrder::Same ==> a@ == b@,
        r == KeyOrder::Larger ==> str_less(b@, a@),
{
    let mut k: usize = 0;
    while k < a.len() && k < b.len()
        invariant
            k <= a@.len(),
            k <= b@.len(),
            agree_upto(a@, b@, k as int),
        decreases a.len() - k,
    {
        if a[k] < b[k] {
            assert(less_at(a@, b@, k as int));
            return KeyOrder::Smaller;
        }
        if b[k] < a[k] {
            assert(less_at(b@, a@, k as int));
            return KeyOrder::Larger;
        }
        assert(a@[k as int] == b@[k as int]);
        k = k + 1;
    }
    if k == a.len() && k == b.len() {
        assert(a@ =~= b@);
        KeyOrder::Same
    } else if k == a.len() {
        assert(less_at(a@, b@, k as int));
        KeyOrder::Smaller
    } else {
        assert(less_at(b@, a@, k as int));
        KeyOrder::Larger
    }
}

/// The characters of a run's sort key.
fn key_of(r: &RunLinks) -> (k: Vec<char>)
    ensures
        k@ == sort_key(*r),
{
    match &r.created_at {
        Some(s) => chars_of(s.as_str()),
        None => Vec::new(),
    }
}

/// Whether a run belongs to the pull request.
fn run_links_pr(r: &RunLinks, pr_number: u64) -> (b: bool)
    ensures
        b == links_pr(*r, pr_number),
{
    match &r.pull_requests {
        Some(v) => {
            let mut i: usize = 0;
            while i < v.len()
                invariant
                    r.pull_requests == Some(*v),
                    i <= v@.len(),
                    forall|j: int| 0 <= j < i ==> v@[j] != Some(pr_number),
                decreases v.len() - i,
            {
                match v[i] {
                    Some(n) => {
                        if n == pr_number {
                            assert(v@[i as int] == Some(pr_number));
                            assert(v@.contains(Some(pr_number)));
                            return true;
                        }
                    },
                    None => {},
                }
                i = i + 1;
            }
            false
        },
        None => false,
    }
}

/// The positions of the runs to list for a pull request, in the order to list them:
/// the runs that belong to it, most recently created first (runs created at the same
/// time keep their order), at most `MAX_PR_RUNS` of them. Every run left out belongs
/// to another pull request or comes after all listed ones, and then the list is full.
pub fn select_pr_workflow_runs(runs: &[RunLinks], pr_number: u64) -> (r: Vec<usize>)
    ensures
        r@.len() <= MAX_PR_RUNS,
        forall|k: int| 0 <= k < r@.len() ==> #[trigger] r@[k] < runs@.len() && links_pr(runs@[r@[k] as int], pr_number),
        forall|k: int, l: int| 0 <= k < l < r@.len() ==> listed_before(runs@, #[trigger] r@[k], #[trigger] r@[l]),
        r@.no_duplicates(),
        forall|j: usize|
            j < runs@.len() && links_pr(runs@[j as int], pr_number) && !r@.contains(j) ==> r@.len()
                == MAX_PR_RUNS && forall|k: int| 0 <= k < r@.len() ==> listed_before(runs@, #[trigger] r@[k], j),
{
    let mut keys: Vec<Vec<char>> = Vec::new();
    let mut i: usize = 0;
    while i < runs.len()
        invariant
            i <= runs@.len(),
            keys@.len() == i,
            forall|j: int| 0 <= j < i ==> #[trigger] keys@[j]@ == sort_key(runs@[j]),
        decreases runs.len() - i,
    {
        keys.push(key_of(&runs[i]));
        i = i + 1;
    }
    let mut sorted: Vec<usize> = Vec::new();
    let mut i: usize = 0;
    while i < runs.len()
        invariant
            i <= runs@.len(),
            keys@.len() == runs@.len(),
            forall|j: int| 0 <= j < runs@.len() ==> #[trigger] keys@[j]@ == sort_key(runs@[j]),
            forall|k: int| 0 <= k < sorted@.len() ==> #[trigger] sorted@[k] < i && links_pr(runs@[sorted@[k] as int], pr_number),
            forall|k: int, l: int| 0 <= k < l < sorted@.len() ==> listed_before(runs@, #[trigger] sorted@[k], #[trigger] sorted@[l]),
            forall|j: usize| j < i && links_pr(runs@[j as int], pr_number) ==> sorted@.contains(j),
        decreases runs.len() - i,
    {
        if run_links_pr(&runs[i], pr_number) {
            let mut p: usize = 0;
            while p < sorted.len()
                invariant
                    i < runs@.len(),
                    keys@.len() == runs@.len(),
                    forall|j: int| 0 <= j < runs@.len() ==> #[trigger] keys@[j]@ == sort_key(runs@[j]),
                    p <= sorted@.len(),
                    forall|k: int| 0 <= k < sorted@.len() ==> #[trigger] sorted@[k] < i,
                    forall|k: int| 0 <= k < p ==> listed_before(runs@, #[trigger] sorted@[k], i),
                ensures
                    p <= sorted@.len(),
                    forall|k: int| 0 <= k < p ==> listed_before(runs@, #[trigger] sorted@[k], i),
                    p < sorted@.len() ==> listed_before(runs@, i, sorted@[p as int]),
                decreases sorted.len() - p,
            {
                let q = sorted[p];
                match compare_keys(&keys[q], &keys[i]) {
                    KeyOrder::Smaller => {
                        break;
                    },
                    _ => {},
                }
                p = p + 1;
            }
            let ghost before = sorted@;
            proof {
                if p < before.len() {
                    assert forall|l: int| p < l < before.len() implies listed_before(runs@, i, before[l]) by {
                        lemma_listed_before_transitive(runs@, i, before[p as int], before[l]);
                    }
                }
            }
            sorted.insert(p, i);
            proof {
                assert forall|k: int, l: int| 0 <= k < l < sorted@.len() implies listed_before(runs@, #[trigger] sorted@[k], #[trigger] sorted@[l]) by {
                    if l < p {
                        assert(sorted@[k] == before[k] && sorted@[l] == before[l]);
                    } else if l == p {
                        assert(sorted@[k] == before[k]);
                    } else if k < p {
                        assert(sorted@[k] == before[k] && sorted@[l] == before[l - 1]);
                        if p < before.len() {
                            lemma_listed_before_transitive(runs@, before[k], i, before[l - 1]);
                        }
                    } else if k == p {
                        assert(sorted@[l] == before[l - 1]);
                    } else {
                        assert(sorted@[k] == before[k - 1] && sorted@[l] == before[l - 1]);
                    }
                }
                assert forall|j: usize| j < i + 1 && links_pr(runs@[j as int], pr_number) implies sorted@.contains(j) by {
                    if j == i {
                        assert(sorted@[p as int] == i);
                    } else {
                        assert(before.contains(j));
                        let m = choose|m: int| 0 <= m < before.len() && before[m] == j;
                        if m < p {
                            assert(sorted@[m] == j);
                        } else {
                            assert(sorted@[m + 1] == j);
                        }
                    }
                }
                assert forall|k: int| 0 <= k < sorted@.len() implies #[trigger] sorted@[k] < i + 1 && links_pr(runs@[sorted@[k] as int], pr_number) by {
                    if k < p {
                        assert(sorted@[k] == before[k]);
                    } else if k > p {
                        assert(sorted@[k] == before[k - 1]);
                    }
                }
            }
        }
        i = i + 1;
    }
    let ghost full = sorted@;
    if sorted.len() > MAX_PR_RUNS {
        sorted.truncate(MAX_PR_RUNS);
    }
    proof {
        assert forall|j: usize|
            j < runs@.len() && links_pr(runs@[j as int], pr_number) && !sorted@.contains(j) implies sorted@.len()
                == MAX_PR_RUNS && forall|k: int| 0 <= k < sorted@.len() ==> listed_before(runs@, #[trigger] sorted@[k], j) by {
            assert(full.contains(j));
            let m = choose|m: int| 0 <= m < full.len() && full[m] == j;
            if m < sorted@.len() {
                assert(sorted@[m] == j);
            }
            assert forall|k: int| 0 <= k < sorted@.len() implies listed_before(runs@, #[trigger] sorted@[k], j) by {
                assert(sorted@[k] == full[k]);
            }
        }
        assert forall|k: int, l: int| 0 <= k < sorted@.len() && 0 <= l < sorted@.len() && k != l implies sorted@[k] != sorted@[l] by {
            if k < l {
                assert(listed_before(runs@, sorted@[k], sorted@[l]));
            } else {
                assert(listed_before(runs@, sorted@[l], sorted@[k]));
            }
            lemma_listed_before_irreflexive(runs@, sorted@[k]);
        }
    }
    sorted
}

} // verus!
