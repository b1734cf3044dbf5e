//! The tool's settings and the rules that derive values from them.
use vstd::prelude::*;
use vstd::string::*;
use crate::local::LocalRepo;
use crate::text::{
    has_prefix, is_white_space, lemma_blank_trims_to_empty, lemma_padded_word_trims_to_word,
    lowercased, skip_chars, starts_with, str_eq,
    to_lowercase, trim, trimmed,
};

verus! {

/// The tool's settings.
#[derive(Debug, Clone)]
pub struct Config {
    /// GitHub token for authentication
    pub github_token: Option<String>,
    /// GitHub username
    pub github_username: Option<String>,
    /// Base GitHub URL (default: https://api.github.com)
    pub github_base_url: String,
    /// Local repositories folder path
    pub local_repos_path: String,
    /// GitHub organization to filter by (e.g., "snyk")
    pub github_organization: Option<String>,
    /// Default PR state to show (open, closed, all)
    pub default_pr_state: String,
    /// Default number of PRs to show
    pub default_pr_limit: usize,
    /// Default number of repositories to scan
    pub default_repo_limit: usize,
    /// Show workflows by default
    pub show_workflows_by_default: bool,
}

/// The settings a fresh installation starts with.
pub open spec fn is_default_config(c: ConfigView) -> bool {
    &&& c.github_token is None
    &&& c.github_username is None
    &&& c.github_base_url == "https://api.github.com"@
    &&& c.local_repos_path == "~/repos"@
    &&& c.github_organization == Some("snyk"@)
    &&& c.default_pr_state == "open"@
    &&& c.default_pr_limit == 10
    &&& c.default_repo_limit == 20
    &&& !c.show_workflows_by_default
}

impl Default for Config {
    fn default() -> (r: Self)
        ensures
            is_default_config(r@),
    {
        Config {
            github_token: None,
            github_username: None,
            github_base_url: String::from_str("https://api.github.com"),
            local_repos_path: String::from_str("~/repos"),
            github_organization: Some(String::from_str("snyk")),
            default_pr_state: String::from_str("open"),
            default_pr_limit: 10,
            default_repo_limit: 20,
            show_workflows_by_default: false,
        }
    }
}

/// Names what `Path::join` followed by `to_string_lossy` gives for a base path and
/// a path to append to it.
pub uninterp spec fn joined_path(base: Seq<char>, rest: Seq<char>) -> Seq<char>;

/// Calls `std::path::Path::join` on the base and the rest and turns the result into
/// a `String` with `to_string_lossy`. The contract ties the result to both arguments
/// through the name `joined_path`; it leaves unsaid how separators are placed and that
/// an absolute `rest` replaces the base.
#[verifier::external_body]
fn join_path(base: &str, rest: &str) -> (r: String)
    ensures
        r@ == joined_path(base@, rest@),
{
    std::path::Path::new(base).join(rest).to_string_lossy().to_string()
}

/// Calls `dirs::home_dir` and turns the path into a `String` with `to_string_lossy`.
/// The home directory depends on the environment, so nothing is stated of it.
#[verifier::external_body]
fn home_dir() -> (r: Option<String>) {
    match dirs::home_dir() {
        Some(p) => Some(p.to_string_lossy().to_string()),
        None => None,
    }
}

/// The path with a leading "~/" replaced by the home directory, given the home
/// directory; the path itself where it has no such prefix or there is no home.
pub open spec fn path_expanded(path: Seq<char>, home: Option<Seq<char>>) -> Seq<char> {
    if has_prefix(path, "~/"@) && home is Some {
        joined_path(home->0, path.skip(2))
    } else {
        path
    }
}

/// The view of an optional string.
pub open spec fn opt_view(o: Option<String>) -> Option<Seq<char>> {
    match o {
        Some(s) => Some(s@),
        None => None,
    }
}

/// Expands a leading "~/" of `path` against the given home directory.
pub fn expand_path_with_home(path: &str, home: Option<String>) -> (r: String)
    ensures
        r@ == path_expanded(path@, opt_view(home)),
{
    proof {
        reveal_strlit("~/");
    }
    if starts_with(path, "~/") {
        match home {
            Some(h) => {
                let rest = skip_chars(path, 2);
                return join_path(h.as_str(), rest.as_str());
            },
            None => {},
        }
    }
    String::from_str(path)
}

/// The username given by `git config --global user.name`, mapped to a GitHub login:
/// "Knut Funkel" is "acke", any other non-empty name is itself, and "acke" stands in
/// when git gives nothing.
pub open spec fn username_from_git(git_output: Option<Seq<char>>) -> Seq<char> {
    match git_output {
        Some(raw) => {
            let name = trimmed(raw);
            if name == "Knut Funkel"@ {
                "acke"@
            } else if name.len() > 0 {
                name
            } else {
                "acke"@
            }
        },
        None => "acke"@,
    }
}

/// Maps what `git config --global user.name` printed (`None` where git failed) to a
/// GitHub login.
pub fn username_from_git_output(git_output: Option<String>) -> (r: String)
    ensures
        r@ == username_from_git(opt_view(git_output)),
{
    match git_output {
        Some(raw) => {
            let name = trim(raw.as_str());
            if str_eq(name.as_str(), "Knut Funkel") {
                String::from_str("acke")
            } else if name.as_str().unicode_len() > 0 {
                name
            } else {
                String::from_str("acke")
            }
        },
        None => String::from_str("acke"),
    }
}

/// The answers of the configuration wizard, in the order it asks them.
#[derive(Debug, Clone, Copy, PartialEq, Eq, Structural)]
pub enum WizardStep {
    Token,
    Username,
    BaseUrl,
    ReposPath,
    Organization,
    PrState,
    PrLimit,
    RepoLimit,
    ShowWorkflows,
}

/// What `str::parse::<usize>` accepts: an optional "+" followed by one or more
/// decimal digits whose value fits a `usize`.
pub open spec fn parsed_usize(s: Seq<char>) -> Option<usize> {
    let d = if s.len() > 0 && s[0] == '+' {
        s.skip(1)
    } else {
        s
    };
    if d.len() > 0 && all_digits(d) && digits_value(d) <= usize::MAX {
        Some(digits_value(d) as usize)
    } else {
        None
    }
}

/// Every character is a decimal digit.
pub open spec fn all_digits(d: Seq<char>) -> bool {
    forall|i: int| 0 <= i < d.len() ==> 48 <= #[trigger] (d[i] as u32) <= 57
}

/// The value of a run of decimal digits.
pub open spec fn digits_value(d: Seq<char>) -> nat
    decreases d.len(),
{
    if d.len() == 0 {
        0
    } else {
        digits_value(d.drop_last()) * 10 + ((d.last() as u32) - 48) as nat
    }
}

/// Calls `str::parse::<usize>`. Its documentation says that it accepts an optional
/// "+" sign followed by decimal digits only, and fails where the value does not fit.
#[verifier::external_body]
fn parse_usize(s: &str) -> (r: Option<usize>)
    ensures
        r == parsed_usize(s@),
{
    s.parse::<usize>().ok()
}

/// The settings as mathematical values.
pub struct ConfigView {
    pub github_token: Option<Seq<char>>,
    pub github_username: Option<Seq<char>>,
    pub github_base_url: Seq<char>,
    pub local_repos_path: Seq<char>,
    pub github_organization: Option<Seq<char>>,
    pub default_pr_state: Seq<char>,
    pub default_pr_limit: usize,
    pub default_repo_limit: usize,
    pub show_workflows_by_default: bool,
}

impl View for Config {
    type V = ConfigView;

    open spec fn view(&self) -> ConfigView {
        ConfigView {
            github_token: opt_view(self.github_token),
            github_username: opt_view(self.github_username),
            github_base_url: self.github_base_url@,
            local_repos_path: self.local_repos_path@,
            github_organization: opt_view(self.github_organization),
            default_pr_state: self.default_pr_state@,
            default_pr_limit: self.default_pr_limit,
            default_repo_limit: self.default_repo_limit,
            show_workflows_by_default: self.show_workflows_by_default,
        }
    }
}

/// The settings after the wizard's answer to `step`, given the answer as typed. An
/// empty answer keeps the current value; the organization "none" (in any case)
/// clears it; a state other than open, closed or all, or a limit that is not a
/// number, is ignored; "y"/"yes" and "n"/"no" (in any case) switch workflows on
/// and off, and anything else keeps the setting.
pub open spec fn answered(c: ConfigView, step: WizardStep, raw: Seq<char>) -> ConfigView {
    let t = trimmed(raw);
    match step {
        WizardStep::Token => if t.len() > 0 {
            ConfigView { github_token: Some(t), ..c }
        } else {
            c
        },
        WizardStep::Username => if t.len() > 0 {
            ConfigView { github_username: Some(t), ..c }
        } else {
            c
        },
        WizardStep::BaseUrl => if t.len() > 0 {
            ConfigView { github_base_url: t, ..c }
        } else {
            c
        },
        WizardStep::ReposPath => if t.len() > 0 {
            ConfigView { local_repos_path: t, ..c }
        } else {
            c
        },
        WizardStep::Organization => if t.len() == 0 {
            c
        } else if lowercased(t) == "none"@ {
            ConfigView { github_organization: None, ..c }
        } else {
            ConfigView { github_organization: Some(t), ..c }
        },
        WizardStep::PrState => if t == "open"@ || t == "closed"@ || t == "all"@ {
            ConfigView { default_pr_state: t, ..c }
        } else {
            c
        },
        WizardStep::PrLimit => match parsed_usize(t) {
            Some(n) => ConfigView { default_pr_limit: n, ..c },
            None => c,
        },
        WizardStep::RepoLimit => match parsed_usize(t) {
            Some(n) => ConfigView { default_repo_limit: n, ..c },
            None => c,
        },
        WizardStep::ShowWorkflows => {
            let a = lowercased(t);
            if t.len() == 0 {
                c
            } else if a == "y"@ || a == "yes"@ {
                ConfigView { show_workflows_by_default: true, ..c }
            } else if a == "n"@ || a == "no"@ {
                ConfigView { show_workflows_by_default: false, ..c }
            } else {
                c
            }
        },
    }
}

/// A blank answer (nothing, or white space only) to any question of the wizard
/// leaves the settings as they were, and to the question on saving does not save.
pub proof fn lemma_blank_answer_keeps_settings(c: ConfigView, step: WizardStep, raw: Seq<char>)
    requires
        forall|i: int| 0 <= i < raw.len() ==> is_white_space(#[trigger] raw[i]),
    ensures
        answered(c, step, raw) == c,
        !confirms(raw),
{
    lemma_blank_trims_to_empty(raw);
    reveal_strlit("open");
    reveal_strlit("closed");
    reveal_strlit("all");
    let t = trimmed(raw);
    assert(t != "open"@ && t != "closed"@ && t != "all"@);
    assert(parsed_usize(t) is None);
}

/// Answering the question on the state with "open", "closed" or "all", with any
/// white space around it, makes that word the default state and changes nothing
/// else; any other answer leaves the settings as they were.
pub proof fn lemma_state_answer(c: ConfigView, pre: Seq<char>, word: Seq<char>, post: Seq<char>)
    requires
        forall|i: int| 0 <= i < pre.len() ==> is_white_space(#[trigger] pre[i]),
        forall|i: int| 0 <= i < post.len() ==> is_white_space(#[trigger] post[i]),
    ensures
        word == "open"@ || word == "closed"@ || word == "all"@ ==> answered(
            c,
            WizardStep::PrState,
            pre + word + post,
        ) == (ConfigView { default_pr_state: word, ..c }),
        trimmed(pre + word + post) != "open"@ && trimmed(pre + word + post) != "closed"@
            && trimmed(pre + word + post) != "all"@ ==> answered(
            c,
            WizardStep::PrState,
            pre + word + post,
        ) == c,
{
    reveal_strlit("open");
    reveal_strlit("closed");
    reveal_strlit("all");
    if word == "open"@ || word == "closed"@ || word == "all"@ {
        assert(!is_white_space(word[0]));
        assert(!is_white_space(word.last()));
        lemma_padded_word_trims_to_word(pre, word, post);
    }
}

/// A non-blank answer to the question on the token, the username, the base URL or
/// the path of the local repositories makes the trimmed answer that setting; a
/// number (an optional "+" and decimal digits) answered to a limit question makes it
/// that limit; "none" in any case clears the organization and any other non-blank
/// answer sets it; "y" or "yes" in any case switches workflows on, "n" or "no" off.
/// Each answer changes only the setting it was asked for.
pub proof fn lemma_answers_take_effect(c: ConfigView, step: WizardStep, raw: Seq<char>)
    ensures
        trimmed(raw).len() > 0 ==> answered(c, WizardStep::Token, raw) == (ConfigView {
            github_token: Some(trimmed(raw)),
            ..c
        }),
        trimmed(raw).len() > 0 ==> answered(c, WizardStep::Username, raw) == (ConfigView {
            github_username: Some(trimmed(raw)),
            ..c
        }),
        trimmed(raw).len() > 0 ==> answered(c, WizardStep::BaseUrl, raw) == (ConfigView {
            github_base_url: trimmed(raw),
            ..c
        }),
        trimmed(raw).len() > 0 ==> answered(c, WizardStep::ReposPath, raw) == (ConfigView {
            local_repos_path: trimmed(raw),
            ..c
        }),
        forall|n: usize|
            parsed_usize(trimmed(raw)) == Some(n) ==> #[trigger] answered(
                c,
                WizardStep::PrLimit,
                raw,
            ).default_pr_limit == n,
        forall|n: usize|
            parsed_usize(trimmed(raw)) == Some(n) ==> #[trigger] answered(
                c,
                WizardStep::RepoLimit,
                raw,
            ).default_repo_limit == n,
        trimmed(raw).len() > 0 && lowercased(trimmed(raw)) == "none"@ ==> answered(
            c,
            WizardStep::Organization,
            raw,
        ).github_organization is None,
        trimmed(raw).len() > 0 && lowercased(trimmed(raw)) != "none"@ ==> answered(
            c,
            WizardStep::Organization,
            raw,
        ).github_organization == Some(trimmed(raw)),
        trimmed(raw).len() > 0 && (lowercased(trimmed(raw)) == "y"@ || lowercased(trimmed(raw))
            == "yes"@) ==> answered(c, WizardStep::ShowWorkflows, raw).show_workflows_by_default,
        trimmed(raw).len() > 0 && (lowercased(trimmed(raw)) == "n"@ || lowercased(trimmed(raw))
            == "no"@) ==> !answered(c, WizardStep::ShowWorkflows, raw).show_workflows_by_default,
        step != WizardStep::Token ==> answered(c, step, raw).github_token == c.github_token,
        step != WizardStep::Username ==> answered(c, step, raw).github_username
            == c.github_username,
        step != WizardStep::BaseUrl ==> answered(c, step, raw).github_base_url
            == c.github_base_url,
        step != WizardStep::ReposPath ==> answered(c, step, raw).local_repos_path
            == c.local_repos_path,
        step != WizardStep::Organization ==> answered(c, step, raw).github_organization
            == c.github_organization,
        step != WizardStep::PrState ==> answered(c, step, raw).default_pr_state
            == c.default_pr_state,
        step != WizardStep::PrLimit ==> answered(c, step, raw).default_pr_limit
            == c.default_pr_limit,
        step != WizardStep::RepoLimit ==> answered(c, step, raw).default_repo_limit
            == c.default_repo_limit,
        step != WizardStep::ShowWorkflows ==> answered(c, step, raw).show_workflows_by_default
            == c.show_workflows_by_default,
{
    reveal_strlit("y");
    reveal_strlit("yes");
    reveal_strlit("n");
    reveal_strlit("no");
    assert("n"@ != "y"@ && "n"@ != "yes"@) by {
        assert("n"@[0] != "y"@[0]);
    }
    assert("no"@ != "y"@ && "no"@ != "yes"@) by {
        assert("no"@[0] != "y"@[0]);
    }
}

/// The state to list by default is one of open, closed and all.
pub open spec fn valid_default_state(c: ConfigView) -> bool {
    c.default_pr_state == "open"@ || c.default_pr_state == "closed"@ || c.default_pr_state
        == "all"@
}

/// The wizard never leaves a default state other than open, closed or all: the
/// defaults have a valid state, and every answer keeps a valid one valid.
pub proof fn lemma_wizard_keeps_state_valid(c: ConfigView, step: WizardStep, raw: Seq<char>)
    ensures
        is_default_config(c) ==> valid_default_state(c),
        valid_default_state(c) ==> valid_default_state(answered(c, step, raw)),
{
}

/// The wizard's answer to the question on saving: "y" or "yes", ignoring case and
/// surrounding white space. A blank answer does not confirm.
pub open spec fn confirms(raw: Seq<char>) -> bool {
    let t = trimmed(raw);
    let a = lowercased(t);
    t.len() > 0 && (a == "y"@ || a == "yes"@)
}

/// Whether the answer to the question on saving is "y" or "yes", ignoring case.
pub fn wizard_confirms(answer: &str) -> (r: bool)
    ensures
        r == confirms(answer@),
{
    let t = trim(answer);
    if t.as_str().unicode_len() == 0 {
        return false;
    }
    let a = to_lowercase(t.as_str());
    answer_is_either(a.as_str(), "y", "yes")
}

/// The answer, trimmed and lowercased, is one of the two words.
fn answer_is_either(lowered: &str, short: &str, long: &str) -> (r: bool)
    ensures
        r == (lowered@ == short@ || lowered@ == long@),
{
    str_eq(lowered, short) || str_eq(lowered, long)
}

impl Config {
    /// The effective GitHub token: the configured one, else the value of
    /// `GITHUB_PRIVATE_TOKEN`, else that of `GITHUB_TOKEN` (the two values are
    /// handed in as read from the environment).
    pub fn get_github_token(
        &self,
        private_token_var: Option<String>,
        token_var: Option<String>,
    ) -> (r: Option<String>)
        ensures
            r == (match self.github_token {
                Some(t) => Some(t),
                None => match private_token_var {
                    Some(t) => Some(t),
                    None => token_var,
                },
            }),
    {
        match &self.github_token {
            Some(t) => Some(t.clone()),
            None => match private_token_var {
                Some(t) => Some(t),
                None => token_var,
            },
        }
    }

    /// The effective GitHub username: the configured one; else `git_lookup` is asked
    /// for what `git config --global user.name` printed (`None` where git failed) and
    /// that is mapped by `username_from_git`. Git is asked only where no username is
    /// configured.
    pub fn get_github_username<F: FnOnce() -> Option<String>>(&self, git_lookup: F) -> (r: String)
        requires
            call_requires(git_lookup, ()),
        ensures
            self.github_username matches Some(u) ==> r@ == u@,
            self.github_username is None ==> exists|g: Option<String>|
                call_ensures(git_lookup, (), g) && r@ == username_from_git(opt_view(g)),
    {
        match &self.github_username {
            Some(u) => u.clone(),
            None => {
                let g = git_lookup();
                username_from_git_output(g)
            },
        }
    }

    /// The login to filter pull requests by: none when all are shown, else the one
    /// given, else the effective GitHub username.
    pub fn user_filter<F: FnOnce() -> Option<String>>(
        &self,
        show_all: bool,
        given: Option<String>,
        git_lookup: F,
    ) -> (r: Option<String>)
        requires
            call_requires(git_lookup, ()),
        ensures
            show_all ==> r is None,
            !show_all && given is Some ==> r == given,
            !show_all && given is None && self.github_username is Some ==> opt_view(r) == opt_view(
                self.github_username,
            ),
            !show_all && given is None && self.github_username is None ==> exists|g: Option<String>|
                call_ensures(git_lookup, (), g) && opt_view(r) == Some(
                    username_from_git(opt_view(g)),
                ),
    {
        if show_all {
            None
        } else {
            match given {
                Some(u) => Some(u),
                None => Some(self.get_github_username(git_lookup)),
            }
        }
    }

    /// Expands a leading "~/" of `path` to the home directory, where there is one.
    pub fn expand_path(&self, path: &str) -> (r: String)
        ensures
            exists|home: Option<Seq<char>>| r@ == path_expanded(path@, home),
    {
        let home = home_dir();
        let r = expand_path_with_home(path, home);
        assert(r@ == path_expanded(path@, opt_view(home)));
        r
    }

    /// The local repositories folder with a leading "~/" expanded.
    pub fn get_local_repos_path(&self) -> (r: String)
        ensures
            exists|home: Option<Seq<char>>| r@ == path_expanded(self.local_repos_path@, home),
    {
        self.expand_path(self.local_repos_path.as_str())
    }

    /// Whether a repository of the given owner is in scope: every owner is when no
    /// organization is configured, else only the organization.
    pub fn owner_in_scope(&self, owner: &str) -> (r: bool)
        ensures
            r == (match self.github_organization {
                Some(o) => owner@ == o@,
                None => true,
            }),
    {
        match &self.github_organization {
            Some(o) => str_eq(owner, o.as_str()),
            None => true,
        }
    }

    /// The organization's name for messages: the configured one, else "organization".
    pub fn organization_label(&self) -> (r: String)
        ensures
            r@ == (match self.github_organization {
                Some(o) => o@,
                None => "organization"@,
            }),
    {
        match &self.github_organization {
            Some(o) => o.clone(),
            None => String::from_str("organization"),
        }
    }

    /// The local repositories whose owner is in scope, in their order.
    pub fn repos_in_scope(&self, repos: Vec<LocalRepo>) -> (r: Vec<LocalRepo>)
        ensures
            r@ == repos@.filter(|l: LocalRepo| self.owner_in_scope_spec(l.owner@)),
    {
        let ghost orig = repos@;
        let mut rest = repos;
        let mut kept: Vec<LocalRepo> = Vec::new();
        let ghost mut i: int = 0;
        assert(orig.take(0).filter(|l: LocalRepo| self.owner_in_scope_spec(l.owner@)) =~= Seq::<LocalRepo>::empty());
        while rest.len() > 0
            invariant
                0 <= i <= orig.len(),
                rest@ == orig.skip(i),
                kept@ == orig.take(i).filter(|l: LocalRepo| self.owner_in_scope_spec(l.owner@)),
            decreases rest.len(),
        {
            let repo = rest.remove(0);
            proof {
                assert(orig.take(i + 1).drop_last() =~= orig.take(i));
                assert(orig.take(i + 1).last() == repo);
                reveal_with_fuel(Seq::filter, 1);
            }
            if self.owner_in_scope(repo.owner.as_str()) {
                kept.push(repo);
            }
            proof {
                i = i + 1;
                assert(rest@ =~= orig.skip(i));
            }
        }
        assert(orig.take(i) =~= orig);
        kept
    }

    /// Takes the wizard's answer to `step`, as typed, into the settings.
    pub fn apply_wizard_answer(&mut self, step: WizardStep, answer: &str)
        ensures
            final(self)@ == answered(old(self)@, step, answer@),
    {
        let t = trim(answer);
        let empty = t.as_str().unicode_len() == 0;
        match step {
            WizardStep::Token => {
                if !empty {
                    self.github_token = Some(t);
                }
            },
            WizardStep::Username => {
                if !empty {
                    self.github_username = Some(t);
                }
            },
            WizardStep::BaseUrl => {
                if !empty {
                    self.github_base_url = t;
                }
            },
            WizardStep::ReposPath => {
                if !empty {
                    self.local_repos_path = t;
                }
            },
            WizardStep::Organization => {
                if !empty {
                    let lowered = to_lowercase(t.as_str());
                    if str_eq(lowered.as_str(), "none") {
                        self.github_organization = None;
                    } else {
                        self.github_organization = Some(t);
                    }
                }
            },
            WizardStep::PrState => {
                let s = t.as_str();
                if str_eq(s, "open") || str_eq(s, "closed") || str_eq(s, "all") {
                    self.default_pr_state = t;
                }
            },
            WizardStep::PrLimit => {
                match parse_usize(t.as_str()) {
                    Some(n) => {
                        self.default_pr_limit = n;
                    },
                    None => {},
                }
            },
            WizardStep::RepoLimit => {
                match parse_usize(t.as_str()) {
                    Some(n) => {
                        self.default_repo_limit = n;
                    },
                    None => {},
                }
            },
            WizardStep::ShowWorkflows => {
                if !empty {
                    let a = to_lowercase(t.as_str());
                    if answer_is_either(a.as_str(), "y", "yes") {
                        self.show_workflows_by_default = true;
                    } else if answer_is_either(a.as_str(), "n", "no") {
                        self.show_workflows_by_default = false;
                    }
                }
            },
        }
    }

    /// The state to list: the one given, else the configured default.
    pub fn effective_state(&self, state: Option<String>) -> (r: String)
        ensures
            r@ == (match state {
                Some(s) => s@,
                None => self.default_pr_state@,
            }),
    {
        match state {
            Some(s) => s,
            None => self.default_pr_state.clone(),
        }
    }

    /// The number of pull requests to list: the one given, else the configured
    /// default.
    pub fn effective_pr_limit(&self, limit: Option<usize>) -> (r: usize)
        ensures
            r == (match limit {
                Some(n) => n,
                None => self.default_pr_limit,
            }),
    {
        match limit {
            Some(n) => n,
            None => self.default_pr_limit,
        }
    }

    /// The number of repositories to scan: the one given, else the configured default.
    pub fn effective_repo_limit(&self, max_repos: Option<usize>) -> (r: usize)
        ensures
            r == (match max_repos {
                Some(n) => n,
                None => self.default_repo_limit,
            }),
    {
        match max_repos {
            Some(n) => n,
            None => self.default_repo_limit,
        }
    }

    /// Whether to show workflows: as given, else the configured default.
    pub fn effective_workflows(&self, workflows: Option<bool>) -> (r: bool)
        ensures
            r == (match workflows {
                Some(b) => b,
                None => self.show_workflows_by_default,
            }),
    {
        match workflows {
            Some(b) => b,
            None => self.show_workflows_by_default,
        }
    }

    /// Whether a repository of the given owner is in scope.
    pub open spec fn owner_in_scope_spec(&self, owner: Seq<char>) -> bool {
        match self.github_organization {
            Some(o) => owner == o@,
            None => true,
        }
    }
}

} // verus!
