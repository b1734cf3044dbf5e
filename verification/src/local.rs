//! Local clones of GitHub repositories and the remote URLs they point at.
use vstd::prelude::*;
use vstd::string::*;
use crate::text::{chars_of, ends_with, has_prefix, has_suffix, skip_chars, starts_with, take_chars};

verus! {

/// A local clone of a GitHub repository.
#[derive(Debug, Clone)]
pub struct LocalRepo {
    /// The directory's name.
    pub name: String,
    /// The directory's path.
    pub path: String,
    /// The URL of the `origin` remote.
    pub remote_url: String,
    /// The owner of the GitHub repository.
    pub owner: String,
    /// The GitHub repository's name.
    pub repo: String,
}

/// Why a repository reference could not be read.
#[derive(Debug, Clone, Copy, PartialEq, Eq, Structural)]
pub enum RepoRefError {
    /// The URL is neither an SSH nor an HTTPS GitHub URL.
    NotGitHubUrl,
    /// The path of a GitHub URL is not `owner/repo`.
    InvalidGitHubUrl,
    /// The text is not `owner/repo`.
    NotOwnerSlashRepo,
}

/// `s` holds the character `c`.
pub open spec fn holds_char(s: Seq<char>, c: char) -> bool {
    exists|i: int| 0 <= i < s.len() && s[i] == c
}

/// `s` is `owner/repo`: two parts joined by the only `/` in it.
pub open spec fn is_owner_slash_repo(s: Seq<char>, owner: Seq<char>, repo: Seq<char>) -> bool {
    s == owner + seq!['/'] + repo && !holds_char(owner, '/') && !holds_char(repo, '/')
}

/// `s` holds exactly one `/`.
pub open spec fn has_single_slash(s: Seq<char>) -> bool {
    exists|i: int|
        0 <= i < s.len() && s[i] == '/' && (forall|j: int|
            0 <= j < s.len() && j != i ==> s[j] != '/')
}

/// The URL prefix of an SSH GitHub remote.
pub open spec fn ssh_prefix() -> Seq<char> {
    "git@github.com:"@
}

/// The URL prefix of an HTTPS GitHub remote.
pub open spec fn https_prefix() -> Seq<char> {
    "https://github.com/"@
}

/// The path part of a GitHub URL, after the host and before an optional ".git".
pub open spec fn github_url_path(url: Seq<char>) -> Option<Seq<char>> {
    let rest = if has_prefix(url, ssh_prefix()) {
        Some(url.skip(ssh_prefix().len() as int))
    } else if has_prefix(url, https_prefix()) {
        Some(url.skip(https_prefix().len() as int))
    } else {
        None
    };
    match rest {
        Some(p) => if has_suffix(p, ".git"@) {
            Some(p.take(p.len() - 4))
        } else {
            Some(p)
        },
        None => None,
    }
}

/// Splits `s` at its only `/`.
fn split_single_slash(s: &str) -> (r: Option<(String, String)>)
    ensures
        r is Some <==> has_single_slash(s@),
        r matches Some((o, n)) ==> is_owner_slash_repo(s@, o@, n@),
{
    let cs = chars_of(s);
    let mut count: usize = 0;
    let mut at: usize = 0;
    let mut i: usize = 0;
    while i < cs.len()
        invariant
            cs@ == s@,
            i <= cs@.len(),
            count <= i,
            count == 0 ==> forall|j: int| 0 <= j < i ==> cs@[j] != '/',
            count >= 1 ==> at < i && cs@[at as int] == '/' && forall|j: int| 0 <= j < at ==> cs@[j] != '/',
            count == 1 ==> forall|j: int| 0 <= j < i && j != at ==> cs@[j] != '/',
            count >= 2 ==> exists|j: int| 0 <= j < i && j != at && cs@[j] == '/',
        decreases cs.len() - i,
    {
        if cs[i] == '/' {
            if count == 0 {
                at = i;
            }
            count = count + 1;
        }
        i = i + 1;
    }
    if count != 1 {
        proof {
            if count == 0 {
                assert forall|k: int| 0 <= k < s@.len() && s@[k] == '/' implies false by {}
            }
            if count >= 2 {
                let j = choose|j: int| 0 <= j < cs@.len() && j != at && cs@[j] == '/';
                assert forall|k: int|
                    0 <= k < s@.len() && s@[k] == '/' implies exists|m: int|
                    0 <= m < s@.len() && m != k && s@[m] == '/' by {
                    if k == j {
                        assert(s@[at as int] == '/');
                    } else {
                        assert(s@[j] == '/');
                    }
                }
            }
        }
        return None;
    }
    let owner = take_chars(s, at);
    let repo = skip_chars(s, at + 1);
    proof {
        assert(s@ =~= owner@ + seq!['/'] + repo@);
        assert forall|k: int| 0 <= k < owner@.len() implies owner@[k] != '/' by {
            assert(owner@[k] == s@[k]);
        }
        assert forall|k: int| 0 <= k < repo@.len() implies repo@[k] != '/' by {
            assert(repo@[k] == s@[at + 1 + k]);
        }
        assert(has_single_slash(s@));
    }
    Some((owner, repo))
}

/// Reads `owner/repo`: the text has exactly one `/`, and the two parts are the
/// owner and the repository.
pub fn parse_repo(repo: &str) -> (r: Result<(String, String), RepoRefError>)
    ensures
        r is Ok <==> has_single_slash(repo@),
        r matches Ok((o, n)) ==> is_owner_slash_repo(repo@, o@, n@),
        r matches Err(e) ==> e == RepoRefError::NotOwnerSlashRepo,
{
    match split_single_slash(repo) {
        Some(parts) => Ok(parts),
        None => Err(RepoRefError::NotOwnerSlashRepo),
    }
}

/// Reads the owner and repository of a GitHub remote URL, in SSH form
/// (`git@github.com:owner/repo.git`) or HTTPS form
/// (`https://github.com/owner/repo.git`), with or without the ".git" suffix.
pub fn parse_github_url(url: &str) -> (r: Result<(String, String), RepoRefError>)
    ensures
        github_url_path(url@) is None <==> r == Err::<(String, String), RepoRefError>(
            RepoRefError::NotGitHubUrl,
        ),
        github_url_path(url@) matches Some(p) ==> (r is Ok <==> has_single_slash(p)),
        github_url_path(url@) matches Some(p) ==> (r matches Ok((o, n)) ==> is_owner_slash_repo(
            p,
            o@,
            n@,
        )),
        github_url_path(url@) matches Some(p) ==> (r is Err ==> r == Err::<
            (String, String),
            RepoRefError,
        >(RepoRefError::InvalidGitHubUrl)),
{
    proof {
        reveal_strlit("git@github.com:");
        reveal_strlit("https://github.com/");
    }
    let rest = if starts_with(url, "git@github.com:") {
        skip_chars(url, 15)
    } else if starts_with(url, "https://github.com/") {
        skip_chars(url, 19)
    } else {
        return Err(RepoRefError::NotGitHubUrl);
    };
    proof {
        reveal_strlit(".git");
    }
    let path = if ends_with(rest.as_str(), ".git") {
        let n = rest.as_str().unicode_len();
        take_chars(rest.as_str(), n - 4)
    } else {
        rest
    };
    match split_single_slash(path.as_str()) {
        Some(parts) => Ok(parts),
        None => Err(RepoRefError::InvalidGitHubUrl),
    }
}

impl RepoRefError {
    /// The message of the error about the given input.
    pub fn message(&self, input: &str) -> (r: String)
        ensures
            *self == RepoRefError::NotGitHubUrl ==> r@ == "Not a GitHub URL: "@ + input@,
            *self == RepoRefError::InvalidGitHubUrl ==> r@ == "Invalid GitHub URL format: "@
                + input@,
            *self == RepoRefError::NotOwnerSlashRepo ==> r@
                == "Repository must be in format 'owner/repo'"@,
    {
        match self {
            RepoRefError::NotGitHubUrl => {
                let mut r = String::from_str("Not a GitHub URL: ");
                r.append(input);
                r
            },
            RepoRefError::InvalidGitHubUrl => {
                let mut r = String::from_str("Invalid GitHub URL format: ");
                r.append(input);
                r
            },
            RepoRefError::NotOwnerSlashRepo => String::from_str(
                "Repository must be in format 'owner/repo'",
            ),
        }
    }
}

/// A directory whose name starts with "." is hidden and is not scanned.
pub fn is_hidden_name(dir_name: &str) -> (r: bool)
    ensures
        r == has_prefix(dir_name@, "."@),
{
    starts_with(dir_name, ".")
}

/// The local repository of a directory whose `origin` remote has the given URL, when
/// the URL names a GitHub repository.
pub fn local_repo_from_remote(name: String, path: String, remote_url: String) -> (r: Option<
    LocalRepo,
>)
    ensures
        r is Some <==> parse_github_url_ok(remote_url@),
        r matches Some(l) ==> l.name == name && l.path == path && l.remote_url == remote_url
            && is_owner_slash_repo(github_url_path(remote_url@)->0, l.owner@, l.repo@),
{
    match parse_github_url(remote_url.as_str()) {
        Ok((owner, repo)) => Some(LocalRepo { name, path, remote_url, owner, repo }),
        Err(_) => None,
    }
}

/// The URL names a GitHub repository: a GitHub URL whose path is `owner/repo`.
pub open spec fn parse_github_url_ok(url: Seq<char>) -> bool {
    github_url_path(url) matches Some(p) && has_single_slash(p)
}

/// The path with a leading "~/" replaced by the home directory, given the value of
/// `HOME`; the path itself where it has no such prefix or `HOME` is unset.
pub open spec fn tilde_expanded(path: Seq<char>, home: Option<Seq<char>>) -> Seq<char> {
    if has_prefix(path, "~/"@) && home is Some {
        home->0 + path.skip(1)
    } else {
        path
    }
}

/// Expands a leading "~/" with the given value of the `HOME` variable.
pub fn expand_tilde_with_home(path: &str, home: Option<String>) -> (r: String)
    ensures
        r@ == tilde_expanded(path@, match home {
            Some(h) => Some(h@),
            None => None,
        }),
{
    proof {
        reveal_strlit("~/");
    }
    if starts_with(path, "~/") {
        match home {
            Some(h) => {
                let rest = skip_chars(path, 1);
                let mut r = h;
                r.append(rest.as_str());
                return r;
            },
            None => {},
        }
    }
    String::from_str(path)
}

} // verus!
