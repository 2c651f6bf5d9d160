use vstd::prelude::*;
use vstd::string::{StrSliceExecFns, StringExecFns};
use crate::data::github::{spec_url_path_segments, url_path_segments};
use crate::errors::OrandaError;
use crate::strutil::{spec_trim, starts_with, str_eq, trim_str};

verus! {

/// A GitHub repository that the site can query things about.
#[derive(Debug, Clone)]
pub struct GithubRepo {
    /// The repository owner.
    pub owner: String,
    /// The repository name.
    pub name: String,
}

/// A repository locator, classified by its scheme: an `https` URL or an SSH
/// remote of the `git@` form.
#[derive(Debug)]
pub enum GithubRepoInput {
    Url(String),
    Ssh(String),
}

/// Whether the string opens with the `https` scheme prefix.
pub open spec fn spec_is_https(s: Seq<char>) -> bool {
    s.len() >= 5 && s.subrange(0, 5) == "https"@
}

/// Whether the string opens with the `git@` SSH prefix.
pub open spec fn spec_is_ssh(s: Seq<char>) -> bool {
    s.len() >= 4 && s.subrange(0, 4) == "git@"@
}

/// Left-to-right removal of every `.git` occurrence, the way a global string
/// replacement performs it.
pub open spec fn spec_remove_git(s: Seq<char>) -> Seq<char>
    decreases s.len(),
{
    if s.len() >= 4 && s.subrange(0, 4) == ".git"@ {
        spec_remove_git(s.skip(4))
    } else if s.len() == 0 {
        s
    } else {
        seq![s[0]] + spec_remove_git(s.drop_first())
    }
}

/// The repository name with its `.git` ending stripped: when the string ends
/// in `.git`, every `.git` occurrence is removed, the way a global string
/// replacement does it; otherwise the string is unchanged.
pub open spec fn spec_remove_git_suffix(s: Seq<char>) -> Seq<char> {
    if s.len() >= 4 && s.subrange(s.len() - 4, s.len() as int) == ".git"@ {
        spec_remove_git(s)
    } else {
        s
    }
}

/// The owner/name pair that a repository URL denotes: the URL must parse, its
/// path must hold at least two segments, and every segment after the second
/// must be whitespace only. The owner is the first segment; the name is the
/// second with its `.git` ending stripped.
pub open spec fn spec_parsed_repo(s: Seq<char>) -> Option<(Seq<char>, Seq<char>)> {
    match spec_url_path_segments(s) {
        Some(segments) => if segments.len() >= 2 && (forall|i: int|
            2 <= i < segments.len() ==> spec_trim(#[trigger] segments[i]).len() == 0) {
            Some((segments[0], spec_remove_git_suffix(segments[1])))
        } else {
            None
        },
        None => None,
    }
}

/// Removes every `.git` occurrence of the string, scanning left to right.
fn remove_all_git(s: &str) -> (r: String)
    ensures
        r@ == spec_remove_git(s@),
{
    let n = s.unicode_len();
    let mut out = String::new();
    let mut i: usize = 0;
    proof {
        assert(s@.skip(0) =~= s@);
        assert(Seq::<char>::empty() + spec_remove_git(s@) =~= spec_remove_git(s@));
    }
    while i < n
        invariant
            n == s@.len(),
            i <= n,
            spec_remove_git(s@) == out@ + spec_remove_git(s@.skip(i as int)),
        decreases n - i,
    {
        let mut matched = false;
        if n >= 4 && i <= n - 4 {
            let w = s.substring_char(i, i + 4);
            if str_eq(w, ".git") {
                matched = true;
            }
            proof {
                assert(s@.skip(i as int).subrange(0, 4) =~= s@.subrange(i as int, i + 4));
            }
        }
        if matched {
            proof {
                assert(s@.skip(i as int).skip(4) =~= s@.skip(i + 4));
            }
            i = i + 4;
        } else {
            let c = s.substring_char(i, i + 1);
            out.append(c);
            proof {
                assert(s@.skip(i as int).len() > 0);
                if s@.skip(i as int).len() >= 4 {
                    assert(s@.skip(i as int).subrange(0, 4) =~= s@.subrange(i as int, i + 4));
                }
                assert(s@.skip(i as int)[0] == s@[i as int]);
                assert(s@.skip(i as int).drop_first() =~= s@.skip(i + 1));
                assert(c@ =~= seq![s@[i as int]]);
                assert(out@ + spec_remove_git(s@.skip(i + 1)) =~= (out@.subrange(
                    0,
                    out@.len() - 1,
                ) + (seq![s@[i as int]] + spec_remove_git(s@.skip(i + 1)))));
            }
            i = i + 1;
        }
    }
    proof {
        assert(s@.skip(s@.len() as int) =~= Seq::<char>::empty());
        assert(out@ + Seq::<char>::empty() =~= out@);
    }
    out
}

impl GithubRepoInput {
    /// Classifies a repository locator by its scheme. Locators of any other
    /// shape are unsupported and must not be handed in.
    pub fn new(repo_string: String) -> (r: Self)
        requires
            spec_is_https(repo_string@) || spec_is_ssh(repo_string@),
        ensures
            spec_is_https(repo_string@) ==> (r matches GithubRepoInput::Url(s) && s
                == repo_string),
            !spec_is_https(repo_string@) ==> (r matches GithubRepoInput::Ssh(s) && s
                == repo_string),
    {
        proof {
            reveal_strlit("https");
            reveal_strlit("git@");
        }
        if starts_with(repo_string.as_str(), "https") {
            GithubRepoInput::Url(repo_string)
        } else {
            GithubRepoInput::Ssh(repo_string)
        }
    }

    /// Parses the locator into an owner/name pair. Only URL locators are
    /// supported; SSH parsing is not implemented, so such a locator must not
    /// be handed in.
    pub fn parse(self) -> (r: Result<GithubRepo, OrandaError>)
        requires
            self is Url,
        ensures
            self matches GithubRepoInput::Url(s) ==> match r {
                Ok(repo) => spec_parsed_repo(s@) matches Some(p) && repo.owner@ == p.0
                    && repo.name@ == p.1,
                Err(e) => spec_parsed_repo(s@) is None && (e matches
                OrandaError::RepoParseError { repo } && repo@ == s@),
            },
    {
        match self {
            GithubRepoInput::Url(s) => GithubRepoInput::parse_url(s),
            GithubRepoInput::Ssh(_) => {
                proof {
                    assert(false);
                }
                Err(OrandaError::Other { details: String::new() })
            },
        }
    }

    /// Parses an `https` repository URL into an owner/name pair: the first
    /// path segment is the owner, the second (with a `.git` ending stripped)
    /// the name, and anything beyond the second segment must be whitespace
    /// only. Succeeds exactly on URLs of that shape; every other input is
    /// rejected as a repository-parse error carrying the offending URL.
    pub fn parse_url(repo_string: String) -> (r: Result<GithubRepo, OrandaError>)
        ensures
            match r {
                Ok(repo) => spec_parsed_repo(repo_string@) matches Some(p) && repo.owner@ == p.0
                    && repo.name@ == p.1,
                Err(e) => spec_parsed_repo(repo_string@) is None && (e matches
                    OrandaError::RepoParseError { repo } && repo@ == repo_string@),
            },
    {
        match url_path_segments(repo_string.as_str()) {
            Some(segments) => {
                let ghost segs = segments.deep_view();
                if segments.len() >= 2 {
                    let mut rest_empty = true;
                    let mut i: usize = 2;
                    while i < segments.len()
                        invariant
                            2 <= i <= segs.len(),
                            segments.deep_view() == segs,
                            segments@.len() == segs.len(),
                            rest_empty <==> (forall|j: int|
                                2 <= j < i ==> spec_trim(#[trigger] segs[j]).len() == 0),
                        decreases segments@.len() - i,
                    {
                        let t = trim_str(segments[i].as_str());
                        proof {
                            assert(segs[i as int] == segments@[i as int]@);
                        }
                        rest_empty = rest_empty && t.is_empty();
                        i = i + 1;
                    }
                    if rest_empty {
                        let owner = segments[0].clone();
                        let name = remove_git_suffix(segments[1].clone());
                        proof {
                            assert(segs[0] == segments@[0]@);
                            assert(segs[1] == segments@[1]@);
                        }
                        Ok(GithubRepo { owner, name })
                    } else {
                        Err(OrandaError::RepoParseError { repo: repo_string })
                    }
                } else {
                    Err(OrandaError::RepoParseError { repo: repo_string })
                }
            },
            None => Err(OrandaError::RepoParseError { repo: repo_string }),
        }
    }
}

/// Strips the `.git` ending from a repository name: when the name ends in
/// `.git`, every `.git` occurrence is removed; otherwise the name is
/// unchanged.
pub fn remove_git_suffix(s: String) -> (r: String)
    ensures
        r@ == spec_remove_git_suffix(s@),
{
    if crate::strutil::ends_with(s.as_str(), ".git") {
        proof {
            reveal_strlit(".git");
        }
        remove_all_git(s.as_str())
    } else {
        proof {
            reveal_strlit(".git");
        }
        s
    }
}

impl GithubRepo {
    /// Constructs a GitHub repository from an `https` repository URL.
    /// Notably, this does not check whether the repository actually exists.
    pub fn from_url(repo_url: &str) -> (r: Result<Self, OrandaError>)
        requires
            spec_is_https(repo_url@),
        ensures
            match r {
                Ok(repo) => spec_parsed_repo(repo_url@) matches Some(p) && repo.owner@ == p.0
                    && repo.name@ == p.1,
                Err(e) => spec_parsed_repo(repo_url@) is None && (e matches
                    OrandaError::RepoParseError { repo } && repo@ == repo_url@),
            },
    {
        GithubRepoInput::new(repo_url.to_owned()).parse()
    }
}

} // verus!
