use vstd::prelude::*;
use crate::errors::OrandaError;
use crate::strutil::str_eq;

pub mod repo;

verus! {

/// What parsing a URL and taking its path segments yields: `None` when the
/// string is not a valid absolute URL or the URL cannot have path segments,
/// otherwise the segments of its path, in order. A function of the string
/// alone.
pub uninterp spec fn spec_url_path_segments(s: Seq<char>) -> Option<Seq<Seq<char>>>;

/// Relies on url::Url::parse and url::Url::path_segments: parses an absolute
/// URL and hands back its path segments. The segments of a parsed URL are a
/// function of the input string alone, so the composite result carries one
/// name, `spec_url_path_segments`.
#[verifier::external_body]
pub(crate) fn url_path_segments(s: &str) -> (r: Option<Vec<String>>)
    ensures
        r is Some <==> spec_url_path_segments(s@) is Some,
        r matches Some(v) ==> Some(v.deep_view()) == spec_url_path_segments(s@),
{
    match url::Url::parse(s) {
        Ok(u) => match u.path_segments() {
            Some(segments) => Some(segments.map(|p| p.to_string()).collect()),
            None => None,
        },
        Err(_) => None,
    }
}

/// A GitHub repository, as an owner/name pair.
#[derive(Debug)]
pub struct GithubRepo {
    owner: String,
    name: String,
}

/// The owner/name pair that a repository URL denotes, when its path holds
/// exactly two segments: the first is the owner and the second the name.
pub open spec fn spec_repo_pair(s: Seq<char>) -> Option<(Seq<char>, Seq<char>)> {
    match spec_url_path_segments(s) {
        Some(segments) => if segments.len() == 2 {
            Some((segments[0], segments[1]))
        } else {
            None
        },
        None => None,
    }
}

impl GithubRepo {
    /// The repository owner.
    pub closed spec fn spec_owner(&self) -> Seq<char> {
        self.owner@
    }

    /// The repository name.
    pub closed spec fn spec_name(&self) -> Seq<char> {
        self.name@
    }

    /// The repository owner.
    pub fn owner(&self) -> (r: &String)
        ensures
            r@ == self.spec_owner(),
    {
        &self.owner
    }

    /// The repository name.
    pub fn name(&self) -> (r: &String)
        ensures
            r@ == self.spec_name(),
    {
        &self.name
    }

    /// Parses a repository URL into an owner/name pair. Succeeds exactly when
    /// the URL parses and its path holds exactly two segments; any other
    /// shape is rejected as a repository-parse error carrying the offending
    /// URL.
    pub fn from(repo_url: &str) -> (r: Result<Self, OrandaError>)
        ensures
            match r {
                Ok(repo) => spec_repo_pair(repo_url@) matches Some(p) && repo.spec_owner() == p.0
                    && repo.spec_name() == p.1,
                Err(e) => spec_repo_pair(repo_url@) is None && (e matches
                    OrandaError::RepoParseError { repo } && repo@ == repo_url@),
            },
    {
        match url_path_segments(repo_url) {
            Some(segments) => {
                if segments.len() == 2 {
                    let owner = segments[0].clone();
                    let name = segments[1].clone();
                    assert(segments.deep_view()[0] == owner@);
                    assert(segments.deep_view()[1] == name@);
                    Ok(GithubRepo { owner, name })
                } else {
                    Err(OrandaError::RepoParseError { repo: repo_url.to_owned() })
                }
            },
            None => Err(OrandaError::RepoParseError { repo: repo_url.to_owned() }),
        }
    }
}

/// One release of a GitHub repository, as the release API reports it.
#[derive(Debug)]
pub struct GithubRelease {
    pub url: String,
    pub assets_url: String,
    pub html_url: String,
    pub id: i64,
    pub tag_name: String,
    pub target_commitish: String,
    pub name: Option<String>,
    pub draft: bool,
    pub prerelease: bool,
    pub created_at: String,
    pub published_at: String,
    pub assets: Vec<GithubReleaseAsset>,
    pub tarball_url: String,
    pub zipball_url: String,
    pub body: Option<String>,
}

/// One downloadable asset of a GitHub release.
#[derive(Debug)]
pub struct GithubReleaseAsset {
    pub url: String,
    pub id: i64,
    pub node_id: String,
    pub name: String,
    pub label: String,
    pub content_type: String,
    pub state: String,
    pub size: i64,
    pub download_count: i64,
    pub created_at: String,
    pub updated_at: String,
    pub browser_download_url: String,
}

/// The download URL of the first asset with the given name, if any.
pub open spec fn spec_asset_url(assets: Seq<GithubReleaseAsset>, name: Seq<char>) -> Option<String>
    decreases assets.len(),
{
    if assets.len() == 0 {
        None
    } else if assets[0].name@ == name {
        Some(assets[0].browser_download_url)
    } else {
        spec_asset_url(assets.drop_first(), name)
    }
}

impl GithubRelease {
    /// The browser download URL of this release's first asset carrying the
    /// given name; `None` exactly when no asset does.
    pub fn asset_url(&self, asset_name: &str) -> (r: Option<String>)
        ensures
            r == spec_asset_url(self.assets@, asset_name@),
    {
        let ghost all = self.assets@;
        let mut i: usize = 0;
        proof {
            assert(all.skip(0) =~= all);
        }
        while i < self.assets.len()
            invariant
                i <= all.len(),
                self.assets@ == all,
                spec_asset_url(all, asset_name@) == spec_asset_url(
                    all.skip(i as int),
                    asset_name@,
                ),
            decreases all.len() - i,
        {
            proof {
                assert(all.skip(i as int).drop_first() =~= all.skip(i + 1));
                assert(all.skip(i as int)[0] == all[i as int]);
            }
            let asset = &self.assets[i];
            if str_eq(asset.name.as_str(), asset_name) {
                return Some(asset.browser_download_url.clone());
            }
            i = i + 1;
        }
        proof {
            assert(all.skip(all.len() as int) =~= Seq::<GithubReleaseAsset>::empty());
        }
        None
    }
}

} // verus!
