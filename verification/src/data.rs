use vstd::prelude::*;
use crate::data::github::GithubRelease;

pub mod cargo_dist;
pub mod github;

verus! {

/// The slice of a release's dist manifest that the site reads: the
/// announcement changelog, when the manifest carries one.
#[derive(Debug)]
pub struct DistManifestInfo {
    pub announcement_changelog: Option<String>,
}

/// One release: the release data itself, and its dist manifest when the
/// release publishes one.
#[derive(Debug)]
pub struct Release {
    pub manifest: Option<DistManifestInfo>,
    pub source: GithubRelease,
}

/// All fetched releases, newest first, and whether any of them is a
/// prerelease.
#[derive(Debug)]
pub struct Releases {
    pub all: Vec<Release>,
    pub has_prereleases: bool,
}

/// The first release of the sequence whose dist manifest is present, if any.
pub open spec fn spec_latest_dist_release(all: Seq<Release>) -> Option<Release>
    decreases all.len(),
{
    if all.len() == 0 {
        None
    } else if all[0].manifest is Some {
        Some(all[0])
    } else {
        spec_latest_dist_release(all.drop_first())
    }
}

impl Releases {
    /// Assembles the release list into the structure the site consumes,
    /// recording whether any release is a prerelease. This is the pure part
    /// of fetching: the caller obtains the list from the release API and
    /// hands it over.
    pub fn assemble(all: Vec<Release>) -> (r: Releases)
        ensures
            r.all@ == all@,
            r.has_prereleases == exists|i: int|
                0 <= i < all@.len() && (#[trigger] all@[i].source.prerelease),
    {
        let ghost input = all@;
        let mut has_prereleases = false;
        let mut i: usize = 0;
        while i < all.len()
            invariant
                i <= input.len(),
                all@ == input,
                has_prereleases == exists|j: int|
                    0 <= j < i && (#[trigger] input[j].source.prerelease),
            decreases all.len() - i,
        {
            if all[i].source.prerelease {
                has_prereleases = true;
            }
            i = i + 1;
        }
        Releases { all, has_prereleases }
    }

    /// The newest release, when at least one was fetched.
    pub fn latest(&self) -> (r: Option<&Release>)
        ensures
            match r {
                Some(rel) => self.all@.len() > 0 && *rel == self.all@[0],
                None => self.all@.len() == 0,
            },
    {
        if self.all.len() > 0 {
            Some(&self.all[0])
        } else {
            None
        }
    }

    /// The newest release that publishes a dist manifest, if any.
    pub fn latest_dist_release(&self) -> (r: Option<&Release>)
        ensures
            match r {
                Some(rel) => spec_latest_dist_release(self.all@) == Some(*rel),
                None => spec_latest_dist_release(self.all@) is None,
            },
    {
        let ghost all = self.all@;
        let mut i: usize = 0;
        proof {
            assert(all.skip(0) =~= all);
        }
        while i < self.all.len()
            invariant
                i <= all.len(),
                self.all@ == all,
                spec_latest_dist_release(all) == spec_latest_dist_release(all.skip(i as int)),
            decreases all.len() - i,
        {
            proof {
                assert(all.skip(i as int).drop_first() =~= all.skip(i + 1));
                assert(all.skip(i as int)[0] == all[i as int]);
            }
            if self.all[i].manifest.is_some() {
                return Some(&self.all[i]);
            }
            i = i + 1;
        }
        proof {
            assert(all.skip(all.len() as int) =~= Seq::<Release>::empty());
        }
        None
    }
}

} // verus!
