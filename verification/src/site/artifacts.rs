use vstd::prelude::*;
use vstd::string::{StringExecFns, StrSliceExecFns};
use crate::data::cargo_dist::{get_os, spec_os_label, DistArtifactInfo};
use crate::strutil::spec_trim;

verus! {

/// The target triples of an artifact joined into one string, each triple
/// followed by a single space.
pub open spec fn spec_targets(triples: Seq<String>) -> Seq<char>
    decreases triples.len(),
{
    if triples.len() == 0 {
        Seq::empty()
    } else {
        triples[0]@ + " "@ + spec_targets(triples.drop_first())
    }
}

/// The heading shown for an installable artifact: its description when the
/// manifest carries one; otherwise the operating-system label of its joined
/// target triples, falling back to the joined triples themselves when no
/// label is known.
pub open spec fn spec_title(a: DistArtifactInfo) -> Seq<char> {
    match a.description {
        Some(d) => d@,
        None => match spec_os_label(spec_trim(spec_targets(a.target_triples@))) {
            Some(os) => os,
            None => spec_targets(a.target_triples@),
        },
    }
}

/// One entry of the installer list on the artifacts page.
pub struct InstallerArtifact {
    title: String,
}

impl InstallerArtifact {
    /// The entry's heading.
    pub closed spec fn spec_entry_title(&self) -> Seq<char> {
        self.title@
    }

    /// Builds the list entry for one artifact.
    pub fn new(artifact: DistArtifactInfo) -> (r: Self)
        ensures
            r.spec_entry_title() == spec_title(artifact),
    {
        Self { title: Self::title(artifact) }
    }

    /// The heading for one artifact, as `spec_title` states it.
    pub fn title(artifact: DistArtifactInfo) -> (r: String)
        ensures
            r@ == spec_title(artifact),
    {
        let ghost triples = artifact.target_triples@;
        let mut targets = String::new();
        let mut i: usize = 0;
        proof {
            assert(triples.skip(0) =~= triples);
            assert(Seq::<char>::empty() + spec_targets(triples) =~= spec_targets(triples));
        }
        while i < artifact.target_triples.len()
            invariant
                i <= triples.len(),
                artifact.target_triples@ == triples,
                spec_targets(triples) == targets@ + spec_targets(triples.skip(i as int)),
            decreases artifact.target_triples.len() - i,
        {
            proof {
                assert(triples.skip(i as int).drop_first() =~= triples.skip(i + 1));
                assert(triples.skip(i as int)[0] == triples[i as int]);
            }
            targets.append(artifact.target_triples[i].as_str());
            targets.append(" ");
            proof {
                assert(targets@ + spec_targets(triples.skip(i + 1)) =~= targets@.subrange(
                    0,
                    targets@.len() - (triples[i as int]@.len() + " "@.len()),
                ) + ((triples[i as int]@ + " "@) + spec_targets(triples.skip(i + 1))));
            }
            i = i + 1;
        }
        proof {
            assert(triples.skip(triples.len() as int) =~= Seq::<String>::empty());
            assert(targets@ + Seq::<char>::empty() =~= targets@);
        }
        match artifact.description {
            Some(desc) => desc,
            None => match get_os(targets.as_str()) {
                Some(os) => os.to_owned(),
                None => targets,
            },
        }
    }
}

} // verus!
