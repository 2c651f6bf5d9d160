use vstd::prelude::*;
use vstd::string::StringExecFns;
use crate::data::Release;
use crate::errors::OrandaError;

verus! {

/// The kind of a released artifact, as the dist manifest classifies it. Kinds
/// the site does not distinguish fall under `Other`.
#[derive(Debug, Clone, Copy, PartialEq, Eq, Structural)]
pub enum ArtifactKind {
    ExecutableZip,
    Symbols,
    Installer,
    Other,
}

/// The slice of a dist-manifest artifact that the site reads: its name, its
/// kind, the target triples it was built for, and its description.
#[derive(Debug)]
pub struct DistArtifactInfo {
    pub name: Option<String>,
    pub kind: ArtifactKind,
    pub target_triples: Vec<String>,
    pub description: Option<String>,
}

/// The display label of an artifact kind.
pub open spec fn spec_kind_string(kind: ArtifactKind) -> Seq<char> {
    match kind {
        ArtifactKind::ExecutableZip => "Executable Zip"@,
        ArtifactKind::Symbols => "Symbols"@,
        ArtifactKind::Installer => "Installer"@,
        ArtifactKind::Other => "Unknown"@,
    }
}

/// The display label shown for an artifact kind in the downloads table.
pub fn get_kind_string(kind: &ArtifactKind) -> (r: String)
    ensures
        r@ == spec_kind_string(*kind),
{
    match kind {
        ArtifactKind::ExecutableZip => String::from_str("Executable Zip"),
        ArtifactKind::Symbols => String::from_str("Symbols"),
        ArtifactKind::Installer => String::from_str("Installer"),
        ArtifactKind::Other => String::from_str("Unknown"),
    }
}

/// An installer recommendation derived from a release.
pub struct Installer {
    hint: String,
}

impl Installer {
    /// The command hint shown to users.
    pub closed spec fn spec_hint(&self) -> Seq<char> {
        self.hint@
    }

    /// The command hint shown to users.
    pub fn hint(&self) -> (r: &String)
        ensures
            r@ == self.spec_hint(),
    {
        &self.hint
    }

    /// Derives an installer recommendation from a release. The hint is a
    /// fixed placeholder for now.
    pub fn new(release: Release) -> (r: Result<Self, OrandaError>)
        ensures
            r matches Ok(inst) && inst.spec_hint() == "dummy"@,
    {
        let hint = String::from_str("dummy");
        Ok(Self { hint })
    }
}

/// Maps a target triple to the short operating-system label shown to users,
/// after trimming surrounding whitespace; unrecognized triples have none.
pub open spec fn spec_os_label(name: Seq<char>) -> Option<Seq<char>> {
    if name == "x86_64-unknown-linux-gnu"@ {
        Some("linux"@)
    } else if name == "x86_64-apple-darwin"@ {
        Some("mac"@)
    } else if name == "aarch64-apple-darwin"@ {
        Some("arm mac"@)
    } else if name == "x86_64-pc-windows-msvc"@ {
        Some("windows"@)
    } else {
        None
    }
}

/// The short operating-system label of a target triple, ignoring surrounding
/// whitespace; `None` exactly for the triples no label is known for.
pub fn get_os(name: &str) -> (r: Option<&str>)
    ensures
        r.deep_view() == spec_os_label(crate::strutil::spec_trim(name@)),
{
    let trimmed = crate::strutil::trim_str(name);
    if crate::strutil::str_eq(trimmed, "x86_64-unknown-linux-gnu") {
        Some("linux")
    } else if crate::strutil::str_eq(trimmed, "x86_64-apple-darwin") {
        Some("mac")
    } else if crate::strutil::str_eq(trimmed, "aarch64-apple-darwin") {
        Some("arm mac")
    } else if crate::strutil::str_eq(trimmed, "x86_64-pc-windows-msvc") {
        Some("windows")
    } else {
        None
    }
}

} // verus!
