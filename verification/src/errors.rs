use vstd::prelude::*;

verus! {

/// Errors surfaced by the library's own logic.
///
/// Fatal-versus-recoverable policy: errors raised before the watch loop starts
/// (configuration, watch subscriptions, the initial build) are treated as fatal
/// by the caller; errors raised inside the loop (per-event watch transport
/// errors, rebuild failures) are reported and recovered from.
#[derive(Debug)]
pub enum OrandaError {
    /// A repository URL could not be parsed into an owner/name pair.
    RepoParseError { repo: String },
    /// A catch-all for failures of outside collaborators.
    Other { details: String },
}

impl OrandaError {
    /// A short label for the error variant, usable in diagnostics.
    pub fn label(&self) -> (r: &'static str)
        ensures
            (self is RepoParseError ==> r@ == "repository URL could not be parsed"@),
            (self is Other ==> r@ == "error"@),
    {
        match self {
            OrandaError::RepoParseError { .. } => "repository URL could not be parsed",
            OrandaError::Other { .. } => "error",
        }
    }
}

} // verus!
