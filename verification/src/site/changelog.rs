use vstd::prelude::*;
use vstd::string::StringExecFns;
use crate::data::Release;

verus! {

/// What formatting a publication timestamp yields: `None` when the string is
/// not a valid RFC 3339 timestamp, otherwise the human-readable label in the
/// fixed month/day/year-at-time pattern. A function of the string alone.
pub uninterp spec fn spec_rfc3339_label(s: Seq<char>) -> Option<Seq<char>>;

/// Relies on chrono's DateTime::parse_from_rfc3339 and its formatter with
/// the fixed pattern `%b %e %Y at %R UTC`: the label depends on the
/// timestamp string alone.
#[verifier::external_body]
fn format_rfc3339(s: &str) -> (r: Option<String>)
    ensures
        r is Some <==> spec_rfc3339_label(s@) is Some,
        r matches Some(l) ==> Some(l@) == spec_rfc3339_label(s@),
{
    match chrono::DateTime::parse_from_rfc3339(s) {
        Ok(date) => Some(date.format("%b %e %Y at %R UTC").to_string()),
        Err(_) => None,
    }
}

/// The date label shown for a release: the publication timestamp formatted
/// when it is valid RFC 3339, the raw timestamp string otherwise.
pub open spec fn spec_published_label(s: Seq<char>) -> Seq<char> {
    match spec_rfc3339_label(s) {
        Some(label) => label,
        None => s,
    }
}

/// Formats a publication timestamp for display, as `spec_published_label`
/// states.
pub fn published_date_label(published_at: &String) -> (r: String)
    ensures
        r@ == spec_published_label(published_at@),
{
    match format_rfc3339(published_at.as_str()) {
        Some(label) => label,
        None => published_at.clone(),
    }
}

/// The display pieces of one release's changelog entry; the markdown body
/// and the markup around these pieces are rendered elsewhere.
pub struct PreviewMeta {
    /// The heading: the release's name, or its tag when it has none.
    pub title: String,
    /// The in-page anchor link of the entry.
    pub link: String,
    /// The formatted publication date.
    pub date_label: String,
    /// The entry's class names; prereleases start out hidden.
    pub classnames: String,
}

impl PreviewMeta {
    /// Computes the display pieces of one release's changelog entry.
    pub fn new(release: &Release) -> (r: PreviewMeta)
        ensures
            r.title@ == (match release.source.name {
                Some(n) => n@,
                None => release.source.tag_name@,
            }),
            r.link@ == "#"@ + release.source.tag_name@,
            r.date_label@ == spec_published_label(release.source.published_at@),
            r.classnames@ == (if release.source.prerelease {
                "release pre-release hidden"@
            } else {
                "release"@
            }),
    {
        let title = match &release.source.name {
            Some(n) => n.clone(),
            None => release.source.tag_name.clone(),
        };
        let link = String::from_str("#").concat(release.source.tag_name.as_str());
        let date_label = published_date_label(&release.source.published_at);
        let classnames = if release.source.prerelease {
            String::from_str("release pre-release hidden")
        } else {
            String::from_str("release")
        };
        PreviewMeta { title, link, date_label, classnames }
    }
}

/// The markdown source of a release's body: the announcement changelog of
/// its dist manifest when the release publishes one (empty when the manifest
/// has no changelog), the release's own body text otherwise.
pub open spec fn spec_release_body_source(release: Release) -> Seq<char> {
    match release.manifest {
        Some(m) => match m.announcement_changelog {
            Some(c) => c@,
            None => Seq::empty(),
        },
        None => match release.source.body {
            Some(b) => b@,
            None => Seq::empty(),
        },
    }
}

/// Selects the markdown source of a release's body, as
/// `spec_release_body_source` states; rendering it to HTML happens
/// elsewhere.
pub fn release_body_source(release: &Release) -> (r: String)
    ensures
        r@ == spec_release_body_source(*release),
{
    match &release.manifest {
        Some(m) => match &m.announcement_changelog {
            Some(c) => c.clone(),
            None => String::new(),
        },
        None => match &release.source.body {
            Some(b) => b.clone(),
            None => String::new(),
        },
    }
}

} // verus!
