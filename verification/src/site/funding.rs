use vstd::prelude::*;
use vstd::string::{StringExecFns, StrSliceExecFns};
use base64::Engine;
use crate::errors::OrandaError;

verus! {

/// A fetched repository file: its name and its transported content.
#[derive(Default, Debug, Clone, PartialEq)]
pub struct Contents {
    pub name: String,
    pub content: String,
}

/// The funding channels a repository declares in its funding metadata file.
/// Each field holds the account or project identifier of one channel.
#[derive(Default, Debug, Clone, PartialEq)]
pub struct Funding {
    pub github: Option<Vec<String>>,
    pub patreon: Option<String>,
    pub open_collective: Option<String>,
    pub ko_fi: Option<String>,
    pub tidelift: Option<String>,
    pub community_bridge: Option<String>,
    pub liberapay: Option<String>,
    pub issuehunt: Option<String>,
    pub lfx_crowdfunding: String,
    pub custom: Option<Vec<String>>,
}

/// The link an optional channel contributes: the channel's URL prefix with
/// the identifier appended, or nothing when the channel is not declared.
pub open spec fn spec_opt_link(prefix: Seq<char>, id: Option<String>) -> Seq<Seq<char>> {
    match id {
        Some(s) => seq![prefix + s@],
        None => Seq::empty(),
    }
}

/// The links of the GitHub sponsors channel, one per declared account.
pub open spec fn spec_github_links(ids: Option<Vec<String>>) -> Seq<Seq<char>> {
    match ids {
        Some(v) => v@.map_values(|g: String| "https://github.com/sponsors/"@ + g@),
        None => Seq::empty(),
    }
}

/// Every funding link of a declaration, in the fixed rendering order: GitHub
/// sponsors accounts first, then Patreon, Open Collective, Ko-fi, Tidelift,
/// Liberapay and IssueHunt. The remaining channels are not rendered.
pub open spec fn spec_funding_links(f: Funding) -> Seq<Seq<char>> {
    spec_github_links(f.github) + spec_opt_link("https://www.patreon.com/"@, f.patreon)
        + spec_opt_link("https://opencollective.com/"@, f.open_collective) + spec_opt_link(
        "https://ko-fi.com/"@,
        f.ko_fi,
    ) + spec_opt_link("https://tidelift.com/subscription/pkg/"@, f.tidelift) + spec_opt_link(
        "https://liberapay.com/"@,
        f.liberapay,
    ) + spec_opt_link("https://issuehunt.io/r/"@, f.issuehunt)
}

/// Computes the funding link URLs of a declaration, in rendering order, as
/// `spec_funding_links` states. The caller wraps each link in its markup.
#[verifier::rlimit(60)]
pub fn funding_link_urls(funding: &Funding) -> (r: Vec<String>)
    ensures
        r.deep_view() == spec_funding_links(*funding),
{
    let mut r: Vec<String> = Vec::new();
    if let Some(github) = &funding.github {
        let ghost ids = github@;
        let mut i: usize = 0;
        while i < github.len()
            invariant
                i <= ids.len(),
                github@ == ids,
                r@.len() == i,
                forall|j: int|
                    0 <= j < i ==> (#[trigger] r@[j])@ == "https://github.com/sponsors/"@
                        + ids[j]@,
            decreases github.len() - i,
        {
            let link = String::from_str("https://github.com/sponsors/").concat(
                github[i].as_str(),
            );
            r.push(link);
            i = i + 1;
        }
    }
    proof {
        assert(r.deep_view() =~= spec_github_links(funding.github));
    }
    let ghost done = spec_github_links(funding.github);
    if let Some(patreon) = &funding.patreon {
        r.push(String::from_str("https://www.patreon.com/").concat(patreon.as_str()));
    }
    proof {
        assert(r.deep_view() =~= done + spec_opt_link(
            "https://www.patreon.com/"@,
            funding.patreon,
        ));
    }
    let ghost done = done + spec_opt_link("https://www.patreon.com/"@, funding.patreon);
    if let Some(oc) = &funding.open_collective {
        r.push(String::from_str("https://opencollective.com/").concat(oc.as_str()));
    }
    proof {
        assert(r.deep_view() =~= done + spec_opt_link(
            "https://opencollective.com/"@,
            funding.open_collective,
        ));
    }
    let ghost done = done + spec_opt_link("https://opencollective.com/"@, funding.open_collective);
    if let Some(kofi) = &funding.ko_fi {
        r.push(String::from_str("https://ko-fi.com/").concat(kofi.as_str()));
    }
    proof {
        assert(r.deep_view() =~= done + spec_opt_link("https://ko-fi.com/"@, funding.ko_fi));
    }
    let ghost done = done + spec_opt_link("https://ko-fi.com/"@, funding.ko_fi);
    if let Some(tidelift) = &funding.tidelift {
        r.push(String::from_str("https://tidelift.com/subscription/pkg/").concat(
            tidelift.as_str(),
        ));
    }
    proof {
        assert(r.deep_view() =~= done + spec_opt_link(
            "https://tidelift.com/subscription/pkg/"@,
            funding.tidelift,
        ));
    }
    let ghost done = done + spec_opt_link(
        "https://tidelift.com/subscription/pkg/"@,
        funding.tidelift,
    );
    if let Some(liberapay) = &funding.liberapay {
        r.push(String::from_str("https://liberapay.com/").concat(liberapay.as_str()));
    }
    proof {
        assert(r.deep_view() =~= done + spec_opt_link(
            "https://liberapay.com/"@,
            funding.liberapay,
        ));
    }
    let ghost done = done + spec_opt_link("https://liberapay.com/"@, funding.liberapay);
    if let Some(issuehunt) = &funding.issuehunt {
        r.push(String::from_str("https://issuehunt.io/r/").concat(issuehunt.as_str()));
    }
    proof {
        assert(r.deep_view() =~= done + spec_opt_link(
            "https://issuehunt.io/r/"@,
            funding.issuehunt,
        ));
        assert(r.deep_view() =~= spec_funding_links(*funding));
    }
    r
}

/// What decoding standard base64 yields: `None` when the text is not valid
/// base64, otherwise the decoded bytes. A function of the text alone.
pub uninterp spec fn spec_base64_decode(s: Seq<char>) -> Option<Seq<u8>>;

/// Relies on base64's standard-alphabet engine: decodes base64 text into
/// bytes, rejecting invalid input.
#[verifier::external_body]
fn base64_decode(s: &str) -> (r: Option<Vec<u8>>)
    ensures
        r is Some <==> spec_base64_decode(s@) is Some,
        r matches Some(v) ==> Some(v@) == spec_base64_decode(s@),
{
    base64::engine::general_purpose::STANDARD.decode(s).ok()
}

/// The string with every newline character removed. The content of a fetched
/// funding file is base64 broken into lines; the newlines must go before
/// decoding.
pub open spec fn spec_strip_newlines(s: Seq<char>) -> Seq<char>
    decreases s.len(),
{
    if s.len() == 0 {
        s
    } else if s[0] == '\n' {
        spec_strip_newlines(s.drop_first())
    } else {
        seq![s[0]] + spec_strip_newlines(s.drop_first())
    }
}

/// Removes every newline character from a string.
fn strip_newlines(s: &str) -> (r: String)
    ensures
        r@ == spec_strip_newlines(s@),
{
    let n = s.unicode_len();
    let mut out = String::new();
    let mut i: usize = 0;
    proof {
        assert(s@.skip(0) =~= s@);
        assert(Seq::<char>::empty() + spec_strip_newlines(s@) =~= spec_strip_newlines(s@));
    }
    while i < n
        invariant
            n == s@.len(),
            i <= n,
            spec_strip_newlines(s@) == out@ + spec_strip_newlines(s@.skip(i as int)),
        decreases n - i,
    {
        proof {
            assert(s@.skip(i as int)[0] == s@[i as int]);
            assert(s@.skip(i as int).drop_first() =~= s@.skip(i + 1));
        }
        let c = s.get_char(i);
        if c != '\n' {
            let w = s.substring_char(i, i + 1);
            out.append(w);
            proof {
                assert(w@ =~= seq![s@[i as int]]);
                assert(out@ + spec_strip_newlines(s@.skip(i + 1)) =~= (out@.subrange(
                    0,
                    out@.len() - 1,
                ) + (seq![s@[i as int]] + spec_strip_newlines(s@.skip(i + 1)))));
            }
        }
        i = i + 1;
    }
    proof {
        assert(s@.skip(s@.len() as int) =~= Seq::<char>::empty());
        assert(out@ + Seq::<char>::empty() =~= out@);
    }
    out
}

/// What a fetched funding file decodes to: its transported content with the
/// line breaks removed, base64-decoded.
pub open spec fn spec_decoded_funding(content: Seq<char>) -> Option<Seq<u8>> {
    spec_base64_decode(spec_strip_newlines(content))
}

/// Decodes the fetched funding metadata file into the bytes of its funding
/// declaration. Succeeds exactly when the transported content, line breaks
/// removed, is valid base64; anything else is a parse failure carrying the
/// file's name.
pub fn decode_funding_contents(contents: &Contents) -> (r: Result<Vec<u8>, OrandaError>)
    ensures
        match r {
            Ok(bytes) => spec_decoded_funding(contents.content@) == Some(bytes@),
            Err(e) => spec_decoded_funding(contents.content@) is None && e is Other,
        },
{
    let stripped = strip_newlines(contents.content.as_str());
    match base64_decode(stripped.as_str()) {
        Some(bytes) => Ok(bytes),
        None => Err(OrandaError::Other { details: contents.name.clone() }),
    }
}

} // verus!
