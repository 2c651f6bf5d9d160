use vstd::prelude::*;
use vstd::string::{StringExecFns, StrSliceExecFns};
use crate::errors::OrandaError;

verus! {

/// What the CSS minifier yields for a stylesheet: `None` when the text is not
/// minifiable, otherwise the minified text. A function of the text alone.
pub uninterp spec fn spec_minified_css(s: Seq<char>) -> Option<Seq<char>>;

/// Relies on minifier's CSS minifier: minifies a stylesheet, rejecting text
/// it cannot process.
#[verifier::external_body]
fn minify_css(s: &str) -> (r: Option<String>)
    ensures
        r is Some <==> spec_minified_css(s@) is Some,
        r matches Some(m) ==> Some(m@) == spec_minified_css(s@),
{
    match minifier::css::minify(s) {
        Ok(minified) => Some(minified.to_string()),
        Err(_) => None,
    }
}

/// The concatenation of the given stylesheets, each minified and preceded by
/// a comment naming its file, in order; `None` as soon as one of them cannot
/// be minified.
pub open spec fn spec_concat_minified(files: Seq<(String, String)>) -> Option<Seq<char>>
    decreases files.len(),
{
    if files.len() == 0 {
        Some(Seq::empty())
    } else {
        match spec_minified_css(files[0].1@) {
            None => None,
            Some(m) => match spec_concat_minified(files.drop_first()) {
                None => None,
                Some(rest) => Some("/* "@ + files[0].0@ + " */"@ + m + rest),
            },
        }
    }
}

/// Minifies each stylesheet and joins them, each preceded by a comment
/// naming its file. The caller loads the files and hands them over as
/// name/content pairs; a stylesheet the minifier rejects fails the whole
/// concatenation with its file name.
pub fn concat_minify(css_files: &Vec<(String, String)>) -> (r: Result<String, OrandaError>)
    ensures
        match r {
            Ok(s) => spec_concat_minified(css_files@) == Some(s@),
            Err(e) => spec_concat_minified(css_files@) is None && e is Other,
        },
{
    let ghost all = css_files@;
    let mut out = String::new();
    let mut i: usize = 0;
    proof {
        assert(all.skip(0) =~= all);
    }
    while i < css_files.len()
        invariant
            i <= all.len(),
            css_files@ == all,
            match spec_concat_minified(all.skip(i as int)) {
                Some(rest) => spec_concat_minified(all) == Some(out@ + rest),
                None => spec_concat_minified(all) is None,
            },
        decreases css_files.len() - i,
    {
        proof {
            assert(all.skip(i as int)[0] == all[i as int]);
            assert(all.skip(i as int).drop_first() =~= all.skip(i + 1));
        }
        let file = &css_files[i];
        match minify_css(file.1.as_str()) {
            Some(minified) => {
                out.append("/* ");
                out.append(file.0.as_str());
                out.append(" */");
                out.append(minified.as_str());
                proof {
                    if spec_concat_minified(all.skip(i + 1)) is Some {
                        let rest = spec_concat_minified(all.skip(i + 1)).unwrap();
                        assert(out@ + rest =~= out@.subrange(
                            0,
                            out@.len() - ("/* "@ + all[i as int].0@ + " */"@
                                + minified@).len(),
                        ) + (("/* "@ + all[i as int].0@ + " */"@ + minified@) + rest));
                    }
                }
            },
            None => {
                return Err(OrandaError::Other { details: file.0.clone() });
            },
        }
        i = i + 1;
    }
    proof {
        assert(all.skip(all.len() as int) =~= Seq::<(String, String)>::empty());
        assert(out@ + Seq::<char>::empty() =~= out@);
    }
    Ok(out)
}

} // verus!
