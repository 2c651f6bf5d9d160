use vstd::prelude::*;

verus! {

/// What `str::trim` returns: the string without its leading and trailing
/// whitespace. Whitespace is the Unicode property the standard library uses;
/// the result depends on the characters alone.
pub uninterp spec fn spec_trim(s: Seq<char>) -> Seq<char>;

/// Relies on str::trim: returns the string without leading and trailing
/// whitespace; an empty string stays empty.
#[verifier::external_body]
pub(crate) fn trim_str(s: &str) -> (r: &str)
    ensures
        r@ == spec_trim(s@),
        s@.len() == 0 ==> r@.len() == 0,
        r@.len() <= s@.len(),
{
    s.trim()
}

/// Relies on str's PartialEq: two string slices are equal exactly when their
/// character sequences are.
#[verifier::external_body]
pub(crate) fn str_eq(a: &str, b: &str) -> (r: bool)
    ensures
        r == (a@ == b@),
{
    a == b
}

/// Relies on str::starts_with: true exactly when the pattern is a prefix of
/// the string.
#[verifier::external_body]
pub(crate) fn starts_with(s: &str, prefix: &str) -> (r: bool)
    ensures
        r == (s@.len() >= prefix@.len() && s@.subrange(0, prefix@.len() as int) == prefix@),
{
    s.starts_with(prefix)
}

/// Relies on str::ends_with: true exactly when the pattern is a suffix of the
/// string.
#[verifier::external_body]
pub(crate) fn ends_with(s: &str, suffix: &str) -> (r: bool)
    ensures
        r == (s@.len() >= suffix@.len() && s@.subrange(
            s@.len() - suffix@.len(),
            s@.len() as int,
        ) == suffix@),
{
    s.ends_with(suffix)
}

} // verus!
