//! Regular expressions, as the `regex` crate understands them.

use vstd::prelude::*;
use regex::Regex;

verus! {

/// Whether `pattern` is accepted as a regular expression.
pub uninterp spec fn spec_accepts(pattern: Seq<char>) -> bool;

/// Tests with `Regex::new` whether `pattern` is accepted as a regular
/// expression, which depends on the pattern alone; the result is given the
/// name `spec_accepts`.
#[verifier::external_body]
pub(crate) fn accepts(pattern: &str) -> (accepted: bool)
    ensures
        accepted == spec_accepts(pattern@),
{
    Regex::new(pattern).is_ok()
}

/// Whether the regular expression `pattern` matches somewhere in
/// `haystack`; nothing if `pattern` is not accepted as a regular
/// expression.
pub uninterp spec fn spec_is_match(pattern: Seq<char>, haystack: Seq<char>) -> Option<bool>;

/// The leftmost match of the regular expression `pattern` in `haystack`, if
/// there is one; nothing at all if `pattern` is not accepted as a regular
/// expression.
pub uninterp spec fn spec_find(pattern: Seq<char>, haystack: Seq<char>) -> Option<
    Option<Seq<char>>,
>;

/// Compiles `pattern` with `Regex::new` and tests it on `haystack` with
/// `Regex::is_match`. Both depend on their arguments alone; the result is
/// given the name `spec_is_match`. There is a result exactly when the
/// pattern is accepted.
#[verifier::external_body]
pub(crate) fn is_match(pattern: &str, haystack: &str) -> (found: Option<bool>)
    ensures
        found == spec_is_match(pattern@, haystack@),
        found is Some <==> spec_accepts(pattern@),
{
    match Regex::new(pattern) {
        Ok(regex) => Some(regex.is_match(haystack)),
        Err(_) => None,
    }
}

/// Compiles `pattern` with `Regex::new` and searches `haystack` with
/// `Regex::find`, handing back the text that matched. Both depend on their
/// arguments alone; the result is given the name `spec_find`.
#[verifier::external_body]
pub(crate) fn find(pattern: &str, haystack: &str) -> (found: Option<Option<String>>)
    ensures
        found is Some <==> spec_find(pattern@, haystack@) is Some,
        found matches Some(inner) ==> {
            &&& inner is Some <==> spec_find(pattern@, haystack@)->0 is Some
            &&& inner matches Some(text) ==> text@ == spec_find(pattern@, haystack@)->0->0
        },
{
    match Regex::new(pattern) {
        Ok(regex) => match regex.find(haystack) {
            Some(found) => Some(Some(found.as_str().to_string())),
            None => Some(None),
        },
        Err(_) => None,
    }
}

} // verus!
