//! Matching and replacing in text: regular expressions, as the `regex`
//! crate evaluates them, and plain replacement, as std does it.
//!
//! Nothing in this module is proved: it names what the `regex` crate
//! computes, states what std documents, and wraps the calls, so that callers
//! can state their results exactly.

use vstd::prelude::*;

verus! {

/// Whether `regex::Regex::new` accepts the pattern.
pub uninterp spec fn regex_accepts(pattern: Seq<char>) -> bool;

/// Whether the expression that `regex::Regex::new` compiles from the pattern
/// finds a match anywhere in the haystack (`regex::Regex::is_match`).
pub uninterp spec fn regex_is_match(pattern: Seq<char>, haystack: Seq<char>) -> bool;

/// The haystack after `regex::Regex::replace`: its leftmost match replaced
/// by the replacement, in which `$1`, `$2`, ... stand for capture groups.
pub uninterp spec fn regex_replace(
    pattern: Seq<char>,
    haystack: Seq<char>,
    replacement: Seq<char>,
) -> Seq<char>;

/// The haystack after `regex::Regex::replace_all`: each of its
/// non-overlapping matches replaced by the replacement, in which `$1`,
/// `$2`, ... stand for capture groups.
pub uninterp spec fn regex_replace_all(
    pattern: Seq<char>,
    haystack: Seq<char>,
    replacement: Seq<char>,
) -> Seq<char>;

/// Calls `regex::Regex::new` and, on the compiled expression,
/// `regex::Regex::is_match`. Trusted: the result is `None` exactly where the
/// crate rejects the pattern, and otherwise what the crate answers.
#[verifier::external_body]
pub(crate) fn is_match(pattern: &str, haystack: &str) -> (r: Option<bool>)
    ensures
        r is Some <==> regex_accepts(pattern@),
        r matches Some(found) ==> found == regex_is_match(pattern@, haystack@),
{
    match regex::Regex::new(pattern) {
        Ok(re) => Some(re.is_match(haystack)),
        Err(_) => None,
    }
}

/// Calls `regex::Regex::new` and, on the compiled expression,
/// `regex::Regex::replace`. Trusted: the result is `None` exactly where the
/// crate rejects the pattern, and otherwise the text that the crate returns.
#[verifier::external_body]
pub(crate) fn replace_first(pattern: &str, haystack: &str, replacement: &str) -> (r: Option<String>)
    ensures
        r is Some <==> regex_accepts(pattern@),
        r matches Some(text) ==> text@ == regex_replace(pattern@, haystack@, replacement@),
{
    match regex::Regex::new(pattern) {
        Ok(re) => Some(re.replace(haystack, replacement).into_owned()),
        Err(_) => None,
    }
}

/// Calls `regex::Regex::new` and, on the compiled expression,
/// `regex::Regex::replace_all`. Trusted: the result is `None` exactly where
/// the crate rejects the pattern, and otherwise the text that the crate
/// returns.
#[verifier::external_body]
pub(crate) fn replace_all(pattern: &str, haystack: &str, replacement: &str) -> (r: Option<String>)
    ensures
        r is Some <==> regex_accepts(pattern@),
        r matches Some(text) ==> text@ == regex_replace_all(pattern@, haystack@, replacement@),
{
    match regex::Regex::new(pattern) {
        Ok(re) => Some(re.replace_all(haystack, replacement).into_owned()),
        Err(_) => None,
    }
}

/// A text with every occurrence of `from` replaced by `to`, the occurrences
/// taken from the left and not overlapping. Where `from` is empty, the text
/// itself.
pub open spec fn replaced(text: Seq<char>, from: Seq<char>, to: Seq<char>) -> Seq<char>
    decreases text.len(),
{
    if from.len() == 0 || text.len() < from.len() {
        text
    } else if text.take(from.len() as int) == from {
        to + replaced(text.skip(from.len() as int), from, to)
    } else {
        seq![text[0]] + replaced(text.skip(1), from, to)
    }
}

/// Calls `str::replace` of std. Trusted: the result is the text with every
/// occurrence of `from` replaced by `to`, as std documents it. What std does
/// with an empty `from` it does not say, so none is admitted.
#[verifier::external_body]
pub(crate) fn replace(text: &str, from: &str, to: &str) -> (r: String)
    requires
        from@.len() > 0,
    ensures
        r@ == replaced(text@, from@, to@),
{
    text.replace(from, to)
}

} // verus!
