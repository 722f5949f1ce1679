//! HTML patterns, as the `easy_scraper` crate matches them, and what the
//! extractors read out of a match.

use vstd::prelude::*;
use crate::novels::providers::site_pattern;

verus! {

/// The placeholders of one match with the text each was bound to, in the
/// order of their names.
pub type Bindings = Vec<(String, String)>;

/// Whether `easy_scraper::Pattern::new` accepts the pattern.
pub uninterp spec fn scrape_accepts(pattern: Seq<char>) -> bool;

/// The matches that `easy_scraper::Pattern::matches` finds for the pattern
/// in the document, in the order in which it returns them; each match as
/// its pairs of placeholder and bound text, in the order of its map.
pub uninterp spec fn scrape_matches(pattern: Seq<char>, html: Seq<char>) -> Seq<
    Seq<(Seq<char>, Seq<char>)>,
>;

/// Calls `easy_scraper::Pattern::new` and, on the pattern it built,
/// `easy_scraper::Pattern::matches`, and copies each match's map into
/// pairs. Trusted: the result is `None` exactly where the crate rejects the
/// pattern, and otherwise the matches that the crate returns. The crate
/// panics on some patterns (a subtree placeholder beside other nodes, text
/// around a placeholder that is no regular expression); the patterns of this
/// library hold neither, and only they are admitted. The crate walks a
/// document by recursion, as deep as its elements are nested: no bound on
/// that depth is stated here.
#[verifier::external_body]
pub(crate) fn scrape(pattern: &str, html: &str) -> (r: Option<Vec<Bindings>>)
    requires
        site_pattern(pattern@),
    ensures
        r is Some <==> scrape_accepts(pattern@),
        r matches Some(found) ==> found.deep_view() == scrape_matches(pattern@, html@),
{
    match easy_scraper::Pattern::new(pattern) {
        Ok(p) => Some(p.matches(html).into_iter().map(|m| m.into_iter().collect()).collect()),
        Err(_) => None,
    }
}

/// The text bound to the placeholder `key` in a match: that of the first
/// pair with this name.
pub open spec fn bound(m: Seq<(Seq<char>, Seq<char>)>, key: Seq<char>) -> Option<Seq<char>>
    decreases m.len(),
{
    if m.len() == 0 {
        None
    } else if m[0].0 == key {
        Some(m[0].1)
    } else {
        bound(m.skip(1), key)
    }
}

/// Whether every match binds the placeholder `key`.
pub open spec fn all_bind(matches: Seq<Seq<(Seq<char>, Seq<char>)>>, key: Seq<char>) -> bool {
    forall|i: int| 0 <= i < matches.len() ==> bound(#[trigger] matches[i], key) is Some
}

/// The text that each match binds to the placeholder `key`, match by match.
pub open spec fn bound_texts(matches: Seq<Seq<(Seq<char>, Seq<char>)>>, key: Seq<char>) -> Seq<
    Seq<char>,
> {
    Seq::new(matches.len(), |i: int| bound(matches[i], key).unwrap())
}

/// Reads the text bound to the placeholder `key` in a match.
pub fn binding(m: &Bindings, key: &str) -> (r: Option<String>)
    ensures
        r.deep_view() == bound(m.deep_view(), key@),
{
    let wanted = key.to_string();
    let mut i: usize = 0;
    assert(m.deep_view().skip(0) =~= m.deep_view());
    while i < m.len()
        invariant
            i <= m.len(),
            wanted@ == key@,
            bound(m.deep_view(), key@) == bound(m.deep_view().skip(i as int), key@),
        decreases m.len() - i,
    {
        assert(m.deep_view().skip(i as int)[0] == m@[i as int].deep_view());
        assert(m.deep_view().skip(i as int).skip(1) == m.deep_view().skip(i + 1));
        if m[i].0 == wanted {
            return Some(m[i].1.clone());
        }
        i += 1;
    }
    None
}

/// Reads the text that each match binds to the placeholder `key`; `None` if
/// some match does not bind it.
pub fn bindings(matches: &Vec<Bindings>, key: &str) -> (r: Option<Vec<String>>)
    ensures
        r is Some <==> all_bind(matches.deep_view(), key@),
        r matches Some(texts) ==> texts.deep_view() == bound_texts(matches.deep_view(), key@),
        r matches Some(texts) ==> texts.len() == matches.len(),
{
    let mut texts: Vec<String> = Vec::new();
    let mut i: usize = 0;
    while i < matches.len()
        invariant
            i <= matches.len(),
            texts.len() == i,
            forall|j: int| 0 <= j < i ==> bound(#[trigger] matches.deep_view()[j], key@) is Some,
            forall|j: int|
                0 <= j < i ==> (#[trigger] texts@[j])@ == bound(
                    matches.deep_view()[j],
                    key@,
                ).unwrap(),
        decreases matches.len() - i,
    {
        assert(matches.deep_view()[i as int] == matches@[i as int].deep_view());
        match binding(&matches[i], key) {
            Some(text) => {
                texts.push(text);
            },
            None => {
                return None;
            },
        }
        i += 1;
    }
    assert(texts.deep_view() =~= bound_texts(matches.deep_view(), key@));
    Some(texts)
}

} // verus!
