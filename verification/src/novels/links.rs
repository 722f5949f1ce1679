//! Chapter lists: what the sites' extractors share in reading the
//! addresses off a table-of-contents page.

use vstd::prelude::*;
use crate::novels::providers::{listed, site_pattern, LinkError};
use crate::scraping::{all_bind, bindings, bound_texts, scrape, scrape_accepts, scrape_matches};

verus! {

/// The texts of a list that are not empty.
pub open spec fn filled() -> spec_fn(Seq<char>) -> bool {
    |text: Seq<char>| text.len() > 0
}

/// The addresses that the matches of `pattern` in a page bind to `url`:
/// an error where the pattern is rejected, where nothing matches, and where
/// a match binds no address.
pub open spec fn addresses(pattern: Seq<char>, html: Seq<char>) -> Result<
    Seq<Seq<char>>,
    LinkError,
> {
    if !scrape_accepts(pattern) {
        Err(LinkError::PatternRejected)
    } else {
        let found = scrape_matches(pattern, html);
        if found.len() == 0 || !all_bind(found, "url"@) {
            Err(LinkError::NoChapterLink)
        } else {
            Ok(bound_texts(found, "url"@))
        }
    }
}

/// Reads the addresses that the matches of `pattern` in a page bind to `url`.
pub(crate) fn read_addresses(pattern: &str, html: &str) -> (r: Result<Vec<String>, LinkError>)
    requires
        site_pattern(pattern@),
    ensures
        listed(r) == addresses(pattern@, html@),
        r matches Ok(links) ==> links.len() > 0,
{
    let found = match scrape(pattern, html) {
        Some(found) => found,
        None => {
            return Err(LinkError::PatternRejected);
        },
    };
    if found.len() == 0 {
        return Err(LinkError::NoChapterLink);
    }
    match bindings(&found, "url") {
        Some(links) => Ok(links),
        None => Err(LinkError::NoChapterLink),
    }
}

/// Drops the empty texts of a list and keeps the others in their order.
pub fn without_empty(texts: Vec<String>) -> (kept: Vec<String>)
    ensures
        kept.deep_view() == texts.deep_view().filter(filled()),
{
    let mut kept: Vec<String> = Vec::new();
    let mut i: usize = 0;
    proof {
        reveal(Seq::filter);
        assert(texts.deep_view().take(0) =~= Seq::<Seq<char>>::empty());
    }
    while i < texts.len()
        invariant
            i <= texts.len(),
            kept.deep_view() == texts.deep_view().take(i as int).filter(filled()),
        decreases texts.len() - i,
    {
        let ghost before = kept.deep_view();
        proof {
            reveal(Seq::filter);
            let next = texts.deep_view().take(i + 1);
            assert(next.drop_last() =~= texts.deep_view().take(i as int));
            assert(next.last() == texts@[i as int]@);
        }
        if !texts[i].as_str().is_empty() {
            kept.push(texts[i].clone());
            assert(kept.deep_view() =~= before.push(texts@[i as int]@));
        }
        i += 1;
    }
    assert(texts.deep_view().take(texts.len() as int) =~= texts.deep_view());
    kept
}

/// Turns a list round: the last text first.
pub fn reversed(texts: Vec<String>) -> (turned: Vec<String>)
    ensures
        turned.deep_view() == texts.deep_view().reverse(),
        turned.len() == texts.len(),
{
    let mut turned: Vec<String> = Vec::new();
    let mut i: usize = texts.len();
    while i > 0
        invariant
            i <= texts.len(),
            turned.len() == texts.len() - i,
            forall|j: int|
                0 <= j < turned.len() ==> (#[trigger] turned@[j])@ == texts@[texts.len() - 1 - j]@,
        decreases i,
    {
        i -= 1;
        turned.push(texts[i].clone());
    }
    assert(turned.deep_view() =~= texts.deep_view().reverse());
    turned
}

/// The addresses of a page that are not empty, or an error where none is
/// left: a chapter list is never empty.
pub open spec fn chapter_list(links: Seq<Seq<char>>) -> Result<Seq<Seq<char>>, LinkError> {
    if links.filter(filled()).len() == 0 {
        Err(LinkError::NoChapterLink)
    } else {
        Ok(links.filter(filled()))
    }
}

} // verus!
