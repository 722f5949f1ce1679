//! The extraction contract that every source site implements, and the
//! catalog of sites that `load` probes.

use vstd::prelude::*;
use crate::novels::boxnovel::{Boxnovel, BOXNOVEL_CHAPTER, BOXNOVEL_LINKS};
use crate::novels::eatapplepies::{EatApplePies, EATAPPLEPIES_CHAPTER, EATAPPLEPIES_LINKS};
use crate::novels::wuxiaworldco::{
    WuxiaWorldCo,
    WUXIAWORLDCO_BODY,
    WUXIAWORLDCO_LINKS,
    WUXIAWORLDCO_TITLE,
};

verus! {

/// The HTML patterns that the site extractors hand to the scraper.
pub open spec fn site_pattern(pattern: Seq<char>) -> bool {
    ||| pattern == BOXNOVEL_LINKS@
    ||| pattern == BOXNOVEL_CHAPTER@
    ||| pattern == EATAPPLEPIES_LINKS@
    ||| pattern == EATAPPLEPIES_CHAPTER@
    ||| pattern == WUXIAWORLDCO_LINKS@
    ||| pattern == WUXIAWORLDCO_TITLE@
    ||| pattern == WUXIAWORLDCO_BODY@
}

/// Why a table-of-contents page gave no chapter list.
#[derive(Clone, Copy, Debug, PartialEq, Eq, Structural)]
pub enum LinkError {
    /// The scraper rejected the site's pattern.
    PatternRejected,
    /// The page holds no chapter link where the site lists them, or a match
    /// without an address.
    NoChapterLink,
}

impl LinkError {
    pub open spec fn text(self) -> Seq<char> {
        match self {
            LinkError::PatternRejected => "Could not load the pattern."@,
            LinkError::NoChapterLink => "The pattern has not matched any chapter link"@,
        }
    }

    /// The error in words, for the reader.
    pub fn message(&self) -> (s: String)
        ensures
            s@ == self.text(),
    {
        match self {
            LinkError::PatternRejected => "Could not load the pattern.".to_string(),
            LinkError::NoChapterLink => "The pattern has not matched any chapter link".to_string(),
        }
    }
}

/// A chapter list, or the error in its place, with each address as its text.
pub open spec fn listed(r: Result<Vec<String>, LinkError>) -> Result<Seq<Seq<char>>, LinkError> {
    match r {
        Ok(links) => Ok(links.deep_view()),
        Err(e) => Err(e),
    }
}

/// What one source site can do: recognise its URLs, name itself, read the
/// chapter list off a table-of-contents page, and read a chapter off its
/// page.
///
/// The sites of this library state each of the four over what the `regex`
/// and `easy_scraper` crates find. Where one of those crates rejects a
/// site's own pattern, the site takes no URL, lists no chapter and finds no
/// chapter.
pub trait NovelProvider {
    /// The URLs that belong to this site.
    spec fn supports(&self, url: Seq<char>) -> bool;

    /// The site's name.
    spec fn name(&self) -> Seq<char>;

    /// The chapter addresses that a table-of-contents page lists, in reading
    /// order, or why it lists none. A page without the site's list of
    /// chapters is an error, never an empty list.
    spec fn release_links(&self, html: Seq<char>) -> Result<Seq<Seq<char>>, LinkError>;

    /// The content of a chapter page, if the page holds a chapter.
    spec fn chapter(&self, html: Seq<char>) -> Option<Seq<char>>;

    fn supports_url(&self, url: &str) -> (b: bool)
        ensures
            b == self.supports(url@),
    ;

    fn get_name(&self) -> (name: String)
        ensures
            name@ == self.name(),
    ;

    fn get_release_links(&self, html: &str) -> (r: Result<Vec<String>, LinkError>)
        ensures
            listed(r) == self.release_links(html@),
            r matches Ok(links) ==> links.len() > 0,
    ;

    fn get_chapter(&self, html: &str) -> (r: Option<String>)
        ensures
            r.deep_view() == self.chapter(html@),
    ;
}

/// Whether two extractors are the same site: same URLs, same name, and the
/// same reading of every page.
pub open spec fn same_site<A: NovelProvider + ?Sized, B: NovelProvider + ?Sized>(
    a: &A,
    b: &B,
) -> bool {
    &&& a.name() == b.name()
    &&& forall|url: Seq<char>| a.supports(url) == b.supports(url)
    &&& forall|html: Seq<char>| a.release_links(html) == b.release_links(html)
    &&& forall|html: Seq<char>| a.chapter(html) == b.chapter(html)
}

/// Whether some site of the catalog takes the URL.
pub open spec fn supported(url: Seq<char>) -> bool {
    ||| (Boxnovel {}).supports(url)
    ||| (EatApplePies {}).supports(url)
    ||| (WuxiaWorldCo {}).supports(url)
}

/// What `load` answers where no site takes the URL.
pub open spec fn unsupported_text(url: Seq<char>) -> Seq<char> {
    "There is no supported provider for url \""@ + url + "\""@
}

/// Picks the extractor for a URL: the first site of the catalog, in the
/// order Boxnovel, EatApplePies, WuxiaWorldCo, that takes it.
pub fn load(url: &str) -> (r: Result<Box<dyn NovelProvider>, String>)
    ensures
        r is Ok <==> supported(url@),
        r matches Ok(p) ==> {
            if (Boxnovel {}).supports(url@) {
                same_site(&*p, &Boxnovel {})
            } else if (EatApplePies {}).supports(url@) {
                same_site(&*p, &EatApplePies {})
            } else {
                same_site(&*p, &WuxiaWorldCo {})
            }
        },
        r matches Err(text) ==> text@ == unsupported_text(url@),
{
    let boxnovel = Boxnovel::new();
    if boxnovel.supports_url(url) {
        return Ok(Box::new(boxnovel));
    }
    let eatapplepies = EatApplePies::new();
    if eatapplepies.supports_url(url) {
        return Ok(Box::new(eatapplepies));
    }
    let wuxiaworldco = WuxiaWorldCo::new();
    if wuxiaworldco.supports_url(url) {
        return Ok(Box::new(wuxiaworldco));
    }
    let mut text = "There is no supported provider for url \"".to_string();
    text.append(url);
    text.append("\"");
    Err(text)
}

} // verus!
