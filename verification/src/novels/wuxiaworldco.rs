//! The extractor for wuxiaworld.co.

use vstd::prelude::*;
use crate::matching::{is_match, regex_accepts, regex_is_match, replace, replaced};
use crate::novels::links::{addresses, read_addresses};
use crate::novels::providers::{LinkError, NovelProvider};
use crate::scraping::{binding, bound, scrape, scrape_accepts, scrape_matches, Bindings};

verus! {

/// The URLs of the site, as a regular expression.
pub const WUXIAWORLDCO_URLS: &'static str =
    r"^(https?://)?([\s\S]*\.)?wuxiaworld.co(/[\s\S]*)?$";

/// What the site's chapter addresses are relative to.
pub const WUXIAWORLDCO_ROOT: &'static str = "https://www.wuxiaworld.co";

/// Where a table-of-contents page lists its chapters.
pub const WUXIAWORLDCO_LINKS: &'static str = r#"
      <ul class="chapter-list clearfix">
        <a class="chapter-item" href="{{url}}">
          {{text}}
        </a>
      </ul>
    "#;

/// Where a chapter page holds its title.
pub const WUXIAWORLDCO_TITLE: &'static str = r#"
      <section class="section">
        <h1 class="chapter-title">{{title}}</h1>
      </section>
    "#;

/// Where a chapter page holds its text.
pub const WUXIAWORLDCO_BODY: &'static str = r#"
      <section class="section">
        <div class="chapter-entity" id="chapter-entity">
          {{data:*}}
        </div>
      </section>
    "#;

/// The site wuxiaworld.co.
#[derive(Clone, Copy, Debug)]
pub struct WuxiaWorldCo {}

/// Each address behind the site's root.
pub open spec fn rooted(links: Seq<Seq<char>>) -> Seq<Seq<char>> {
    Seq::new(links.len(), |i: int| WUXIAWORLDCO_ROOT@ + links[i])
}

/// The title that a page's first title match binds.
pub open spec fn title_of(found: Seq<Seq<(Seq<char>, Seq<char>)>>) -> Option<Seq<char>> {
    if found.len() == 0 {
        None
    } else {
        bound(found[0], "title"@)
    }
}

/// The text that a page's first text match binds.
pub open spec fn text_of(found: Seq<Seq<(Seq<char>, Seq<char>)>>) -> Option<Seq<char>> {
    if found.len() == 0 {
        None
    } else {
        bound(found[0], "data"@)
    }
}

/// A chapter from its title and its text: the title, a line end, and the
/// text without any repetition of the title.
pub open spec fn chapter_of(title: Seq<char>, text: Seq<char>) -> Seq<char> {
    title + "\n"@ + replaced(text, title, ""@)
}

/// Builds a chapter from its title and its text.
pub fn chapter_from(title: &str, text: &str) -> (chapter: String)
    ensures
        chapter@ == chapter_of(title@, text@),
{
    let mut chapter = title.to_string();
    chapter.append("\n");
    if title.is_empty() {
        chapter.append(text);
    } else {
        let body = replace(text, title, "");
        chapter.append(body.as_str());
    }
    chapter
}

fn first_binding(found: &Vec<Bindings>, key: &str) -> (r: Option<String>)
    ensures
        r.deep_view() == if found.len() == 0 {
            None
        } else {
            bound(found.deep_view()[0], key@)
        },
{
    if found.len() == 0 {
        return None;
    }
    assert(found.deep_view()[0] == found@[0].deep_view());
    binding(&found[0], key)
}

fn with_root(links: Vec<String>) -> (full: Vec<String>)
    ensures
        full.deep_view() == rooted(links.deep_view()),
        full.len() == links.len(),
{
    let mut full: Vec<String> = Vec::new();
    let mut i: usize = 0;
    while i < links.len()
        invariant
            i <= links.len(),
            full.len() == i,
            forall|j: int|
                0 <= j < i ==> (#[trigger] full@[j])@ == WUXIAWORLDCO_ROOT@ + links@[j]@,
        decreases links.len() - i,
    {
        let mut link = WUXIAWORLDCO_ROOT.to_string();
        link.append(links[i].as_str());
        full.push(link);
        i += 1;
    }
    assert(full.deep_view() =~= rooted(links.deep_view()));
    full
}

impl WuxiaWorldCo {
    pub fn new() -> (p: WuxiaWorldCo)
        ensures
            p == (WuxiaWorldCo {}),
    {
        WuxiaWorldCo {}
    }
}

impl NovelProvider for WuxiaWorldCo {
    open spec fn supports(&self, url: Seq<char>) -> bool {
        regex_accepts(WUXIAWORLDCO_URLS@) && regex_is_match(WUXIAWORLDCO_URLS@, url)
    }

    open spec fn name(&self) -> Seq<char> {
        "wuxiaworld.co"@
    }

    /// The addresses that the page lists, each behind the site's root.
    open spec fn release_links(&self, html: Seq<char>) -> Result<Seq<Seq<char>>, LinkError> {
        match addresses(WUXIAWORLDCO_LINKS@, html) {
            Ok(links) => Ok(rooted(links)),
            Err(e) => Err(e),
        }
    }

    /// The chapter of a page that holds a title and a text; none where
    /// either is missing or a pattern is rejected.
    open spec fn chapter(&self, html: Seq<char>) -> Option<Seq<char>> {
        if !scrape_accepts(WUXIAWORLDCO_TITLE@) || !scrape_accepts(WUXIAWORLDCO_BODY@) {
            None
        } else {
            match (
                title_of(scrape_matches(WUXIAWORLDCO_TITLE@, html)),
                text_of(scrape_matches(WUXIAWORLDCO_BODY@, html)),
            ) {
                (Some(title), Some(text)) => Some(chapter_of(title, text)),
                _ => None,
            }
        }
    }

    fn supports_url(&self, url: &str) -> (b: bool) {
        match is_match(WUXIAWORLDCO_URLS, url) {
            Some(found) => found,
            None => false,
        }
    }

    fn get_name(&self) -> (name: String) {
        "wuxiaworld.co".to_string()
    }

    fn get_release_links(&self, html: &str) -> (r: Result<Vec<String>, LinkError>) {
        match read_addresses(WUXIAWORLDCO_LINKS, html) {
            Ok(links) => Ok(with_root(links)),
            Err(e) => Err(e),
        }
    }

    fn get_chapter(&self, html: &str) -> (r: Option<String>) {
        let titles = match scrape(WUXIAWORLDCO_TITLE, html) {
            Some(found) => found,
            None => {
                return None;
            },
        };
        let title = match first_binding(&titles, "title") {
            Some(title) => title,
            None => {
                return None;
            },
        };
        let texts = match scrape(WUXIAWORLDCO_BODY, html) {
            Some(found) => found,
            None => {
                return None;
            },
        };
        match first_binding(&texts, "data") {
            Some(text) => Some(chapter_from(title.as_str(), text.as_str())),
            None => None,
        }
    }
}

} // verus!
