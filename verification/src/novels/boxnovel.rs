//! The extractor for boxnovel.com.

use vstd::prelude::*;
use crate::matching::{is_match, regex_accepts, regex_is_match};
use crate::novels::links::{addresses, chapter_list, read_addresses, reversed, without_empty};
use crate::novels::providers::{LinkError, NovelProvider};
use crate::scraping::{binding, bound, scrape, scrape_accepts, scrape_matches, Bindings};

verus! {

/// The URLs of the site, as a regular expression.
pub const BOXNOVEL_URLS: &'static str = r"^(https?://)?([\s\S]*\.)?boxnovel.com(/[\s\S]*)?$";

/// Where a table-of-contents page lists its chapters.
pub const BOXNOVEL_LINKS: &'static str = r#"
    <ul class="main version-chap">
      <li class="wp-manga-chapter">
        <a href="{{url}}">{{text}}</a>
      </li>
    </ul>
    "#;

/// Where a chapter page holds its text.
pub const BOXNOVEL_CHAPTER: &'static str = r#"
      <div class="entry-content_wrap">
        <div class="read-container">
          <div class="reading-content">
            <div class="text-left">
              {{data:*}}
            </div>
          </div>
        </div>
      </div>
    "#;

/// The site boxnovel.com.
#[derive(Clone, Copy, Debug)]
pub struct Boxnovel {}

/// The chapter that the matches of a page make: what the first match holds
/// inside the text container. No chapter where nothing matched.
pub open spec fn chapter_of(found: Seq<Seq<(Seq<char>, Seq<char>)>>) -> Option<Seq<char>> {
    if found.len() == 0 {
        None
    } else {
        bound(found[0], "data"@)
    }
}

/// Builds the chapter from the matches of a chapter page.
pub fn chapter_from(found: &Vec<Bindings>) -> (r: Option<String>)
    ensures
        r.deep_view() == chapter_of(found.deep_view()),
{
    if found.len() == 0 {
        return None;
    }
    assert(found.deep_view()[0] == found@[0].deep_view());
    binding(&found[0], "data")
}

impl Boxnovel {
    pub fn new() -> (p: Boxnovel)
        ensures
            p == (Boxnovel {}),
    {
        Boxnovel {}
    }
}

impl NovelProvider for Boxnovel {
    open spec fn supports(&self, url: Seq<char>) -> bool {
        regex_accepts(BOXNOVEL_URLS@) && regex_is_match(BOXNOVEL_URLS@, url)
    }

    open spec fn name(&self) -> Seq<char> {
        "boxnovel.com"@
    }

    /// The addresses that the page lists, without the empty ones, and turned
    /// round: the site lists its newest chapter first.
    open spec fn release_links(&self, html: Seq<char>) -> Result<Seq<Seq<char>>, LinkError> {
        match addresses(BOXNOVEL_LINKS@, html) {
            Ok(links) => match chapter_list(links) {
                Ok(kept) => Ok(kept.reverse()),
                Err(e) => Err(e),
            },
            Err(e) => Err(e),
        }
    }

    open spec fn chapter(&self, html: Seq<char>) -> Option<Seq<char>> {
        if scrape_accepts(BOXNOVEL_CHAPTER@) {
            chapter_of(scrape_matches(BOXNOVEL_CHAPTER@, html))
        } else {
            None
        }
    }

    fn supports_url(&self, url: &str) -> (b: bool) {
        match is_match(BOXNOVEL_URLS, url) {
            Some(found) => found,
            None => false,
        }
    }

    fn get_name(&self) -> (name: String) {
        "boxnovel.com".to_string()
    }

    fn get_release_links(&self, html: &str) -> (r: Result<Vec<String>, LinkError>) {
        match read_addresses(BOXNOVEL_LINKS, html) {
            Ok(links) => {
                let kept = without_empty(links);
                if kept.len() == 0 {
                    Err(LinkError::NoChapterLink)
                } else {
                    Ok(reversed(kept))
                }
            },
            Err(e) => Err(e),
        }
    }

    fn get_chapter(&self, html: &str) -> (r: Option<String>) {
        match scrape(BOXNOVEL_CHAPTER, html) {
            Some(found) => chapter_from(&found),
            None => None,
        }
    }
}

} // verus!
