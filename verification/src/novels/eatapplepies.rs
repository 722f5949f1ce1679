//! The extractor for eatapplepies.com.

use vstd::prelude::*;
use crate::matching::{is_match, regex_accepts, regex_is_match, regex_replace, replace_first};
use crate::novels::links::{addresses, chapter_list, read_addresses, without_empty};
use crate::novels::providers::{LinkError, NovelProvider};
use crate::scraping::{binding, bound, scrape, scrape_accepts, scrape_matches, Bindings};

verus! {

/// The URLs of the site, as a regular expression.
pub const EATAPPLEPIES_URLS: &'static str =
    r"^(https?://)?([\s\S]*\.)?eatapplepies.com(/[\s\S]*)?$";

/// Where a table-of-contents page lists its chapters.
pub const EATAPPLEPIES_LINKS: &'static str = r#"
    <div class="entry-content">
      <details>
        <p>
          <a href="{{url}}">{{text}}</a>
        </p>
      </details>
    </div>
    "#;

/// Where a chapter page holds its title and its paragraphs.
pub const EATAPPLEPIES_CHAPTER: &'static str = r#"
      <div id="primary">
        <div id="content" role="main">
          <article class="post">
            <header class="entry-header">
              <h1 class="entry-title">{{title}}</h1>
            </header>
            <div class="entry-content">
              <p>{{body}}</p>
            </div>
          </article>
        </div>
      </div>
    "#;

/// A page title that names its chapter, as a regular expression: what
/// precedes the word Chapter, the number without leading zeros, the name.
pub const EATAPPLEPIES_TITLE: &'static str = r".+Chapter\s0*(\d+)[\s:–-]+(.+)";

/// The heading that replaces such a title.
pub const EATAPPLEPIES_HEADING: &'static str = "<h1>Chapter $1: $2</h1>";

/// The site eatapplepies.com.
#[derive(Clone, Copy, Debug)]
pub struct EatApplePies {}

/// The texts of the site's login form, which the page holds as paragraphs.
pub open spec fn form_texts() -> Seq<Seq<char>> {
    seq![
        "No account yet?"@,
        "Register"@,
        "Username or Email Address"@,
        "Password"@,
        "Remember Me"@,
    ]
}

/// Whether a paragraph belongs to the site's login form, not to the chapter.
pub open spec fn is_form_text(text: Seq<char>) -> bool {
    form_texts().contains(text)
}

/// The heading line of a chapter, from its page title.
pub open spec fn heading(title: Seq<char>) -> Seq<char> {
    regex_replace(EATAPPLEPIES_TITLE@, title, EATAPPLEPIES_HEADING@) + "\n\n"@
}

/// What one match adds to the chapter: its paragraph in tags and a line
/// end, or nothing where it binds no paragraph or one of the login form.
pub open spec fn paragraph(m: Seq<(Seq<char>, Seq<char>)>) -> Seq<char> {
    match bound(m, "body"@) {
        Some(text) => if is_form_text(text) {
            Seq::<char>::empty()
        } else {
            "<p>"@ + text + "</p>\n"@
        },
        None => Seq::<char>::empty(),
    }
}

/// The paragraphs of all matches, in the order of the matches.
pub open spec fn paragraphs(found: Seq<Seq<(Seq<char>, Seq<char>)>>) -> Seq<char>
    decreases found.len(),
{
    if found.len() == 0 {
        Seq::<char>::empty()
    } else {
        paragraphs(found.drop_last()) + paragraph(found.last())
    }
}

/// The chapter that the matches of a page make: the heading from the first
/// match's title, where it binds one, then the paragraphs. No chapter where
/// nothing matched or the title expression is rejected.
pub open spec fn chapter_of(found: Seq<Seq<(Seq<char>, Seq<char>)>>) -> Option<Seq<char>> {
    if found.len() == 0 {
        None
    } else {
        match bound(found[0], "title"@) {
            Some(title) => if regex_accepts(EATAPPLEPIES_TITLE@) {
                Some(heading(title) + paragraphs(found))
            } else {
                None
            },
            None => Some(paragraphs(found)),
        }
    }
}

fn form_list() -> (list: Vec<String>)
    ensures
        list.deep_view() == form_texts(),
{
    let mut list: Vec<String> = Vec::new();
    list.push("No account yet?".to_string());
    list.push("Register".to_string());
    list.push("Username or Email Address".to_string());
    list.push("Password".to_string());
    list.push("Remember Me".to_string());
    assert(list.deep_view() =~= form_texts());
    list
}

fn holds_text(list: &Vec<String>, text: &String) -> (found: bool)
    ensures
        found == list.deep_view().contains(text@),
{
    let mut i: usize = 0;
    while i < list.len()
        invariant
            i <= list.len(),
            forall|j: int| 0 <= j < i ==> list.deep_view()[j] != text@,
        decreases list.len() - i,
    {
        assert(list.deep_view()[i as int] == list@[i as int]@);
        if list[i] == *text {
            return true;
        }
        i += 1;
    }
    false
}

/// Builds the chapter from the matches of a chapter page.
pub fn chapter_from(found: &Vec<Bindings>) -> (r: Option<String>)
    ensures
        r.deep_view() == chapter_of(found.deep_view()),
{
    if found.len() == 0 {
        return None;
    }
    let mut data = String::new();
    assert(found.deep_view()[0] == found@[0].deep_view());
    match binding(&found[0], "title") {
        Some(title) => {
            match replace_first(EATAPPLEPIES_TITLE, title.as_str(), EATAPPLEPIES_HEADING) {
                Some(line) => {
                    data.append(line.as_str());
                    data.append("\n\n");
                },
                None => {
                    return None;
                },
            }
        },
        None => {},
    }
    let form = form_list();
    let ghost start = data@;
    let mut i: usize = 0;
    assert(found.deep_view().take(0) =~= Seq::<Seq<(Seq<char>, Seq<char>)>>::empty());
    while i < found.len()
        invariant
            i <= found.len(),
            form.deep_view() == form_texts(),
            data@ == start + paragraphs(found.deep_view().take(i as int)),
        decreases found.len() - i,
    {
        proof {
            let next = found.deep_view().take(i + 1);
            assert(next.drop_last() =~= found.deep_view().take(i as int));
            assert(next.last() == found@[i as int].deep_view());
        }
        match binding(&found[i], "body") {
            Some(text) => {
                if !holds_text(&form, &text) {
                    data.append("<p>");
                    data.append(text.as_str());
                    data.append("</p>\n");
                }
            },
            None => {},
        }
        assert(data@ =~= start + paragraphs(found.deep_view().take(i + 1)));
        i += 1;
    }
    assert(found.deep_view().take(found.len() as int) =~= found.deep_view());
    assert(data@ =~= start + paragraphs(found.deep_view()));
    Some(data)
}

impl EatApplePies {
    pub fn new() -> (p: EatApplePies)
        ensures
            p == (EatApplePies {}),
    {
        EatApplePies {}
    }
}

impl NovelProvider for EatApplePies {
    open spec fn supports(&self, url: Seq<char>) -> bool {
        regex_accepts(EATAPPLEPIES_URLS@) && regex_is_match(EATAPPLEPIES_URLS@, url)
    }

    open spec fn name(&self) -> Seq<char> {
        "eatapplepies.com"@
    }

    /// The addresses that the page lists, without the empty ones.
    open spec fn release_links(&self, html: Seq<char>) -> Result<Seq<Seq<char>>, LinkError> {
        match addresses(EATAPPLEPIES_LINKS@, html) {
            Ok(links) => chapter_list(links),
            Err(e) => Err(e),
        }
    }

    open spec fn chapter(&self, html: Seq<char>) -> Option<Seq<char>> {
        if scrape_accepts(EATAPPLEPIES_CHAPTER@) {
            chapter_of(scrape_matches(EATAPPLEPIES_CHAPTER@, html))
        } else {
            None
        }
    }

    fn supports_url(&self, url: &str) -> (b: bool) {
        match is_match(EATAPPLEPIES_URLS, url) {
            Some(found) => found,
            None => false,
        }
    }

    fn get_name(&self) -> (name: String) {
        "eatapplepies.com".to_string()
    }

    fn get_release_links(&self, html: &str) -> (r: Result<Vec<String>, LinkError>) {
        match read_addresses(EATAPPLEPIES_LINKS, html) {
            Ok(links) => {
                let kept = without_empty(links);
                if kept.len() == 0 {
                    Err(LinkError::NoChapterLink)
                } else {
                    Ok(kept)
                }
            },
            Err(e) => Err(e),
        }
    }

    fn get_chapter(&self, html: &str) -> (r: Option<String>) {
        match scrape(EATAPPLEPIES_CHAPTER, html) {
            Some(found) => chapter_from(&found),
            None => None,
        }
    }
}

} // verus!
