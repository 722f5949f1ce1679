//! The fetch task: from what the network gave for a chapter's URL to the
//! one message that the task sends.

use vstd::prelude::*;
use crate::novels::providers::NovelProvider;
use crate::workers::types::{Completion, Message, MyResult};

verus! {

/// The diagnostic of a chapter that could not be downloaded.
pub open spec fn download_failure(url: Seq<char>) -> Seq<char> {
    "Couldn't download the chapter with link \""@ + url + "\"."@
}

/// The diagnostic of a page in which no chapter was found.
pub open spec fn extraction_failure(url: Seq<char>) -> Seq<char> {
    "Couldn't extract the data from chapter with link \""@ + url + "\"."@
}

/// The failure that a task reports for a URL, with its diagnostic.
pub open spec fn failure(url: Seq<char>, diagnostic: Seq<char>) -> Completion {
    Completion { result: MyResult::Failed, url, data: diagnostic }
}

/// What a task reports for a page: the chapter that the site's extractor
/// finds in it, or a failure where it finds none or an empty one.
pub open spec fn extracted<P: NovelProvider + ?Sized>(
    url: Seq<char>,
    html: Seq<char>,
    provider: &P,
) -> Completion {
    match provider.chapter(html) {
        Some(chapter) => if chapter.len() > 0 {
            Completion { result: MyResult::Success, url, data: chapter }
        } else {
            failure(url, extraction_failure(url))
        },
        None => failure(url, extraction_failure(url)),
    }
}

/// What a task reports for a URL, given what the network gave for it.
pub open spec fn produced<P: NovelProvider + ?Sized>(
    url: Seq<char>,
    fetched: Result<String, String>,
    provider: &P,
) -> Completion {
    match fetched {
        Ok(html) => extracted(url, html@, provider),
        Err(_) => failure(url, download_failure(url)),
    }
}

fn failed(url: &str, opening: &str) -> (message: Message)
    ensures
        message@ == failure(url@, opening@ + url@ + "\"."@),
{
    let mut data = opening.to_string();
    data.append(url);
    data.append("\".");
    Message { result: MyResult::Failed, url: url.to_string(), data }
}

/// The first step of a task: the page, where the network gave one, or the
/// failure to report in its place.
pub fn get_chapter_html(url: &str, fetched: Result<String, String>) -> (r: Result<String, Message>)
    ensures
        fetched matches Ok(html) ==> r == Ok::<String, Message>(html),
        fetched is Err ==> (r matches Err(message) && message@ == failure(
            url@,
            download_failure(url@),
        )),
{
    match fetched {
        Ok(html) => Ok(html),
        Err(_) => Err(failed(url, "Couldn't download the chapter with link \"")),
    }
}

/// The second step of a task: the chapter that the site's extractor finds
/// in the page, or the failure to report where it finds none.
pub fn get_chapter(html: String, url: &str, provider: &Box<dyn NovelProvider>) -> (r: Result<
    String,
    Message,
>)
    ensures
        extracted(url@, html@, &**provider).result is Success ==> (r matches Ok(chapter)
            && chapter@ == extracted(url@, html@, &**provider).data),
        extracted(url@, html@, &**provider).result is Failed ==> (r matches Err(message)
            && message@ == extracted(url@, html@, &**provider)),
{
    match provider.get_chapter(html.as_str()) {
        Some(chapter) => {
            if chapter.as_str().is_empty() {
                Err(failed(url, "Couldn't extract the data from chapter with link \""))
            } else {
                Ok(chapter)
            }
        },
        None => Err(failed(url, "Couldn't extract the data from chapter with link \"")),
    }
}

/// A whole task, but for the network: from what the download of `url` gave
/// to the one message that the task sends, whichever way it ends.
pub fn start_producer(
    url: String,
    fetched: Result<String, String>,
    provider: Box<dyn NovelProvider>,
) -> (message: Message)
    ensures
        message@ == produced(url@, fetched, &*provider),
        message@.url == url@,
        message@.wf(),
{
    let html = match get_chapter_html(url.as_str(), fetched) {
        Ok(html) => html,
        Err(message) => {
            return message;
        },
    };
    match get_chapter(html, url.as_str(), &provider) {
        Ok(chapter) => Message { result: MyResult::Success, url, data: chapter },
        Err(message) => message,
    }
}

} // verus!
