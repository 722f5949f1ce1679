//! What a download gives, decided from the server's answer.

use vstd::prelude::*;

verus! {

/// What a server answered to a request.
#[derive(Clone, Debug, PartialEq, Eq)]
pub struct Response {
    /// The status code.
    pub code: u16,
    /// The status as the reader sees it: the code and its reason.
    pub status: String,
    /// The body as text, where it could be read.
    pub body: Option<String>,
}

/// The statuses that count as success: 200 to 299.
pub open spec fn succeeded(code: u16) -> bool {
    200 <= code < 300
}

/// What is said of a server that could not be reached.
pub open spec fn unreachable_text(url: Seq<char>) -> Seq<char> {
    "Could not connect to the remote address: "@ + url
}

/// What is said of a status that is no success.
pub open spec fn status_text(status: Seq<char>) -> Seq<char> {
    "An error happened. The request was returned with status code "@ + status
}

/// What is said of a body that could not be read.
pub open spec fn unreadable_text() -> Seq<char> {
    "An error happened while processing the data."@
}

/// The outcome of a download in the abstract.
pub open spec fn downloaded(url: Seq<char>, response: Option<Response>) -> Result<
    Seq<char>,
    Seq<char>,
> {
    match response {
        None => Err(unreachable_text(url)),
        Some(r) => if !succeeded(r.code) {
            Err(status_text(r.status@))
        } else {
            match r.body {
                Some(body) => Ok(body@),
                None => Err(unreadable_text()),
            }
        },
    }
}

/// A download's result as its text, the page or the error.
pub open spec fn outcome(r: Result<String, String>) -> Result<Seq<char>, Seq<char>> {
    match r {
        Ok(page) => Ok(page@),
        Err(text) => Err(text@),
    }
}

/// Whether a status counts as success, so that the body is worth reading.
pub fn is_success(code: u16) -> (b: bool)
    ensures
        b == succeeded(code),
{
    200 <= code && code < 300
}

/// Decides what a download of `url` gave: `response` is the server's
/// answer, or nothing where the request did not reach it. A page comes only
/// of a success status with a readable body; a server out of reach, any
/// other status and an unreadable body are errors alike, each with its
/// text.
pub fn download(url: &str, response: Option<Response>) -> (r: Result<String, String>)
    ensures
        outcome(r) == downloaded(url@, response),
{
    match response {
        None => {
            let mut text = "Could not connect to the remote address: ".to_string();
            text.append(url);
            Err(text)
        },
        Some(answer) => {
            if !is_success(answer.code) {
                let mut text =
                    "An error happened. The request was returned with status code ".to_string();
                text.append(answer.status.as_str());
                Err(text)
            } else {
                match answer.body {
                    Some(body) => Ok(body),
                    None => Err("An error happened while processing the data.".to_string()),
                }
            }
        },
    }
}

} // verus!
