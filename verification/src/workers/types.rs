//! What travels from the fetch tasks to the collector.

use vstd::prelude::*;

verus! {

/// How a fetch task ended.
#[derive(Clone, Copy, Debug, PartialEq, Eq, Structural)]
pub enum MyResult {
    /// The chapter was fetched and found in its page.
    Success,
    /// The download or the extraction failed.
    Failed,
}

/// What a fetch task reports to the collector: the chapter on success, a
/// diagnostic for the reader on failure.
#[derive(Clone, Debug, PartialEq, Eq)]
pub struct Message {
    /// How the task ended.
    pub result: MyResult,
    /// The chapter's URL.
    pub url: String,
    /// The chapter, or the diagnostic.
    pub data: String,
}

/// A message in the abstract: its fields as texts.
pub struct Completion {
    pub result: MyResult,
    pub url: Seq<char>,
    pub data: Seq<char>,
}

impl Completion {
    /// The text that this completion asks the cache to hold for its URL:
    /// the chapter of a success, the empty mark of a failure.
    pub open spec fn content(self) -> Seq<char> {
        match self.result {
            MyResult::Success => self.data,
            MyResult::Failed => Seq::<char>::empty(),
        }
    }

    /// A success carries a chapter, and a chapter is never empty.
    pub open spec fn wf(self) -> bool {
        self.result is Success ==> self.data.len() > 0
    }
}

impl View for Message {
    type V = Completion;

    open spec fn view(&self) -> Completion {
        Completion { result: self.result, url: self.url@, data: self.data@ }
    }
}

} // verus!
