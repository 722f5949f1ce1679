//! The content cache as the pipeline sees it: what it answers for a URL,
//! and what that answer means.
//!
//! The store itself lives on disk, outside this library. Here a cache is the
//! map from each URL to the text held for it; an empty text is the mark of a
//! failed attempt, never a chapter.

use vstd::prelude::*;

verus! {

/// What the cache answered for one URL: the URL, and the text it holds for
/// it, if any.
pub type Lookup = (String, Option<String>);

/// The state of one URL in the cache.
#[derive(Clone, Copy, Debug, PartialEq, Eq, Structural)]
pub enum CacheEntry {
    /// Never attempted.
    Absent,
    /// Attempted, and the fetch or the extraction failed.
    Failed,
    /// Attempted with success: a chapter is held.
    Present,
}

/// How the store is set up.
#[derive(Clone, Debug, PartialEq, Eq)]
pub struct CacheSettings {
    /// The directory that holds the store.
    pub data_dir: String,
    /// The most that the store may hold, in bytes.
    pub max_bytes: u64,
    /// How many subdirectories each of the store's two levels has.
    pub subdirs_per_level: u32,
}

/// The directory of the store, where the caller names none.
pub const CACHE_DIR: &'static str = "cache";

/// The store's budget: a hundred mebibytes.
pub const CACHE_BYTES: u64 = 104857600;

/// The state that an answer of the cache stands for.
pub open spec fn state(answer: Option<Seq<char>>) -> CacheEntry {
    match answer {
        None => CacheEntry::Absent,
        Some(text) => if text.len() == 0 {
            CacheEntry::Failed
        } else {
            CacheEntry::Present
        },
    }
}

/// Whether an answer of the cache satisfies its URL: a chapter is held.
pub open spec fn satisfied(answer: Option<Seq<char>>) -> bool {
    state(answer) is Present
}

/// What a cache answers for a URL.
pub open spec fn answer(cache: Map<Seq<char>, Seq<char>>, url: Seq<char>) -> Option<Seq<char>> {
    if cache.dom().contains(url) {
        Some(cache[url])
    } else {
        None
    }
}

/// Whether a cache holds a chapter for a URL.
pub open spec fn holds(cache: Map<Seq<char>, Seq<char>>, url: Seq<char>) -> bool {
    satisfied(answer(cache, url))
}

/// What a cache answers for each URL of a list, in the order of the list.
pub open spec fn answers(cache: Map<Seq<char>, Seq<char>>, links: Seq<Seq<char>>) -> Seq<
    (Seq<char>, Option<Seq<char>>),
> {
    Seq::new(links.len(), |i: int| (links[i], answer(cache, links[i])))
}

/// The settings of the store in its usual directory.
pub fn load() -> (settings: CacheSettings)
    ensures
        settings.data_dir@ == CACHE_DIR@,
        settings.max_bytes == CACHE_BYTES,
        settings.subdirs_per_level == 2,
{
    load_from(CACHE_DIR)
}

/// The settings of the store in a directory of the caller's choice.
pub fn load_from(data_dir: &str) -> (settings: CacheSettings)
    ensures
        settings.data_dir@ == data_dir@,
        settings.max_bytes == CACHE_BYTES,
        settings.subdirs_per_level == 2,
{
    CacheSettings { data_dir: data_dir.to_string(), max_bytes: CACHE_BYTES, subdirs_per_level: 2 }
}

/// Tells the state of a URL from the cache's answer for it.
pub fn entry_state(answer: &Option<String>) -> (entry: CacheEntry)
    ensures
        entry == state(answer.deep_view()),
{
    match answer {
        None => CacheEntry::Absent,
        Some(text) => if text.as_str().is_empty() {
            CacheEntry::Failed
        } else {
            CacheEntry::Present
        },
    }
}

/// Whether the cache's answer satisfies its URL, so that the chapter need
/// not be fetched: true for a chapter that is held, false for a URL never
/// attempted and for one whose attempt failed.
pub fn in_cache(answer: &Option<String>) -> (held: bool)
    ensures
        held == satisfied(answer.deep_view()),
{
    match answer {
        None => false,
        Some(text) => !text.as_str().is_empty(),
    }
}

} // verus!
