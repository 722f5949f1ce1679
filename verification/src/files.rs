//! The document: the chapters of a novel put together, and the text that
//! the converter made of it tidied up.

use vstd::prelude::*;
use crate::cache::Lookup;
use crate::matching::{regex_accepts, regex_replace_all, replace_all};

verus! {

/// Lines that hold nothing but blanks, one or several in a row, with the
/// line end before them, as a regular expression.
pub const EMPTY_LINES: &'static str = r"(?:[\t ]*(?:\r?\n|\r))+";

/// What takes their place: one line end.
pub const LINE_END: &'static str = "\n";

/// A chapter title in running text, as a regular expression: the word
/// Chapter, the number without leading zeros, the name.
pub const CHAPTER_TITLE: &'static str = r"Chapter\s0*(\d+)[:\s-]+(.+)";

/// What takes its place: a heading on a line of its own.
pub const CHAPTER_HEADING: &'static str = "\n# Chapter $1: $2";

/// What one answer of the cache gives the document: the text it holds, or
/// nothing where it holds none.
pub open spec fn segment(answer: Option<Seq<char>>) -> Seq<char> {
    match answer {
        Some(text) => text,
        None => Seq::<char>::empty(),
    }
}

/// The document that the answers of the cache make: the segment of each,
/// one after the other, in the order of the answers.
pub open spec fn document(lookups: Seq<(Seq<char>, Option<Seq<char>>)>) -> Seq<char>
    decreases lookups.len(),
{
    if lookups.len() == 0 {
        Seq::<char>::empty()
    } else {
        document(lookups.drop_last()) + segment(lookups.last().1)
    }
}

/// A text tidied up: every run of empty lines made one line end, then every
/// chapter title made a heading. Nothing where the `regex` crate rejects
/// one of the two expressions.
pub open spec fn cleaned(text: Seq<char>) -> Option<Seq<char>> {
    if regex_accepts(EMPTY_LINES@) && regex_accepts(CHAPTER_TITLE@) {
        Some(
            regex_replace_all(
                CHAPTER_TITLE@,
                regex_replace_all(EMPTY_LINES@, text, LINE_END@),
                CHAPTER_HEADING@,
            ),
        )
    } else {
        None
    }
}

/// Puts the document together. `lookups` holds, for each link of the list
/// in its order, what the cache answered for it once the run was over. A
/// chapter that the cache does not hold leaves a gap and stops nothing.
pub fn novel_to_file(lookups: &Vec<Lookup>) -> (text: String)
    ensures
        text@ == document(lookups.deep_view()),
{
    let mut text = String::new();
    let mut i: usize = 0;
    assert(lookups.deep_view().take(0) =~= Seq::<(Seq<char>, Option<Seq<char>>)>::empty());
    while i < lookups.len()
        invariant
            i <= lookups.len(),
            text@ == document(lookups.deep_view().take(i as int)),
        decreases lookups.len() - i,
    {
        proof {
            let next = lookups.deep_view().take(i + 1);
            assert(next.drop_last() =~= lookups.deep_view().take(i as int));
            assert(next.last() == lookups@[i as int].deep_view());
        }
        match &lookups[i].1 {
            Some(chapter) => {
                text.append(chapter.as_str());
            },
            None => {},
        }
        assert(text@ =~= document(lookups.deep_view().take(i + 1)));
        i += 1;
    }
    assert(lookups.deep_view().take(lookups.len() as int) =~= lookups.deep_view());
    text
}

/// Tidies up the text that the converter wrote.
pub fn clean_file(data: &str) -> (text: Option<String>)
    ensures
        text.deep_view() == cleaned(data@),
{
    let lines = match replace_all(EMPTY_LINES, data, LINE_END) {
        Some(lines) => lines,
        None => {
            return None;
        },
    };
    replace_all(CHAPTER_TITLE, lines.as_str(), CHAPTER_HEADING)
}

} // verus!
