//! The download pipeline: which chapters a run fetches, what each fetch
//! task reports, and how the collector takes the reports in.

pub mod consumer;
pub mod producer;
pub mod types;

use vstd::prelude::*;
use crate::cache::{in_cache, satisfied, Lookup};

verus! {

/// What a run has to do, decided before any task starts.
#[derive(Clone, Debug, PartialEq, Eq)]
pub struct Dispatch {
    /// The chapters to fetch, in the order of the link list.
    pub pending: Vec<String>,
    /// How many chapters the cache already holds.
    pub skipped: usize,
}

/// The answers of the cache that leave their URL to be fetched.
pub open spec fn unsatisfied() -> spec_fn((Seq<char>, Option<Seq<char>>)) -> bool {
    |lookup: (Seq<char>, Option<Seq<char>>)| !satisfied(lookup.1)
}

/// The URL of an answer.
pub open spec fn asked() -> spec_fn((Seq<char>, Option<Seq<char>>)) -> Seq<char> {
    |lookup: (Seq<char>, Option<Seq<char>>)| lookup.0
}

/// The URLs to fetch, given what the cache answered for each link: those
/// that it holds no chapter for, in the order of the links.
pub open spec fn pending(lookups: Seq<(Seq<char>, Option<Seq<char>>)>) -> Seq<Seq<char>> {
    lookups.filter(unsatisfied()).map_values(asked())
}

impl Dispatch {
    /// The number of messages that the collector is to expect: one for each
    /// chapter to fetch.
    pub open spec fn expected(self) -> nat {
        self.pending@.len()
    }

    /// The number of messages that the collector is to expect.
    pub fn expected_count(&self) -> (n: usize)
        ensures
            n == self.expected(),
    {
        self.pending.len()
    }
}

/// How many workers a pool has for each processor.
pub const WORKERS_PER_CPU: usize = 2;

/// The most tasks that run at a time on a machine of `cpus` processors: two
/// for each processor, as far as the number can be held.
pub fn pool_size(cpus: usize) -> (size: usize)
    ensures
        size == if cpus * WORKERS_PER_CPU <= usize::MAX {
            cpus * WORKERS_PER_CPU
        } else {
            usize::MAX as int
        },
{
    if cpus > usize::MAX / WORKERS_PER_CPU {
        usize::MAX
    } else {
        cpus * WORKERS_PER_CPU
    }
}

/// Decides what a run fetches. `lookups` holds, for each link of the list
/// in its order, what the cache answered for it. A link is left out exactly
/// where the cache holds a chapter for it.
pub fn start_workers(lookups: &Vec<Lookup>) -> (plan: Dispatch)
    ensures
        plan.pending.deep_view() == pending(lookups.deep_view()),
        plan.expected() + plan.skipped == lookups.len(),
{
    let mut to_fetch: Vec<String> = Vec::new();
    let mut skipped: usize = 0;
    let mut i: usize = 0;
    proof {
        reveal(Seq::filter);
        assert(lookups.deep_view().take(0) =~= Seq::<(Seq<char>, Option<Seq<char>>)>::empty());
        assert(pending(lookups.deep_view().take(0)) =~= Seq::<Seq<char>>::empty());
    }
    while i < lookups.len()
        invariant
            i <= lookups.len(),
            to_fetch.deep_view() == pending(lookups.deep_view().take(i as int)),
            to_fetch.len() + skipped == i,
        decreases lookups.len() - i,
    {
        let ghost before = to_fetch.deep_view();
        let ghost kept = lookups.deep_view().take(i as int).filter(unsatisfied());
        proof {
            reveal(Seq::filter);
            let next = lookups.deep_view().take(i + 1);
            assert(next.drop_last() =~= lookups.deep_view().take(i as int));
            assert(next.last() == lookups@[i as int].deep_view());
        }
        if in_cache(&lookups[i].1) {
            skipped += 1;
        } else {
            to_fetch.push(lookups[i].0.clone());
            proof {
                let added = lookups@[i as int].deep_view();
                assert(kept.push(added).map_values(asked()) =~= kept.map_values(asked()).push(
                    added.0,
                ));
                assert(to_fetch.deep_view() =~= before.push(added.0));
            }
        }
        i += 1;
    }
    assert(lookups.deep_view().take(lookups.len() as int) =~= lookups.deep_view());
    Dispatch { pending: to_fetch, skipped }
}

} // verus!
