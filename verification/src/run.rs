//! A run in the abstract: the cache as a map, the workers' messages as a
//! sequence in their order of arrival, and what holds of every run.
//!
//! The map stands for a store that drops nothing while the run lasts.

use vstd::prelude::*;
use crate::cache::{answer, answers, holds};
use crate::files::document;
use crate::workers::consumer::RunProgress;
use crate::workers::types::Completion;
use crate::workers::{pending, unsatisfied};

verus! {

/// The cache after the collector has stored one completion.
pub open spec fn stored(cache: Map<Seq<char>, Seq<char>>, completion: Completion) -> Map<
    Seq<char>,
    Seq<char>,
> {
    cache.insert(completion.url, completion.content())
}

/// The cache after the collector has stored the completions in their order
/// of arrival.
pub open spec fn stored_all(cache: Map<Seq<char>, Seq<char>>, arrived: Seq<Completion>) -> Map<
    Seq<char>,
    Seq<char>,
>
    decreases arrived.len(),
{
    if arrived.len() == 0 {
        cache
    } else {
        stored(stored_all(cache, arrived.drop_last()), arrived.last())
    }
}

/// The collector's progress after the completions.
pub open spec fn progress_after(start: RunProgress, arrived: Seq<Completion>) -> RunProgress
    decreases arrived.len(),
{
    if arrived.len() == 0 {
        start
    } else {
        progress_after(start, arrived.drop_last()).after(arrived.last())
    }
}

/// The collector's progress before the first message.
pub open spec fn fresh(expected_count: usize) -> RunProgress {
    RunProgress { expected_count, completed_count: 0, had_errors: false }
}

/// No two completions are for the same URL: each URL was dispatched at most
/// once, and each task reported once.
pub open spec fn one_per_url(arrived: Seq<Completion>) -> bool {
    forall|i: int, j: int| 0 <= i < j < arrived.len() ==> arrived[i].url != arrived[j].url
}

/// Whether a completion for the URL is among those that arrived.
pub open spec fn reported(arrived: Seq<Completion>, url: Seq<char>) -> bool {
    exists|i: int| 0 <= i < arrived.len() && (#[trigger] arrived[i]).url == url
}

/// Whether a failure for the URL is among the completions that arrived.
pub open spec fn reported_failed(arrived: Seq<Completion>, url: Seq<char>) -> bool {
    exists|i: int|
        0 <= i < arrived.len() && (#[trigger] arrived[i]).url == url && arrived[i].result is Failed
}

/// After a run with one completion per URL, the cache answers each reported
/// URL with what its completion asked for, and every other URL as before.
pub proof fn lemma_cache_after_run(cache: Map<Seq<char>, Seq<char>>, arrived: Seq<Completion>)
    requires
        one_per_url(arrived),
    ensures
        forall|i: int|
            0 <= i < arrived.len() ==> answer(
                stored_all(cache, arrived),
                (#[trigger] arrived[i]).url,
            ) == Some(arrived[i].content()),
        forall|url: Seq<char>|
            !reported(arrived, url) ==> #[trigger] answer(stored_all(cache, arrived), url)
                == answer(cache, url),
    decreases arrived.len(),
{
    if arrived.len() > 0 {
        let earlier = arrived.drop_last();
        let last = arrived.last();
        lemma_cache_after_run(cache, earlier);
        assert forall|i: int| 0 <= i < arrived.len() implies answer(
            stored_all(cache, arrived),
            (#[trigger] arrived[i]).url,
        ) == Some(arrived[i].content()) by {
            if i < arrived.len() - 1 {
                assert(earlier[i] == arrived[i]);
                assert(arrived[i].url != arrived[arrived.len() - 1].url);
            }
        }
        assert forall|url: Seq<char>| !reported(arrived, url) implies #[trigger] answer(
            stored_all(cache, arrived),
            url,
        ) == answer(cache, url) by {
            assert(arrived[arrived.len() - 1].url != url);
            if reported(earlier, url) {
                let i = choose|i: int| 0 <= i < earlier.len() && (#[trigger] earlier[i]).url == url;
                assert(arrived[i].url == url);
            }
            assert(answer(stored_all(cache, earlier), url) == answer(cache, url));
        }
    }
}

/// The collector counts every message, is complete exactly when as many
/// have arrived as it expects, and has noted an error exactly when one of
/// them was a failure. So it reads on after every message short of the
/// expected count, and stops at the count.
pub proof fn lemma_collector_stops_at_expected(expected_count: usize, arrived: Seq<Completion>)
    requires
        arrived.len() <= expected_count,
    ensures
        progress_after(fresh(expected_count), arrived).wf(),
        progress_after(fresh(expected_count), arrived).expected_count == expected_count,
        progress_after(fresh(expected_count), arrived).completed_count == arrived.len(),
        progress_after(fresh(expected_count), arrived).complete() <==> arrived.len()
            == expected_count,
        progress_after(fresh(expected_count), arrived).had_errors <==> exists|i: int|
            0 <= i < arrived.len() && (#[trigger] arrived[i]).result is Failed,
    decreases arrived.len(),
{
    if arrived.len() > 0 {
        let earlier = arrived.drop_last();
        lemma_collector_stops_at_expected(expected_count, earlier);
        let before = progress_after(fresh(expected_count), earlier);
        if before.had_errors {
            let i = choose|i: int| 0 <= i < earlier.len() && (#[trigger] earlier[i]).result is Failed;
            assert(arrived[i].result is Failed);
        }
        if exists|i: int| 0 <= i < arrived.len() && (#[trigger] arrived[i]).result is Failed {
            let i = choose|i: int| 0 <= i < arrived.len() && (#[trigger] arrived[i]).result is Failed;
            if i < arrived.len() - 1 {
                assert(earlier[i].result is Failed);
            }
        }
    }
}

/// The cache at the end of a run, and with it the document, do not depend
/// on the order in which the completions arrived: two runs that receive the
/// same completions, one per URL, in any two orders, end with the same cache
/// and assemble the same document, chapter by chapter in the order of the
/// link list.
pub proof fn lemma_arrival_order_is_immaterial(
    cache: Map<Seq<char>, Seq<char>>,
    links: Seq<Seq<char>>,
    first: Seq<Completion>,
    second: Seq<Completion>,
)
    requires
        one_per_url(first),
        first.to_multiset() == second.to_multiset(),
    ensures
        stored_all(cache, first) == stored_all(cache, second),
        document(answers(stored_all(cache, first), links)) == document(
            answers(stored_all(cache, second), links),
        ),
{
    assert forall|c: Completion| first.contains(c) <==> second.contains(c) by {
        vstd::seq_lib::to_multiset_contains(first, c);
        vstd::seq_lib::to_multiset_contains(second, c);
    }
    assert(first.no_duplicates()) by {
        assert forall|i: int, j: int| 0 <= i < first.len() && 0 <= j < first.len() && i != j implies first[i]
            != first[j] by {
            if i < j {
                assert(first[i].url != first[j].url);
            } else {
                assert(first[j].url != first[i].url);
            }
        }
    }
    first.lemma_multiset_has_no_duplicates();
    second.lemma_multiset_has_no_duplicates_conv();
    assert(one_per_url(second)) by {
        assert forall|i: int, j: int| 0 <= i < j < second.len() implies second[i].url
            != second[j].url by {
            assert(second.contains(second[i]));
            assert(second.contains(second[j]));
            let a = choose|a: int| 0 <= a < first.len() && first[a] == second[i];
            let b = choose|b: int| 0 <= b < first.len() && first[b] == second[j];
            if second[i].url == second[j].url {
                if a < b {
                    assert(first[a].url != first[b].url);
                } else if b < a {
                    assert(first[b].url != first[a].url);
                }
                assert(second[i] == second[j]);
            }
        }
    }
    lemma_cache_after_run(cache, first);
    lemma_cache_after_run(cache, second);
    let one = stored_all(cache, first);
    let other = stored_all(cache, second);
    assert forall|url: Seq<char>| answer(one, url) == answer(other, url) by {
        if reported(first, url) {
            let a = choose|a: int| 0 <= a < first.len() && (#[trigger] first[a]).url == url;
            assert(first.contains(first[a]));
            let b = choose|b: int| 0 <= b < second.len() && second[b] == first[a];
            assert(answer(one, first[a].url) == Some(first[a].content()));
            assert(answer(other, second[b].url) == Some(second[b].content()));
        } else {
            if reported(second, url) {
                let b = choose|b: int| 0 <= b < second.len() && (#[trigger] second[b]).url == url;
                assert(second.contains(second[b]));
                let a = choose|a: int| 0 <= a < first.len() && first[a] == second[b];
                assert(first[a].url == url);
            }
        }
    }
    assert(one =~= other) by {
        assert forall|url: Seq<char>| one.dom().contains(url) == other.dom().contains(url) by {
            assert(answer(one, url) == answer(other, url));
        }
        assert forall|url: Seq<char>| one.dom().contains(url) implies one[url] == other[url] by {
            assert(answer(one, url) == answer(other, url));
        }
    }
}

/// The document of two lists of answers, one after the other, is the
/// document of the first followed by the document of the second.
pub proof fn lemma_document_of_two_parts(
    front: Seq<(Seq<char>, Option<Seq<char>>)>,
    back: Seq<(Seq<char>, Option<Seq<char>>)>,
)
    ensures
        document(front + back) == document(front) + document(back),
    decreases back.len(),
{
    if back.len() == 0 {
        assert(front + back =~= front);
        assert(document(front) + document(back) =~= document(front));
    } else {
        lemma_document_of_two_parts(front, back.drop_last());
        assert((front + back).drop_last() =~= front + back.drop_last());
        assert((front + back).last() == back.last());
        assert(document(front + back) =~= document(front) + document(back));
    }
}

/// The document holds the chapters in the order of the link list: what the
/// cache holds for the first `k` links comes first, in their order, and
/// what it holds for the others follows, in theirs.
pub proof fn lemma_document_follows_links(
    cache: Map<Seq<char>, Seq<char>>,
    links: Seq<Seq<char>>,
    k: int,
)
    requires
        0 <= k <= links.len(),
    ensures
        document(answers(cache, links)) == document(answers(cache, links.take(k))) + document(
            answers(cache, links.skip(k)),
        ),
{
    assert(answers(cache, links) =~= answers(cache, links.take(k)) + answers(
        cache,
        links.skip(k),
    ));
    lemma_document_of_two_parts(answers(cache, links.take(k)), answers(cache, links.skip(k)));
}

/// A failure never takes the place of a chapter within a run: where each
/// URL has one completion and was dispatched because the cache held no
/// chapter for it, the cache holds no chapter for the URL of a failure at
/// the moment the failure is stored.
pub proof fn lemma_failure_replaces_no_chapter(
    cache: Map<Seq<char>, Seq<char>>,
    arrived: Seq<Completion>,
    i: int,
)
    requires
        one_per_url(arrived),
        0 <= i < arrived.len(),
        arrived[i].result is Failed,
        !holds(cache, arrived[i].url),
    ensures
        !holds(stored_all(cache, arrived.take(i)), arrived[i].url),
{
    let earlier = arrived.take(i);
    let url = arrived[i].url;
    assert(one_per_url(earlier)) by {
        assert forall|a: int, b: int| 0 <= a < b < earlier.len() implies earlier[a].url
            != earlier[b].url by {
            assert(arrived[a].url != arrived[b].url);
        }
    }
    lemma_cache_after_run(cache, earlier);
    if reported(earlier, url) {
        let a = choose|a: int| 0 <= a < earlier.len() && (#[trigger] earlier[a]).url == url;
        assert(arrived[a].url != arrived[i].url);
    }
    assert(answer(stored_all(cache, earlier), url) == answer(cache, url));
}

/// A run fetches exactly the links for which the cache holds no chapter:
/// those never attempted and those whose attempt failed. A link whose
/// chapter is held is never fetched again.
pub proof fn lemma_dispatch_is_the_unsatisfied(
    cache: Map<Seq<char>, Seq<char>>,
    links: Seq<Seq<char>>,
)
    ensures
        forall|url: Seq<char>|
            #[trigger] pending(answers(cache, links)).contains(url) <==> links.contains(url)
                && !holds(cache, url),
{
    let lookups = answers(cache, links);
    let kept = lookups.filter(unsatisfied());
    assert forall|url: Seq<char>| #[trigger]
        pending(lookups).contains(url) <==> links.contains(url) && !holds(cache, url) by {
        if pending(lookups).contains(url) {
            let k = choose|k: int| 0 <= k < pending(lookups).len() && pending(lookups)[k] == url;
            assert(kept[k].0 == url);
            lookups.lemma_filter_pred(unsatisfied(), k);
            assert(kept.contains(kept[k]));
            lookups.lemma_filter_contains_rev(unsatisfied(), kept[k]);
            let i = choose|i: int| 0 <= i < lookups.len() && lookups[i] == kept[k];
            assert(links[i] == url);
            assert(links.contains(url));
        }
        if links.contains(url) && !holds(cache, url) {
            let i = choose|i: int| 0 <= i < links.len() && links[i] == url;
            assert(lookups[i] == (url, answer(cache, url)));
            lookups.lemma_filter_contains(unsatisfied(), i);
            let k = choose|k: int| 0 <= k < kept.len() && kept[k] == lookups[i];
            assert(pending(lookups)[k] == url);
        }
    }
}

/// What the next run fetches: of the links, those whose completion in this
/// run was a failure, and those that this run did not report on and the
/// cache held no chapter for. A chapter that this run fetched with success
/// is not fetched again.
pub proof fn lemma_next_run_retries_failures(
    cache: Map<Seq<char>, Seq<char>>,
    links: Seq<Seq<char>>,
    arrived: Seq<Completion>,
)
    requires
        one_per_url(arrived),
        forall|i: int| 0 <= i < arrived.len() ==> (#[trigger] arrived[i]).wf(),
    ensures
        forall|url: Seq<char>|
            #[trigger] pending(answers(stored_all(cache, arrived), links)).contains(url)
                <==> links.contains(url) && if reported(arrived, url) {
                reported_failed(arrived, url)
            } else {
                !holds(cache, url)
            },
{
    let after = stored_all(cache, arrived);
    lemma_dispatch_is_the_unsatisfied(after, links);
    lemma_cache_after_run(cache, arrived);
    assert forall|url: Seq<char>| holds(after, url) <==> !(if reported(arrived, url) {
        reported_failed(arrived, url)
    } else {
        !holds(cache, url)
    }) by {
        if reported(arrived, url) {
            let a = choose|a: int| 0 <= a < arrived.len() && (#[trigger] arrived[a]).url == url;
            assert(answer(after, arrived[a].url) == Some(arrived[a].content()));
            assert(arrived[a].wf());
            if reported_failed(arrived, url) {
                let b = choose|b: int|
                    0 <= b < arrived.len() && (#[trigger] arrived[b]).url == url
                        && arrived[b].result is Failed;
                if a < b {
                    assert(arrived[a].url != arrived[b].url);
                } else if b < a {
                    assert(arrived[b].url != arrived[a].url);
                }
            }
        } else {
            assert(answer(after, url) == answer(cache, url));
        }
    }
}

} // verus!
