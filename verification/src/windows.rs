//! Reporting windows: what summing up says of the events that were filed
//! between two clearings of the buckets.

use crate::buckets::{bucket_of, file, identity_of, no_buckets, BucketMap};
use crate::calc::WriteCalculator;
use crate::data::MeterRecord;
use crate::totals::{total, totals_fit, totals_of};
use vstd::prelude::*;

verus! {

/// The buckets after `events` have been filed one by one, oldest first.
pub open spec fn file_all(buckets: BucketMap, events: Seq<MeterRecord>) -> BucketMap
    decreases events.len(),
{
    if events.len() == 0 {
        buckets
    } else {
        file(file_all(buckets, events.drop_last()), events.last())
    }
}

/// Those of `events` that are about `id`, in their order.
pub open spec fn about(events: Seq<MeterRecord>, id: (Seq<char>, Seq<char>)) -> Seq<MeterRecord> {
    events.filter(|event: MeterRecord| identity_of(event) == id)
}

/// What a window in which exactly `events` were filed reports for `id`: its
/// total, and nothing, counted as zero, where no event was about `id`.
pub open spec fn window_total<C: WriteCalculator<MeterRecord>>(
    calc: &C,
    events: Seq<MeterRecord>,
    id: (Seq<char>, Seq<char>),
) -> int {
    let totals = totals_of(calc, file_all(no_buckets(), events));
    if totals.dom().contains(id) {
        totals[id]
    } else {
        0
    }
}

proof fn lemma_about_step(events: Seq<MeterRecord>, id: (Seq<char>, Seq<char>))
    requires
        events.len() > 0,
    ensures
        about(events, id) == if identity_of(events.last()) == id {
            about(events.drop_last(), id).push(events.last())
        } else {
            about(events.drop_last(), id)
        },
{
    reveal(Seq::filter);
}

proof fn lemma_about_none(id: (Seq<char>, Seq<char>))
    ensures
        about(Seq::<MeterRecord>::empty(), id) == Seq::<MeterRecord>::empty(),
{
    reveal(Seq::filter);
}

/// Filing adds to each bucket the events about its identity, in order, and
/// gives a bucket to exactly those identities that had one or got an event.
pub proof fn lemma_buckets_after_filing(
    buckets: BucketMap,
    events: Seq<MeterRecord>,
    id: (Seq<char>, Seq<char>),
)
    ensures
        bucket_of(file_all(buckets, events), id) == bucket_of(buckets, id) + about(events, id),
        file_all(buckets, events).dom().contains(id) <==> buckets.dom().contains(id) || about(
            events,
            id,
        ).len() > 0,
    decreases events.len(),
{
    if events.len() == 0 {
        lemma_about_none(id);
        assert(events == Seq::<MeterRecord>::empty());
        assert(bucket_of(buckets, id) + Seq::<MeterRecord>::empty() == bucket_of(buckets, id));
    } else {
        lemma_buckets_after_filing(buckets, events.drop_last(), id);
        lemma_about_step(events, id);
        let before = file_all(buckets, events.drop_last());
        if identity_of(events.last()) == id {
            assert((bucket_of(buckets, id) + about(events.drop_last(), id)).push(events.last())
                == bucket_of(buckets, id) + about(events.drop_last(), id).push(events.last()));
        }
    }
}

/// The total of two runs of records, one after the other, is the sum of
/// their totals.
pub proof fn lemma_total_of_both<C: WriteCalculator<MeterRecord>>(
    calc: &C,
    first: Seq<MeterRecord>,
    second: Seq<MeterRecord>,
)
    ensures
        total(calc, first + second) == total(calc, first) + total(calc, second),
    decreases second.len(),
{
    if second.len() == 0 {
        assert(first + second == first);
    } else {
        lemma_total_of_both(calc, first, second.drop_last());
        assert((first + second).drop_last() == first + second.drop_last());
    }
}

/// After the events of a window have been filed into empty buckets, summing
/// up gives an entry to exactly the identities that some event was about,
/// and the entry is the sum of the magnitudes of those events.
pub proof fn lemma_window_totals<C: WriteCalculator<MeterRecord>>(
    calc: &C,
    events: Seq<MeterRecord>,
    id: (Seq<char>, Seq<char>),
)
    ensures
        totals_of(calc, file_all(no_buckets(), events)).dom().contains(id) <==> exists|i: int|
            0 <= i < events.len() && identity_of(#[trigger] events[i]) == id,
        totals_of(calc, file_all(no_buckets(), events)).dom().contains(id) ==> totals_of(
            calc,
            file_all(no_buckets(), events),
        )[id] == total(calc, about(events, id)),
        window_total(calc, events, id) == total(calc, about(events, id)),
{
    lemma_buckets_after_filing(no_buckets(), events, id);
    assert(Seq::<MeterRecord>::empty() + about(events, id) == about(events, id));
    let pred = |event: MeterRecord| identity_of(event) == id;
    if about(events, id).len() > 0 {
        let found = about(events, id)[0];
        assert(events.filter(pred).contains(found));
        events.lemma_filter_contains_rev(pred, found);
        let i = choose|i: int| 0 <= i < events.len() && events[i] == found;
        events.filter_lemma(pred);
        assert(pred(found));
        assert(identity_of(events[i]) == id);
    } else {
        assert forall|i: int| 0 <= i < events.len() implies identity_of(#[trigger] events[i])
            != id by {
            if identity_of(events[i]) == id {
                events.filter_lemma(pred);
                assert(pred(events[i]));
                assert(events.filter(pred).contains(events[i]));
            }
        }
    }
}

/// Right after a clearing nothing is counted: every sum fits, and summing
/// up gives the empty mapping.
pub proof fn lemma_empty_window<C: WriteCalculator<MeterRecord>>(calc: &C)
    ensures
        totals_fit(calc, no_buckets()),
        totals_of(calc, no_buckets()) == Map::<(Seq<char>, Seq<char>), int>::empty(),
{
    assert(totals_of(calc, no_buckets()) =~= Map::<(Seq<char>, Seq<char>), int>::empty());
}

/// Nothing is counted twice and nothing is lost: wherever among `events`
/// the one clearing falls, what the window before it and the window after
/// it report for an identity adds up to the total of all events about it.
pub proof fn lemma_windows_add_up<C: WriteCalculator<MeterRecord>>(
    calc: &C,
    events: Seq<MeterRecord>,
    cut: int,
    id: (Seq<char>, Seq<char>),
)
    requires
        0 <= cut <= events.len(),
    ensures
        window_total(calc, events.take(cut), id) + window_total(calc, events.skip(cut), id)
            == total(calc, about(events, id)),
        window_total(calc, events.take(cut), id) + window_total(calc, events.skip(cut), id)
            == window_total(calc, events, id),
{
    lemma_window_totals(calc, events.take(cut), id);
    lemma_window_totals(calc, events.skip(cut), id);
    lemma_window_totals(calc, events, id);
    let pred = |event: MeterRecord| identity_of(event) == id;
    Seq::filter_distributes_over_add(events.take(cut), events.skip(cut), pred);
    assert(events.take(cut) + events.skip(cut) == events);
    lemma_total_of_both(calc, about(events.take(cut), id), about(events.skip(cut), id));
}

} // verus!
