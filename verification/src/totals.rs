//! Sums of magnitudes, per bucket and per identity.

use crate::buckets::{copy_buckets, held, key_view, BucketMap, Buckets};
use crate::calc::WriteCalculator;
use crate::data::MeterRecord;
use crate::identity::SchemaId;
use vstd::prelude::*;

verus! {

/// The sum of the magnitudes that `calc` gives the records.
pub open spec fn total<C: WriteCalculator<MeterRecord>>(calc: &C, records: Seq<MeterRecord>) -> int
    decreases records.len(),
{
    if records.len() == 0 {
        0
    } else {
        total(calc, records.drop_last()) + calc.cost(&records.last())
    }
}

/// For each identity that has a bucket, the total of that bucket. An identity
/// without a bucket has no entry.
pub open spec fn totals_of<C: WriteCalculator<MeterRecord>>(calc: &C, buckets: BucketMap) -> Map<
    (Seq<char>, Seq<char>),
    int,
> {
    Map::new(
        |id: (Seq<char>, Seq<char>)| buckets.dom().contains(id),
        |id: (Seq<char>, Seq<char>)| total(calc, buckets[id]),
    )
}

/// Every bucket's total is small enough to be held in a `u64`.
pub open spec fn totals_fit<C: WriteCalculator<MeterRecord>>(calc: &C, buckets: BucketMap) -> bool {
    forall|id: (Seq<char>, Seq<char>)| #[trigger]
        buckets.dom().contains(id) ==> total(calc, buckets[id]) <= u64::MAX
}

/// A total never shrinks when records are appended.
pub proof fn lemma_total_grows<C: WriteCalculator<MeterRecord>>(
    calc: &C,
    records: Seq<MeterRecord>,
    n: int,
)
    requires
        0 <= n <= records.len(),
    ensures
        0 <= total(calc, records.take(n)) <= total(calc, records),
    decreases records.len() - n,
{
    if n == records.len() {
        assert(records.take(n) == records);
        lemma_total_not_negative(calc, records);
    } else {
        lemma_total_grows(calc, records, n + 1);
        lemma_total_not_negative(calc, records.take(n));
        assert(records.take(n + 1).drop_last() == records.take(n));
    }
}

pub proof fn lemma_total_not_negative<C: WriteCalculator<MeterRecord>>(
    calc: &C,
    records: Seq<MeterRecord>,
)
    ensures
        0 <= total(calc, records),
    decreases records.len(),
{
    if records.len() > 0 {
        lemma_total_not_negative(calc, records.drop_last());
    }
}

/// Sums one bucket, or reports that the sum does not fit.
pub(crate) fn checked_sum<C: WriteCalculator<MeterRecord>>(calc: &C, records: &Vec<MeterRecord>) -> (sum:
    Option<u64>)
    ensures
        sum is Some <==> total(calc, records@) <= u64::MAX,
        sum is Some ==> sum->0 == total(calc, records@),
{
    let mut sum: u64 = 0;
    let mut i: usize = 0;
    while i < records.len()
        invariant
            i <= records.len(),
            sum == total(calc, records@.take(i as int)),
        decreases records.len() - i,
    {
        let magnitude = calc.calc(&records[i]);
        proof {
            assert(records@.take(i + 1).drop_last() == records@.take(i as int));
            lemma_total_grows(calc, records@, i + 1);
        }
        match sum.checked_add(magnitude) {
            Some(more) => {
                sum = more;
            },
            None => {
                return None;
            },
        }
        i += 1;
    }
    proof {
        assert(records@.take(i as int) == records@);
    }
    Some(sum)
}

/// Totals per identity: the mapping that an aggregation gives. No identity
/// occurs twice in it.
pub struct Totals {
    entries: Vec<(SchemaId, u64)>,
}

impl Totals {
    /// The entries in the order in which they are stored.
    pub closed spec fn pairs(&self) -> Seq<(SchemaId, u64)> {
        self.entries@
    }

    /// No identity occurs twice.
    pub open spec fn wf(&self) -> bool {
        forall|i: int, j: int|
            0 <= i < j < self.pairs().len() ==> (#[trigger] self.pairs()[i]).0@ != (
            #[trigger] self.pairs()[j]).0@
    }

    /// Whether some entry is about `id`.
    pub open spec fn has(&self, id: (Seq<char>, Seq<char>)) -> bool {
        exists|i: int| 0 <= i < self.pairs().len() && (#[trigger] self.pairs()[i]).0@ == id
    }

    /// The place of the entry about `id`.
    pub open spec fn place(&self, id: (Seq<char>, Seq<char>)) -> int {
        choose|i: int| 0 <= i < self.pairs().len() && (#[trigger] self.pairs()[i]).0@ == id
    }
}

impl View for Totals {
    type V = Map<(Seq<char>, Seq<char>), int>;

    /// The totals as a map from identity to sum.
    open spec fn view(&self) -> Map<(Seq<char>, Seq<char>), int> {
        Map::new(
            |id: (Seq<char>, Seq<char>)| self.has(id),
            |id: (Seq<char>, Seq<char>)| self.pairs()[self.place(id)].1 as int,
        )
    }
}

impl Totals {
    #[verifier::type_invariant]
    spec fn distinct(self) -> bool {
        self.wf()
    }

    /// Sums every bucket of `buckets`, or reports that some sum does not fit.
    pub(crate) fn checked_tally<C: WriteCalculator<MeterRecord>>(buckets: &Buckets, calc: &C) -> (out:
        Option<Totals>)
        ensures
            out is Some <==> totals_fit(calc, held(*buckets)),
            out is Some ==> out->0.wf() && out->0@ == totals_of(calc, held(*buckets)),
    {
        let all = copy_buckets(buckets);
        let mut entries: Vec<(SchemaId, u64)> = Vec::new();
        let mut i: usize = 0;
        while i < all.len()
            invariant
                i <= all.len(),
                entries.len() == i,
                forall|j: int|
                    0 <= j < all.len() ==> held(*buckets).contains_pair(
                        #[trigger] key_view(all[j].0),
                        all[j].1@,
                    ),
                forall|j: int|
                    0 <= j < i ==> (#[trigger] entries[j]).0@ == key_view(all[j].0)
                        && entries[j].1 == total(calc, all[j].1@),
            decreases all.len() - i,
        {
            let ghost id = key_view(all[i as int].0);
            assert(held(*buckets).contains_pair(id, all[i as int].1@));
            match checked_sum(calc, &all[i].1) {
                Some(sum) => {
                    let id = SchemaId { catalog: all[i].0.0.clone(), schema: all[i].0.1.clone() };
                    entries.push((id, sum));
                },
                None => {
                    assert(held(*buckets).dom().contains(id));
                    return None;
                },
            }
            i += 1;
        }
        proof {
            assert forall|id: (Seq<char>, Seq<char>)| #[trigger]
                held(*buckets).dom().contains(id) implies exists|j: int|
                0 <= j < entries.len() && (#[trigger] entries[j]).0@ == id && entries[j].1 == total(
                    calc,
                    held(*buckets)[id],
                ) by {
                let j = choose|j: int| 0 <= j < all.len() && key_view(#[trigger] all[j].0) == id;
                assert(held(*buckets).contains_pair(key_view(all[j].0), all[j].1@));
                assert(entries[j].0@ == id);
            }
            assert forall|a: int, b: int| 0 <= a < b < entries.len() implies (
            #[trigger] entries[a]).0@ != (#[trigger] entries[b]).0@ by {
                assert(key_view(all[a].0) != key_view(all[b].0));
            }
        }
        let out = Totals { entries };
        proof {
            assert forall|id: (Seq<char>, Seq<char>)| out.has(id) implies held(
                *buckets,
            ).dom().contains(id) by {
                let j = out.place(id);
                assert(held(*buckets).contains_pair(key_view(all[j].0), all[j].1@));
            }
            assert forall|id: (Seq<char>, Seq<char>)| #[trigger]
                held(*buckets).dom().contains(id) implies out.has(id) && out@[id] == total(
                calc,
                held(*buckets)[id],
            ) by {
                let j = choose|j: int|
                    0 <= j < entries.len() && (#[trigger] entries[j]).0@ == id && entries[j].1
                        == total(calc, held(*buckets)[id]);
                assert(out.pairs()[j].0@ == id);
                assert(out.place(id) == j);
            }
            assert(out@ =~= totals_of(calc, held(*buckets)));
        }
        Some(out)
    }

    /// The number of identities that have a total.
    pub fn len(&self) -> (n: usize)
        ensures
            n == self.pairs().len(),
    {
        self.entries.len()
    }

    pub fn is_empty(&self) -> (empty: bool)
        ensures
            empty <==> self@ == Map::<(Seq<char>, Seq<char>), int>::empty(),
    {
        let empty = self.entries.len() == 0;
        proof {
            if !empty {
                assert(self.has(self.pairs()[0].0@));
                assert(self@.dom().contains(self.pairs()[0].0@));
            } else {
                assert(self@ =~= Map::<(Seq<char>, Seq<char>), int>::empty());
            }
        }
        empty
    }

    /// The total of `id`, if it has one.
    pub fn get(&self, id: &SchemaId) -> (sum: Option<u64>)
        ensures
            self.wf(),
            sum is Some <==> self@.dom().contains(id@),
            sum is Some ==> sum->0 == self@[id@],
    {
        proof {
            use_type_invariant(self);
        }
        let mut i: usize = 0;
        while i < self.entries.len()
            invariant
                i <= self.entries.len(),
                self.wf(),
                forall|j: int| 0 <= j < i ==> (#[trigger] self.pairs()[j]).0@ != id@,
            decreases self.entries.len() - i,
        {
            if self.entries[i].0.catalog == id.catalog && self.entries[i].0.schema == id.schema {
                proof {
                    assert(self.pairs()[i as int].0@ == id@);
                    assert(self.has(id@));
                    assert(self.place(id@) == i);
                }
                return Some(self.entries[i].1);
            }
            i += 1;
        }
        None
    }

    /// The entries themselves, for walking through them.
    pub fn into_vec(self) -> (entries: Vec<(SchemaId, u64)>)
        ensures
            entries@ == self.pairs(),
            self.wf(),
    {
        proof {
            use_type_invariant(&self);
        }
        self.entries
    }
}

} // verus!
