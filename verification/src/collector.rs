//! A collector that files every event under its catalog and schema and sums
//! the buckets up on demand.

use crate::buckets::{clear_buckets, file, file_record, held, new_buckets, no_buckets, BucketMap, Buckets};
use crate::calc::WriteCalculator;
use crate::collect::Collect;
use crate::data::MeterRecord;
use crate::totals::{totals_fit, totals_of, Totals};
use vstd::prelude::*;

verus! {

/// Buckets of read and write events, and the two calculators that price
/// them when the buckets are summed up.
pub struct SimpleCollector<W, R> {
    read_data: Buckets,
    write_data: Buckets,
    wcu_calc: W,
    rcu_calc: R,
}

impl<W, R> SimpleCollector<W, R> {
    /// The write events filed since the last `clear`, per identity.
    pub closed spec fn writes(&self) -> BucketMap {
        held(self.write_data)
    }

    /// The read events filed since the last `clear`, per identity.
    pub closed spec fn reads(&self) -> BucketMap {
        held(self.read_data)
    }

    /// The calculator that prices write events.
    pub closed spec fn wcu_calc(&self) -> W {
        self.wcu_calc
    }

    /// The calculator that prices read events.
    pub closed spec fn rcu_calc(&self) -> R {
        self.rcu_calc
    }

    /// Whether `after` is this collector with other buckets: the calculators
    /// are those of `self`.
    pub open spec fn same_calcs(&self, after: &Self) -> bool {
        after.wcu_calc() == self.wcu_calc() && after.rcu_calc() == self.rcu_calc()
    }

    pub fn new(wcu_calc: W, rcu_calc: R) -> (collector: Self)
        ensures
            collector.writes() == no_buckets(),
            collector.reads() == no_buckets(),
            collector.wcu_calc() == wcu_calc,
            collector.rcu_calc() == rcu_calc,
    {
        Self { read_data: new_buckets(), write_data: new_buckets(), wcu_calc, rcu_calc }
    }
}

impl<W, R> SimpleCollector<W, R> where
    W: WriteCalculator<MeterRecord>,
    R: WriteCalculator<MeterRecord>,
 {
    /// Empties every bucket of both directions.
    pub fn clear(&mut self)
        ensures
            final(self).writes() == no_buckets(),
            final(self).reads() == no_buckets(),
            old(self).same_calcs(final(self)),
    {
        clear_buckets(&mut self.read_data);
        clear_buckets(&mut self.write_data);
    }

    /// The write units consumed per identity since the last `clear`.
    pub fn schema_wcus(&self) -> (out: Totals)
        requires
            totals_fit(&self.wcu_calc(), self.writes()),
        ensures
            out.wf(),
            out@ == totals_of(&self.wcu_calc(), self.writes()),
    {
        Totals::checked_tally(&self.write_data, &self.wcu_calc).unwrap()
    }

    /// The read units consumed per identity since the last `clear`.
    pub fn schema_rcus(&self) -> (out: Totals)
        requires
            totals_fit(&self.rcu_calc(), self.reads()),
        ensures
            out.wf(),
            out@ == totals_of(&self.rcu_calc(), self.reads()),
    {
        Totals::checked_tally(&self.read_data, &self.rcu_calc).unwrap()
    }

    /// As `schema_wcus`, for a collector of which it is not known that every
    /// sum fits: `None` where one does not.
    pub fn checked_schema_wcus(&self) -> (out: Option<Totals>)
        ensures
            out is Some <==> totals_fit(&self.wcu_calc(), self.writes()),
            out is Some ==> out->0.wf() && out->0@ == totals_of(&self.wcu_calc(), self.writes()),
    {
        Totals::checked_tally(&self.write_data, &self.wcu_calc)
    }

    /// As `schema_rcus`, for a collector of which it is not known that every
    /// sum fits: `None` where one does not.
    pub fn checked_schema_rcus(&self) -> (out: Option<Totals>)
        ensures
            out is Some <==> totals_fit(&self.rcu_calc(), self.reads()),
            out is Some ==> out->0.wf() && out->0@ == totals_of(&self.rcu_calc(), self.reads()),
    {
        Totals::checked_tally(&self.read_data, &self.rcu_calc)
    }
}

impl<W, R> Collect for SimpleCollector<W, R> where R: Send + Sync, W: Send + Sync {
    open spec fn read_filed(&self, record: MeterRecord, after: &Self) -> bool {
        &&& after.reads() == file(self.reads(), record)
        &&& after.writes() == self.writes()
        &&& self.same_calcs(after)
    }

    open spec fn write_filed(&self, record: MeterRecord, after: &Self) -> bool {
        &&& after.writes() == file(self.writes(), record)
        &&& after.reads() == self.reads()
        &&& self.same_calcs(after)
    }

    fn on_read(&mut self, record: MeterRecord) {
        file_record(&mut self.read_data, record);
    }

    fn on_write(&mut self, record: MeterRecord) {
        file_record(&mut self.write_data, record);
    }
}

} // verus!
