//! The sink's side of the registry: what it takes to receive events.

use crate::data::MeterRecord;
use vstd::prelude::*;

verus! {

/// A sink for consumption events. Each implementation says for itself, with
/// the two relations, what receiving an event does to it.
pub trait Collect: Send + Sync {
    /// Whether `after` is this sink once it has been told of the read `record`.
    spec fn read_filed(&self, record: MeterRecord, after: &Self) -> bool;

    /// Whether `after` is this sink once it has been told of the write `record`.
    spec fn write_filed(&self, record: MeterRecord, after: &Self) -> bool;

    /// Tells the sink of an event that consumed read units.
    fn on_read(&mut self, record: MeterRecord)
        ensures
            old(self).read_filed(record, final(self)),
    ;

    /// Tells the sink of an event that consumed write units.
    fn on_write(&mut self, record: MeterRecord)
        ensures
            old(self).write_filed(record, final(self)),
    ;
}

} // verus!
