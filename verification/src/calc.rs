//! Calculators: how an item of some type becomes a magnitude.

use crate::data::MeterRecord;
use vstd::prelude::*;

verus! {

/// A cost function for items of type `T`. One calculator may serve several
/// item types, and may be shared between threads.
pub trait WriteCalculator<T>: Send + Sync {
    /// The magnitude of `value`.
    spec fn cost(&self, value: &T) -> u64;

    fn calc(&self, value: &T) -> (magnitude: u64)
        ensures
            magnitude == self.cost(value),
    ;
}

/// An item that knows its own size in bytes.
pub trait WriteCalc {
    spec fn bytes(&self) -> u32;

    fn byte_count(&self) -> (count: u32)
        ensures
            count == self.bytes(),
    ;
}

impl WriteCalc for u32 {
    open spec fn bytes(&self) -> u32 {
        *self
    }

    fn byte_count(&self) -> (count: u32) {
        *self
    }
}

/// Takes a record's magnitude to be the value it carries.
pub struct RecordValue;

impl WriteCalculator<MeterRecord> for RecordValue {
    open spec fn cost(&self, value: &MeterRecord) -> u64 {
        value.value
    }

    fn calc(&self, value: &MeterRecord) -> (magnitude: u64) {
        value.value
    }
}

} // verus!
