//! The calculator table: at most one value of each type, whatever the type.
//!
//! The table is a type-keyed map of an outside crate. The verifier refuses
//! the map's own type, so the map sits in a struct that the verifier does not
//! look into, and the three functions marked `external_body` below are all
//! that touches it. What is assumed of them is stated over `slots_filled`,
//! the number of types that have a value. Which value the slot of a given
//! type holds is not stated anywhere: it is known only by running them.

use anymap2::SendSyncAnyMap;
use std::sync::Arc;
use vstd::prelude::*;

verus! {

/// A map from types to one value of each, shareable between threads.
#[verifier::external_body]
pub struct CalculatorTable {
    slots: SendSyncAnyMap,
}

/// How many types have a value in the table: what the map's `len` gives.
pub uninterp spec fn slots_filled(table: CalculatorTable) -> nat;

/// `anymap2::Map::new`: a table with every slot empty.
#[verifier::external_body]
pub(crate) fn new_table() -> (fresh: CalculatorTable)
    ensures
        slots_filled(fresh) == 0,
{
    CalculatorTable { slots: SendSyncAnyMap::new() }
}

/// `anymap2::Map::insert`: puts `value` into the slot of its type and hands
/// back what the slot held. One more slot is filled if it held nothing.
#[verifier::external_body]
pub(crate) fn table_insert<V: Send + Sync + 'static>(table: &mut CalculatorTable, value: V) -> (prior:
    Option<V>)
    ensures
        prior is Some ==> slots_filled(*final(table)) == slots_filled(*old(table)) >= 1,
        prior is None ==> slots_filled(*final(table)) == slots_filled(*old(table)) + 1,
{
    table.slots.insert(value)
}

/// `anymap2::Map::get`: what the slot of type `V` holds. It can hold
/// something only if some slot is filled.
#[verifier::external_body]
pub(crate) fn table_get<V: Send + Sync + 'static>(table: &CalculatorTable) -> (found: Option<&V>)
    ensures
        found is Some ==> slots_filled(*table) >= 1,
{
    table.slots.get::<V>()
}

/// `Arc::clone`: another handle to the value that `handle` points to.
#[verifier::external_body]
pub(crate) fn share<H>(handle: &Arc<H>) -> (other: Arc<H>)
    ensures
        other == *handle,
{
    Arc::clone(handle)
}

} // verus!
