//! In-process metering of resource consumption: events are filed per
//! identity and summed up for periodic reporting.

pub mod buckets;
pub mod calc;
pub mod collect;
pub mod collector;
pub mod data;
pub mod identity;
pub mod mock;
pub mod registry;
pub mod reporter;
pub mod table;
pub mod totals;
pub mod windows;
