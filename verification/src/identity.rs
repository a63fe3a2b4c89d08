//! Identities: the keys under which consumption is grouped. Which one is in
//! use depends on how fine the grouping is to be. Two identities are equal
//! when all their fields are.

use vstd::prelude::*;
use vstd::std_specs::cmp::PartialEqSpecImpl;

verus! {

/// Identifies a database: the service-level grouping key.
#[derive(Eq, Hash, Clone, Debug)]
pub struct SchemaId {
    pub catalog: String,
    pub schema: String,
}

/// Identifies a table.
#[derive(Eq, Hash, Clone, Debug)]
pub struct TableId {
    pub catalog: String,
    pub schema: String,
    pub table: String,
}

/// Identifies a region of a table.
#[derive(Eq, Hash, Clone, Debug)]
pub struct RegionId {
    pub catalog: String,
    pub schema: String,
    pub table: String,
    pub region_num: u32,
}

impl View for SchemaId {
    type V = (Seq<char>, Seq<char>);

    open spec fn view(&self) -> (Seq<char>, Seq<char>) {
        (self.catalog@, self.schema@)
    }
}

impl View for TableId {
    type V = (Seq<char>, Seq<char>, Seq<char>);

    open spec fn view(&self) -> (Seq<char>, Seq<char>, Seq<char>) {
        (self.catalog@, self.schema@, self.table@)
    }
}

impl View for RegionId {
    type V = (Seq<char>, Seq<char>, Seq<char>, u32);

    open spec fn view(&self) -> (Seq<char>, Seq<char>, Seq<char>, u32) {
        (self.catalog@, self.schema@, self.table@, self.region_num)
    }
}

impl PartialEq for SchemaId {
    fn eq(&self, other: &Self) -> (same: bool) {
        self.catalog == other.catalog && self.schema == other.schema
    }
}

impl PartialEqSpecImpl for SchemaId {
    open spec fn obeys_eq_spec() -> bool {
        true
    }

    open spec fn eq_spec(&self, other: &Self) -> bool {
        self@ == other@
    }
}

impl PartialEq for TableId {
    fn eq(&self, other: &Self) -> (same: bool) {
        self.catalog == other.catalog && self.schema == other.schema && self.table == other.table
    }
}

impl PartialEqSpecImpl for TableId {
    open spec fn obeys_eq_spec() -> bool {
        true
    }

    open spec fn eq_spec(&self, other: &Self) -> bool {
        self@ == other@
    }
}

impl PartialEq for RegionId {
    fn eq(&self, other: &Self) -> (same: bool) {
        self.catalog == other.catalog && self.schema == other.schema && self.table == other.table
            && self.region_num == other.region_num
    }
}

impl PartialEqSpecImpl for RegionId {
    open spec fn obeys_eq_spec() -> bool {
        true
    }

    open spec fn eq_spec(&self, other: &Self) -> bool {
        self@ == other@
    }
}

} // verus!
