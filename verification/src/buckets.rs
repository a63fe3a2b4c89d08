//! Per-identity buckets of records, kept in a sharded concurrent map.
//!
//! The map itself is not verified. What is assumed of it is stated on the
//! five functions marked `external_body` below, over `held`; everything else
//! in this crate is proved from those statements.

use crate::data::MeterRecord;
use dashmap::DashMap;
use vstd::prelude::*;

verus! {

/// The concurrent map, as a value that the verifier does not look into.
#[verifier::external_type_specification]
#[verifier::external_body]
#[verifier::reject_recursive_types(K)]
#[verifier::reject_recursive_types(V)]
#[verifier::reject_recursive_types(S)]
pub struct ExDashMap<K, V, S>(DashMap<K, V, S>);

/// The buckets of one direction of traffic, keyed by catalog and schema.
pub type Buckets = DashMap<(String, String), Vec<MeterRecord>>;

/// The buckets as a mathematical map.
pub type BucketMap = Map<(Seq<char>, Seq<char>), Seq<MeterRecord>>;

/// What a bucket map holds: for each key that is present, the records filed
/// under it, oldest first. Keys are told apart by their characters.
pub uninterp spec fn held(buckets: DashMap<(String, String), Vec<MeterRecord>>) -> Map<
    (Seq<char>, Seq<char>),
    Seq<MeterRecord>,
>;

pub open spec fn no_buckets() -> BucketMap {
    Map::empty()
}

/// The characters of a key.
pub open spec fn key_view(key: (String, String)) -> (Seq<char>, Seq<char>) {
    (key.0@, key.1@)
}

/// The identity a record is filed under.
pub open spec fn identity_of(record: MeterRecord) -> (Seq<char>, Seq<char>) {
    (record.catalog@, record.schema@)
}

/// The records filed under `id` so far; none where `id` has no bucket.
pub open spec fn bucket_of(buckets: BucketMap, id: (Seq<char>, Seq<char>)) -> Seq<MeterRecord> {
    if buckets.dom().contains(id) {
        buckets[id]
    } else {
        Seq::empty()
    }
}

/// The buckets after `record` has been appended to the bucket of its
/// identity, which is created if it was not there.
pub open spec fn file(buckets: BucketMap, record: MeterRecord) -> BucketMap {
    buckets.insert(identity_of(record), bucket_of(buckets, identity_of(record)).push(record))
}

/// `DashMap::default`: a map that holds nothing.
#[verifier::external_body]
pub(crate) fn new_buckets() -> (fresh: Buckets)
    ensures
        held(fresh) == no_buckets(),
{
    DashMap::default()
}

/// `DashMap::remove`: takes the bucket stored under `key` out of the map and
/// hands it over; `None`, and the map as it was, where there is none.
#[verifier::external_body]
pub(crate) fn take_bucket(buckets: &mut Buckets, key: &(String, String)) -> (taken: Option<
    Vec<MeterRecord>,
>)
    ensures
        held(*final(buckets)) == held(*old(buckets)).remove(key_view(*key)),
        taken is Some <==> held(*old(buckets)).dom().contains(key_view(*key)),
        taken is Some ==> taken->0@ == held(*old(buckets))[key_view(*key)],
{
    buckets.remove(key).map(|(_, records)| records)
}

/// `DashMap::insert`: stores `records` under `key`, in place of what was
/// stored there.
#[verifier::external_body]
pub(crate) fn put_bucket(buckets: &mut Buckets, key: (String, String), records: Vec<MeterRecord>)
    ensures
        held(*final(buckets)) == held(*old(buckets)).insert(key_view(key), records@),
{
    let _ = buckets.insert(key, records);
}

/// `DashMap::clear`: removes every bucket.
#[verifier::external_body]
pub(crate) fn clear_buckets(buckets: &mut Buckets)
    ensures
        held(*final(buckets)) == no_buckets(),
{
    buckets.clear();
}

/// `DashMap::iter`: a clone of every bucket with its key. Each entry of the
/// result is a bucket of the map, no key comes twice, and no bucket is left
/// out. The order is that in which the map happens to walk its shards, of
/// which nothing is said.
#[verifier::external_body]
pub(crate) fn copy_buckets(buckets: &Buckets) -> (all: Vec<((String, String), Vec<MeterRecord>)>)
    ensures
        forall|i: int|
            0 <= i < all.len() ==> held(*buckets).contains_pair(
                #[trigger] key_view(all[i].0),
                all[i].1@,
            ),
        forall|i: int, j: int|
            0 <= i < j < all.len() ==> #[trigger] key_view(all[i].0) != #[trigger] key_view(
                all[j].0,
            ),
        forall|id: (Seq<char>, Seq<char>)| #[trigger]
            held(*buckets).dom().contains(id) ==> exists|i: int|
                0 <= i < all.len() && key_view(#[trigger] all[i].0) == id,
{
    buckets.iter().map(|bucket| (bucket.key().clone(), bucket.value().clone())).collect()
}

/// Appends `record` to the bucket of its identity.
pub(crate) fn file_record(buckets: &mut Buckets, record: MeterRecord)
    ensures
        held(*final(buckets)) == file(held(*old(buckets)), record),
{
    let key = (record.catalog.clone(), record.schema.clone());
    let mut records = match take_bucket(buckets, &key) {
        Some(earlier) => earlier,
        None => Vec::new(),
    };
    records.push(record);
    put_bucket(buckets, key, records);
}

} // verus!
