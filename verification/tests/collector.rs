use meter_core::calc::RecordValue;
use meter_core::calc::WriteCalculator;
use meter_core::collect::Collect;
use meter_core::collector::SimpleCollector;
use meter_core::data::MeterRecord;
use meter_core::data::TrafficSource;
use meter_core::identity::SchemaId;

fn record(catalog: &str, schema: &str, value: u64) -> MeterRecord {
    MeterRecord::new(
        catalog.to_string(),
        schema.to_string(),
        value,
        TrafficSource::Other,
    )
}

fn id(catalog: &str, schema: &str) -> SchemaId {
    SchemaId {
        catalog: catalog.to_string(),
        schema: schema.to_string(),
    }
}

struct PerKilobyte;

impl WriteCalculator<MeterRecord> for PerKilobyte {
    fn cost(&self, value: &MeterRecord) -> u64 {
        value.value / 1024
    }

    fn calc(&self, value: &MeterRecord) -> u64 {
        value.value / 1024
    }
}

#[test]
fn writes_are_summed_per_identity_and_gone_after_clear() {
    let mut collector = SimpleCollector::new(RecordValue, RecordValue);
    collector.on_write(record("c", "s", 1024));
    collector.on_write(record("c", "s", 2048));
    collector.on_write(record("c", "s", 4096));
    let totals = collector.schema_wcus();
    assert_eq!(totals.get(&id("c", "s")), Some(7168));
    assert_eq!(totals.len(), 1);
    collector.clear();
    let totals = collector.schema_wcus();
    assert_eq!(totals.get(&id("c", "s")), None);
    assert!(totals.is_empty());
}

#[test]
fn a_new_collector_has_counted_nothing() {
    let collector = SimpleCollector::new(RecordValue, RecordValue);
    assert!(collector.schema_wcus().is_empty());
    assert!(collector.schema_rcus().is_empty());
    assert_eq!(collector.schema_wcus().len(), 0);
    assert_eq!(collector.schema_wcus().get(&id("c", "s")), None);
}

#[test]
fn each_identity_has_its_own_sum() {
    let mut collector = SimpleCollector::new(RecordValue, RecordValue);
    collector.on_write(record("c", "s", 1));
    collector.on_write(record("c", "t", 10));
    collector.on_write(record("d", "s", 100));
    collector.on_write(record("c", "s", 2));
    collector.on_write(record("c", "t", 20));
    collector.on_write(record("c", "s", 3));
    let totals = collector.schema_wcus();
    assert_eq!(totals.len(), 3);
    assert_eq!(totals.get(&id("c", "s")), Some(6));
    assert_eq!(totals.get(&id("c", "t")), Some(30));
    assert_eq!(totals.get(&id("d", "s")), Some(100));
    assert_eq!(totals.get(&id("s", "c")), None);
    assert_eq!(totals.get(&id("d", "t")), None);
}

#[test]
fn an_identity_with_only_zero_events_is_present_with_zero() {
    let mut collector = SimpleCollector::new(RecordValue, RecordValue);
    collector.on_write(record("c", "s", 0));
    let totals = collector.schema_wcus();
    assert_eq!(totals.get(&id("c", "s")), Some(0));
    assert_eq!(totals.get(&id("c", "other")), None);
    assert!(!totals.is_empty());
}

#[test]
fn reads_and_writes_are_kept_apart() {
    let mut collector = SimpleCollector::new(RecordValue, RecordValue);
    collector.on_write(record("c", "s", 5));
    collector.on_read(record("c", "s", 7));
    collector.on_read(record("c", "r", 9));
    let writes = collector.schema_wcus();
    let reads = collector.schema_rcus();
    assert_eq!(writes.get(&id("c", "s")), Some(5));
    assert_eq!(writes.get(&id("c", "r")), None);
    assert_eq!(reads.get(&id("c", "s")), Some(7));
    assert_eq!(reads.get(&id("c", "r")), Some(9));
    assert_eq!(writes.len(), 1);
    assert_eq!(reads.len(), 2);
}

#[test]
fn calculator_prices_each_record() {
    let mut collector = SimpleCollector::new(PerKilobyte, RecordValue);
    collector.on_write(record("c", "s", 1024));
    collector.on_write(record("c", "s", 4096));
    collector.on_write(record("c", "s", 1023));
    collector.on_read(record("c", "s", 3));
    assert_eq!(collector.schema_wcus().get(&id("c", "s")), Some(5));
    assert_eq!(collector.schema_rcus().get(&id("c", "s")), Some(3));
}

#[test]
fn summing_up_does_not_clear() {
    let mut collector = SimpleCollector::new(RecordValue, RecordValue);
    collector.on_write(record("c", "s", 4));
    assert_eq!(collector.schema_wcus().get(&id("c", "s")), Some(4));
    assert_eq!(collector.schema_wcus().get(&id("c", "s")), Some(4));
    collector.on_write(record("c", "s", 6));
    assert_eq!(collector.schema_wcus().get(&id("c", "s")), Some(10));
}

#[test]
fn clear_empties_both_directions_and_is_repeatable() {
    let mut collector = SimpleCollector::new(RecordValue, RecordValue);
    collector.on_write(record("c", "s", 4));
    collector.on_read(record("c", "s", 4));
    collector.clear();
    assert!(collector.schema_wcus().is_empty());
    assert!(collector.schema_rcus().is_empty());
    collector.clear();
    assert!(collector.schema_wcus().is_empty());
    assert!(collector.schema_rcus().is_empty());
}

#[test]
fn two_windows_add_up_to_all_events() {
    let values: Vec<u64> = vec![3, 5, 8, 13, 21, 34];
    let all: u64 = 84;
    for cut in 0..=values.len() {
        let mut collector = SimpleCollector::new(RecordValue, RecordValue);
        for value in &values[..cut] {
            collector.on_write(record("c", "s", *value));
        }
        let first = collector.schema_wcus().get(&id("c", "s")).unwrap_or(0);
        collector.clear();
        for value in &values[cut..] {
            collector.on_write(record("c", "s", *value));
        }
        let second = collector.schema_wcus().get(&id("c", "s")).unwrap_or(0);
        assert_eq!(first + second, all);
    }
}

#[test]
fn events_after_a_clear_start_a_new_bucket() {
    let mut collector = SimpleCollector::new(RecordValue, RecordValue);
    collector.on_write(record("c", "s", 100));
    collector.clear();
    collector.on_write(record("c", "s", 1));
    collector.on_write(record("c", "s", 2));
    assert_eq!(collector.schema_wcus().get(&id("c", "s")), Some(3));
}

#[test]
fn a_sum_that_does_not_fit_is_reported_as_such() {
    let mut collector = SimpleCollector::new(RecordValue, RecordValue);
    collector.on_write(record("c", "s", u64::MAX));
    let totals = collector.checked_schema_wcus().unwrap();
    assert_eq!(totals.get(&id("c", "s")), Some(u64::MAX));
    collector.on_write(record("c", "s", 1));
    assert!(collector.checked_schema_wcus().is_none());
    assert!(collector.checked_schema_rcus().is_some());
    collector.on_read(record("a", "b", u64::MAX));
    collector.on_read(record("a", "b", u64::MAX));
    assert!(collector.checked_schema_rcus().is_none());
}

#[test]
fn checked_sums_agree_with_the_plain_ones() {
    let mut collector = SimpleCollector::new(RecordValue, RecordValue);
    collector.on_write(record("c", "s", 1024));
    collector.on_write(record("c", "s", 2048));
    collector.on_read(record("c", "s", 9));
    let writes = collector.checked_schema_wcus().unwrap();
    let reads = collector.checked_schema_rcus().unwrap();
    assert_eq!(writes.get(&id("c", "s")), Some(3072));
    assert_eq!(reads.get(&id("c", "s")), Some(9));
}

#[test]
fn totals_hand_their_entries_out() {
    let mut collector = SimpleCollector::new(RecordValue, RecordValue);
    collector.on_write(record("c", "s", 1));
    collector.on_write(record("c", "t", 2));
    let mut entries = collector.schema_wcus().into_vec();
    entries.sort_by(|a, b| a.0.schema.cmp(&b.0.schema));
    assert_eq!(entries.len(), 2);
    assert_eq!(entries[0], (id("c", "s"), 1));
    assert_eq!(entries[1], (id("c", "t"), 2));
}

#[test]
fn buckets_keep_a_thousand_events() {
    let mut collector = SimpleCollector::new(RecordValue, RecordValue);
    for i in 0..1000u64 {
        collector.on_write(record("c", "s", i));
    }
    assert_eq!(collector.schema_wcus().get(&id("c", "s")), Some(499_500));
}
