use meter_core::calc::RecordValue;
use meter_core::collect::Collect;
use meter_core::collector::SimpleCollector;
use meter_core::data::MeterRecord;
use meter_core::data::TrafficSource;
use meter_core::identity::SchemaId;
use meter_core::reporter::ReporterAction;
use meter_core::reporter::ReporterEvent;
use meter_core::reporter::SimpleReporter;
use meter_core::reporter::REPORT_INTERVAL_SECS;

fn record(catalog: &str, schema: &str, value: u64) -> MeterRecord {
    MeterRecord::new(
        catalog.to_string(),
        schema.to_string(),
        value,
        TrafficSource::Other,
    )
}

fn id(catalog: &str, schema: &str) -> SchemaId {
    SchemaId {
        catalog: catalog.to_string(),
        schema: schema.to_string(),
    }
}

#[test]
fn the_interval_is_five_seconds() {
    assert_eq!(REPORT_INTERVAL_SECS, 5);
}

#[test]
fn the_reporter_goes_round_and_round() {
    let mut reporter = SimpleReporter::new();
    assert_eq!(
        reporter.step(ReporterEvent::Started),
        Some(ReporterAction::Sleep { secs: 5 })
    );
    for _ in 0..3 {
        assert_eq!(
            reporter.step(ReporterEvent::Woke),
            Some(ReporterAction::Drain)
        );
        assert_eq!(
            reporter.step(ReporterEvent::Drained),
            Some(ReporterAction::Report)
        );
        assert_eq!(
            reporter.step(ReporterEvent::Reported),
            Some(ReporterAction::Sleep { secs: 5 })
        );
    }
}

#[test]
fn events_that_are_not_awaited_change_nothing() {
    let mut reporter = SimpleReporter::new();
    assert_eq!(reporter.step(ReporterEvent::Woke), None);
    assert_eq!(reporter.step(ReporterEvent::Drained), None);
    assert_eq!(reporter.step(ReporterEvent::Reported), None);
    assert_eq!(
        reporter.step(ReporterEvent::Started),
        Some(ReporterAction::Sleep { secs: 5 })
    );
    assert_eq!(reporter.step(ReporterEvent::Started), None);
    assert_eq!(reporter.step(ReporterEvent::Drained), None);
    assert_eq!(reporter.step(ReporterEvent::Reported), None);
    assert_eq!(
        reporter.step(ReporterEvent::Woke),
        Some(ReporterAction::Drain)
    );
    assert_eq!(reporter.step(ReporterEvent::Woke), None);
    assert_eq!(reporter.step(ReporterEvent::Started), None);
    assert_eq!(reporter.step(ReporterEvent::Reported), None);
    assert_eq!(
        reporter.step(ReporterEvent::Drained),
        Some(ReporterAction::Report)
    );
    assert_eq!(reporter.step(ReporterEvent::Drained), None);
    assert_eq!(reporter.step(ReporterEvent::Woke), None);
    assert_eq!(reporter.step(ReporterEvent::Started), None);
    assert_eq!(
        reporter.step(ReporterEvent::Reported),
        Some(ReporterAction::Sleep { secs: 5 })
    );
}

#[test]
fn draining_reports_and_clears() {
    let mut collector = SimpleCollector::new(RecordValue, RecordValue);
    collector.on_write(record("greptime", "db1", 10_240));
    collector.on_write(record("greptime", "db1", 10_240));
    collector.on_read(record("greptime", "db2", 3));
    let report = SimpleReporter::drain(&mut collector);
    assert_eq!(report.writes.get(&id("greptime", "db1")), Some(20_480));
    assert_eq!(report.writes.get(&id("greptime", "db2")), None);
    assert_eq!(report.reads.get(&id("greptime", "db2")), Some(3));
    assert_eq!(report.reads.len(), 1);
    assert!(collector.schema_wcus().is_empty());
    assert!(collector.schema_rcus().is_empty());
    let report = SimpleReporter::drain(&mut collector);
    assert!(report.writes.is_empty());
    assert!(report.reads.is_empty());
}

#[test]
fn consecutive_drains_count_every_event_once() {
    let mut collector = SimpleCollector::new(RecordValue, RecordValue);
    collector.on_write(record("c", "s", 1));
    collector.on_write(record("c", "s", 2));
    let first = SimpleReporter::drain(&mut collector);
    collector.on_write(record("c", "s", 4));
    let second = SimpleReporter::drain(&mut collector);
    let third = SimpleReporter::drain(&mut collector);
    assert_eq!(first.writes.get(&id("c", "s")), Some(3));
    assert_eq!(second.writes.get(&id("c", "s")), Some(4));
    assert_eq!(third.writes.get(&id("c", "s")), None);
}

#[test]
fn a_checked_drain_leaves_the_buckets_when_a_sum_does_not_fit() {
    let mut collector = SimpleCollector::new(RecordValue, RecordValue);
    collector.on_write(record("c", "s", 7));
    collector.on_read(record("c", "s", u64::MAX));
    collector.on_read(record("c", "s", 1));
    assert!(SimpleReporter::checked_drain(&mut collector).is_none());
    assert_eq!(collector.schema_wcus().get(&id("c", "s")), Some(7));
    assert!(collector.checked_schema_rcus().is_none());
    collector.clear();
    collector.on_write(record("c", "s", 8));
    let report = SimpleReporter::checked_drain(&mut collector).unwrap();
    assert_eq!(report.writes.get(&id("c", "s")), Some(8));
    assert!(report.reads.is_empty());
    assert!(collector.schema_wcus().is_empty());
}
