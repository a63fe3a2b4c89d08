//! Record shapes: what one consumption event carries.

use vstd::prelude::*;
use vstd::std_specs::convert::FromSpecImpl;

verus! {

/// What a query consumed, before a calculator turns it into a magnitude.
#[derive(Debug)]
pub struct ReadItem {
    /// CPU time spent on the query, in nanoseconds.
    pub cpu_time: u64,
    /// Size of the data the table scan touched, in bytes.
    pub table_scan: u64,
}

impl ReadItem {
    pub fn new(cpu_time: u64, table_scan: u64) -> (item: Self)
        ensures
            item.cpu_time == cpu_time,
            item.table_scan == table_scan,
    {
        Self { cpu_time, table_scan }
    }
}

/// The subsystem an event came in through. On the wire it is one byte; new
/// sources may be added, and a byte that names none of them reads as `Other`.
#[derive(Debug, Clone, Copy, PartialEq, Eq, Structural)]
#[non_exhaustive]
pub enum TrafficSource {
    Other,
    Prometheus,
    Influx,
    HTTP,
    MySQL,
    Postgres,
    GRPC,
    OTLP,
}

impl TrafficSource {
    /// The byte that stands for this source.
    pub open spec fn tag(self) -> u8 {
        match self {
            TrafficSource::Other => 0,
            TrafficSource::Prometheus => 1,
            TrafficSource::Influx => 2,
            TrafficSource::HTTP => 3,
            TrafficSource::MySQL => 4,
            TrafficSource::Postgres => 5,
            TrafficSource::GRPC => 6,
            TrafficSource::OTLP => 7,
        }
    }

    /// The source that a byte stands for.
    pub open spec fn of_tag(value: u8) -> TrafficSource {
        if value == 1 {
            TrafficSource::Prometheus
        } else if value == 2 {
            TrafficSource::Influx
        } else if value == 3 {
            TrafficSource::HTTP
        } else if value == 4 {
            TrafficSource::MySQL
        } else if value == 5 {
            TrafficSource::Postgres
        } else if value == 6 {
            TrafficSource::GRPC
        } else if value == 7 {
            TrafficSource::OTLP
        } else {
            TrafficSource::Other
        }
    }

    /// Encodes the source as its byte.
    pub fn code(&self) -> (byte: u8)
        ensures
            byte == self.tag(),
            byte <= 7,
    {
        match self {
            TrafficSource::Other => 0,
            TrafficSource::Prometheus => 1,
            TrafficSource::Influx => 2,
            TrafficSource::HTTP => 3,
            TrafficSource::MySQL => 4,
            TrafficSource::Postgres => 5,
            TrafficSource::GRPC => 6,
            TrafficSource::OTLP => 7,
        }
    }

    /// Decoding what `code` gave returns the source one started from.
    pub proof fn lemma_decode_inverts_encode(source: TrafficSource)
        ensures
            TrafficSource::of_tag(source.tag()) == source,
    {
    }

    /// A byte above the last defined tag decodes to `Other`, and encoding
    /// what a byte decoded to gives the byte back exactly when it names a
    /// source.
    pub proof fn lemma_unknown_tag_is_other(value: u8)
        ensures
            value > 7 ==> TrafficSource::of_tag(value) == TrafficSource::Other,
            TrafficSource::of_tag(value).tag() == value <==> value <= 7,
    {
    }
}

impl Default for TrafficSource {
    fn default() -> (source: Self)
        ensures
            source == TrafficSource::Other,
    {
        TrafficSource::Other
    }
}

impl From<u8> for TrafficSource {
    fn from(value: u8) -> (source: Self) {
        match value {
            1 => TrafficSource::Prometheus,
            2 => TrafficSource::Influx,
            3 => TrafficSource::HTTP,
            4 => TrafficSource::MySQL,
            5 => TrafficSource::Postgres,
            6 => TrafficSource::GRPC,
            7 => TrafficSource::OTLP,
            _ => TrafficSource::Other,
        }
    }
}

impl FromSpecImpl<u8> for TrafficSource {
    open spec fn obeys_from_spec() -> bool {
        true
    }

    open spec fn from_spec(value: u8) -> Self {
        TrafficSource::of_tag(value)
    }
}

/// One consumption event: who consumed, how much, and through which source.
#[derive(Debug, Clone)]
#[non_exhaustive]
pub struct MeterRecord {
    pub catalog: String,
    pub schema: String,
    pub value: u64,
    pub source: TrafficSource,
}

impl MeterRecord {
    pub fn new(catalog: String, schema: String, value: u64, source: TrafficSource) -> (record:
        Self)
        ensures
            record.catalog == catalog,
            record.schema == schema,
            record.value == value,
            record.source == source,
    {
        Self { catalog, schema, value, source }
    }
}

} // verus!
