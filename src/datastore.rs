use vstd::prelude::*;

use crate::elastic;
use crate::sqlite;
use crate::text::str_eq;

verus! {

/// Parameters of an event query. Timestamps are nanoseconds after the Unix
/// epoch.
#[derive(Clone, Debug, Default)]
pub struct EventQueryParams {
    pub query_string: Option<String>,
    pub order: Option<String>,
    pub min_timestamp: Option<i64>,
    pub max_timestamp: Option<i64>,
    pub event_type: Option<String>,
    pub size: Option<u64>,
    pub sort_by: Option<String>,
}

/// The storage engine behind the datastore.
pub enum Datastore {
    Elastic(elastic::EventStore),
    SQLite(sqlite::SQLiteEventStore),
}

/// The errors that the datastore reports. Errors of the engines themselves
/// are carried as their message.
#[derive(Debug, PartialEq)]
pub enum DatastoreError {
    Unimplemented,
    EventNotFound,
    SQLiteError(String),
    GenericError(String),
    ElasticSearchError(String),
    ElasticError(String),
    TimestampParseError(String),
    EventParseError,
    HistogramIntervalParseError(String),
    AnyhowError(String),
}

/// Parameters of a statistics query: the maximum of a numeric field over
/// buckets of `interval` seconds, from `start_time` (nanoseconds after the
/// Unix epoch) on.
#[derive(Clone, Debug, Default)]
pub struct StatsAggQueryParams {
    pub field: String,
    pub duration: u64,
    pub interval: u64,
    pub sensor_name: Option<String>,
    pub start_time: i64,
}

/// The operations of the datastore.
#[derive(PartialEq, Eq, Structural, Clone, Copy, Debug)]
pub enum Operation {
    ArchiveEventById,
    EscalateEventById,
    DeescalateEventById,
    CommentEventById,
    GetEventById,
    AlertQuery,
    ArchiveByAlertGroup,
    EscalateByAlertGroup,
    DeescalateByAlertGroup,
    CommentByAlertGroup,
    EventQuery,
    Histogram,
    Agg,
    FlowHistogram,
    ReportDhcp,
}

/// Whether an engine implements an operation: the search engine implements
/// all of them, the relational engine has no comments, histograms,
/// aggregations or reports.
pub open spec fn supports(elastic: bool, op: Operation) -> bool {
    elastic || !(op == Operation::CommentEventById || op == Operation::CommentByAlertGroup || op
        == Operation::Histogram || op == Operation::Agg || op == Operation::FlowHistogram || op
        == Operation::ReportDhcp)
}

/// What ingests events into the active engine.
#[derive(Debug, PartialEq)]
pub enum Importer {
    Elastic(elastic::Importer),
    SQLite,
}

impl Datastore {
    pub open spec fn is_elastic(&self) -> bool {
        self is Elastic
    }

    /// `Ok` when the active engine implements `op`, `Unimplemented` when it
    /// does not.
    pub fn check_supported(&self, op: Operation) -> (r: Result<(), DatastoreError>)
        ensures
            r is Ok <==> supports(self.is_elastic(), op),
            r is Err ==> r == Err::<(), DatastoreError>(DatastoreError::Unimplemented),
    {
        let elastic = match self {
            Datastore::Elastic(_) => true,
            Datastore::SQLite(_) => false,
        };
        if elastic || !(op == Operation::CommentEventById || op == Operation::CommentByAlertGroup
            || op == Operation::Histogram || op == Operation::Agg || op == Operation::FlowHistogram
            || op == Operation::ReportDhcp) {
            Ok(())
        } else {
            Err(DatastoreError::Unimplemented)
        }
    }

    /// The importer of the active engine.
    pub fn get_importer(&self) -> (r: Option<Importer>)
        ensures
            match self {
                Datastore::Elastic(ds) => r matches Some(Importer::Elastic(i)) && i.base_index@
                    == ds.base_index@,
                Datastore::SQLite(_) => r matches Some(Importer::SQLite),
            },
    {
        match self {
            Datastore::Elastic(ds) => Some(Importer::Elastic(ds.get_importer())),
            Datastore::SQLite(_) => Some(Importer::SQLite),
        }
    }
}

/// Parameters of an event histogram. Timestamps are nanoseconds after the
/// Unix epoch.
#[derive(Clone, Debug, Default)]
pub struct HistogramParameters {
    pub min_timestamp: Option<i64>,
    pub max_timestamp: Option<i64>,
    pub interval: Option<HistogramInterval>,
    pub event_type: Option<String>,
    pub dns_type: Option<String>,
    pub address_filter: Option<String>,
    pub query_string: Option<String>,
    pub sensor_name: Option<String>,
}

/// The width of a histogram bucket.
#[derive(PartialEq, Eq, Structural, Clone, Copy, Debug)]
pub enum HistogramInterval {
    Minute,
    Hour,
    Day,
}

/// The interval that a name stands for.
pub open spec fn interval_named(s: Seq<char>) -> Option<HistogramInterval> {
    if s == "minute"@ {
        Some(HistogramInterval::Minute)
    } else if s == "hour"@ {
        Some(HistogramInterval::Hour)
    } else if s == "day"@ {
        Some(HistogramInterval::Day)
    } else {
        None
    }
}

impl HistogramInterval {
    /// Reads `minute`, `hour` or `day`; any other text is an error that
    /// carries it.
    pub fn from_str(s: &str) -> (r: Result<HistogramInterval, DatastoreError>)
        ensures
            match interval_named(s@) {
                Some(i) => r == Ok::<HistogramInterval, DatastoreError>(i),
                None => r matches Err(DatastoreError::HistogramIntervalParseError(t)) && t@ == s@,
            },
    {
        if str_eq(s, "minute") {
            Ok(HistogramInterval::Minute)
        } else if str_eq(s, "hour") {
            Ok(HistogramInterval::Hour)
        } else if str_eq(s, "day") {
            Ok(HistogramInterval::Day)
        } else {
            Err(DatastoreError::HistogramIntervalParseError(String::from_str(s)))
        }
    }
}

/// Parameters of a terms aggregation over the field `agg`, with at most
/// `size` buckets.
#[derive(Clone, Debug, Default)]
pub struct AggParameters {
    pub event_type: Option<String>,
    pub dns_type: Option<String>,
    pub query_string: Option<String>,
    pub address_filter: Option<String>,
    pub min_timestamp: Option<i64>,
    pub agg: String,
    pub size: u64,
}

/// Parameters of a flow histogram.
#[derive(Clone, Debug, Default)]
pub struct FlowHistogramParameters {
    pub mints: Option<i64>,
    pub interval: Option<String>,
    pub query_string: Option<String>,
}

} // verus!
