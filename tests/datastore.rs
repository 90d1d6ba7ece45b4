use evebox_datastore::datastore::{
    Datastore, DatastoreError, HistogramInterval, Importer, Operation,
};
use evebox_datastore::dhcp::DhcpReport;
use evebox_datastore::elastic::EventStore;
use evebox_datastore::server::{get_remote_addr, index_pattern, GenericError};
use evebox_datastore::sqlite::SQLiteEventStore;

fn elastic_store() -> EventStore {
    EventStore {
        base_index: "logstash".to_string(),
        index_pattern: "logstash-*".to_string(),
        ecs: false,
        no_index_suffix: false,
    }
}

#[test]
fn test_histogram_interval_from_str() {
    let r = HistogramInterval::from_str("minute");
    assert!(r.is_ok());
    assert_eq!(r.unwrap(), HistogramInterval::Minute);
    assert!(HistogramInterval::from_str("bad").is_err());
}

#[test]
fn histogram_interval_names() {
    assert_eq!(HistogramInterval::from_str("hour").unwrap(), HistogramInterval::Hour);
    assert_eq!(HistogramInterval::from_str("day").unwrap(), HistogramInterval::Day);
    assert_eq!(
        HistogramInterval::from_str("Hour"),
        Err(DatastoreError::HistogramIntervalParseError("Hour".to_string()))
    );
}

#[test]
fn relational_store_lacks_reports() {
    let ds = Datastore::SQLite(SQLiteEventStore::default());
    assert_eq!(ds.check_supported(Operation::Histogram), Err(DatastoreError::Unimplemented));
    assert_eq!(ds.check_supported(Operation::ReportDhcp), Err(DatastoreError::Unimplemented));
    assert_eq!(ds.check_supported(Operation::CommentEventById), Err(DatastoreError::Unimplemented));
    assert_eq!(ds.check_supported(Operation::ArchiveByAlertGroup), Ok(()));
    assert_eq!(ds.check_supported(Operation::EventQuery), Ok(()));
}

#[test]
fn search_store_supports_everything() {
    let ds = Datastore::Elastic(elastic_store());
    for op in [
        Operation::Histogram,
        Operation::Agg,
        Operation::FlowHistogram,
        Operation::ReportDhcp,
        Operation::CommentByAlertGroup,
        Operation::AlertQuery,
    ] {
        assert_eq!(ds.check_supported(op), Ok(()));
    }
}

#[test]
fn importers() {
    let ds = Datastore::Elastic(elastic_store());
    match ds.get_importer() {
        Some(Importer::Elastic(i)) => assert_eq!(i.base_index, "logstash"),
        _ => panic!("expected an importer for the search engine"),
    }
    let ds = Datastore::SQLite(SQLiteEventStore::default());
    assert_eq!(ds.get_importer(), Some(Importer::SQLite));
}

#[test]
fn index_patterns() {
    assert_eq!(index_pattern("logstash", false), "logstash-*");
    assert_eq!(index_pattern("logstash", true), "logstash");
}

#[test]
fn remote_addresses() {
    assert_eq!(
        get_remote_addr(Some("10.0.0.1".to_string()), Some(" 1.2.3.4 , 5.6.7.8".to_string()), true),
        "1.2.3.4"
    );
    assert_eq!(
        get_remote_addr(Some("10.0.0.1".to_string()), Some("1.2.3.4".to_string()), false),
        "10.0.0.1"
    );
    assert_eq!(get_remote_addr(None, None, true), "<unknown-remote>");
    assert_eq!(get_remote_addr(None, Some("  9.9.9.9  ".to_string()), true), "9.9.9.9");
}

#[test]
fn generic_errors() {
    assert_ne!(GenericError::NotFound, GenericError::AuthenticationRequired);
}

#[test]
fn dhcp_report_names() {
    assert_eq!(DhcpReport::from_name("ack"), Ok(DhcpReport::Ack));
    assert_eq!(DhcpReport::from_name("request"), Ok(DhcpReport::Request));
    assert_eq!(DhcpReport::from_name("servers"), Ok(DhcpReport::Servers));
    assert_eq!(DhcpReport::from_name("mac"), Ok(DhcpReport::Mac));
    assert_eq!(DhcpReport::from_name("ip"), Ok(DhcpReport::Ip));
    assert_eq!(
        DhcpReport::from_name("leases"),
        Err(DatastoreError::AnyhowError("No DHCP report for leases".to_string()))
    );
}
