use evebox_datastore::datastore::{
    AggParameters, DatastoreError, EventQueryParams, FlowHistogramParameters, HistogramInterval,
    HistogramParameters, StatsAggQueryParams,
};
use evebox_datastore::dhcp::{map_dhcp_event, DhcpReport};
use evebox_datastore::elastic::{
    agg_response, elastic_format_interval, flow_histogram_response, get_event_by_id_response,
    get_sensors_response, histogram_response, timestamp_gte_filter, AlertQueryOptions,
    EventStore,
};
use evebox_datastore::json::Json;
use evebox_datastore::workflow::AlertGroupSpec;
use serde_json::Value;

fn v(text: &str) -> Value {
    serde_json::from_str(text).unwrap()
}

fn to_value(j: &Json) -> Value {
    match j {
        Json::Null => Value::Null,
        Json::Bool(b) => Value::Bool(*b),
        Json::Int(n) => Value::from(*n),
        Json::UInt(n) => Value::from(*n),
        Json::Decimal(s) => serde_json::from_str(s).unwrap(),
        Json::Str(s) => Value::String(s.clone()),
        Json::Array(a) => Value::Array(a.iter().map(to_value).collect()),
        Json::Object(o) => {
            let mut m = serde_json::Map::new();
            for (k, v) in o {
                m.insert(k.clone(), to_value(v));
            }
            Value::Object(m)
        }
    }
}

fn from_value(v: &Value) -> Json {
    match v {
        Value::Null => Json::Null,
        Value::Bool(b) => Json::Bool(*b),
        Value::Number(n) => {
            if let Some(i) = n.as_i64() {
                Json::Int(i)
            } else if let Some(u) = n.as_u64() {
                Json::UInt(u)
            } else {
                Json::Decimal(n.to_string())
            }
        }
        Value::String(s) => Json::Str(s.clone()),
        Value::Array(a) => Json::Array(a.iter().map(from_value).collect()),
        Value::Object(o) => Json::Object(o.iter().map(|(k, v)| (k.clone(), from_value(v))).collect()),
    }
}

fn err_of<T>(r: Result<T, DatastoreError>) -> DatastoreError {
    match r {
        Err(e) => e,
        Ok(_) => panic!("an error was expected"),
    }
}

fn store(ecs: bool) -> EventStore {
    EventStore {
        base_index: "logstash".to_string(),
        index_pattern: "logstash-*".to_string(),
        ecs,
        no_index_suffix: false,
    }
}

fn group() -> AlertGroupSpec {
    AlertGroupSpec {
        signature_id: 2013028,
        src_ip: "10.0.0.1".to_string(),
        dest_ip: "10.0.0.2".to_string(),
        min_timestamp: "2020-01-01T00:00:00.000Z".to_string(),
        max_timestamp: "2020-01-02T00:00:00.000Z".to_string(),
    }
}

const T: i64 = 1_577_836_800_000_000_000;

#[test]
fn map_field_in_ecs_mode() {
    let ds = store(true);
    assert_eq!(ds.map_field("src_ip"), "source.address");
    assert_eq!(ds.map_field("dest_ip"), "destination.address");
    assert_eq!(ds.map_field("dest_port"), "destination.port");
    assert_eq!(ds.map_field("src_port"), "source.port");
    assert_eq!(ds.map_field("dns.rrname"), "dns.question.name");
    assert_eq!(ds.map_field("dns.rrtype"), "dns.question.type");
    assert_eq!(ds.map_field("dns.rcode"), "dns.response_code");
    assert_eq!(ds.map_field("dns.type"), "dns.type");
    assert_eq!(ds.map_field("suricata.eve.flow_id"), "suricata.eve.flow_id");
    assert_eq!(ds.map_field("event_type"), "suricata.eve.event_type");
    assert_eq!(ds.map_field("event_type"), ds.map_field("event_type"));
}

#[test]
fn map_field_in_plain_mode() {
    let ds = store(false);
    assert_eq!(ds.map_field("src_ip"), "src_ip.keyword");
    assert_eq!(ds.map_field("alert.signature"), "alert.signature.keyword");
    assert_eq!(ds.map_field("traffic.label"), "traffic.label.keyword");
    assert_eq!(ds.map_field("host"), "host.keyword");
    assert_eq!(ds.map_field("event_type"), "event_type");
    assert_eq!(ds.map_field("alert.signature_id"), "alert.signature_id");
}

#[test]
fn alert_group_filter_selects_the_group() {
    let f: Vec<Value> = store(false).build_alert_group_filter(&group()).iter().map(to_value).collect();
    assert_eq!(
        f,
        vec![
            v(r#"{"exists": {"field": "event_type"}}"#),
            v(r#"{"term": {"event_type": "alert"}}"#),
            v(r#"{"range": {"@timestamp": {"gte": "2020-01-01T00:00:00.000Z", "lte": "2020-01-02T00:00:00.000Z"}}}"#),
            v(r#"{"term": {"src_ip.keyword": "10.0.0.1"}}"#),
            v(r#"{"term": {"dest_ip.keyword": "10.0.0.2"}}"#),
            v(r#"{"term": {"alert.signature_id": 2013028}}"#),
        ]
    );
}

#[test]
fn query_string_filters_use_mapped_fields() {
    let f: Vec<Value> = store(true)
        .query_string_to_filters("src_ip:1.2.3.4 malware")
        .iter()
        .map(to_value)
        .collect();
    assert_eq!(
        f,
        vec![
            v(r#"{"term": {"source.address": "1.2.3.4"}}"#),
            v(r#"{"query_string": {"query": "malware", "default_operator": "AND"}}"#),
        ]
    );
}

#[test]
fn timestamps_are_formatted_in_utc() {
    assert_eq!(
        to_value(&timestamp_gte_filter(0)),
        v(r#"{"range": {"@timestamp": {"gte": "1970-01-01T00:00:00.000Z"}}}"#)
    );
    assert_eq!(
        to_value(&timestamp_gte_filter(T + 1_500_000)),
        v(r#"{"range": {"@timestamp": {"gte": "2020-01-01T00:00:00.001Z"}}}"#)
    );
}

#[test]
fn event_query_with_type_window_and_size() {
    let params = EventQueryParams {
        event_type: Some("dns".to_string()),
        min_timestamp: Some(T),
        max_timestamp: Some(T + 3600 * 1_000_000_000),
        size: Some(10),
        ..Default::default()
    };
    let body = to_value(&store(false).event_query_request(&params));
    assert_eq!(
        body,
        v(r#"{
            "query": {"bool": {"filter": [
                {"exists": {"field": "event_type"}},
                {"term": {"event_type": "dns"}},
                {"range": {"@timestamp": {"gte": "2020-01-01T00:00:00.000Z"}}},
                {"range": {"@timestamp": {"lte": "2020-01-01T01:00:00.000Z"}}}
            ]}},
            "sort": [{"@timestamp": {"order": "desc"}}],
            "size": 10
        }"#)
    );
    let asc = EventQueryParams { order: Some("asc".to_string()), ..params };
    let body = to_value(&store(false).event_query_request(&asc));
    assert_eq!(body["sort"], v(r#"[{"@timestamp": {"order": "asc"}}]"#));
}

#[test]
fn event_query_defaults() {
    let body = to_value(&store(false).event_query_request(&EventQueryParams::default()));
    assert_eq!(body["size"], v(r#"500"#));
    assert_eq!(body["sort"], v(r#"[{"@timestamp": {"order": "desc"}}]"#));
}

#[test]
fn event_query_response_keeps_hits() {
    let resp = from_value(&v(r#"{"hits": {"hits": [{"_id": "a"}]}}"#));
    assert_eq!(
        to_value(&store(true).event_query_response(&resp)),
        v(r#"{"ecs": true, "data": [{"_id": "a"}]}"#)
    );
}

#[test]
fn histogram_request_by_hour_with_bounds() {
    let params = HistogramParameters {
        min_timestamp: Some(T),
        max_timestamp: Some(T + 4 * 3600 * 1_000_000_000),
        interval: Some(HistogramInterval::Hour),
        address_filter: Some("10.0.0.1".to_string()),
        ..Default::default()
    };
    let body = to_value(&store(false).histogram_request(&params, 7));
    let dh = &body["aggs"]["events_over_time"]["date_histogram"];
    assert_eq!(dh["calendar_interval"], v(r#""1h""#));
    assert_eq!(dh["min_doc_count"], v(r#"0"#));
    assert_eq!(
        dh["extended_bounds"],
        v(r#"{"min": "2020-01-01T00:00:00.000Z", "max": "2020-01-01T04:00:00.000Z"}"#)
    );
    assert_eq!(body["size"], v(r#"0"#));
    assert_eq!(body["query"]["bool"]["minimum_should_match"], v(r#"1"#));
    assert_eq!(
        body["query"]["bool"]["should"],
        v(r#"[{"term": {"src_ip.keyword": "10.0.0.1"}}, {"term": {"dest_ip.keyword": "10.0.0.1"}}]"#)
    );
    assert_eq!(body["query"]["bool"]["must_not"], v(r#"[{"term": {"event_type": "stats"}}]"#));
    let old = to_value(&store(false).histogram_request(&params, 6));
    assert_eq!(old["aggs"]["events_over_time"]["date_histogram"]["interval"], v(r#""1h""#));
    let none = to_value(&store(false).histogram_request(&HistogramParameters::default(), 7));
    assert_eq!(
        none["aggs"]["events_over_time"]["date_histogram"]["extended_bounds"],
        v(r#"{"min": null, "max": null}"#)
    );
}

#[test]
fn histogram_response_keeps_empty_buckets() {
    // 25 events ten minutes apart over five hours, one hour without events.
    let counts = [6u64, 6, 0, 6, 7];
    let buckets: Vec<String> = counts
        .iter()
        .enumerate()
        .map(|(i, c)| {
            format!(
                r#"{{"key": {}, "doc_count": {}, "key_as_string": "h{}"}}"#,
                i as u64 * 3_600_000,
                c,
                i
            )
        })
        .collect();
    let text = format!(
        r#"{{"aggregations": {{"events_over_time": {{"buckets": [{}]}}}}}}"#,
        buckets.join(",")
    );
    let resp = from_value(&v(&text));
    let data = to_value(&histogram_response(&resp));
    let data = data["data"].as_array().unwrap();
    assert_eq!(data.len(), 5);
    assert_eq!(data.iter().map(|b| b["count"].as_u64().unwrap()).sum::<u64>(), 25);
    assert_eq!(data[2], v(r#"{"key": 7200000, "count": 0, "key_as_string": "h2"}"#));
}

#[test]
fn agg_request_and_response() {
    let params = AggParameters { agg: "src_ip".to_string(), size: 5, ..Default::default() };
    let body = to_value(&store(false).agg_request(&params));
    assert_eq!(body["aggs"]["agg"], v(r#"{"terms": {"field": "src_ip.keyword", "size": 5}}"#));
    assert_eq!(body["aggs"]["missing"], v(r#"{"missing": {"field": "src_ip.keyword"}}"#));
    let resp = from_value(&v(r#"{"aggregations": {"agg": {"buckets": [
        {"key": "1.1.1.1", "doc_count": 3}, {"key": "2.2.2.2", "doc_count": 1}]}}}"#));
    assert_eq!(
        to_value(&agg_response(&resp)),
        v(r#"{"data": [{"key": "1.1.1.1", "count": 3}, {"key": "2.2.2.2", "count": 1}]}"#)
    );
    assert_eq!(to_value(&agg_response(&from_value(&v(r#"{}"#)))), v(r#"{"data": []}"#));
}

#[test]
fn flow_histogram_counts_protocols() {
    let params = FlowHistogramParameters { interval: Some("1h".to_string()), ..Default::default() };
    let body = to_value(&store(false).flow_histogram_request(&params));
    assert_eq!(body["aggs"]["histogram"]["date_histogram"]["interval"], v(r#""1h""#));
    let resp = from_value(&v(r#"{"aggregations": {"histogram": {"buckets": [
        {"key": 1, "doc_count": 4, "app_proto": {"buckets": [
            {"key": "http", "doc_count": 3}, {"key": "dns", "doc_count": 1}, {"key": 5, "doc_count": 1}]}},
        {"key": 2, "doc_count": 0}
    ]}}}"#));
    assert_eq!(
        to_value(&flow_histogram_response(&resp)),
        v(r#"{"data": [
            {"key": 1, "events": 4, "app_proto": {"http": 3, "dns": 1}},
            {"key": 2, "events": 0}
        ]}"#)
    );
}

#[test]
fn stats_requests() {
    assert_eq!(elastic_format_interval(30), "30s");
    assert_eq!(elastic_format_interval(59), "59s");
    assert_eq!(elastic_format_interval(60), "1m");
    assert_eq!(elastic_format_interval(90), "1m");
    assert_eq!(elastic_format_interval(3600), "60m");
    let params = StatsAggQueryParams {
        field: "stats.uptime".to_string(),
        duration: 3600,
        interval: 60,
        sensor_name: Some("sensor1".to_string()),
        start_time: 0,
    };
    let body = to_value(&store(false).stats_request(&params, 7, true).unwrap());
    assert_eq!(
        body["aggs"]["histogram"]["date_histogram"],
        v(r#"{"field": "@timestamp", "fixed_interval": "1m"}"#)
    );
    assert_eq!(
        body["query"]["bool"]["filter"],
        v(r#"[
            {"term": {"event_type": "stats"}},
            {"range": {"@timestamp": {"gte": "1970-01-01T00:00:00Z"}}},
            {"term": {"host.keyword": "sensor1"}}
        ]"#)
    );
    assert_eq!(
        body["aggs"]["histogram"]["aggs"],
        v(r#"{"values": {"max": {"field": "stats.uptime"}}}"#)
    );
    let plain = to_value(&store(false).stats_request(&params, 6, false).unwrap());
    assert_eq!(plain["aggs"]["histogram"]["date_histogram"]["interval"], v(r#""1m""#));
    assert_eq!(plain["query"]["bool"]["filter"][2], v(r#"{"term": {"host": "sensor1"}}"#));
    assert_eq!(
        plain["aggs"]["histogram"]["aggs"],
        v(r#"{"memuse": {"max": {"field": "stats.uptime"}}}"#)
    );
}

#[test]
fn inbox_query_tags() {
    let options = AlertQueryOptions {
        query_string: None,
        timestamp_gte: None,
        tags: vec!["-archived".to_string(), "escalated".to_string(), "-foo".to_string(), "bar".to_string()],
    };
    let body = to_value(&store(false).build_inbox_query(&options));
    assert_eq!(
        body["query"]["bool"]["filter"],
        v(r#"[
            {"exists": {"field": "event_type"}},
            {"term": {"event_type": "alert"}},
            {"term": {"tags": "evebox.escalated"}},
            {"term": {"tags": "bar"}}
        ]"#)
    );
    assert_eq!(
        body["query"]["bool"]["must_not"],
        v(r#"[{"term": {"tags": "evebox.archived"}}, {"term": {"tags": "foo"}}]"#)
    );
    assert_eq!(
        body["aggs"]["signatures"]["terms"],
        v(r#"{"field": "alert.signature_id", "size": 2000}"#)
    );
}

#[test]
fn alert_listing_is_flattened() {
    let resp = from_value(&v(r#"{"aggregations": {"signatures": {"buckets": [
        {"key": 1, "sources": {"buckets": [
            {"key": "a", "destinations": {"buckets": [
                {"doc_count": 3, "escalated": {"doc_count": 1},
                 "newest": {"hits": {"hits": [{"_id": "n", "_source": {"@timestamp": "t2"}}]}},
                 "oldest": {"hits": {"hits": [{"_id": "o", "_source": {"@timestamp": "t0"}}]}}}
            ]}},
            {"key": "b", "destinations": {"buckets": []}}
        ]}},
        {"key": 2, "sources": {"buckets": [
            {"key": "c", "destinations": {"buckets": [
                {"doc_count": 1, "escalated": {"doc_count": 0},
                 "newest": {"hits": {"hits": [{"_id": "x", "_source": {"@timestamp": "t5"}}]}},
                 "oldest": {"hits": {"hits": [{"_id": "x", "_source": {"@timestamp": "t5"}}]}}}
            ]}}
        ]}}
    ]}}}"#));
    let r = to_value(&store(false).alert_query_response(&resp).unwrap());
    assert_eq!(r["ecs"], v(r#"false"#));
    assert_eq!(
        r["alerts"],
        v(r#"[
            {"count": 3, "event": {"_id": "n", "_source": {"@timestamp": "t2"}}, "escalatedCount": 1, "maxTs": "t2", "minTs": "t0"},
            {"count": 1, "event": {"_id": "x", "_source": {"@timestamp": "t5"}}, "escalatedCount": 0, "maxTs": "t5", "minTs": "t5"}
        ]"#)
    );
    let err = from_value(&v(r#"{"error": {"reason": "bad query"}}"#));
    assert_eq!(
        err_of(store(false).alert_query_response(&err)),
        DatastoreError::ElasticSearchError("bad query".to_string())
    );
    let empty = to_value(&store(true).alert_query_response(&from_value(&v(r#"{}"#))).unwrap());
    assert_eq!(empty, v(r#"{"ecs": true, "alerts": []}"#));
}

#[test]
fn event_lookup_by_id() {
    let found = from_value(&v(r#"{"hits": {"hits": [{"_id": "a"}, {"_id": "b"}]}}"#));
    assert_eq!(to_value(&get_event_by_id_response(&found).unwrap().unwrap()), v(r#"{"_id": "a"}"#));
    let none = from_value(&v(r#"{"hits": {"hits": []}}"#));
    assert!(get_event_by_id_response(&none).unwrap().is_none());
    assert!(get_event_by_id_response(&from_value(&v(r#"{}"#))).unwrap().is_none());
    let err = from_value(&v(r#"{"error": {"reason": "no index"}}"#));
    assert_eq!(
        err_of(get_event_by_id_response(&err)),
        DatastoreError::ElasticError("no index".to_string())
    );
}

#[test]
fn archiving_an_event_adds_its_tag_and_history() {
    let body = to_value(&store(false).archive_event_by_id("abc", 0));
    assert_eq!(body["query"], v(r#"{"bool": {"filter": {"term": {"_id": "abc"}}}}"#));
    assert_eq!(body["script"]["lang"], v(r#""painless""#));
    assert_eq!(body["script"]["params"]["tags"], v(r#"["evebox.archived"]"#));
    assert_eq!(
        body["script"]["params"]["action"],
        v(r#"{"username": "anonymous", "timestamp": "1970-01-01T00:00:00.000Z", "action": "archived", "comment": null}"#)
    );
    let again = to_value(&store(false).archive_event_by_id("abc", 0));
    assert_eq!(body, again);
    let inline = body["script"]["inline"].as_str().unwrap();
    assert!(inline.contains("ctx._source.evebox.history.add(params.action)"));
    assert!(inline.contains("if (!ctx._source.tags.contains(tag))"));
}

#[test]
fn single_event_escalation_uses_the_listed_tag() {
    let ds = store(false);
    let body = to_value(&ds.escalate_event_by_id("abc", 0));
    assert_eq!(body["script"]["params"]["tags"], v(r#"["evebox.escalated"]"#));
    assert_eq!(body["script"]["params"]["action"]["action"], v(r#""escalated""#));
    let body = to_value(&ds.deescalate_event_by_id("abc", 0));
    assert_eq!(body["script"]["params"]["tags"], v(r#"["evebox.escalated"]"#));
    assert_eq!(body["script"]["params"]["action"]["action"], v(r#""de-escalated""#));
    assert!(body["script"]["inline"].as_str().unwrap().contains("removeIf"));
}

#[test]
fn group_workflow_updates() {
    let ds = store(false);
    let body = to_value(&ds.archive_by_alert_group(&group(), 0));
    assert_eq!(body["script"]["params"]["tags"], v(r#"["archived", "evebox.archived"]"#));
    assert_eq!(
        body["query"]["bool"]["must_not"],
        v(r#"[{"term": {"tags": "archived"}}, {"term": {"tags": "evebox.archived"}}]"#)
    );
    assert_eq!(body["query"]["bool"]["filter"][1], v(r#"{"term": {"event_type": "alert"}}"#));
    let body = to_value(&ds.escalate_by_alert_group(&group(), "alice", 0));
    assert_eq!(body["script"]["params"]["action"]["username"], v(r#""alice""#));
    let body = to_value(&ds.deescalate_by_alert_group(&group(), 0));
    assert_eq!(body["script"]["params"]["action"]["action"], v(r#""de-escalated""#));
    let filter = body["query"]["bool"]["filter"].as_array().unwrap();
    assert_eq!(filter.len(), 8);
    assert_eq!(filter[7], v(r#"{"term": {"tags": "evebox.escalated"}}"#));
    assert!(body["script"]["inline"].as_str().unwrap().contains("removeIf"));
    let body = to_value(&ds.comment_by_alert_group(&group(), "look".to_string(), "bob", 0));
    assert_eq!(body["script"]["params"]["tags"], v(r#"[]"#));
    assert_eq!(body["script"]["params"]["action"]["comment"], v(r#""look""#));
    let body = to_value(&ds.comment_event_by_id("x", "hi".to_string(), "bob", 0));
    assert_eq!(body["script"]["params"]["action"]["action"], v(r#""comment""#));
}

#[test]
fn sensors() {
    let body = to_value(&store(true).get_sensors_request());
    assert_eq!(body["aggs"]["sensors"]["terms"]["field"], v(r#""suricata.eve.host""#));
    let resp = from_value(&v(r#"{"aggregations": {"sensors": {"buckets": [{"key": "s1"}, {"key": "s2"}]}}}"#));
    assert_eq!(get_sensors_response(&resp).unwrap(), vec!["s1".to_string(), "s2".to_string()]);
    assert!(get_sensors_response(&from_value(&v(r#"{}"#))).is_err());
}

#[test]
fn dhcp_reports() {
    let ds = store(false);
    let params = EventQueryParams { query_string: Some("foo bar".to_string()), ..Default::default() };
    let body = to_value(&ds.dhcp_report_request(&params, DhcpReport::Ack));
    assert_eq!(
        body["query"]["bool"]["filter"],
        v(r#"[
            {"term": {"event_type": "dhcp"}},
            {"query_string": {"query": "foo bar", "default_operator": "AND"}},
            {"term": {"dhcp.dhcp_type": "ack"}}
        ]"#)
    );
    assert_eq!(body["size"], v(r#"0"#));
    let resp = from_value(&v(r#"{"aggregations": {"client_mac": {"buckets": [
        {"key": "aa", "latest": {"hits": {"hits": [{"_source": {"timestamp": "t", "host": "h", "dhcp": {"client_mac": "aa", "assigned_ip": "1.1.1.1"}}}]}}}
    ]}}}"#));
    assert_eq!(
        to_value(&ds.dhcp_report_response(DhcpReport::Ack, &resp)),
        v(r#"{"data": [{"timestamp": "t", "sensor": "h", "client_mac": "aa", "hostname": null, "lease_time": null, "assigned_ip": "1.1.1.1"}]}"#)
    );
    let resp = from_value(&v(r#"{"aggregations": {"client_mac": {"buckets": [
        {"key": "aa", "assigned_ip": {"buckets": [{"key": "0.0.0.0"}, {"key": "1.1.1.1"}]}}
    ]}}}"#));
    assert_eq!(
        to_value(&ds.dhcp_report_response(DhcpReport::Mac, &resp)),
        v(r#"{"data": [{"mac": "aa", "addrs": ["1.1.1.1"]}]}"#)
    );
    let resp = from_value(&v(r#"{"aggregations": {"assigned_ip": {"buckets": [
        {"key": "0.0.0.0", "client_mac": {"buckets": [{"key": "aa"}]}},
        {"key": "1.1.1.1", "client_mac": {"buckets": [{"key": "aa"}, {"key": "bb"}]}}
    ]}}}"#));
    assert_eq!(
        to_value(&ds.dhcp_report_response(DhcpReport::Ip, &resp)),
        v(r#"{"data": [{"ip": "1.1.1.1", "macs": ["aa", "bb"]}]}"#)
    );
    let resp = from_value(&v(r#"{"aggregations": {"servers": {"buckets": [{"key": "10.0.0.1", "doc_count": 7}]}}}"#));
    assert_eq!(
        to_value(&ds.dhcp_report_response(DhcpReport::Servers, &resp)),
        v(r#"{"data": [{"ip": "10.0.0.1", "count": 7}]}"#)
    );
    let ecs = from_value(&v(r#"{"@timestamp": "t", "agent": {"hostname": "h"}, "suricata": {"eve": {"dhcp": {"client_mac": "m"}}}}"#));
    assert_eq!(to_value(&map_dhcp_event(&ecs, true))["client_mac"], v(r#""m""#));
    assert_eq!(to_value(&map_dhcp_event(&ecs, true))["sensor"], v(r#""h""#));
}
