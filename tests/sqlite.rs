use evebox_datastore::datastore::{DatastoreError, EventQueryParams};
use evebox_datastore::elastic::AlertQueryOptions;
use evebox_datastore::json::Json;
use evebox_datastore::querystring::QueryElement;
use evebox_datastore::sqlite::{
    add_flag_tags, alert_row, by_id_result, element_predicate, event_query_row, retry_execute,
    retry_query, stats_deriv, stats_deriv_buckets, Predicate, SQLiteEventStore, SqlStatement, SqlValue,
};
use evebox_datastore::workflow::AlertGroupSpec;
use rusqlite::types::Value as SqlParam;
use rusqlite::Connection;

const T: i64 = 1_577_836_800_000_000_000;
const MINUTE: i64 = 60_000_000_000;

fn params(st: &SqlStatement) -> Vec<SqlParam> {
    st.params
        .iter()
        .map(|p| match p {
            SqlValue::Int(n) => SqlParam::Integer(*n),
            SqlValue::Text(t) => SqlParam::Text(t.clone()),
        })
        .collect()
}

fn db() -> Connection {
    let conn = Connection::open_in_memory().unwrap();
    conn.execute_batch(
        "CREATE TABLE events (timestamp INTEGER NOT NULL, archived INTEGER DEFAULT 0, \
         escalated INTEGER DEFAULT 0, source TEXT NOT NULL);",
    )
    .unwrap();
    conn
}

fn insert(conn: &Connection, ts: i64, source: &str) {
    let values = [SqlParam::Integer(ts), SqlParam::Text(source.to_string())];
    conn.execute("INSERT INTO events (timestamp, source) VALUES (?, ?)", rusqlite::params_from_iter(values.iter()))
        .unwrap();
}

fn alert(sig: u64, src: &str, dest: &str) -> String {
    format!(
        r#"{{"event_type": "alert", "src_ip": "{}", "dest_ip": "{}", "alert": {{"signature_id": {}}}}}"#,
        src, dest, sig
    )
}

fn execute(conn: &Connection, st: &SqlStatement) -> usize {
    conn.execute(&st.sql, rusqlite::params_from_iter(params(st).iter())).unwrap()
}

fn group() -> AlertGroupSpec {
    AlertGroupSpec {
        signature_id: 2013028,
        src_ip: "10.0.0.1".to_string(),
        dest_ip: "10.0.0.2".to_string(),
        min_timestamp: "2020-01-01T00:00:00.000000+0000".to_string(),
        max_timestamp: "2020-01-01T01:00:00.000000+0000".to_string(),
    }
}

#[test]
fn archive_by_alert_group_archives_each_alert_once() {
    let conn = db();
    for i in 0..5 {
        insert(&conn, T + i * MINUTE, &alert(2013028, "10.0.0.1", "10.0.0.2"));
    }
    insert(&conn, T + MINUTE, &alert(1, "10.0.0.1", "10.0.0.2"));
    insert(&conn, T + MINUTE, &alert(2013028, "10.0.0.9", "10.0.0.2"));
    insert(&conn, T + 120 * MINUTE, &alert(2013028, "10.0.0.1", "10.0.0.2"));
    let st = SQLiteEventStore::archive_by_alert_group(&group()).unwrap();
    assert_eq!(execute(&conn, &st), 5);
    assert_eq!(execute(&conn, &st), 0);
    let archived: i64 = conn.query_row("SELECT sum(archived) FROM events", [], |r| r.get(0)).unwrap();
    assert_eq!(archived, 5);
}

#[test]
fn escalation_of_a_group_leaves_archive_alone() {
    let conn = db();
    for i in 0..3 {
        insert(&conn, T + i * MINUTE, &alert(2013028, "10.0.0.1", "10.0.0.2"));
    }
    execute(&conn, &SQLiteEventStore::archive_by_alert_group(&group()).unwrap());
    assert_eq!(execute(&conn, &SQLiteEventStore::escalate_by_alert_group(&group()).unwrap()), 3);
    assert_eq!(execute(&conn, &SQLiteEventStore::deescalate_by_alert_group(&group()).unwrap()), 3);
    assert_eq!(execute(&conn, &SQLiteEventStore::deescalate_by_alert_group(&group()).unwrap()), 0);
    let (a, e): (i64, i64) = conn
        .query_row("SELECT sum(archived), sum(escalated) FROM events", [], |r| Ok((r.get(0)?, r.get(1)?)))
        .unwrap();
    assert_eq!((a, e), (3, 0));
}

#[test]
fn bad_group_timestamp_is_an_error() {
    let mut g = group();
    g.max_timestamp = "yesterday".to_string();
    assert_eq!(
        SQLiteEventStore::archive_by_alert_group(&g).unwrap_err(),
        DatastoreError::TimestampParseError("yesterday".to_string())
    );
}

#[test]
fn archive_event_by_id_twice_succeeds() {
    let conn = db();
    insert(&conn, T, &alert(1, "a", "b"));
    let st = SQLiteEventStore::archive_event_by_id("1");
    assert_eq!(by_id_result(execute(&conn, &st)), Ok(()));
    assert_eq!(by_id_result(execute(&conn, &st)), Ok(()));
    let st = SQLiteEventStore::deescalate_event_by_id("1");
    assert_eq!(by_id_result(execute(&conn, &st)), Ok(()));
    let archived: i64 = conn.query_row("SELECT archived FROM events WHERE rowid = 1", [], |r| r.get(0)).unwrap();
    assert_eq!(archived, 1);
    let st = SQLiteEventStore::escalate_event_by_id("42");
    assert_eq!(by_id_result(execute(&conn, &st)), Err(DatastoreError::EventNotFound));
}

fn run_event_query(conn: &Connection, p: &EventQueryParams) -> Vec<(i64, String, i64)> {
    let st = SQLiteEventStore::event_query(p);
    let mut stmt = conn.prepare(&st.sql).unwrap();
    let rows = stmt
        .query_map(rusqlite::params_from_iter(params(&st).iter()), |r| {
            let id: i64 = r.get(0)?;
            let source: String = r.get(3)?;
            Ok((id, source))
        })
        .unwrap();
    rows.map(|r| r.unwrap())
        .map(|(id, source)| {
            let ts: i64 = conn
                .query_row("SELECT timestamp FROM events WHERE rowid = ?", [id], |r| r.get(0))
                .unwrap();
            (id, source, ts)
        })
        .collect()
}

#[test]
fn event_query_by_type_and_window() {
    let conn = db();
    for i in 0..30 {
        let kind = if i % 2 == 0 { "dns" } else { "flow" };
        insert(&conn, T + (i - 5) * 5 * MINUTE, &format!(r#"{{"event_type": "{}", "n": {}}}"#, kind, i));
    }
    let p = EventQueryParams {
        event_type: Some("dns".to_string()),
        min_timestamp: Some(T),
        max_timestamp: Some(T + 60 * MINUTE),
        size: Some(10),
        ..Default::default()
    };
    let rows = run_event_query(&conn, &p);
    assert_eq!(rows.len(), 6);
    assert!(rows.iter().all(|(_, s, ts)| s.contains(r#""dns""#) && *ts >= T && *ts <= T + 60 * MINUTE));
    assert!(rows.windows(2).all(|w| w[0].2 >= w[1].2));
    let p = EventQueryParams { size: Some(10), ..Default::default() };
    let rows = run_event_query(&conn, &p);
    assert_eq!(rows.len(), 10);
    let p = EventQueryParams { size: Some(10), order: Some("asc".to_string()), ..Default::default() };
    let rows = run_event_query(&conn, &p);
    assert!(rows.windows(2).all(|w| w[0].2 <= w[1].2));
}

#[test]
fn event_query_with_search_string() {
    let conn = db();
    insert(&conn, T, r#"{"event_type": "alert", "alert": {"signature_id": 7}, "src_ip": "10.1.1.1"}"#);
    insert(&conn, T, r#"{"event_type": "alert", "alert": {"signature_id": 8}, "src_ip": "10.1.1.2"}"#);
    insert(&conn, T, r#"{"event_type": "dns", "rrname": "malware.example"}"#);
    let q = |s: &str| EventQueryParams { query_string: Some(s.to_string()), ..Default::default() };
    assert_eq!(run_event_query(&conn, &q("alert.signature_id:7")).len(), 1);
    assert_eq!(run_event_query(&conn, &q("src_ip:10.1.1")).len(), 2);
    assert_eq!(run_event_query(&conn, &q("malware")).len(), 1);
    assert_eq!(run_event_query(&conn, &q("event_type:alert src_ip:10.1.1.2")).len(), 1);
    // A key that could leave its quotes is dropped.
    assert_eq!(run_event_query(&conn, &q("x')--:1")).len(), 3);
}

#[test]
fn alert_query_groups_alerts() {
    let conn = db();
    for _ in 0..3 {
        insert(&conn, T, &alert(1, "a", "b"));
    }
    insert(&conn, T, &alert(2, "a", "b"));
    insert(&conn, T - MINUTE, &alert(3, "a", "b"));
    let options = AlertQueryOptions { query_string: None, timestamp_gte: Some(T), tags: vec!["-archived".to_string()] };
    let st = SQLiteEventStore::alert_query(&options);
    let mut stmt = conn.prepare(&st.sql).unwrap();
    let rows: Vec<(i64, i64)> = stmt
        .query_map(rusqlite::params_from_iter(params(&st).iter()), |r| Ok((r.get(0)?, r.get(2)?)))
        .unwrap()
        .map(|r| r.unwrap())
        .collect();
    assert_eq!(rows.len(), 2);
    assert!(rows.contains(&(3, T)));
    assert!(rows.contains(&(1, T)));
}

#[test]
fn search_string_predicates() {
    let kv = |k: &str, v: &str| QueryElement::KeyVal(k.to_string(), v.to_string());
    assert_eq!(
        element_predicate(&kv("alert.signature_id", "2013028")),
        Some(Predicate::JsonEq("alert.signature_id".to_string(), SqlValue::Int(2013028)))
    );
    assert_eq!(
        element_predicate(&kv("n", "-12")),
        Some(Predicate::JsonEq("n".to_string(), SqlValue::Int(-12)))
    );
    assert_eq!(
        element_predicate(&kv("src_ip", "10.0")),
        Some(Predicate::JsonLike("src_ip".to_string(), "%10.0%".to_string()))
    );
    assert_eq!(element_predicate(&kv("a'b", "1")), None);
    assert_eq!(
        element_predicate(&QueryElement::Text("evil".to_string())),
        Some(Predicate::SourceLike("%evil%".to_string()))
    );
}

#[test]
fn retries() {
    assert!(retry_query(0, "database is locked"));
    assert!(retry_query(99, "database table is locked"));
    assert!(!retry_query(100, "database is locked"));
    assert!(!retry_query(0, "no such table"));
    assert!(retry_execute(0));
    assert!(retry_execute(1000));
    assert!(!retry_execute(1001));
}

#[test]
fn derivative_reports_reset_value() {
    let rows = vec![(0u64, 10u64), (60, 15), (120, 3), (180, 3), (240, 10)];
    assert_eq!(stats_deriv(&rows), vec![(60, 5), (120, 3), (180, 0), (240, 7)]);
    assert!(stats_deriv(&vec![]).is_empty());
    assert!(stats_deriv(&vec![(0, 1)]).is_empty());
}

#[test]
fn derivative_of_buckets_keeps_every_bucket() {
    let points = vec![
        ("t0".to_string(), 5u64),
        ("t1".to_string(), 3),
        ("t2".to_string(), 10),
        ("t3".to_string(), 10),
    ];
    assert_eq!(
        stats_deriv_buckets(&points),
        vec![
            ("t0".to_string(), 0),
            ("t1".to_string(), 3),
            ("t2".to_string(), 7),
            ("t3".to_string(), 0),
        ]
    );
    assert_eq!(stats_deriv_buckets(&vec![("t0".to_string(), 1)]), vec![("t0".to_string(), 0)]);
    assert!(stats_deriv_buckets(&vec![]).is_empty());
}

#[test]
fn statistics_answers() {
    let rows = vec![(60u64, 5u64), (120, 2)];
    let r = SQLiteEventStore::stats_agg(&rows).unwrap();
    let Json::Object(o) = r else { panic!("object expected") };
    let Json::Array(data) = &o[0].1 else { panic!("array expected") };
    assert_eq!(data.len(), 2);
    let Json::Object(first) = &data[0] else { panic!("object expected") };
    assert!(matches!(&first[0].1, Json::Str(t) if t == "1970-01-01T00:01:00Z"));
    assert!(matches!(&first[1].1, Json::UInt(5)));
    let d = SQLiteEventStore::stats_agg_deriv(&rows).unwrap();
    let Json::Object(o) = d else { panic!("object expected") };
    let Json::Array(data) = &o[0].1 else { panic!("array expected") };
    assert_eq!(data.len(), 1);
    let Json::Object(first) = &data[0] else { panic!("object expected") };
    assert!(matches!(&first[0].1, Json::Str(t) if t == "1970-01-01T00:02:00Z"));
    assert!(matches!(&first[1].1, Json::UInt(2)));
}

#[test]
fn stats_statement_runs() {
    let conn = db();
    insert(&conn, 60_000_000_000, r#"{"event_type": "stats", "stats": {"uptime": 10}}"#);
    insert(&conn, 70_000_000_000, r#"{"event_type": "stats", "stats": {"uptime": 20}}"#);
    insert(&conn, 130_000_000_000, r#"{"event_type": "stats", "stats": {"uptime": 5}}"#);
    let p = evebox_datastore::datastore::StatsAggQueryParams {
        field: "stats.uptime".to_string(),
        duration: 3600,
        interval: 60,
        sensor_name: None,
        start_time: 0,
    };
    let st = SQLiteEventStore::get_stats(&p);
    let mut stmt = conn.prepare(&st.sql).unwrap();
    let rows: Vec<(i64, i64)> = stmt
        .query_map(rusqlite::params_from_iter(params(&st).iter()), |r| Ok((r.get(0)?, r.get(1)?)))
        .unwrap()
        .map(|r| r.unwrap())
        .collect();
    assert_eq!(rows, vec![(60, 20), (120, 5)]);
}

#[test]
fn flag_tags_are_added() {
    let doc = Json::Object(vec![("timestamp".to_string(), Json::Str("t".to_string()))]);
    let r = event_query_row(4, true, true, doc);
    let Json::Object(o) = r else { panic!("object expected") };
    assert!(matches!(o[0].1, Json::Int(4)));
    let Json::Object(src) = &o[1].1 else { panic!("object expected") };
    let tags = src.iter().find(|(k, _)| k == "tags").map(|(_, v)| v).unwrap();
    let Json::Array(tags) = tags else { panic!("array expected") };
    let names: Vec<&str> = tags.iter().map(|t| match t { Json::Str(s) => s.as_str(), _ => "" }).collect();
    assert_eq!(names, vec!["archived", "evebox.archived", "escalated", "evebox.escalated"]);
    assert!(src.iter().any(|(k, v)| k == "@timestamp" && matches!(v, Json::Str(s) if s == "t")));

    let doc = Json::Object(vec![("tags".to_string(), Json::Array(vec![Json::Str("x".to_string())]))]);
    let Json::Object(o) = add_flag_tags(doc, false, true) else { panic!("object expected") };
    let Json::Array(tags) = &o[0].1 else { panic!("array expected") };
    assert_eq!(tags.len(), 3);

    let row = alert_row(3, 9, 0, 1, true, Json::Object(vec![("timestamp".to_string(), Json::Str("t9".to_string()))]));
    let Json::Object(o) = row else { panic!("object expected") };
    assert!(o.iter().any(|(k, v)| k == "minTs" && matches!(v, Json::Str(s) if s == "1970-01-01T00:00:00.000Z")));
    assert!(o.iter().any(|(k, v)| k == "maxTs" && matches!(v, Json::Str(s) if s == "t9")));
}
