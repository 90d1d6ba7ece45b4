use evebox_datastore::querystring::{parse_query, QueryElement};

fn kv(k: &str, v: &str) -> QueryElement {
    QueryElement::KeyVal(k.to_string(), v.to_string())
}

fn text(t: &str) -> QueryElement {
    QueryElement::Text(t.to_string())
}

#[test]
fn parses_keys_and_free_text() {
    let r = parse_query("event_type:dns  foo\tsrc_ip:10.0.0.1", 100);
    assert_eq!(r, vec![kv("event_type", "dns"), text("foo"), kv("src_ip", "10.0.0.1")]);
}

#[test]
fn value_keeps_later_colons() {
    assert_eq!(parse_query("a:b:c", 10), vec![kv("a", "b:c")]);
    assert_eq!(parse_query("key:", 10), vec![kv("key", "")]);
}

#[test]
fn leading_colon_is_text() {
    assert_eq!(parse_query(":x", 10), vec![text(":x")]);
}

#[test]
fn empty_and_blank_inputs() {
    assert!(parse_query("", 10).is_empty());
    assert!(parse_query("   \t\n ", 10).is_empty());
}

#[test]
fn parsing_stops_at_the_limit() {
    let r = parse_query("a b c d e", 2);
    assert_eq!(r, vec![text("a"), text("b")]);
    assert!(parse_query("a b", 0).is_empty());
}

#[test]
fn pathological_delimiters_terminate() {
    let q = ": ".repeat(10_000) + &"::::".repeat(1000);
    let r = parse_query(&q, 128);
    assert_eq!(r.len(), 128);
    assert!(r.iter().all(|e| *e == text(":")));
    let q = ",".repeat(5000);
    assert_eq!(parse_query(&q, 100), vec![text(&q)]);
}
