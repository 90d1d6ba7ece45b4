use vstd::prelude::*;

use crate::datastore::{DatastoreError, EventQueryParams, StatsAggQueryParams};
use crate::elastic::{strings_view, AlertQueryOptions};
use crate::json::{
    items_view,
    jget,
    jset,
    jstr,
    json_array,
    json_str,
    obj1,
    obj2,
    obj5,
    object1,
    object2,
    object5,
    push_item,
    Json,
    JsonV,
};
use crate::querystring::{elements_view, parse_query, parse_spec, QueryElement, QueryElementV};
use crate::text::{concat2, concat3, contains, occurs_at, str_eq};
use crate::timestamp::{
    eve_timestamp_nanos,
    format_timestamp,
    nanos_to_rfc3339,
    parse_eve_timestamp,
    rfc3339_millis_of,
    rfc3339_of_unix_nanos,
};
use crate::workflow::{AlertGroupSpec, AlertGroupSpecV};

verus! {

/// The relational event store. Its connections are held by the caller; this
/// type builds the statements that it runs and shapes their rows.
#[derive(Clone, Debug, Default)]
pub struct SQLiteEventStore {}

/// The most elements read from the search string of an alert listing.
pub const ALERT_QUERY_STRING_LIMIT: usize = 128;

/// The most elements read from the search string of an event query.
pub const EVENT_QUERY_STRING_LIMIT: usize = 100;

/// The most events an event query returns when it names no size.
pub const DEFAULT_EVENT_LIMIT: u64 = 500;

/// How many times a query that met a locked database is tried again.
pub const QUERY_RETRY_LIMIT: u32 = 100;

/// How long, in milliseconds, a write that failed is tried again.
pub const EXECUTE_RETRY_MILLIS: u64 = 1000;

/// The pause, in milliseconds, between two tries.
pub const RETRY_BACKOFF_MILLIS: u64 = 10;

/// A value bound to a statement parameter.
#[derive(Clone, Debug, PartialEq)]
pub enum SqlValue {
    Int(i64),
    Text(String),
}

pub enum SqlValueV {
    Int(int),
    Text(Seq<char>),
}

impl View for SqlValue {
    type V = SqlValueV;

    open spec fn view(&self) -> SqlValueV {
        match self {
            SqlValue::Int(n) => SqlValueV::Int(*n as int),
            SqlValue::Text(t) => SqlValueV::Text(t@),
        }
    }
}

/// A workflow flag, held in a column of its own.
#[derive(PartialEq, Eq, Structural, Clone, Copy, Debug)]
pub enum Flag {
    Archived,
    Escalated,
}

/// One condition of a `WHERE` clause. Each binds exactly one parameter;
/// only the JSON paths, which are checked, are written into the text.
#[derive(Clone, Debug, PartialEq)]
pub enum Predicate {
    /// `json_extract(events.source, '$.<path>') = ?`
    JsonEq(String, SqlValue),
    /// `json_extract(events.source, '$.<path>') LIKE ?`
    JsonLike(String, String),
    /// `events.source LIKE ?`
    SourceLike(String),
    /// `archived = ?` or `escalated = ?`, with 1 or 0
    FlagIs(Flag, bool),
    /// `timestamp >= ?`
    TimestampGte(i64),
    /// `timestamp <= ?`
    TimestampLte(i64),
}

pub enum PredicateV {
    JsonEq(Seq<char>, SqlValueV),
    JsonLike(Seq<char>, Seq<char>),
    SourceLike(Seq<char>),
    FlagIs(Flag, bool),
    TimestampGte(int),
    TimestampLte(int),
}

impl View for Predicate {
    type V = PredicateV;

    open spec fn view(&self) -> PredicateV {
        match self {
            Predicate::JsonEq(p, v) => PredicateV::JsonEq(p@, v@),
            Predicate::JsonLike(p, l) => PredicateV::JsonLike(p@, l@),
            Predicate::SourceLike(l) => PredicateV::SourceLike(l@),
            Predicate::FlagIs(f, b) => PredicateV::FlagIs(*f, *b),
            Predicate::TimestampGte(n) => PredicateV::TimestampGte(*n as int),
            Predicate::TimestampLte(n) => PredicateV::TimestampLte(*n as int),
        }
    }
}

pub open spec fn preds_view(s: Seq<Predicate>) -> Seq<PredicateV> {
    s.map_values(|p: Predicate| p@)
}

pub open spec fn values_view(s: Seq<SqlValue>) -> Seq<SqlValueV> {
    s.map_values(|v: SqlValue| v@)
}

/// A statement with its positional parameters.
#[derive(Clone, Debug, PartialEq)]
pub struct SqlStatement {
    pub sql: String,
    pub params: Vec<SqlValue>,
}

/// Whether a character may stand in a JSON path written into a statement.
pub open spec fn is_path_char(c: char) -> bool {
    ('a' <= c && c <= 'z') || ('A' <= c && c <= 'Z') || ('0' <= c && c <= '9') || c == '_' || c
        == '.'
}

/// A JSON path that may be written into a statement: not empty, and made
/// of letters, digits, `_` and `.` only, so that it cannot leave its quotes.
pub open spec fn is_valid_path(p: Seq<char>) -> bool {
    p.len() > 0 && forall|i: int| 0 <= i < p.len() ==> is_path_char(#[trigger] p[i])
}

pub open spec fn flag_column(f: Flag) -> Seq<char> {
    match f {
        Flag::Archived => "archived"@,
        Flag::Escalated => "escalated"@,
    }
}

pub open spec fn json_path_expr(path: Seq<char>) -> Seq<char> {
    "json_extract(events.source, '$."@ + path + "')"@
}

/// The text of a condition.
pub open spec fn pred_text(p: PredicateV) -> Seq<char> {
    match p {
        PredicateV::JsonEq(path, _) => json_path_expr(path) + " = ?"@,
        PredicateV::JsonLike(path, _) => json_path_expr(path) + " LIKE ?"@,
        PredicateV::SourceLike(_) => "events.source LIKE ?"@,
        PredicateV::FlagIs(f, _) => flag_column(f) + " = ?"@,
        PredicateV::TimestampGte(_) => "timestamp >= ?"@,
        PredicateV::TimestampLte(_) => "timestamp <= ?"@,
    }
}

/// The parameter of a condition.
pub open spec fn pred_param(p: PredicateV) -> SqlValueV {
    match p {
        PredicateV::JsonEq(_, v) => v,
        PredicateV::JsonLike(_, l) => SqlValueV::Text(l),
        PredicateV::SourceLike(l) => SqlValueV::Text(l),
        PredicateV::FlagIs(_, b) => SqlValueV::Int(
            if b {
                1
            } else {
                0
            },
        ),
        PredicateV::TimestampGte(n) => SqlValueV::Int(n),
        PredicateV::TimestampLte(n) => SqlValueV::Int(n),
    }
}

/// The conditions joined by `AND`.
pub open spec fn where_text(ps: Seq<PredicateV>) -> Seq<char>
    decreases ps.len(),
{
    if ps.len() == 0 {
        Seq::empty()
    } else if ps.len() == 1 {
        pred_text(ps[0])
    } else {
        where_text(ps.drop_last()) + " AND "@ + pred_text(ps.last())
    }
}

pub open spec fn where_params(ps: Seq<PredicateV>) -> Seq<SqlValueV> {
    ps.map_values(|p: PredicateV| pred_param(p))
}

/// A row of the event table as the conditions see it: its JSON fields by
/// path, its timestamp and its flags.
pub struct RowV {
    pub fields: Map<Seq<char>, SqlValueV>,
    pub source: Seq<char>,
    pub timestamp: int,
    pub archived: bool,
    pub escalated: bool,
}

/// Whether a row meets a condition. `LIKE` matches are left to the engine:
/// they are taken as met, so that what is proved of the other conditions
/// holds whatever they match.
pub open spec fn row_meets(r: RowV, p: PredicateV) -> bool {
    match p {
        PredicateV::JsonEq(path, v) => r.fields.contains_key(path) && r.fields[path] == v,
        PredicateV::JsonLike(_, _) => true,
        PredicateV::SourceLike(_) => true,
        PredicateV::FlagIs(f, b) => match f {
            Flag::Archived => r.archived == b,
            Flag::Escalated => r.escalated == b,
        },
        PredicateV::TimestampGte(n) => r.timestamp >= n,
        PredicateV::TimestampLte(n) => r.timestamp <= n,
    }
}

pub open spec fn row_meets_all(r: RowV, ps: Seq<PredicateV>) -> bool {
    forall|i: int| 0 <= i < ps.len() ==> row_meets(r, #[trigger] ps[i])
}

/// `s` wrapped in `%` for a `LIKE` match.
pub open spec fn like_pattern(s: Seq<char>) -> Seq<char> {
    "%"@ + s + "%"@
}

/// The decimal value of a string of digits.
pub open spec fn digits_value(s: Seq<char>) -> int
    decreases s.len(),
{
    if s.len() == 0 {
        0
    } else {
        digits_value(s.drop_last()) * 10 + (s.last() as int - '0' as int)
    }
}

pub open spec fn is_digits(s: Seq<char>) -> bool {
    s.len() > 0 && forall|i: int| 0 <= i < s.len() ==> '0' <= #[trigger] s[i] && s[i] <= '9'
}

/// The integer that `s` writes: an optional `+` or `-` and decimal digits,
/// in the range of `i64`.
pub open spec fn i64_of(s: Seq<char>) -> Option<i64> {
    let v = if s.len() > 0 && s[0] == '-' && is_digits(s.skip(1)) {
        Some(-digits_value(s.skip(1)))
    } else if s.len() > 0 && s[0] == '+' && is_digits(s.skip(1)) {
        Some(digits_value(s.skip(1)))
    } else if is_digits(s) {
        Some(digits_value(s))
    } else {
        None::<int>
    };
    match v {
        Some(n) => if i64::MIN <= n <= i64::MAX {
            Some(n as i64)
        } else {
            None
        },
        None => None,
    }
}

/// Relies on `str::parse::<i64>`, documented to accept an optional `+` or
/// `-` followed by decimal digits, and to fail on anything else and on
/// values out of range.
#[verifier::external_body]
fn parse_i64(s: &str) -> (r: Option<i64>)
    ensures
        r == i64_of(s@),
{
    s.parse::<i64>().ok()
}

/// The condition of one element of a search string, if it has one: a key
/// that is not a valid path is dropped; a value that is an integer is
/// matched as one, any other as a substring; free text is searched for in
/// the whole document.
pub open spec fn element_pred(e: QueryElementV) -> Option<PredicateV> {
    match e {
        QueryElementV::KeyVal(k, v) => if !is_valid_path(k) {
            None
        } else {
            match i64_of(v) {
                Some(n) => Some(PredicateV::JsonEq(k, SqlValueV::Int(n as int))),
                None => Some(PredicateV::JsonLike(k, like_pattern(v))),
            }
        },
        QueryElementV::Text(t) => Some(PredicateV::SourceLike(like_pattern(t))),
    }
}

/// The conditions of a list of search elements, in order.
pub open spec fn element_preds(es: Seq<QueryElementV>) -> Seq<PredicateV>
    decreases es.len(),
{
    if es.len() == 0 {
        Seq::empty()
    } else {
        let rest = element_preds(es.drop_last());
        match element_pred(es.last()) {
            Some(p) => rest.push(p),
            None => rest,
        }
    }
}

/// The conditions of an optional search string.
pub open spec fn query_preds(q: Option<String>, limit: nat) -> Seq<PredicateV> {
    match q {
        Some(t) => element_preds(parse_spec(t@, limit)),
        None => Seq::empty(),
    }
}

/// The conditions that the tags of an alert listing add: `archived`,
/// `-archived` and `escalated` select on the flags; other tags are ignored.
pub open spec fn tag_preds(tags: Seq<Seq<char>>) -> Seq<PredicateV>
    decreases tags.len(),
{
    if tags.len() == 0 {
        Seq::empty()
    } else {
        let rest = tag_preds(tags.drop_last());
        let t = tags.last();
        if t == "archived"@ {
            rest.push(PredicateV::FlagIs(Flag::Archived, true))
        } else if t == "-archived"@ {
            rest.push(PredicateV::FlagIs(Flag::Archived, false))
        } else if t == "escalated"@ {
            rest.push(PredicateV::FlagIs(Flag::Escalated, true))
        } else {
            rest
        }
    }
}

pub open spec fn alert_query_preds(o: AlertQueryOptions) -> Seq<PredicateV> {
    let gte = match o.timestamp_gte {
        Some(n) => seq![PredicateV::TimestampGte(n as int)],
        None => Seq::empty(),
    };
    seq![PredicateV::JsonEq("event_type"@, SqlValueV::Text("alert"@))] + tag_preds(
        strings_view(o.tags@),
    ) + gte + query_preds(o.query_string, ALERT_QUERY_STRING_LIMIT as nat)
}

/// The alert listing: per (signature, source, destination) the size of the
/// group, its oldest timestamp and its number of escalated events, joined
/// to its newest event; newest groups first.
pub open spec fn alert_query_head() -> Seq<char> {
    "SELECT b.count, a.rowid AS id, b.mints AS mints, b.escalated_count, a.archived, a.source FROM events a INNER JOIN (SELECT events.rowid, count(json_extract(events.source, '$.alert.signature_id')) AS count, min(timestamp) AS mints, max(timestamp) AS maxts, sum(escalated) AS escalated_count FROM events WHERE "@
}

pub open spec fn alert_query_tail() -> Seq<char> {
    " GROUP BY json_extract(events.source, '$.alert.signature_id'), json_extract(events.source, '$.src_ip'), json_extract(events.source, '$.dest_ip')) AS b WHERE a.rowid = b.rowid AND a.timestamp = b.maxts ORDER BY timestamp DESC"@
}

/// Whether an order names ascending order.
pub open spec fn is_ascending(order: Option<String>) -> bool {
    match order {
        Some(o) => o@ == "asc"@ || o@ == "ASC"@,
        None => false,
    }
}

pub open spec fn event_query_preds(p: EventQueryParams) -> Seq<PredicateV> {
    let et = match p.event_type {
        Some(t) => seq![PredicateV::JsonEq("event_type"@, SqlValueV::Text(t@))],
        None => Seq::empty(),
    };
    let max = match p.max_timestamp {
        Some(n) => seq![PredicateV::TimestampLte(n as int)],
        None => Seq::empty(),
    };
    let min = match p.min_timestamp {
        Some(n) => seq![PredicateV::TimestampGte(n as int)],
        None => Seq::empty(),
    };
    et + max + min + query_preds(p.query_string, EVENT_QUERY_STRING_LIMIT as nat)
}

/// The most events an event query returns.
pub open spec fn event_limit(p: EventQueryParams) -> int {
    let n = match p.size {
        Some(n) => n as int,
        None => DEFAULT_EVENT_LIMIT as int,
    };
    if n > i64::MAX {
        i64::MAX as int
    } else {
        n
    }
}

/// The event query: the events that meet the conditions, by timestamp,
/// newest first unless ascending order is asked for, at most the limit.
pub open spec fn event_query_sql(p: EventQueryParams) -> Seq<char> {
    let preds = event_query_preds(p);
    "SELECT events.rowid AS id, events.archived AS archived, events.escalated AS escalated, events.source AS source FROM events"@
        + if preds.len() > 0 {
        " WHERE "@ + where_text(preds)
    } else {
        Seq::empty()
    } + " ORDER BY events.timestamp "@ + if is_ascending(p.order) {
        "ASC"@
    } else {
        "DESC"@
    } + " LIMIT ?"@
}

/// The conditions that select the alerts of a group whose flag `f` is not
/// yet `value`, within the window `[min, max]` in nanoseconds.
pub open spec fn alert_group_preds(
    g: AlertGroupSpecV,
    f: Flag,
    value: bool,
    min: i64,
    max: i64,
) -> Seq<PredicateV> {
    seq![
        PredicateV::JsonEq("event_type"@, SqlValueV::Text("alert"@)),
        PredicateV::FlagIs(f, !value),
        PredicateV::JsonEq("alert.signature_id"@, SqlValueV::Int((g.signature_id as i64) as int)),
        PredicateV::JsonEq("src_ip"@, SqlValueV::Text(g.src_ip)),
        PredicateV::JsonEq("dest_ip"@, SqlValueV::Text(g.dest_ip)),
        PredicateV::TimestampGte(min as int),
        PredicateV::TimestampLte(max as int),
    ]
}

/// `UPDATE events SET <flag> = <value> WHERE `
pub open spec fn update_head(f: Flag, value: bool) -> Seq<char> {
    "UPDATE events SET "@ + flag_column(f) + if value {
        " = 1 WHERE "@
    } else {
        " = 0 WHERE "@
    }
}

/// The tags that the relational store adds to a document for its flags.
pub open spec fn flag_tags(archived: bool, escalated: bool) -> Seq<JsonV> {
    (if archived {
        seq![jstr("archived"@), jstr("evebox.archived"@)]
    } else {
        Seq::empty()
    }) + if escalated {
        seq![jstr("escalated"@), jstr("evebox.escalated"@)]
    } else {
        Seq::empty()
    }
}

/// A document with the tags of its flags added to its `tags` list (which
/// is created when missing; a `tags` that is not a list is left as it is).
pub open spec fn with_flag_tags(doc: JsonV, archived: bool, escalated: bool) -> JsonV {
    match jget(doc, "tags"@) {
        JsonV::Null => jset(doc, "tags"@, JsonV::Array(flag_tags(archived, escalated))),
        JsonV::Array(a) => jset(doc, "tags"@, JsonV::Array(a + flag_tags(archived, escalated))),
        _ => doc,
    }
}

/// A document with its `timestamp` copied to `@timestamp`, when it has one.
pub open spec fn with_search_timestamp(doc: JsonV) -> JsonV {
    if jget(doc, "timestamp"@) != JsonV::Null {
        jset(doc, "@timestamp"@, jget(doc, "timestamp"@))
    } else {
        doc
    }
}

/// An event as a query returns it: its id and its document with the tags
/// of its flags.
pub open spec fn event_row_v(id: i64, archived: bool, escalated: bool, source: JsonV) -> JsonV {
    obj2("_id"@, JsonV::Int(id as int), "_source"@, with_flag_tags(source, archived, escalated))
}

/// The derivative of two successive samples of a counter: their difference,
/// or the later sample itself when the counter went back (it was reset).
pub open spec fn deriv_value(previous: u64, current: u64) -> u64 {
    if previous <= current {
        (current - previous) as u64
    } else {
        current
    }
}

/// Whether a query that failed with `message` after `tries` retries is tried
/// again: only on a locked database, and at most the retry limit times.
pub open spec fn retry_query_spec(tries: u32, message: Seq<char>) -> bool {
    tries < QUERY_RETRY_LIMIT && exists|i: int| occurs_at(message, "lock"@, i)
}

/// Whether a write that failed `elapsed_millis` after its first try is tried
/// again.
pub open spec fn retry_execute_spec(elapsed_millis: u64) -> bool {
    elapsed_millis <= EXECUTE_RETRY_MILLIS
}

fn clone_value(v: &SqlValue) -> (r: SqlValue)
    ensures
        r@ == v@,
{
    match v {
        SqlValue::Int(n) => SqlValue::Int(*n),
        SqlValue::Text(t) => SqlValue::Text(t.clone()),
    }
}

fn is_path_char_exec(c: char) -> (r: bool)
    ensures
        r == is_path_char(c),
{
    ('a' <= c && c <= 'z') || ('A' <= c && c <= 'Z') || ('0' <= c && c <= '9') || c == '_' || c
        == '.'
}

/// Whether `p` may be written into a statement as a JSON path.
pub fn is_valid_path_exec(p: &str) -> (r: bool)
    ensures
        r == is_valid_path(p@),
{
    let n = p.unicode_len();
    if n == 0 {
        return false;
    }
    let mut i: usize = 0;
    while i < n
        invariant
            n == p@.len(),
            i <= n,
            forall|j: int| 0 <= j < i ==> is_path_char(#[trigger] p@[j]),
        decreases n - i,
    {
        if !is_path_char_exec(p.get_char(i)) {
            return false;
        }
        i += 1;
    }
    true
}

fn json_path_text(path: &str) -> (r: String)
    ensures
        r@ == json_path_expr(path@),
{
    concat3("json_extract(events.source, '$.", path, "')")
}

/// The text of a condition.
pub fn predicate_text(p: &Predicate) -> (r: String)
    ensures
        r@ == pred_text(p@),
{
    match p {
        Predicate::JsonEq(path, _) => {
            let mut t = json_path_text(path.as_str());
            t.append(" = ?");
            t
        },
        Predicate::JsonLike(path, _) => {
            let mut t = json_path_text(path.as_str());
            t.append(" LIKE ?");
            t
        },
        Predicate::SourceLike(_) => String::from_str("events.source LIKE ?"),
        Predicate::FlagIs(Flag::Archived, _) => concat2("archived", " = ?"),
        Predicate::FlagIs(Flag::Escalated, _) => concat2("escalated", " = ?"),
        Predicate::TimestampGte(_) => String::from_str("timestamp >= ?"),
        Predicate::TimestampLte(_) => String::from_str("timestamp <= ?"),
    }
}

/// The parameter of a condition.
pub fn predicate_param(p: &Predicate) -> (r: SqlValue)
    ensures
        r@ == pred_param(p@),
{
    match p {
        Predicate::JsonEq(_, v) => clone_value(v),
        Predicate::JsonLike(_, l) => SqlValue::Text(l.clone()),
        Predicate::SourceLike(l) => SqlValue::Text(l.clone()),
        Predicate::FlagIs(_, b) => SqlValue::Int(
            if *b {
                1
            } else {
                0
            },
        ),
        Predicate::TimestampGte(n) => SqlValue::Int(*n),
        Predicate::TimestampLte(n) => SqlValue::Int(*n),
    }
}

/// Appends the conditions, joined by `AND`, to `sql` and their parameters
/// to `params`.
pub fn render_where(preds: &Vec<Predicate>, sql: &mut String, params: &mut Vec<SqlValue>)
    ensures
        final(sql)@ == old(sql)@ + where_text(preds_view(preds@)),
        values_view(final(params)@) == values_view(old(params)@) + where_params(
            preds_view(preds@),
        ),
{
    let ghost pv = preds_view(preds@);
    let ghost sql0 = sql@;
    let ghost params0 = values_view(params@);
    let mut i: usize = 0;
    assert(pv.take(0) =~= Seq::<PredicateV>::empty());
    assert(where_params(pv.take(0)) =~= Seq::<SqlValueV>::empty());
    assert(sql0 + where_text(pv.take(0)) =~= sql0);
    assert(params0 + where_params(pv.take(0)) =~= params0);
    while i < preds.len()
        invariant
            i <= preds@.len(),
            pv == preds_view(preds@),
            sql@ == sql0 + where_text(pv.take(i as int)),
            values_view(params@) == params0 + where_params(pv.take(i as int)),
        decreases preds.len() - i,
    {
        let ghost before = sql@;
        if i > 0 {
            sql.append(" AND ");
        }
        let t = predicate_text(&preds[i]);
        sql.append(t.as_str());
        let ghost vbefore = values_view(params@);
        params.push(predicate_param(&preds[i]));
        assert(values_view(params@) =~= vbefore.push(pred_param(pv[i as int])));
        assert(pv.take(i + 1).drop_last() =~= pv.take(i as int));
        if i == 0 {
            assert(where_text(pv.take(1)) == pred_text(pv.take(1)[0]));
        }
        assert(sql@ =~= sql0 + where_text(pv.take(i + 1)));
        assert(where_params(pv.take(i + 1)) =~= where_params(pv.take(i as int)).push(
            pred_param(pv[i as int]),
        ));
        assert(values_view(params@) =~= params0 + where_params(pv.take(i + 1)));
        i += 1;
    }
    assert(pv.take(i as int) =~= pv);
}

fn like(s: &str) -> (r: String)
    ensures
        r@ == like_pattern(s@),
{
    concat3("%", s, "%")
}

/// The condition of one element of a search string, if it has one.
pub fn element_predicate(e: &QueryElement) -> (r: Option<Predicate>)
    ensures
        match element_pred(e@) {
            Some(p) => r matches Some(q) && q@ == p,
            None => r is None,
        },
{
    match e {
        QueryElement::KeyVal(k, v) => {
            if !is_valid_path_exec(k.as_str()) {
                return None;
            }
            match parse_i64(v.as_str()) {
                Some(n) => Some(Predicate::JsonEq(k.clone(), SqlValue::Int(n))),
                None => Some(Predicate::JsonLike(k.clone(), like(v.as_str()))),
            }
        },
        QueryElement::Text(t) => Some(Predicate::SourceLike(like(t.as_str()))),
    }
}

/// Appends the conditions of the search string `q`, read up to `limit`
/// elements.
pub fn push_query_preds(preds: &mut Vec<Predicate>, q: &str, limit: usize)
    ensures
        preds_view(final(preds)@) == preds_view(old(preds)@) + element_preds(
            parse_spec(q@, limit as nat),
        ),
{
    let elements = parse_query(q, limit);
    let ghost ev = elements_view(elements@);
    let ghost start = preds_view(preds@);
    let mut i: usize = 0;
    assert(ev.take(0) =~= Seq::<QueryElementV>::empty());
    assert(start + element_preds(ev.take(0)) =~= start);
    while i < elements.len()
        invariant
            i <= elements@.len(),
            ev == elements_view(elements@),
            ev == parse_spec(q@, limit as nat),
            preds_view(preds@) == start + element_preds(ev.take(i as int)),
        decreases elements.len() - i,
    {
        assert(ev.take(i + 1).drop_last() =~= ev.take(i as int));
        assert(ev[i as int] == elements@[i as int]@);
        if let Some(p) = element_predicate(&elements[i]) {
            let ghost b = preds_view(preds@);
            preds.push(p);
            assert(preds_view(preds@) =~= b.push(p@));
            assert(start + element_preds(ev.take(i + 1)) =~= (start + element_preds(
                ev.take(i as int),
            )).push(p@));
        }
        i += 1;
    }
    assert(ev.take(i as int) =~= ev);
}

fn push_pred(preds: &mut Vec<Predicate>, p: Predicate)
    ensures
        preds_view(final(preds)@) == preds_view(old(preds)@).push(p@),
{
    preds.push(p);
    assert(preds_view(preds@) =~= preds_view(old(preds)@).push(p@));
}

fn push_opt_query_preds(preds: &mut Vec<Predicate>, q: &Option<String>, limit: usize)
    ensures
        preds_view(final(preds)@) == preds_view(old(preds)@) + query_preds(*q, limit as nat),
{
    match q {
        Some(t) => push_query_preds(preds, t.as_str(), limit),
        None => {
            assert(preds_view(preds@) =~= preds_view(preds@) + query_preds(*q, limit as nat));
        },
    }
}

/// A statement whose text is `head`, the conditions and `tail`.
fn statement(head: &str, preds: &Vec<Predicate>, tail: &str) -> (r: SqlStatement)
    ensures
        r.sql@ == head@ + where_text(preds_view(preds@)) + tail@,
        values_view(r.params@) == where_params(preds_view(preds@)),
{
    let mut sql = String::from_str(head);
    let mut params: Vec<SqlValue> = Vec::new();
    render_where(preds, &mut sql, &mut params);
    sql.append(tail);
    assert(values_view(Seq::<SqlValue>::empty()) + where_params(preds_view(preds@))
        =~= where_params(preds_view(preds@)));
    SqlStatement { sql, params }
}

/// The start of the alert listing statement.
fn alert_query_head_text() -> (r: &'static str)
    ensures
        r@ == alert_query_head(),
{
    "SELECT b.count, a.rowid AS id, b.mints AS mints, b.escalated_count, a.archived, a.source FROM events a INNER JOIN (SELECT events.rowid, count(json_extract(events.source, '$.alert.signature_id')) AS count, min(timestamp) AS mints, max(timestamp) AS maxts, sum(escalated) AS escalated_count FROM events WHERE "
}

/// The end of the alert listing statement.
fn alert_query_tail_text() -> (r: &'static str)
    ensures
        r@ == alert_query_tail(),
{
    " GROUP BY json_extract(events.source, '$.alert.signature_id'), json_extract(events.source, '$.src_ip'), json_extract(events.source, '$.dest_ip')) AS b WHERE a.rowid = b.rowid AND a.timestamp = b.maxts ORDER BY timestamp DESC"
}

impl SQLiteEventStore {
    /// The conditions of an alert listing.
    pub fn alert_query_predicates(options: &AlertQueryOptions) -> (r: Vec<Predicate>)
        ensures
            preds_view(r@) == alert_query_preds(*options),
    {
        let mut preds: Vec<Predicate> = Vec::new();
        push_pred(
            &mut preds,
            Predicate::JsonEq(String::from_str("event_type"), SqlValue::Text(String::from_str("alert"))),
        );
        let ghost base = preds_view(preds@);
        let ghost tags = strings_view(options.tags@);
        let mut i: usize = 0;
        assert(tags.take(0) =~= Seq::<Seq<char>>::empty());
        assert(base + tag_preds(tags.take(0)) =~= base);
        while i < options.tags.len()
            invariant
                i <= options.tags@.len(),
                tags == strings_view(options.tags@),
                preds_view(preds@) == base + tag_preds(tags.take(i as int)),
            decreases options.tags.len() - i,
        {
            let t = options.tags[i].as_str();
            assert(tags.take(i + 1).drop_last() =~= tags.take(i as int));
            assert(tags.take(i + 1).last() == t@);
            let ghost b = preds_view(preds@);
            if str_eq(t, "archived") {
                push_pred(&mut preds, Predicate::FlagIs(Flag::Archived, true));
            } else if str_eq(t, "-archived") {
                push_pred(&mut preds, Predicate::FlagIs(Flag::Archived, false));
            } else if str_eq(t, "escalated") {
                push_pred(&mut preds, Predicate::FlagIs(Flag::Escalated, true));
            }
            assert(base + tag_preds(tags.take(i + 1)) =~= preds_view(preds@));
            i += 1;
        }
        assert(tags.take(i as int) =~= tags);
        let ghost mid = preds_view(preds@);
        if let Some(ts) = options.timestamp_gte {
            push_pred(&mut preds, Predicate::TimestampGte(ts));
        }
        assert(preds_view(preds@) =~= mid + (match options.timestamp_gte {
            Some(n) => seq![PredicateV::TimestampGte(n as int)],
            None => Seq::empty(),
        }));
        push_opt_query_preds(&mut preds, &options.query_string, ALERT_QUERY_STRING_LIMIT);
        assert(preds_view(preds@) =~= alert_query_preds(*options));
        preds
    }

    /// The statement of the alert listing.
    pub fn alert_query(options: &AlertQueryOptions) -> (r: SqlStatement)
        ensures
            r.sql@ == alert_query_head() + where_text(alert_query_preds(*options))
                + alert_query_tail(),
            values_view(r.params@) == where_params(alert_query_preds(*options)),
    {
        let preds = Self::alert_query_predicates(options);
        statement(alert_query_head_text(), &preds, alert_query_tail_text())
    }

    /// The conditions of an event query.
    pub fn event_query_predicates(params: &EventQueryParams) -> (r: Vec<Predicate>)
        ensures
            preds_view(r@) == event_query_preds(*params),
    {
        let mut preds: Vec<Predicate> = Vec::new();
        if let Some(t) = &params.event_type {
            push_pred(
                &mut preds,
                Predicate::JsonEq(String::from_str("event_type"), SqlValue::Text(t.clone())),
            );
        }
        if let Some(n) = params.max_timestamp {
            push_pred(&mut preds, Predicate::TimestampLte(n));
        }
        if let Some(n) = params.min_timestamp {
            push_pred(&mut preds, Predicate::TimestampGte(n));
        }
        let ghost mid = preds_view(preds@);
        push_opt_query_preds(&mut preds, &params.query_string, EVENT_QUERY_STRING_LIMIT);
        assert(preds_view(preds@) =~= event_query_preds(*params));
        preds
    }

    /// The statement of an event query. Its last parameter is the limit.
    pub fn event_query(params: &EventQueryParams) -> (r: SqlStatement)
        ensures
            r.sql@ == event_query_sql(*params),
            values_view(r.params@) == where_params(event_query_preds(*params)).push(
                SqlValueV::Int(event_limit(*params)),
            ),
    {
        let preds = Self::event_query_predicates(params);
        let mut sql = String::from_str(
            "SELECT events.rowid AS id, events.archived AS archived, events.escalated AS escalated, events.source AS source FROM events",
        );
        let mut values: Vec<SqlValue> = Vec::new();
        let ghost head = sql@;
        if preds.len() > 0 {
            sql.append(" WHERE ");
        }
        render_where(&preds, &mut sql, &mut values);
        if preds.len() == 0 {
            assert(where_text(preds_view(preds@)) =~= Seq::<char>::empty());
        }
        sql.append(" ORDER BY events.timestamp ");
        let asc = match &params.order {
            Some(o) => str_eq(o.as_str(), "asc") || str_eq(o.as_str(), "ASC"),
            None => false,
        };
        if asc {
            sql.append("ASC");
        } else {
            sql.append("DESC");
        }
        sql.append(" LIMIT ?");
        let n: u64 = match params.size {
            Some(n) => n,
            None => DEFAULT_EVENT_LIMIT,
        };
        let limit: i64 = if n > 9223372036854775807 {
            9223372036854775807
        } else {
            n as i64
        };
        let ghost vb = values_view(values@);
        values.push(SqlValue::Int(limit));
        assert(values_view(values@) =~= vb.push(SqlValueV::Int(event_limit(*params))));
        assert(values_view(Seq::<SqlValue>::empty()) + where_params(preds_view(preds@))
            =~= where_params(preds_view(preds@)));
        assert(sql@ =~= event_query_sql(*params));
        SqlStatement { sql, params: values }
    }
}

/// The tags of the flags of a row.
fn flag_tag_list(archived: bool, escalated: bool) -> (r: Vec<Json>)
    ensures
        items_view(r@) == flag_tags(archived, escalated),
{
    let mut tags: Vec<Json> = Vec::new();
    if archived {
        push_item(&mut tags, json_str("archived"));
        push_item(&mut tags, json_str("evebox.archived"));
    }
    let ghost mid = items_view(tags@);
    if escalated {
        push_item(&mut tags, json_str("escalated"));
        push_item(&mut tags, json_str("evebox.escalated"));
    }
    assert(items_view(tags@) =~= flag_tags(archived, escalated));
    tags
}

/// The document of a row with the tags of its flags added.
pub fn add_flag_tags(doc: Json, archived: bool, escalated: bool) -> (r: Json)
    ensures
        r@ == with_flag_tags(doc@, archived, escalated),
{
    let extra = flag_tag_list(archived, escalated);
    let tags = match doc.get("tags") {
        Json::Null => Some(extra),
        Json::Array(a) => {
            let mut all: Vec<Json> = Vec::new();
            let mut i: usize = 0;
            proof {
                crate::json::lemma_items_view(a@);
            }
            assert(a@.take(0) =~= Seq::<Json>::empty());
            while i < a.len()
                invariant
                    i <= a@.len(),
                    items_view(all@) == items_view(a@.take(i as int)),
                decreases a.len() - i,
            {
                push_item(&mut all, a[i].deep_clone());
                assert(a@.take(i + 1).drop_last() =~= a@.take(i as int));
                i += 1;
            }
            assert(a@.take(i as int) =~= a@);
            let mut j: usize = 0;
            let ghost base = items_view(all@);
            assert(base + items_view(extra@.take(0)) =~= base);
            while j < extra.len()
                invariant
                    j <= extra@.len(),
                    items_view(all@) == base + items_view(extra@.take(j as int)),
                decreases extra.len() - j,
            {
                push_item(&mut all, extra[j].deep_clone());
                assert(extra@.take(j + 1).drop_last() =~= extra@.take(j as int));
                assert(base + items_view(extra@.take(j + 1)) =~= (base + items_view(
                    extra@.take(j as int),
                )).push(extra@[j as int]@));
                j += 1;
            }
            assert(extra@.take(j as int) =~= extra@);
            Some(all)
        },
        _ => None,
    };
    match tags {
        Some(t) => doc.with_member("tags", json_array(t)),
        None => doc,
    }
}

/// The document of a row with its `timestamp` also under `@timestamp`.
pub fn add_search_timestamp(doc: Json) -> (r: Json)
    ensures
        r@ == with_search_timestamp(doc@),
{
    let ts = doc.get("timestamp").deep_clone();
    if let Json::Null = ts {
        doc
    } else {
        doc.with_member("@timestamp", ts)
    }
}

/// An event as a lookup by id returns it.
pub fn event_row(id: i64, archived: bool, escalated: bool, source: Json) -> (r: Json)
    ensures
        r@ == event_row_v(id, archived, escalated, source@),
{
    object2("_id", Json::Int(id), "_source", add_flag_tags(source, archived, escalated))
}

/// An event as an event query returns it: as a lookup by id does, with its
/// `timestamp` also under `@timestamp`.
pub fn event_query_row(id: i64, archived: bool, escalated: bool, source: Json) -> (r: Json)
    ensures
        r@ == event_row_v(id, archived, escalated, with_search_timestamp(source@)),
{
    event_row(id, archived, escalated, add_search_timestamp(source))
}

/// One group of the alert listing, from its row: the group size, the id
/// and document of its newest event (tagged if archived), the timestamp of
/// its oldest event in nanoseconds, and its number of escalated events.
pub fn alert_row(count: i64, id: i64, min_ts: i64, escalated_count: i64, archived: bool, source: Json) -> (r: Json)
    ensures
        r@ == obj5(
            "count"@,
            JsonV::Int(count as int),
            "event"@,
            obj2("_id"@, JsonV::Int(id as int), "_source"@, with_flag_tags(source@, archived, false)),
            "minTs"@,
            jstr(rfc3339_millis_of(min_ts)),
            "maxTs"@,
            jget(with_flag_tags(source@, archived, false), "timestamp"@),
            "escalatedCount"@,
            JsonV::Int(escalated_count as int),
        ),
{
    let doc = add_flag_tags(source, archived, false);
    let max_ts = doc.get("timestamp").deep_clone();
    let min_text = format_timestamp(min_ts);
    object5(
        "count",
        Json::Int(count),
        "event",
        object2("_id", Json::Int(id), "_source", doc),
        "minTs",
        Json::Str(min_text),
        "maxTs",
        max_ts,
        "escalatedCount",
        Json::Int(escalated_count),
    )
}

/// The outcome of a change of one event by id that changed `n` rows: the
/// event is missing when none was.
pub fn by_id_result(n: usize) -> (r: Result<(), DatastoreError>)
    ensures
        n > 0 ==> r is Ok,
        n == 0 ==> r matches Err(DatastoreError::EventNotFound),
{
    if n == 0 {
        Err(DatastoreError::EventNotFound)
    } else {
        Ok(())
    }
}

/// Whether a query that failed with `message` after `tries` retries is tried
/// again.
pub fn retry_query(tries: u32, message: &str) -> (r: bool)
    ensures
        r == retry_query_spec(tries, message@),
{
    tries < QUERY_RETRY_LIMIT && contains(message, "lock")
}

/// Whether a write that failed `elapsed_millis` after its first try is tried
/// again.
pub fn retry_execute(elapsed_millis: u64) -> (r: bool)
    ensures
        r == retry_execute_spec(elapsed_millis),
{
    elapsed_millis <= EXECUTE_RETRY_MILLIS
}

/// The derivative of a series of (bucket, maximum) samples: for each sample
/// after the first, its bucket and its derivative from the one before.
pub fn stats_deriv(rows: &Vec<(u64, u64)>) -> (r: Vec<(u64, u64)>)
    ensures
        r@ == deriv_rows(rows@),
{
    let mut out: Vec<(u64, u64)> = Vec::new();
    let mut i: usize = 1;
    while i < rows.len()
        invariant
            1 <= i,
            rows@.len() > 0 ==> i <= rows@.len(),
            rows@.len() == 0 ==> i == 1,
            out@.len() == i - 1,
            forall|j: int|
                0 <= j < out@.len() ==> #[trigger] out@[j] == (
                    rows@[j + 1].0,
                    deriv_value(rows@[j].1, rows@[j + 1].1),
                ),
        decreases rows.len() - i,
    {
        let previous = rows[i - 1].1;
        let current = rows[i].1;
        let value = if previous <= current {
            current - previous
        } else {
            current
        };
        out.push((rows[i].0, value));
        i += 1;
    }
    assert(out@ =~= deriv_rows(rows@));
    out
}

/// The derivative of the maxima of a date histogram, one point per bucket:
/// the first bucket has no bucket before it and reports 0; each later one
/// reports its derivative from the one before.
pub open spec fn deriv_buckets(points: Seq<(Seq<char>, u64)>) -> Seq<(Seq<char>, u64)> {
    Seq::new(
        points.len(),
        |i: int|
            (
                points[i].0,
                if i == 0 {
                    0u64
                } else {
                    deriv_value(points[i - 1].1, points[i].1)
                },
            ),
    )
}

pub open spec fn points_view(points: Seq<(String, u64)>) -> Seq<(Seq<char>, u64)> {
    points.map_values(|p: (String, u64)| (p.0@, p.1))
}

/// The derivative of the maxima of a date histogram, keeping every bucket:
/// the first reports 0, and each later one the increase since the bucket
/// before, or its own maximum where the counter went back (it was reset),
/// with the same rule as `stats_deriv`.
pub fn stats_deriv_buckets(points: &Vec<(String, u64)>) -> (r: Vec<(String, u64)>)
    ensures
        points_view(r@) == deriv_buckets(points_view(points@)),
{
    let ghost pv = points_view(points@);
    let mut out: Vec<(String, u64)> = Vec::new();
    let mut i: usize = 0;
    while i < points.len()
        invariant
            i <= points@.len(),
            pv == points_view(points@),
            out@.len() == i,
            forall|j: int|
                0 <= j < out@.len() ==> (#[trigger] out@[j]).0@ == points@[j].0@ && out@[j].1 == (
                if j == 0 {
                    0u64
                } else {
                    deriv_value(points@[j - 1].1, points@[j].1)
                }),
        decreases points.len() - i,
    {
        let value: u64 = if i == 0 {
            0
        } else {
            let previous = points[i - 1].1;
            let current = points[i].1;
            if previous <= current {
                current - previous
            } else {
                current
            }
        };
        out.push((points[i].0.clone(), value));
        i += 1;
    }
    assert(points_view(out@) =~= deriv_buckets(pv));
    out
}

/// For each sample after the first: its bucket and its derivative from the
/// one before.
pub open spec fn deriv_rows(rows: Seq<(u64, u64)>) -> Seq<(u64, u64)> {
    Seq::new(
        (if rows.len() > 0 {
            rows.len() - 1
        } else {
            0
        }) as nat,
        |i: int| (rows[i + 1].0, deriv_value(rows[i].1, rows[i + 1].1)),
    )
}

/// The RFC 3339 text of the start of a bucket given in seconds.
pub open spec fn bucket_time(secs: u64) -> Option<Seq<char>> {
    rfc3339_of_unix_nanos(bucket_nanos(secs))
}

/// Whether every bucket of the rows has an RFC 3339 text.
pub open spec fn all_bucket_times(rows: Seq<(u64, u64)>) -> bool {
    forall|i: int| 0 <= i < rows.len() ==> (#[trigger] bucket_time(rows[i].0)) is Some
}

/// The (timestamp, value) points of the rows.
pub open spec fn stats_points_v(rows: Seq<(u64, u64)>) -> Seq<(Seq<char>, u64)> {
    Seq::new(rows.len(), |i: int| (bucket_time(rows[i].0)->Some_0, rows[i].1))
}

/// `{"data": [{"timestamp": t, "value": v}, ...]}`
pub open spec fn stats_json_v(points: Seq<(Seq<char>, u64)>) -> JsonV {
    obj1(
        "data"@,
        JsonV::Array(
            points.map_values(
                |p: (Seq<char>, u64)| obj2("timestamp"@, jstr(p.0), "value"@, JsonV::Int(p.1 as int)),
            ),
        ),
    )
}

/// The answer to a statistics query from its (timestamp, value) points.
pub fn stats_json(points: &Vec<(String, u64)>) -> (r: Json)
    ensures
        r@ == stats_json_v(points@.map_values(|p: (String, u64)| (p.0@, p.1))),
{
    let ghost pv = points@.map_values(|p: (String, u64)| (p.0@, p.1));
    let ghost f = |p: (Seq<char>, u64)| obj2("timestamp"@, jstr(p.0), "value"@, JsonV::Int(p.1 as int));
    let mut data: Vec<Json> = Vec::new();
    let mut i: usize = 0;
    assert(pv.take(0).map_values(f) =~= Seq::<JsonV>::empty());
    while i < points.len()
        invariant
            i <= points@.len(),
            pv == points@.map_values(|p: (String, u64)| (p.0@, p.1)),
            f == (|p: (Seq<char>, u64)| obj2("timestamp"@, jstr(p.0), "value"@, JsonV::Int(p.1 as int))),
            items_view(data@) == pv.take(i as int).map_values(f),
        decreases points.len() - i,
    {
        push_item(
            &mut data,
            object2("timestamp", json_str(points[i].0.as_str()), "value", Json::UInt(points[i].1)),
        );
        assert(pv.take(i + 1).map_values(f) =~= pv.take(i as int).map_values(f).push(f(pv[i as int])));
        i += 1;
    }
    assert(pv.take(i as int) =~= pv);
    object1("data", json_array(data))
}

/// The time of a bucket: its start in seconds, in nanoseconds.
pub open spec fn bucket_nanos(secs: u64) -> i128 {
    (secs as int * 1_000_000_000) as i128
}

/// Points of a statistics answer from (bucket, value) rows: each bucket's
/// start as RFC 3339 text; an error when one has none.
pub fn stats_points(rows: &Vec<(u64, u64)>) -> (r: Result<Vec<(String, u64)>, DatastoreError>)
    ensures
        all_bucket_times(rows@) ==> (r matches Ok(ps) && ps@.map_values(
            |p: (String, u64)| (p.0@, p.1),
        ) == stats_points_v(rows@)),
        !all_bucket_times(rows@) ==> r matches Err(DatastoreError::TimestampParseError(_)),
{
    let mut out: Vec<(String, u64)> = Vec::new();
    let mut i: usize = 0;
    while i < rows.len()
        invariant
            i <= rows@.len(),
            out@.len() == i,
            forall|j: int| 0 <= j < i ==> (#[trigger] bucket_time(rows@[j].0)) is Some,
            forall|j: int|
                0 <= j < i ==> Some(#[trigger] out@[j].0@) == bucket_time(rows@[j].0) && out@[j].1
                    == rows@[j].1,
        decreases rows.len() - i,
    {
        let nanos: i128 = rows[i].0 as i128 * 1_000_000_000;
        assert(nanos == bucket_nanos(rows@[i as int].0));
        match nanos_to_rfc3339(nanos) {
            Some(t) => {
                out.push((t, rows[i].1));
            },
            None => {
                assert(bucket_time(rows@[i as int].0) is None);
                return Err(DatastoreError::TimestampParseError(String::from_str("bucket time")));
            },
        }
        i += 1;
    }
    assert(out@.map_values(|p: (String, u64)| (p.0@, p.1)) =~= stats_points_v(rows@));
    Ok(out)
}

impl SQLiteEventStore {
    /// The statement that sets the flag `f` to `value` on the alerts of a
    /// group that do not have that value yet, between `min` and `max`
    /// nanoseconds. Any search string is not considered.
    pub fn alert_group_update_at(g: &AlertGroupSpec, f: Flag, value: bool, min: i64, max: i64) -> (r: SqlStatement)
        ensures
            r.sql@ == update_head(f, value) + where_text(alert_group_preds(g@, f, value, min, max)),
            values_view(r.params@) == where_params(alert_group_preds(g@, f, value, min, max)),
    {
        let mut preds: Vec<Predicate> = Vec::new();
        push_pred(&mut preds, Predicate::JsonEq(String::from_str("event_type"), SqlValue::Text(String::from_str("alert"))));
        push_pred(&mut preds, Predicate::FlagIs(f, !value));
        push_pred(&mut preds, Predicate::JsonEq(String::from_str("alert.signature_id"), SqlValue::Int(#[verifier::truncate] (g.signature_id as i64))));
        push_pred(&mut preds, Predicate::JsonEq(String::from_str("src_ip"), SqlValue::Text(g.src_ip.clone())));
        push_pred(&mut preds, Predicate::JsonEq(String::from_str("dest_ip"), SqlValue::Text(g.dest_ip.clone())));
        push_pred(&mut preds, Predicate::TimestampGte(min));
        push_pred(&mut preds, Predicate::TimestampLte(max));
        assert(preds_view(preds@) =~= alert_group_preds(g@, f, value, min, max));
        let column = match f {
            Flag::Archived => "archived",
            Flag::Escalated => "escalated",
        };
        let head = concat3("UPDATE events SET ", column, if value { " = 1 WHERE " } else { " = 0 WHERE " });
        let r = statement(head.as_str(), &preds, "");
        proof {
            reveal_strlit("");
        }
        assert(r.sql@ =~= update_head(f, value) + where_text(alert_group_preds(g@, f, value, min, max)));
        r
    }

    /// The statement that sets the flag `f` to `value` on the alerts of a
    /// group; an error when a bound of its window is not a timestamp.
    pub fn alert_group_update(g: &AlertGroupSpec, f: Flag, value: bool) -> (r: Result<SqlStatement, DatastoreError>)
        ensures
            match (eve_timestamp_nanos(g.min_timestamp@), eve_timestamp_nanos(g.max_timestamp@)) {
                (Some(min), Some(max)) => r matches Ok(st) && st.sql@ == update_head(f, value) + where_text(alert_group_preds(g@, f, value, min, max))
                    && values_view(st.params@) == where_params(alert_group_preds(g@, f, value, min, max)),
                _ => r matches Err(DatastoreError::TimestampParseError(_)),
            },
    {
        let min = match parse_eve_timestamp(g.min_timestamp.as_str()) {
            Some(n) => n,
            None => return Err(DatastoreError::TimestampParseError(g.min_timestamp.clone())),
        };
        let max = match parse_eve_timestamp(g.max_timestamp.as_str()) {
            Some(n) => n,
            None => return Err(DatastoreError::TimestampParseError(g.max_timestamp.clone())),
        };
        Ok(Self::alert_group_update_at(g, f, value, min, max))
    }

    /// Archives the alerts of a group.
    pub fn archive_by_alert_group(g: &AlertGroupSpec) -> (r: Result<SqlStatement, DatastoreError>)
        ensures
            match (eve_timestamp_nanos(g.min_timestamp@), eve_timestamp_nanos(g.max_timestamp@)) {
                (Some(min), Some(max)) => r matches Ok(st) && st.sql@ == update_head(Flag::Archived, true) + where_text(alert_group_preds(g@, Flag::Archived, true, min, max))
                    && values_view(st.params@) == where_params(alert_group_preds(g@, Flag::Archived, true, min, max)),
                _ => r matches Err(DatastoreError::TimestampParseError(_)),
            },
    {
        Self::alert_group_update(g, Flag::Archived, true)
    }

    /// Escalates the alerts of a group.
    pub fn escalate_by_alert_group(g: &AlertGroupSpec) -> (r: Result<SqlStatement, DatastoreError>)
        ensures
            match (eve_timestamp_nanos(g.min_timestamp@), eve_timestamp_nanos(g.max_timestamp@)) {
                (Some(min), Some(max)) => r matches Ok(st) && st.sql@ == update_head(Flag::Escalated, true) + where_text(alert_group_preds(g@, Flag::Escalated, true, min, max))
                    && values_view(st.params@) == where_params(alert_group_preds(g@, Flag::Escalated, true, min, max)),
                _ => r matches Err(DatastoreError::TimestampParseError(_)),
            },
    {
        Self::alert_group_update(g, Flag::Escalated, true)
    }

    /// De-escalates the alerts of a group.
    pub fn deescalate_by_alert_group(g: &AlertGroupSpec) -> (r: Result<SqlStatement, DatastoreError>)
        ensures
            match (eve_timestamp_nanos(g.min_timestamp@), eve_timestamp_nanos(g.max_timestamp@)) {
                (Some(min), Some(max)) => r matches Ok(st) && st.sql@ == update_head(Flag::Escalated, false) + where_text(alert_group_preds(g@, Flag::Escalated, false, min, max))
                    && values_view(st.params@) == where_params(alert_group_preds(g@, Flag::Escalated, false, min, max)),
                _ => r matches Err(DatastoreError::TimestampParseError(_)),
            },
    {
        Self::alert_group_update(g, Flag::Escalated, false)
    }

    /// The statement that sets the flag `f` to `value` on the event with
    /// this row id, whatever its flag was.
    pub fn event_update_by_id(event_id: &str, f: Flag, value: bool) -> (r: SqlStatement)
        ensures
            r.sql@ == update_head(f, value) + "rowid = ?"@,
            values_view(r.params@) == seq![SqlValueV::Text(event_id@)],
    {
        let column = match f {
            Flag::Archived => "archived",
            Flag::Escalated => "escalated",
        };
        let mut sql = concat3("UPDATE events SET ", column, if value { " = 1 WHERE " } else { " = 0 WHERE " });
        sql.append("rowid = ?");
        let mut params: Vec<SqlValue> = Vec::new();
        params.push(SqlValue::Text(String::from_str(event_id)));
        assert(values_view(params@) =~= seq![SqlValueV::Text(event_id@)]);
        SqlStatement { sql, params }
    }

    /// Archives the event with this row id.
    pub fn archive_event_by_id(event_id: &str) -> (r: SqlStatement)
        ensures
            r.sql@ == update_head(Flag::Archived, true) + "rowid = ?"@,
            values_view(r.params@) == seq![SqlValueV::Text(event_id@)],
    {
        Self::event_update_by_id(event_id, Flag::Archived, true)
    }

    /// Escalates the event with this row id.
    pub fn escalate_event_by_id(event_id: &str) -> (r: SqlStatement)
        ensures
            r.sql@ == update_head(Flag::Escalated, true) + "rowid = ?"@,
            values_view(r.params@) == seq![SqlValueV::Text(event_id@)],
    {
        Self::event_update_by_id(event_id, Flag::Escalated, true)
    }

    /// De-escalates the event with this row id.
    pub fn deescalate_event_by_id(event_id: &str) -> (r: SqlStatement)
        ensures
            r.sql@ == update_head(Flag::Escalated, false) + "rowid = ?"@,
            values_view(r.params@) == seq![SqlValueV::Text(event_id@)],
    {
        Self::event_update_by_id(event_id, Flag::Escalated, false)
    }

    /// The statement that reads the event with this row id.
    pub fn get_event_by_id(event_id: &str) -> (r: SqlStatement)
        ensures
            r.sql@ == "SELECT rowid, archived, escalated, source FROM events WHERE rowid = ?"@,
            values_view(r.params@) == seq![SqlValueV::Text(event_id@)],
    {
        let mut params: Vec<SqlValue> = Vec::new();
        params.push(SqlValue::Text(String::from_str(event_id)));
        assert(values_view(params@) =~= seq![SqlValueV::Text(event_id@)]);
        SqlStatement {
            sql: String::from_str("SELECT rowid, archived, escalated, source FROM events WHERE rowid = ?"),
            params,
        }
    }

    /// The statement that lists the sensors seen since `start` nanoseconds.
    pub fn get_sensors(start: i64) -> (r: SqlStatement)
        ensures
            r.sql@ == "SELECT DISTINCT json_extract(events.source, '$.host') FROM events WHERE timestamp >= ?"@,
            values_view(r.params@) == seq![SqlValueV::Int(start as int)],
    {
        let mut params: Vec<SqlValue> = Vec::new();
        params.push(SqlValue::Int(start));
        assert(values_view(params@) =~= seq![SqlValueV::Int(start as int)]);
        SqlStatement {
            sql: String::from_str("SELECT DISTINCT json_extract(events.source, '$.host') FROM events WHERE timestamp >= ?"),
            params,
        }
    }

    /// The statement of a statistics query: per bucket of `interval`
    /// seconds from the start time on, the bucket start in seconds and the
    /// maximum of the field over stats events, optionally of one sensor;
    /// buckets in order. The field path is bound as a parameter.
    pub fn get_stats(params: &StatsAggQueryParams) -> (r: SqlStatement)
        ensures
            r.sql@ == "SELECT (timestamp / 1000000000 / ?) * ? AS a, MAX(json_extract(events.source, ?)) FROM events WHERE json_extract(events.source, '$.event_type') = 'stats' AND timestamp >= ?"@
                + (if params.sensor_name is Some { " AND json_extract(events.source, '$.host') = ?"@ } else { Seq::empty() })
                + " GROUP BY a ORDER BY a"@,
            values_view(r.params@) == seq![
                SqlValueV::Int(sqlite_format_interval_spec(params.interval)),
                SqlValueV::Int(sqlite_format_interval_spec(params.interval)),
                SqlValueV::Text("$."@ + params.field@),
                SqlValueV::Int(params.start_time as int),
            ] + match params.sensor_name {
                Some(s) => seq![SqlValueV::Text(s@)],
                None => Seq::empty(),
            },
    {
        let interval = sqlite_format_interval(params.interval);
        let mut sql = String::from_str("SELECT (timestamp / 1000000000 / ?) * ? AS a, MAX(json_extract(events.source, ?)) FROM events WHERE json_extract(events.source, '$.event_type') = 'stats' AND timestamp >= ?");
        let mut values: Vec<SqlValue> = Vec::new();
        values.push(SqlValue::Int(interval));
        values.push(SqlValue::Int(interval));
        values.push(SqlValue::Text(concat2("$.", params.field.as_str())));
        values.push(SqlValue::Int(params.start_time));
        let ghost head = values_view(values@);
        if let Some(s) = &params.sensor_name {
            sql.append(" AND json_extract(events.source, '$.host') = ?");
            values.push(SqlValue::Text(s.clone()));
        }
        sql.append(" GROUP BY a ORDER BY a");
        assert(values_view(values@) =~= seq![
                SqlValueV::Int(sqlite_format_interval_spec(params.interval)),
                SqlValueV::Int(sqlite_format_interval_spec(params.interval)),
                SqlValueV::Text("$."@ + params.field@),
                SqlValueV::Int(params.start_time as int),
            ] + match params.sensor_name {
                Some(s) => seq![SqlValueV::Text(s@)],
                None => Seq::empty(),
            });
        SqlStatement { sql, params: values }
    }

    /// The answer to a statistics query from its (bucket, maximum) rows; an
    /// error when a bucket has no RFC 3339 text.
    pub fn stats_agg(rows: &Vec<(u64, u64)>) -> (r: Result<Json, DatastoreError>)
        ensures
            all_bucket_times(rows@) ==> (r matches Ok(j) && j@ == stats_json_v(
                stats_points_v(rows@),
            )),
            !all_bucket_times(rows@) ==> r is Err,
    {
        let points = stats_points(rows)?;
        Ok(stats_json(&points))
    }

    /// The derivative answer to a statistics query from its (bucket,
    /// maximum) rows: for each bucket after the first, the increase since
    /// the one before, or its own maximum where the counter went back.
    pub fn stats_agg_deriv(rows: &Vec<(u64, u64)>) -> (r: Result<Json, DatastoreError>)
        ensures
            all_bucket_times(deriv_rows(rows@)) ==> (r matches Ok(j) && j@ == stats_json_v(
                stats_points_v(deriv_rows(rows@)),
            )),
            !all_bucket_times(deriv_rows(rows@)) ==> r is Err,
    {
        let d = stats_deriv(rows);
        Self::stats_agg(&d)
    }
}

/// The interval of a statistics query in seconds.
pub open spec fn sqlite_format_interval_spec(secs: u64) -> int {
    if secs > i64::MAX as u64 {
        i64::MAX as int
    } else {
        secs as int
    }
}

/// The interval of a statistics query as a statement parameter.
pub fn sqlite_format_interval(secs: u64) -> (r: i64)
    ensures
        r as int == sqlite_format_interval_spec(secs),
{
    if secs > 9223372036854775807 {
        9223372036854775807
    } else {
        secs as i64
    }
}

/// The derivative of the statistics is never negative: where a sample is
/// smaller than the one before, the derivative is the later sample itself,
/// and otherwise the increase.
pub proof fn lemma_deriv_on_reset(rows: Seq<(u64, u64)>, i: int)
    requires
        0 <= i,
        i + 1 < rows.len(),
    ensures
        deriv_rows(rows)[i].0 == rows[i + 1].0,
        rows[i + 1].1 < rows[i].1 ==> deriv_rows(rows)[i].1 == rows[i + 1].1,
        rows[i].1 <= rows[i + 1].1 ==> deriv_rows(rows)[i].1 == rows[i + 1].1 - rows[i].1,
{
}

/// The search engine's derivative never reports a negative value either:
/// where a bucket's maximum is below the one before, it reports that
/// maximum; the first bucket reports 0.
pub proof fn lemma_deriv_buckets_on_reset(points: Seq<(Seq<char>, u64)>, i: int)
    requires
        0 <= i < points.len(),
    ensures
        deriv_buckets(points).len() == points.len(),
        deriv_buckets(points)[i].0 == points[i].0,
        i == 0 ==> deriv_buckets(points)[i].1 == 0,
        i > 0 && points[i].1 < points[i - 1].1 ==> deriv_buckets(points)[i].1 == points[i].1,
        i > 0 && points[i - 1].1 <= points[i].1 ==> deriv_buckets(points)[i].1 == points[i].1
            - points[i - 1].1,
{
}

} // verus!
