use vstd::prelude::*;

use crate::datastore::{
    AggParameters,
    DatastoreError,
    EventQueryParams,
    FlowHistogramParameters,
    HistogramInterval,
    HistogramParameters,
    StatsAggQueryParams,
};
use crate::json::{
    entries_view,
    items_view,
    jat,
    jset,
    lemma_items_view,
    jget,
    jitems,
    jstr,
    json_array,
    json_array1,
    json_opt_str,
    json_str,
    obj1,
    obj2,
    obj3,
    obj4,
    obj5,
    object1,
    object2,
    object3,
    object4,
    object5,
    push_item,
    Json,
    JsonV,
};
use crate::querystring::{
    elements_view,
    parse_query,
    parse_spec,
    QueryElement,
    QueryElementV,
};
use crate::text::{concat2, starts_with, str_eq};
use crate::text::{decimal, decimal_text};
use crate::timestamp::{format_timestamp, nanos_to_rfc3339, rfc3339_millis_of, rfc3339_of_unix_nanos};
use crate::workflow::{AlertGroupSpec, AlertGroupSpecV};

verus! {

/// The most elements read from a search string.
pub const QUERY_STRING_LIMIT: usize = 128;

/// The search-engine event store: where its events live and how their
/// fields are named.
#[derive(Clone, Debug)]
pub struct EventStore {
    pub base_index: String,
    pub index_pattern: String,
    pub ecs: bool,
    pub no_index_suffix: bool,
}

/// Where the search-engine importer writes events.
#[derive(Clone, Debug, PartialEq)]
pub struct Importer {
    pub base_index: String,
}

/// Options of the alert listing. `timestamp_gte` is in nanoseconds after the
/// Unix epoch; a tag `-t` excludes events tagged `t`.
#[derive(Clone, Debug, Default)]
pub struct AlertQueryOptions {
    pub query_string: Option<String>,
    pub timestamp_gte: Option<i64>,
    pub tags: Vec<String>,
}

/// The fields whose untokenized sibling `<name>.keyword` is used for exact
/// matches in the plain document layout.
pub open spec fn is_keyword_field(name: Seq<char>) -> bool {
    name == "alert.category"@ || name == "alert.signature"@ || name == "app_proto"@ || name
        == "dest_ip"@ || name == "dhcp.assigned_ip"@ || name == "dhcp.client_mac"@ || name
        == "dns.rrname"@ || name == "dns.rrtype"@ || name == "dns.rcode"@ || name == "dns.rdata"@
        || name == "host"@ || name == "src_ip"@ || name == "ssh.client.software_version"@ || name
        == "ssh.server.software_version"@ || name == "traffic.id"@ || name == "traffic.label"@
}

/// The physical name of the field `name`. In ECS mode a few fields are
/// renamed and every other one not already under `suricata` is moved under
/// `suricata.eve.`; in the plain layout the text fields that need an exact
/// match use their `.keyword` sibling.
pub open spec fn map_field_spec(ecs: bool, name: Seq<char>) -> Seq<char> {
    if ecs {
        if name == "dest_ip"@ {
            "destination.address"@
        } else if name == "dest_port"@ {
            "destination.port"@
        } else if name == "dns.rrname"@ {
            "dns.question.name"@
        } else if name == "dns.rrtype"@ {
            "dns.question.type"@
        } else if name == "dns.rcode"@ {
            "dns.response_code"@
        } else if name == "dns.type"@ {
            name
        } else if name == "src_ip"@ {
            "source.address"@
        } else if name == "src_port"@ {
            "source.port"@
        } else if "suricata"@.len() <= name.len() && name.subrange(0, "suricata"@.len() as int)
            == "suricata"@ {
            name
        } else {
            "suricata.eve."@ + name
        }
    } else if is_keyword_field(name) {
        name + ".keyword"@
    } else {
        name
    }
}

/// `{"term": {field: value}}`
pub open spec fn term_v(field: Seq<char>, value: JsonV) -> JsonV {
    obj1("term"@, obj1(field, value))
}

/// `{"exists": {"field": field}}`
pub open spec fn exists_v(field: Seq<char>) -> JsonV {
    obj1("exists"@, obj1("field"@, jstr(field)))
}

/// `{"range": {"@timestamp": {bound: ts}}}`
pub open spec fn timestamp_range_v(bound: Seq<char>, ts: Seq<char>) -> JsonV {
    obj1("range"@, obj1("@timestamp"@, obj1(bound, jstr(ts))))
}

/// `{"query_string": {"query": q, "default_operator": "AND"}}`
pub open spec fn query_string_v(q: Seq<char>) -> JsonV {
    obj1("query_string"@, obj2("query"@, jstr(q), "default_operator"@, jstr("AND"@)))
}

/// The filter of one element of a search string.
pub open spec fn element_filter(ecs: bool, e: QueryElementV) -> JsonV {
    match e {
        QueryElementV::KeyVal(k, v) => term_v(map_field_spec(ecs, k), jstr(v)),
        QueryElementV::Text(t) => query_string_v(t),
    }
}

/// The filters of a search string.
pub open spec fn query_string_filters(ecs: bool, q: Seq<char>) -> Seq<JsonV> {
    parse_spec(q, QUERY_STRING_LIMIT as nat).map_values(|e: QueryElementV| element_filter(ecs, e))
}

/// The filters that select the alerts of a group: alerts of the signature
/// from the source to the destination, in the time window.
pub open spec fn alert_group_filter_spec(ecs: bool, g: AlertGroupSpecV) -> Seq<JsonV> {
    seq![
        exists_v(map_field_spec(ecs, "event_type"@)),
        term_v(map_field_spec(ecs, "event_type"@), jstr("alert"@)),
        obj1(
            "range"@,
            obj1("@timestamp"@, obj2("gte"@, jstr(g.min_timestamp), "lte"@, jstr(g.max_timestamp))),
        ),
        term_v(map_field_spec(ecs, "src_ip"@), jstr(g.src_ip)),
        term_v(map_field_spec(ecs, "dest_ip"@), jstr(g.dest_ip)),
        term_v(map_field_spec(ecs, "alert.signature_id"@), JsonV::Int(g.signature_id as int)),
    ]
}

/// `[{field: {"order": order}}]`
pub open spec fn sort_v(field: Seq<char>, order: Seq<char>) -> JsonV {
    JsonV::Array(seq![obj1(field, obj1("order"@, jstr(order)))])
}

/// The single newest (`desc`) or oldest (`asc`) member of a bucket.
pub open spec fn top_hit_v(order: Seq<char>) -> JsonV {
    obj1("top_hits"@, obj2("size"@, JsonV::Int(1), "sort"@, sort_v("@timestamp"@, order)))
}

/// `{"field": field, "size": size}`
pub open spec fn terms_v(field: Seq<char>, size: int) -> JsonV {
    obj2("field"@, jstr(field), "size"@, JsonV::Int(size))
}

pub open spec fn is_negated_tag(t: Seq<char>) -> bool {
    t.len() > 0 && t[0] == '-'
}

/// `{"term": {"tags": t}}`
pub open spec fn tag_term_v(t: Seq<char>) -> JsonV {
    term_v("tags"@, jstr(t))
}

/// The filters that the tags of an alert listing require: the events must
/// carry each tag that is not negated (`escalated` meaning
/// `evebox.escalated`).
pub open spec fn tag_includes(tags: Seq<Seq<char>>) -> Seq<JsonV>
    decreases tags.len(),
{
    if tags.len() == 0 {
        Seq::empty()
    } else {
        let rest = tag_includes(tags.drop_last());
        let t = tags.last();
        if is_negated_tag(t) {
            rest
        } else if t == "escalated"@ {
            rest.push(tag_term_v("evebox.escalated"@))
        } else {
            rest.push(tag_term_v(t))
        }
    }
}

/// The filters that the tags of an alert listing exclude: the events must
/// not carry any negated tag (`-archived` meaning `evebox.archived`).
pub open spec fn tag_excludes(tags: Seq<Seq<char>>) -> Seq<JsonV>
    decreases tags.len(),
{
    if tags.len() == 0 {
        Seq::empty()
    } else {
        let rest = tag_excludes(tags.drop_last());
        let t = tags.last();
        if is_negated_tag(t) {
            if t.skip(1) == "archived"@ {
                rest.push(tag_term_v("evebox.archived"@))
            } else {
                rest.push(tag_term_v(t.skip(1)))
            }
        } else {
            rest
        }
    }
}

pub open spec fn strings_view(s: Seq<String>) -> Seq<Seq<char>> {
    s.map_values(|t: String| t@)
}

/// A filter list for an optional lower bound on the timestamp.
pub open spec fn gte_filters(ts: Option<i64>) -> Seq<JsonV> {
    match ts {
        Some(n) => seq![timestamp_range_v("gte"@, rfc3339_millis_of(n))],
        None => Seq::empty(),
    }
}

/// A filter list for an optional upper bound on the timestamp.
pub open spec fn lte_filters(ts: Option<i64>) -> Seq<JsonV> {
    match ts {
        Some(n) => seq![timestamp_range_v("lte"@, rfc3339_millis_of(n))],
        None => Seq::empty(),
    }
}

/// The filters of an optional search string.
pub open spec fn opt_query_filters(ecs: bool, q: Option<String>) -> Seq<JsonV> {
    match q {
        Some(t) => query_string_filters(ecs, t@),
        None => Seq::empty(),
    }
}

/// An optional exact match on a mapped field.
pub open spec fn opt_term_filters(ecs: bool, name: Seq<char>, v: Option<String>) -> Seq<JsonV> {
    match v {
        Some(t) => seq![term_v(map_field_spec(ecs, name), jstr(t@))],
        None => Seq::empty(),
    }
}

/// The three-level aggregation of the alert listing: by signature, source
/// and destination, each leaf with its escalated count and its newest and
/// oldest member.
pub open spec fn inbox_aggs_v(ecs: bool) -> JsonV {
    obj1(
        "signatures"@,
        obj2(
            "terms"@,
            terms_v(map_field_spec(ecs, "alert.signature_id"@), 2000),
            "aggs"@,
            obj1(
                "sources"@,
                obj2(
                    "terms"@,
                    terms_v(map_field_spec(ecs, "src_ip"@), 1000),
                    "aggs"@,
                    obj1(
                        "destinations"@,
                        obj2(
                            "terms"@,
                            terms_v(map_field_spec(ecs, "dest_ip"@), 500),
                            "aggs"@,
                            obj3(
                                "escalated"@,
                                obj1("filter"@, tag_term_v("evebox.escalated"@)),
                                "newest"@,
                                top_hit_v("desc"@),
                                "oldest"@,
                                top_hit_v("asc"@),
                            ),
                        ),
                    ),
                ),
            ),
        ),
    )
}

/// The body of the alert listing.
pub open spec fn inbox_query_spec(ecs: bool, o: AlertQueryOptions) -> JsonV {
    let filters = seq![
        exists_v(map_field_spec(ecs, "event_type"@)),
        term_v(map_field_spec(ecs, "event_type"@), jstr("alert"@)),
    ] + gte_filters(o.timestamp_gte) + opt_query_filters(ecs, o.query_string) + tag_includes(
        strings_view(o.tags@),
    );
    obj3(
        "query"@,
        obj1(
            "bool"@,
            obj2(
                "filter"@,
                JsonV::Array(filters),
                "must_not"@,
                JsonV::Array(tag_excludes(strings_view(o.tags@))),
            ),
        ),
        "sort"@,
        sort_v("@timestamp"@, "desc"@),
        "aggs"@,
        inbox_aggs_v(ecs),
    )
}

/// The body of an event query: events that have a type, of the type asked
/// for, matching the search string, in the time window; sorted by
/// `sort_by` (default `@timestamp`) in `order` (default `desc`); at most
/// `size` (default 500) of them.
pub open spec fn event_query_spec(ecs: bool, p: EventQueryParams) -> JsonV {
    let filters = seq![exists_v(map_field_spec(ecs, "event_type"@))] + opt_term_filters(
        ecs,
        "event_type"@,
        p.event_type,
    ) + opt_query_filters(ecs, p.query_string) + gte_filters(p.min_timestamp) + lte_filters(
        p.max_timestamp,
    );
    let sort_by = match p.sort_by {
        Some(s) => s@,
        None => "@timestamp"@,
    };
    let order = match p.order {
        Some(s) => s@,
        None => "desc"@,
    };
    let size = match p.size {
        Some(n) => n as int,
        None => 500,
    };
    obj3(
        "query"@,
        obj1("bool"@, obj1("filter"@, JsonV::Array(filters))),
        "sort"@,
        sort_v(sort_by, order),
        "size"@,
        JsonV::Int(size),
    )
}

/// The calendar interval of a histogram bucket.
pub open spec fn interval_text(i: Option<HistogramInterval>) -> Seq<char> {
    match i {
        Some(HistogramInterval::Minute) => "1m"@,
        Some(HistogramInterval::Hour) => "1h"@,
        Some(HistogramInterval::Day) => "1d"@,
        None => "1h"@,
    }
}

/// The name of the interval of a date histogram: it changed with major
/// version 7 of the search engine.
pub open spec fn calendar_interval_key(major_version: u64) -> Seq<char> {
    if major_version < 7 {
        "interval"@
    } else {
        "calendar_interval"@
    }
}

/// The bound of the histogram that a timestamp gives, or null.
pub open spec fn bound_v(ts: Option<i64>) -> JsonV {
    match ts {
        Some(n) => jstr(rfc3339_millis_of(n)),
        None => JsonV::Null,
    }
}

/// The filters of a histogram.
pub open spec fn histogram_filters(ecs: bool, p: HistogramParameters) -> Seq<JsonV> {
    let sensor = match p.sensor_name {
        Some(s) => if !ecs && s@.len() > 0 {
            seq![term_v(map_field_spec(ecs, "host"@), jstr(s@))]
        } else {
            Seq::empty()
        },
        None => Seq::empty(),
    };
    seq![exists_v(map_field_spec(ecs, "event_type"@))] + gte_filters(p.min_timestamp)
        + lte_filters(p.max_timestamp) + opt_term_filters(ecs, "event_type"@, p.event_type)
        + opt_term_filters(ecs, "dns.type"@, p.dns_type) + opt_query_filters(ecs, p.query_string)
        + sensor
}

/// The alternatives of an address filter: the address as source or as
/// destination.
pub open spec fn address_should(ecs: bool, a: Option<String>) -> Seq<JsonV> {
    match a {
        Some(t) => seq![
            term_v(map_field_spec(ecs, "src_ip"@), jstr(t@)),
            term_v(map_field_spec(ecs, "dest_ip"@), jstr(t@)),
        ],
        None => Seq::empty(),
    }
}

pub open spec fn min_should_match(a: Option<String>) -> int {
    if a is Some {
        1
    } else {
        0
    }
}

/// The body of an event histogram: events over time in buckets of the
/// interval, empty buckets included over the whole window, stats events
/// left out.
pub open spec fn histogram_spec(ecs: bool, p: HistogramParameters, major_version: u64) -> JsonV {
    let events_over_time = obj1(
        "date_histogram"@,
        obj4(
            "field"@,
            jstr("@timestamp"@),
            calendar_interval_key(major_version),
            jstr(interval_text(p.interval)),
            "min_doc_count"@,
            JsonV::Int(0),
            "extended_bounds"@,
            obj2("max"@, bound_v(p.max_timestamp), "min"@, bound_v(p.min_timestamp)),
        ),
    );
    obj4(
        "query"@,
        obj1(
            "bool"@,
            obj4(
                "filter"@,
                JsonV::Array(histogram_filters(ecs, p)),
                "must_not"@,
                JsonV::Array(seq![term_v(map_field_spec(ecs, "event_type"@), jstr("stats"@))]),
                "should"@,
                JsonV::Array(address_should(ecs, p.address_filter)),
                "minimum_should_match"@,
                JsonV::Int(min_should_match(p.address_filter)),
            ),
        ),
        "size"@,
        JsonV::Int(0),
        "sort"@,
        sort_v("@timestamp"@, "desc"@),
        "aggs"@,
        obj1("events_over_time"@, events_over_time),
    )
}

/// The body of a terms aggregation over the mapped field `p.agg`, with the
/// count of events that lack the field.
pub open spec fn agg_spec(ecs: bool, p: AggParameters) -> JsonV {
    let filters = seq![exists_v(map_field_spec(ecs, "event_type"@))] + opt_term_filters(
        ecs,
        "event_type"@,
        p.event_type,
    ) + opt_term_filters(ecs, "dns.type"@, p.dns_type) + gte_filters(p.min_timestamp)
        + opt_query_filters(ecs, p.query_string);
    let agg = map_field_spec(ecs, p.agg@);
    obj4(
        "query"@,
        obj1(
            "bool"@,
            obj3(
                "filter"@,
                JsonV::Array(filters),
                "should"@,
                JsonV::Array(address_should(ecs, p.address_filter)),
                "minimum_should_match"@,
                JsonV::Int(min_should_match(p.address_filter)),
            ),
        ),
        "size"@,
        JsonV::Int(0),
        "sort"@,
        sort_v("@timestamp"@, "desc"@),
        "aggs"@,
        obj2(
            "agg"@,
            obj1("terms"@, terms_v(agg, p.size as int)),
            "missing"@,
            obj1("missing"@, obj1("field"@, jstr(agg))),
        ),
    )
}

/// The body of a flow histogram: flows over time, each bucket split by
/// application protocol.
pub open spec fn flow_histogram_spec(ecs: bool, p: FlowHistogramParameters) -> JsonV {
    let filters = seq![
        term_v(map_field_spec(ecs, "event_type"@), jstr("flow"@)),
        exists_v(map_field_spec(ecs, "event_type"@)),
    ] + gte_filters(p.mints) + opt_query_filters(ecs, p.query_string);
    let interval = match p.interval {
        Some(i) => jstr(i@),
        None => JsonV::Null,
    };
    obj3(
        "query"@,
        obj1("bool"@, obj1("filter"@, JsonV::Array(filters))),
        "sort"@,
        sort_v("@timestamp"@, "desc"@),
        "aggs"@,
        obj1(
            "histogram"@,
            obj2(
                "aggs"@,
                obj1(
                    "app_proto"@,
                    obj1("terms"@, obj1("field"@, jstr(map_field_spec(ecs, "app_proto"@)))),
                ),
                "date_histogram"@,
                obj2("field"@, jstr("@timestamp"@), "interval"@, interval),
            ),
        ),
    )
}

/// The interval of a statistics histogram: whole seconds below a minute,
/// whole minutes from a minute on.
pub open spec fn format_interval_spec(secs: u64) -> Seq<char> {
    if secs < 60 {
        decimal_text(secs as nat) + "s"@
    } else {
        decimal_text((secs / 60) as nat) + "m"@
    }
}

/// The name of the fixed interval of a date histogram before and from major
/// version 7.
pub open spec fn fixed_interval_key(major_version: u64) -> Seq<char> {
    if major_version < 7 {
        "interval"@
    } else {
        "fixed_interval"@
    }
}

/// The body of a statistics query: the maximum of the mapped field per
/// interval, over stats events from `start` on, optionally of one sensor.
/// The plain statistics name their metric `memuse` and match the sensor on
/// the unmapped `host`; the statistics for a derivative name it `values`
/// and match the mapped `host`. The derivative itself is taken from these
/// maxima with `stats_deriv_buckets`, so that a counter reset reports the
/// later maximum rather than a negative difference.
pub open spec fn stats_spec(
    ecs: bool,
    p: StatsAggQueryParams,
    major_version: u64,
    start: Seq<char>,
    deriv: bool,
) -> JsonV {
    let sensor = match p.sensor_name {
        Some(s) => seq![
            term_v(
                if deriv {
                    map_field_spec(ecs, "host"@)
                } else {
                    "host"@
                },
                jstr(s@),
            ),
        ],
        None => Seq::empty(),
    };
    let filters = seq![
        term_v(map_field_spec(ecs, "event_type"@), jstr("stats"@)),
        timestamp_range_v("gte"@, start),
    ] + sensor;
    let max = obj1("max"@, obj1("field"@, jstr(map_field_spec(ecs, p.field@))));
    let metrics = if deriv {
        obj1("values"@, max)
    } else {
        obj1("memuse"@, max)
    };
    obj4(
        "query"@,
        obj1("bool"@, obj1("filter"@, JsonV::Array(filters))),
        "size"@,
        JsonV::Int(0),
        "sort"@,
        sort_v("@timestamp"@, "asc"@),
        "aggs"@,
        obj1(
            "histogram"@,
            obj2(
                "date_histogram"@,
                obj2(
                    "field"@,
                    jstr("@timestamp"@),
                    fixed_interval_key(major_version),
                    jstr(format_interval_spec(p.interval)),
                ),
                "aggs"@,
                metrics,
            ),
        ),
    )
}

/// `{"bool": {"filter": {"term": {"_id": id}}}}`: the event with this id.
pub open spec fn id_query_v(id: Seq<char>) -> JsonV {
    obj1("bool"@, obj1("filter"@, term_v("_id"@, jstr(id))))
}

/// `v[k1][k2][k3]`
pub open spec fn jpath3(v: JsonV, k1: Seq<char>, k2: Seq<char>, k3: Seq<char>) -> JsonV {
    jget(jget(jget(v, k1), k2), k3)
}

/// One bucket of an event histogram.
pub open spec fn histogram_entry_v(b: JsonV) -> JsonV {
    obj3(
        "key"@,
        jget(b, "key"@),
        "count"@,
        jget(b, "doc_count"@),
        "key_as_string"@,
        jget(b, "key_as_string"@),
    )
}

/// The histogram of a response: one entry per bucket, in order.
pub open spec fn histogram_response_spec(resp: JsonV) -> JsonV {
    obj1(
        "data"@,
        JsonV::Array(
            jitems(jpath3(resp, "aggregations"@, "events_over_time"@, "buckets"@)).map_values(
                |b: JsonV| histogram_entry_v(b),
            ),
        ),
    )
}

/// One bucket of a terms aggregation.
pub open spec fn agg_entry_v(b: JsonV) -> JsonV {
    obj2("key"@, jget(b, "key"@), "count"@, jget(b, "doc_count"@))
}

/// The buckets of a terms aggregation response, in order.
pub open spec fn agg_response_spec(resp: JsonV) -> JsonV {
    obj1(
        "data"@,
        JsonV::Array(
            jitems(jpath3(resp, "aggregations"@, "agg"@, "buckets"@)).map_values(
                |b: JsonV| agg_entry_v(b),
            ),
        ),
    )
}

/// Whether `v` is a number that fits a `u64`.
pub open spec fn is_u64(v: JsonV) -> bool {
    v is Int && 0 <= v->Int_0 <= u64::MAX
}

/// The object of protocol counts of a flow bucket: for each sub-bucket with
/// a text key and an unsigned count, `key: count`.
pub open spec fn app_proto_counts(a: Seq<JsonV>) -> JsonV
    decreases a.len(),
{
    if a.len() == 0 {
        JsonV::Object(Seq::empty())
    } else {
        let acc = app_proto_counts(a.drop_last());
        let x = a.last();
        if jget(x, "key"@) is Str && is_u64(jget(x, "doc_count"@)) {
            jset(acc, jget(x, "key"@)->Str_0, jget(x, "doc_count"@))
        } else {
            acc
        }
    }
}

/// One bucket of a flow histogram.
pub open spec fn flow_entry_v(b: JsonV) -> JsonV {
    let entry = obj2("key"@, jget(b, "key"@), "events"@, jget(b, "doc_count"@));
    let protos = jget(jget(b, "app_proto"@), "buckets"@);
    if protos is Array {
        jset(entry, "app_proto"@, app_proto_counts(protos->Array_0))
    } else {
        entry
    }
}

/// The flow histogram of a response.
pub open spec fn flow_histogram_response_spec(resp: JsonV) -> JsonV {
    obj1(
        "data"@,
        JsonV::Array(
            jitems(jpath3(resp, "aggregations"@, "histogram"@, "buckets"@)).map_values(
                |b: JsonV| flow_entry_v(b),
            ),
        ),
    )
}

/// The message of an error object, empty when it has none.
pub open spec fn reason_v(error: JsonV) -> Seq<char> {
    match jget(error, "reason"@) {
        JsonV::Str(m) => m,
        _ => Seq::empty(),
    }
}

/// One alert group of the listing: its size, its newest event, the number
/// of its escalated events and the timestamps of its newest and oldest.
pub open spec fn alert_record_v(b: JsonV) -> JsonV {
    let newest = jat(jpath3(b, "newest"@, "hits"@, "hits"@), 0);
    let oldest = jat(jpath3(b, "oldest"@, "hits"@, "hits"@), 0);
    obj5(
        "count"@,
        jget(b, "doc_count"@),
        "event"@,
        newest,
        "escalatedCount"@,
        jget(jget(b, "escalated"@), "doc_count"@),
        "maxTs"@,
        jget(jget(newest, "_source"@), "@timestamp"@),
        "minTs"@,
        jget(jget(oldest, "_source"@), "@timestamp"@),
    )
}

/// The alert groups under one source bucket.
pub open spec fn dest_alerts(source: JsonV) -> Seq<JsonV> {
    jitems(jget(jget(source, "destinations"@), "buckets"@)).map_values(|b: JsonV| alert_record_v(b))
}

/// The alert groups under a list of source buckets, in order.
pub open spec fn source_alerts(sources: Seq<JsonV>) -> Seq<JsonV>
    decreases sources.len(),
{
    if sources.len() == 0 {
        Seq::empty()
    } else {
        source_alerts(sources.drop_last()) + dest_alerts(sources.last())
    }
}

/// The alert groups under a list of signature buckets, in order.
pub open spec fn signature_alerts(sigs: Seq<JsonV>) -> Seq<JsonV>
    decreases sigs.len(),
{
    if sigs.len() == 0 {
        Seq::empty()
    } else {
        signature_alerts(sigs.drop_last()) + source_alerts(
            jitems(jget(jget(sigs.last(), "sources"@), "buckets"@)),
        )
    }
}

/// Formats a statistics interval of `secs` seconds.
pub fn elastic_format_interval(secs: u64) -> (r: String)
    ensures
        r@ == format_interval_spec(secs),
{
    if secs < 60 {
        let d = decimal(secs);
        concat2(d.as_str(), "s")
    } else {
        let d = decimal(secs / 60);
        concat2(d.as_str(), "m")
    }
}

/// The query that selects the event with this id.
pub fn id_query(id: &str) -> (r: Json)
    ensures
        r@ == id_query_v(id@),
{
    object1("bool", object1("filter", term_filter("_id", id)))
}

/// The message of an error object.
fn reason_of(error: &Json) -> (r: String)
    ensures
        r@ == reason_v(error@),
{
    match error.get("reason") {
        Json::Str(m) => m.clone(),
        _ => String::new(),
    }
}

/// One record of the alert listing.
fn alert_record(b: &Json) -> (r: Json)
    ensures
        r@ == alert_record_v(b@),
{
    let newest = b.get("newest").get("hits").get("hits").at(0);
    let oldest = b.get("oldest").get("hits").get("hits").at(0);
    object5(
        "count",
        b.get("doc_count").deep_clone(),
        "event",
        newest.deep_clone(),
        "escalatedCount",
        b.get("escalated").get("doc_count").deep_clone(),
        "maxTs",
        newest.get("_source").get("@timestamp").deep_clone(),
        "minTs",
        oldest.get("_source").get("@timestamp").deep_clone(),
    )
}

/// Appends the records of the destination buckets under a source bucket.
fn push_dest_alerts(out: &mut Vec<Json>, source: &Json)
    ensures
        items_view(final(out)@) == items_view(old(out)@) + dest_alerts(source@),
{
    let dests = source.get("destinations").get("buckets").items();
    let ghost dv = items_view(dests@);
    let ghost start = items_view(out@);
    proof {
        lemma_items_view(dests@);
    }
    let mut i: usize = 0;
    assert(start + dv.take(0).map_values(|b: JsonV| alert_record_v(b)) =~= start);
    while i < dests.len()
        invariant
            i <= dests@.len(),
            dv == items_view(dests@),
            dv.len() == dests@.len(),
            forall|j: int| 0 <= j < dests@.len() ==> #[trigger] dv[j] == dests@[j]@,
            items_view(out@) == start + dv.take(i as int).map_values(|b: JsonV| alert_record_v(b)),
        decreases dests.len() - i,
    {
        push_item(out, alert_record(&dests[i]));
        assert(start + dv.take(i + 1).map_values(|b: JsonV| alert_record_v(b)) =~= (start
            + dv.take(i as int).map_values(|b: JsonV| alert_record_v(b))).push(
            alert_record_v(dv[i as int]),
        ));
        i += 1;
    }
    assert(dv.take(i as int) =~= dv);
}

/// Appends the records of the source buckets under a signature bucket.
fn push_source_alerts(out: &mut Vec<Json>, sig: &Json)
    ensures
        items_view(final(out)@) == items_view(old(out)@) + source_alerts(
            jitems(jget(jget(sig@, "sources"@), "buckets"@)),
        ),
{
    let sources = sig.get("sources").get("buckets").items();
    let ghost sv = items_view(sources@);
    let ghost start = items_view(out@);
    proof {
        lemma_items_view(sources@);
    }
    let mut i: usize = 0;
    assert(sv.take(0) =~= Seq::<JsonV>::empty());
    assert(start + source_alerts(sv.take(0)) =~= start);
    while i < sources.len()
        invariant
            i <= sources@.len(),
            sv == items_view(sources@),
            sv.len() == sources@.len(),
            forall|j: int| 0 <= j < sources@.len() ==> #[trigger] sv[j] == sources@[j]@,
            items_view(out@) == start + source_alerts(sv.take(i as int)),
        decreases sources.len() - i,
    {
        push_dest_alerts(out, &sources[i]);
        assert(sv.take(i + 1).drop_last() =~= sv.take(i as int));
        assert(start + source_alerts(sv.take(i + 1)) =~= start + source_alerts(sv.take(i as int))
            + dest_alerts(sv[i as int]));
        i += 1;
    }
    assert(sv.take(i as int) =~= sv);
}

/// The histogram of a search response.
pub fn histogram_response(resp: &Json) -> (r: Json)
    ensures
        r@ == histogram_response_spec(resp@),
{
    let buckets = resp.get("aggregations").get("events_over_time").get("buckets").items();
    let ghost bv = items_view(buckets@);
    proof {
        lemma_items_view(buckets@);
    }
    let mut data: Vec<Json> = Vec::new();
    let mut i: usize = 0;
    assert(bv.take(0).map_values(|b: JsonV| histogram_entry_v(b)) =~= Seq::<JsonV>::empty());
    while i < buckets.len()
        invariant
            i <= buckets@.len(),
            bv == items_view(buckets@),
            bv.len() == buckets@.len(),
            forall|j: int| 0 <= j < buckets@.len() ==> #[trigger] bv[j] == buckets@[j]@,
            items_view(data@) == bv.take(i as int).map_values(|b: JsonV| histogram_entry_v(b)),
        decreases buckets.len() - i,
    {
        let b = &buckets[i];
        push_item(
            &mut data,
            object3(
                "key",
                b.get("key").deep_clone(),
                "count",
                b.get("doc_count").deep_clone(),
                "key_as_string",
                b.get("key_as_string").deep_clone(),
            ),
        );
        assert(bv.take(i + 1).map_values(|b: JsonV| histogram_entry_v(b)) =~= bv.take(
            i as int,
        ).map_values(|b: JsonV| histogram_entry_v(b)).push(histogram_entry_v(bv[i as int])));
        i += 1;
    }
    assert(bv.take(i as int) =~= bv);
    object1("data", json_array(data))
}

/// The buckets of a terms aggregation response.
pub fn agg_response(resp: &Json) -> (r: Json)
    ensures
        r@ == agg_response_spec(resp@),
{
    let buckets = resp.get("aggregations").get("agg").get("buckets").items();
    let ghost bv = items_view(buckets@);
    proof {
        lemma_items_view(buckets@);
    }
    let mut data: Vec<Json> = Vec::new();
    let mut i: usize = 0;
    assert(bv.take(0).map_values(|b: JsonV| agg_entry_v(b)) =~= Seq::<JsonV>::empty());
    while i < buckets.len()
        invariant
            i <= buckets@.len(),
            bv == items_view(buckets@),
            bv.len() == buckets@.len(),
            forall|j: int| 0 <= j < buckets@.len() ==> #[trigger] bv[j] == buckets@[j]@,
            items_view(data@) == bv.take(i as int).map_values(|b: JsonV| agg_entry_v(b)),
        decreases buckets.len() - i,
    {
        let b = &buckets[i];
        push_item(
            &mut data,
            object2("key", b.get("key").deep_clone(), "count", b.get("doc_count").deep_clone()),
        );
        assert(bv.take(i + 1).map_values(|b: JsonV| agg_entry_v(b)) =~= bv.take(
            i as int,
        ).map_values(|b: JsonV| agg_entry_v(b)).push(agg_entry_v(bv[i as int])));
        i += 1;
    }
    assert(bv.take(i as int) =~= bv);
    object1("data", json_array(data))
}

/// The unsigned value of a number, if it has one.
fn as_u64(v: &Json) -> (r: Option<u64>)
    ensures
        r is Some <==> is_u64(v@),
        r matches Some(n) ==> v@ == JsonV::Int(n as int),
{
    match v {
        Json::Int(n) => if *n >= 0 {
            Some(*n as u64)
        } else {
            None
        },
        Json::UInt(n) => Some(*n),
        _ => None,
    }
}

/// The protocol counts of the sub-buckets of a flow bucket.
fn app_proto_object(a: &[Json]) -> (r: Json)
    ensures
        r@ == app_proto_counts(items_view(a@)),
{
    let ghost av = items_view(a@);
    proof {
        lemma_items_view(a@);
    }
    let mut acc = Json::Object(Vec::new());
    let mut i: usize = 0;
    assert(av.take(0) =~= Seq::<JsonV>::empty());
    assert(entries_view(Seq::<(String, Json)>::empty()) =~= Seq::empty());
    while i < a.len()
        invariant
            i <= a@.len(),
            av == items_view(a@),
            av.len() == a@.len(),
            forall|j: int| 0 <= j < a@.len() ==> #[trigger] av[j] == a@[j]@,
            acc@ == app_proto_counts(av.take(i as int)),
        decreases a.len() - i,
    {
        let x = &a[i];
        assert(av.take(i + 1).drop_last() =~= av.take(i as int));
        if let Json::Str(k) = x.get("key") {
            if let Some(n) = as_u64(x.get("doc_count")) {
                acc = acc.with_member(k.as_str(), Json::UInt(n));
            }
        }
        i += 1;
    }
    assert(av.take(i as int) =~= av);
    acc
}

/// One bucket of a flow histogram.
fn flow_entry(b: &Json) -> (r: Json)
    ensures
        r@ == flow_entry_v(b@),
{
    let entry = object2("key", b.get("key").deep_clone(), "events", b.get("doc_count").deep_clone());
    match b.get("app_proto").get("buckets") {
        Json::Array(a) => entry.with_member("app_proto", app_proto_object(a.as_slice())),
        _ => entry,
    }
}

/// The flow histogram of a search response.
pub fn flow_histogram_response(resp: &Json) -> (r: Json)
    ensures
        r@ == flow_histogram_response_spec(resp@),
{
    let buckets = resp.get("aggregations").get("histogram").get("buckets").items();
    let ghost bv = items_view(buckets@);
    proof {
        lemma_items_view(buckets@);
    }
    let mut data: Vec<Json> = Vec::new();
    let mut i: usize = 0;
    assert(bv.take(0).map_values(|b: JsonV| flow_entry_v(b)) =~= Seq::<JsonV>::empty());
    while i < buckets.len()
        invariant
            i <= buckets@.len(),
            bv == items_view(buckets@),
            bv.len() == buckets@.len(),
            forall|j: int| 0 <= j < buckets@.len() ==> #[trigger] bv[j] == buckets@[j]@,
            items_view(data@) == bv.take(i as int).map_values(|b: JsonV| flow_entry_v(b)),
        decreases buckets.len() - i,
    {
        push_item(&mut data, flow_entry(&buckets[i]));
        assert(bv.take(i + 1).map_values(|b: JsonV| flow_entry_v(b)) =~= bv.take(
            i as int,
        ).map_values(|b: JsonV| flow_entry_v(b)).push(flow_entry_v(bv[i as int])));
        i += 1;
    }
    assert(bv.take(i as int) =~= bv);
    object1("data", json_array(data))
}

/// Whether every bucket has a text key.
pub open spec fn all_text_keys(bs: Seq<JsonV>) -> bool {
    forall|i: int| 0 <= i < bs.len() ==> (#[trigger] jget(bs[i], "key"@)) is Str
}

/// The sensors of a response: the text key of each bucket, in order; an
/// error when the buckets are missing or a key is not text.
pub fn get_sensors_response(resp: &Json) -> (r: Result<Vec<String>, DatastoreError>)
    ensures
        ({
            let b = jpath3(resp@, "aggregations"@, "sensors"@, "buckets"@);
            &&& (b is Array && all_text_keys(b->Array_0)) ==> (r matches Ok(v) && v@.len()
                == b->Array_0.len() && forall|i: int|
                0 <= i < v@.len() ==> jget(b->Array_0[i], "key"@) == jstr(#[trigger] v@[i]@))
            &&& !(b is Array && all_text_keys(b->Array_0)) ==> r is Err
        }),
{
    let ghost b = jpath3(resp@, "aggregations"@, "sensors"@, "buckets"@);
    match resp.get("aggregations").get("sensors").get("buckets") {
        Json::Array(a) => {
            proof {
                lemma_items_view(a@);
            }
            let ghost bv = items_view(a@);
            assert(b == JsonV::Array(bv));
            let mut out: Vec<String> = Vec::new();
            let mut i: usize = 0;
            while i < a.len()
                invariant
                    i <= a@.len(),
                    bv == items_view(a@),
                    b == JsonV::Array(bv),
                    b == jpath3(resp@, "aggregations"@, "sensors"@, "buckets"@),
                    bv.len() == a@.len(),
                    forall|j: int| 0 <= j < a@.len() ==> #[trigger] bv[j] == a@[j]@,
                    out@.len() == i,
                    forall|j: int| 0 <= j < i ==> (#[trigger] jget(bv[j], "key"@)) is Str,
                    forall|j: int| 0 <= j < i ==> jget(bv[j], "key"@) == jstr(#[trigger] out@[j]@),
                decreases a.len() - i,
            {
                match a[i].get("key") {
                    Json::Str(k) => out.push(k.clone()),
                    other => {
                        assert(bv[i as int] == a@[i as int]@);
                        assert(!(jget(bv[i as int], "key"@) is Str));
                        assert(!all_text_keys(bv));
                        return Err(DatastoreError::EventParseError);
                    },
                }
                i += 1;
            }
            Ok(out)
        },
        _ => Err(DatastoreError::EventParseError),
    }
}

/// The event of a lookup by id: an error when the response holds one, the
/// first hit when there is one, else none.
pub fn get_event_by_id_response(resp: &Json) -> (r: Result<Option<Json>, DatastoreError>)
    ensures
        jget(resp@, "error"@) != JsonV::Null ==> (r matches Err(DatastoreError::ElasticError(m))
            && m@ == reason_v(jget(resp@, "error"@))),
        jget(resp@, "error"@) == JsonV::Null ==> match jget(jget(resp@, "hits"@), "hits"@) {
            JsonV::Array(a) => if a.len() > 0 {
                r matches Ok(Some(e)) && e@ == a[0]
            } else {
                r matches Ok(None)
            },
            _ => r matches Ok(None),
        },
{
    let error = resp.get("error");
    if let Json::Null = error {
    } else {
        return Err(DatastoreError::ElasticError(reason_of(error)));
    }
    match resp.get("hits").get("hits") {
        Json::Array(a) => {
            proof {
                lemma_items_view(a@);
            }
            if a.len() > 0 {
                Ok(Some(a[0].deep_clone()))
            } else {
                Ok(None)
            }
        },
        _ => Ok(None),
    }
}

/// `{"term": {field: value}}`
pub fn term_filter(field: &str, value: &str) -> (r: Json)
    ensures
        r@ == term_v(field@, jstr(value@)),
{
    object1("term", object1(field, json_str(value)))
}

/// `{"exists": {"field": field}}`
pub fn exists_filter(field: &str) -> (r: Json)
    ensures
        r@ == exists_v(field@),
{
    object1("exists", object1("field", json_str(field)))
}

/// `{"range": {"@timestamp": {bound: ts}}}`
fn timestamp_range(bound: &str, ts: &str) -> (r: Json)
    ensures
        r@ == timestamp_range_v(bound@, ts@),
{
    object1("range", object1("@timestamp", object1(bound, json_str(ts))))
}

/// A filter on events at or after `nanos`.
pub fn timestamp_gte_filter(nanos: i64) -> (r: Json)
    ensures
        r@ == timestamp_range_v("gte"@, rfc3339_millis_of(nanos)),
{
    let ts = format_timestamp(nanos);
    timestamp_range("gte", ts.as_str())
}

/// A filter on events at or before `nanos`.
pub fn timestamp_lte_filter(nanos: i64) -> (r: Json)
    ensures
        r@ == timestamp_range_v("lte"@, rfc3339_millis_of(nanos)),
{
    let ts = format_timestamp(nanos);
    timestamp_range("lte", ts.as_str())
}

/// A free-text query.
pub fn query_string_query(q: &str) -> (r: Json)
    ensures
        r@ == query_string_v(q@),
{
    object1("query_string", object2("query", json_str(q), "default_operator", json_str("AND")))
}

/// `[{field: {"order": order}}]`
pub fn sort_by(field: &str, order: &str) -> (r: Json)
    ensures
        r@ == sort_v(field@, order@),
{
    json_array1(object1(field, object1("order", json_str(order))))
}

fn top_hit(order: &str) -> (r: Json)
    ensures
        r@ == top_hit_v(order@),
{
    object1("top_hits", object2("size", Json::UInt(1), "sort", sort_by("@timestamp", order)))
}

fn terms(field: &str, size: u64) -> (r: Json)
    ensures
        r@ == terms_v(field@, size as int),
{
    object2("field", json_str(field), "size", Json::UInt(size))
}

fn tag_term(t: &str) -> (r: Json)
    ensures
        r@ == tag_term_v(t@),
{
    term_filter("tags", t)
}

/// Appends the filter of an optional lower bound on the timestamp.
fn push_gte(filters: &mut Vec<Json>, ts: Option<i64>)
    ensures
        items_view(final(filters)@) == items_view(old(filters)@) + gte_filters(ts),
{
    if let Some(n) = ts {
        push_item(filters, timestamp_gte_filter(n));
        assert(items_view(filters@) =~= items_view(old(filters)@) + gte_filters(ts));
    } else {
        assert(items_view(filters@) =~= items_view(old(filters)@) + gte_filters(ts));
    }
}

/// Appends the filter of an optional upper bound on the timestamp.
fn push_lte(filters: &mut Vec<Json>, ts: Option<i64>)
    ensures
        items_view(final(filters)@) == items_view(old(filters)@) + lte_filters(ts),
{
    if let Some(n) = ts {
        push_item(filters, timestamp_lte_filter(n));
        assert(items_view(filters@) =~= items_view(old(filters)@) + lte_filters(ts));
    } else {
        assert(items_view(filters@) =~= items_view(old(filters)@) + lte_filters(ts));
    }
}

impl EventStore {
    /// Appends the filters of an optional search string.
    fn push_opt_query(&self, filters: &mut Vec<Json>, q: &Option<String>)
        ensures
            items_view(final(filters)@) == items_view(old(filters)@) + opt_query_filters(
                self.ecs,
                *q,
            ),
    {
        if let Some(t) = q {
            self.push_query_string_filters(filters, t.as_str());
        } else {
            assert(items_view(filters@) =~= items_view(old(filters)@) + opt_query_filters(
                self.ecs,
                *q,
            ));
        }
    }

    /// Appends an optional exact match on the mapped field `name`.
    fn push_opt_term(&self, filters: &mut Vec<Json>, name: &str, v: &Option<String>)
        ensures
            items_view(final(filters)@) == items_view(old(filters)@) + opt_term_filters(
                self.ecs,
                name@,
                *v,
            ),
    {
        if let Some(t) = v {
            push_item(filters, self.mapped_term(name, t.as_str()));
        }
        assert(items_view(filters@) =~= items_view(old(filters)@) + opt_term_filters(
            self.ecs,
            name@,
            *v,
        ));
    }

    /// The body of the alert listing.
    pub fn build_inbox_query(&self, options: &AlertQueryOptions) -> (r: Json)
        ensures
            r@ == inbox_query_spec(self.ecs, *options),
    {
        let mut filters: Vec<Json> = Vec::new();
        push_item(&mut filters, self.mapped_exists("event_type"));
        push_item(&mut filters, self.mapped_term("event_type", "alert"));
        let ghost head = items_view(filters@);
        push_gte(&mut filters, options.timestamp_gte);
        self.push_opt_query(&mut filters, &options.query_string);
        let ghost base = items_view(filters@);
        let ghost tags = strings_view(options.tags@);
        let mut must_not: Vec<Json> = Vec::new();
        let mut i: usize = 0;
        assert(tags.take(0) =~= Seq::<Seq<char>>::empty());
        assert(base + tag_includes(tags.take(0)) =~= base);
        while i < options.tags.len()
            invariant
                i <= options.tags@.len(),
                tags == strings_view(options.tags@),
                items_view(filters@) == base + tag_includes(tags.take(i as int)),
                items_view(must_not@) == tag_excludes(tags.take(i as int)),
            decreases options.tags.len() - i,
        {
            let t = options.tags[i].as_str();
            assert(tags.take(i + 1).drop_last() =~= tags.take(i as int));
            assert(tags.take(i + 1).last() == t@);
            let n = t.unicode_len();
            if n > 0 && t.get_char(0) == '-' {
                let rest = t.substring_char(1, n);
                assert(rest@ =~= t@.skip(1));
                if str_eq(rest, "archived") {
                    push_item(&mut must_not, tag_term("evebox.archived"));
                } else {
                    push_item(&mut must_not, tag_term(rest));
                }
            } else if str_eq(t, "escalated") {
                push_item(&mut filters, tag_term("evebox.escalated"));
                assert(base + tag_includes(tags.take(i + 1)) =~= (base + tag_includes(
                    tags.take(i as int),
                )).push(tag_term_v("evebox.escalated"@)));
            } else {
                push_item(&mut filters, tag_term(t));
                assert(base + tag_includes(tags.take(i + 1)) =~= (base + tag_includes(
                    tags.take(i as int),
                )).push(tag_term_v(t@)));
            }
            i += 1;
        }
        assert(tags.take(i as int) =~= tags);
        assert(items_view(filters@) =~= seq![
            exists_v(map_field_spec(self.ecs, "event_type"@)),
            term_v(map_field_spec(self.ecs, "event_type"@), jstr("alert"@)),
        ] + gte_filters(options.timestamp_gte) + opt_query_filters(self.ecs, options.query_string)
            + tag_includes(tags));
        let sig = self.map_field("alert.signature_id");
        let src = self.map_field("src_ip");
        let dest = self.map_field("dest_ip");
        let leaf = object3(
            "escalated",
            object1("filter", tag_term("evebox.escalated")),
            "newest",
            top_hit("desc"),
            "oldest",
            top_hit("asc"),
        );
        let dests = object1(
            "destinations",
            object2("terms", terms(dest.as_str(), 500), "aggs", leaf),
        );
        let sources = object1("sources", object2("terms", terms(src.as_str(), 1000), "aggs", dests));
        let aggs = object1(
            "signatures",
            object2("terms", terms(sig.as_str(), 2000), "aggs", sources),
        );
        object3(
            "query",
            object1(
                "bool",
                object2("filter", json_array(filters), "must_not", json_array(must_not)),
            ),
            "sort",
            sort_by("@timestamp", "desc"),
            "aggs",
            aggs,
        )
    }

    /// The body of an event query.
    pub fn event_query_request(&self, params: &EventQueryParams) -> (r: Json)
        ensures
            r@ == event_query_spec(self.ecs, *params),
    {
        let mut filters: Vec<Json> = Vec::new();
        push_item(&mut filters, self.mapped_exists("event_type"));
        self.push_opt_term(&mut filters, "event_type", &params.event_type);
        self.push_opt_query(&mut filters, &params.query_string);
        push_gte(&mut filters, params.min_timestamp);
        push_lte(&mut filters, params.max_timestamp);
        assert(items_view(filters@) =~= seq![exists_v(map_field_spec(self.ecs, "event_type"@))]
            + opt_term_filters(self.ecs, "event_type"@, params.event_type) + opt_query_filters(
            self.ecs,
            params.query_string,
        ) + gte_filters(params.min_timestamp) + lte_filters(params.max_timestamp));
        let sort = match &params.sort_by {
            Some(s) => match &params.order {
                Some(o) => sort_by(s.as_str(), o.as_str()),
                None => sort_by(s.as_str(), "desc"),
            },
            None => match &params.order {
                Some(o) => sort_by("@timestamp", o.as_str()),
                None => sort_by("@timestamp", "desc"),
            },
        };
        let size: u64 = match params.size {
            Some(n) => n,
            None => 500,
        };
        object3(
            "query",
            object1("bool", object1("filter", json_array(filters))),
            "sort",
            sort,
            "size",
            Json::UInt(size),
        )
    }

    /// The answer to an event query: the hits of the response.
    pub fn event_query_response(&self, resp: &Json) -> (r: Json)
        ensures
            r@ == obj2("ecs"@, JsonV::Bool(self.ecs), "data"@, jget(jget(resp@, "hits"@), "hits"@)),
    {
        object2("ecs", Json::Bool(self.ecs), "data", resp.get("hits").get("hits").deep_clone())
    }

    /// The alert listing of a response: an error when the response holds
    /// one, else one record per (signature, source, destination).
    pub fn alert_query_response(&self, resp: &Json) -> (r: Result<Json, DatastoreError>)
        ensures
            jget(resp@, "error"@) != JsonV::Null ==> (r matches Err(
                DatastoreError::ElasticSearchError(m),
            ) && m@ == reason_v(jget(resp@, "error"@))),
            jget(resp@, "error"@) == JsonV::Null ==> (r matches Ok(j) && j@ == obj2(
                "ecs"@,
                JsonV::Bool(self.ecs),
                "alerts"@,
                JsonV::Array(
                    signature_alerts(
                        jitems(jpath3(resp@, "aggregations"@, "signatures"@, "buckets"@)),
                    ),
                ),
            )),
    {
        let error = resp.get("error");
        if let Json::Null = error {
        } else {
            return Err(DatastoreError::ElasticSearchError(reason_of(error)));
        }
        let sigs = resp.get("aggregations").get("signatures").get("buckets").items();
        let ghost sv = items_view(sigs@);
        proof {
            lemma_items_view(sigs@);
        }
        let mut alerts: Vec<Json> = Vec::new();
        let mut i: usize = 0;
        assert(sv.take(0) =~= Seq::<JsonV>::empty());
        while i < sigs.len()
            invariant
                i <= sigs@.len(),
                sv == items_view(sigs@),
                sv.len() == sigs@.len(),
                forall|j: int| 0 <= j < sigs@.len() ==> #[trigger] sv[j] == sigs@[j]@,
                items_view(alerts@) == signature_alerts(sv.take(i as int)),
            decreases sigs.len() - i,
        {
            push_source_alerts(&mut alerts, &sigs[i]);
            assert(sv.take(i + 1).drop_last() =~= sv.take(i as int));
            i += 1;
        }
        assert(sv.take(i as int) =~= sv);
        Ok(object2("ecs", Json::Bool(self.ecs), "alerts", json_array(alerts)))
    }

    /// The body that lists the sensors: the terms of the mapped `host`.
    pub fn get_sensors_request(&self) -> (r: Json)
        ensures
            r@ == obj2(
                "size"@,
                JsonV::Int(0),
                "aggs"@,
                obj1(
                    "sensors"@,
                    obj1("terms"@, obj1("field"@, jstr(map_field_spec(self.ecs, "host"@)))),
                ),
            ),
    {
        let host = self.map_field("host");
        object2(
            "size",
            Json::UInt(0),
            "aggs",
            object1("sensors", object1("terms", object1("field", json_str(host.as_str())))),
        )
    }

    /// The body of a terms aggregation.
    pub fn agg_request(&self, params: &AggParameters) -> (r: Json)
        ensures
            r@ == agg_spec(self.ecs, *params),
    {
        let mut filters: Vec<Json> = Vec::new();
        push_item(&mut filters, self.mapped_exists("event_type"));
        self.push_opt_term(&mut filters, "event_type", &params.event_type);
        self.push_opt_term(&mut filters, "dns.type", &params.dns_type);
        push_gte(&mut filters, params.min_timestamp);
        let mut should: Vec<Json> = Vec::new();
        let mut msm: u64 = 0;
        if let Some(a) = &params.address_filter {
            push_item(&mut should, self.mapped_term("src_ip", a.as_str()));
            push_item(&mut should, self.mapped_term("dest_ip", a.as_str()));
            msm = 1;
        }
        assert(items_view(should@) =~= address_should(self.ecs, params.address_filter));
        self.push_opt_query(&mut filters, &params.query_string);
        assert(items_view(filters@) =~= seq![exists_v(map_field_spec(self.ecs, "event_type"@))]
            + opt_term_filters(self.ecs, "event_type"@, params.event_type) + opt_term_filters(
            self.ecs,
            "dns.type"@,
            params.dns_type,
        ) + gte_filters(params.min_timestamp) + opt_query_filters(self.ecs, params.query_string));
        let agg = self.map_field(params.agg.as_str());
        object4(
            "query",
            object1(
                "bool",
                object3(
                    "filter",
                    json_array(filters),
                    "should",
                    json_array(should),
                    "minimum_should_match",
                    Json::UInt(msm),
                ),
            ),
            "size",
            Json::UInt(0),
            "sort",
            sort_by("@timestamp", "desc"),
            "aggs",
            object2(
                "agg",
                object1("terms", terms(agg.as_str(), params.size)),
                "missing",
                object1("missing", object1("field", json_str(agg.as_str()))),
            ),
        )
    }

    /// The body of a flow histogram.
    pub fn flow_histogram_request(&self, params: &FlowHistogramParameters) -> (r: Json)
        ensures
            r@ == flow_histogram_spec(self.ecs, *params),
    {
        let mut filters: Vec<Json> = Vec::new();
        push_item(&mut filters, self.mapped_term("event_type", "flow"));
        push_item(&mut filters, self.mapped_exists("event_type"));
        push_gte(&mut filters, params.mints);
        self.push_opt_query(&mut filters, &params.query_string);
        assert(items_view(filters@) =~= seq![
            term_v(map_field_spec(self.ecs, "event_type"@), jstr("flow"@)),
            exists_v(map_field_spec(self.ecs, "event_type"@)),
        ] + gte_filters(params.mints) + opt_query_filters(self.ecs, params.query_string));
        let app_proto = self.map_field("app_proto");
        object3(
            "query",
            object1("bool", object1("filter", json_array(filters))),
            "sort",
            sort_by("@timestamp", "desc"),
            "aggs",
            object1(
                "histogram",
                object2(
                    "aggs",
                    object1(
                        "app_proto",
                        object1("terms", object1("field", json_str(app_proto.as_str()))),
                    ),
                    "date_histogram",
                    object2(
                        "field",
                        json_str("@timestamp"),
                        "interval",
                        json_opt_str(&params.interval),
                    ),
                ),
            ),
        )
    }

    /// The body of a statistics query, given the start time as text
    /// (`deriv` chooses the derivative).
    pub fn stats_request_at(
        &self,
        params: &StatsAggQueryParams,
        major_version: u64,
        start: &str,
        deriv: bool,
    ) -> (r: Json)
        ensures
            r@ == stats_spec(self.ecs, *params, major_version, start@, deriv),
    {
        let mut filters: Vec<Json> = Vec::new();
        push_item(&mut filters, self.mapped_term("event_type", "stats"));
        push_item(&mut filters, timestamp_range("gte", start));
        if let Some(sensor_name) = &params.sensor_name {
            if deriv {
                push_item(&mut filters, self.mapped_term("host", sensor_name.as_str()));
            } else {
                push_item(&mut filters, term_filter("host", sensor_name.as_str()));
            }
        }
        assert(items_view(filters@) =~= seq![
            term_v(map_field_spec(self.ecs, "event_type"@), jstr("stats"@)),
            timestamp_range_v("gte"@, start@),
        ] + match params.sensor_name {
            Some(s) => seq![
                term_v(
                    if deriv {
                        map_field_spec(self.ecs, "host"@)
                    } else {
                        "host"@
                    },
                    jstr(s@),
                ),
            ],
            None => Seq::empty(),
        });
        let field = self.map_field(params.field.as_str());
        let max = object1("max", object1("field", json_str(field.as_str())));
        let metrics = if deriv {
            object1("values", max)
        } else {
            object1("memuse", max)
        };
        let key = if major_version < 7 {
            "interval"
        } else {
            "fixed_interval"
        };
        let interval = elastic_format_interval(params.interval);
        object4(
            "query",
            object1("bool", object1("filter", json_array(filters))),
            "size",
            Json::UInt(0),
            "sort",
            sort_by("@timestamp", "asc"),
            "aggs",
            object1(
                "histogram",
                object2(
                    "date_histogram",
                    object2("field", json_str("@timestamp"), key, json_str(interval.as_str())),
                    "aggs",
                    metrics,
                ),
            ),
        )
    }

    /// The body of a statistics query from `params.start_time` on; an error
    /// when that instant has no RFC 3339 text.
    pub fn stats_request(
        &self,
        params: &StatsAggQueryParams,
        major_version: u64,
        deriv: bool,
    ) -> (r: Result<Json, DatastoreError>)
        ensures
            match rfc3339_of_unix_nanos(params.start_time as i128) {
                Some(start) => r matches Ok(j) && j@ == stats_spec(
                    self.ecs,
                    *params,
                    major_version,
                    start,
                    deriv,
                ),
                None => r matches Err(DatastoreError::TimestampParseError(_)),
            },
    {
        match nanos_to_rfc3339(params.start_time as i128) {
            Some(start) => Ok(self.stats_request_at(params, major_version, start.as_str(), deriv)),
            None => Err(DatastoreError::TimestampParseError(String::from_str("start time"))),
        }
    }

    /// The body of an event histogram; `major_version` is the search
    /// engine's major version.
    pub fn histogram_request(&self, params: &HistogramParameters, major_version: u64) -> (r: Json)
        ensures
            r@ == histogram_spec(self.ecs, *params, major_version),
    {
        let mut filters: Vec<Json> = Vec::new();
        push_item(&mut filters, self.mapped_exists("event_type"));
        push_gte(&mut filters, params.min_timestamp);
        push_lte(&mut filters, params.max_timestamp);
        self.push_opt_term(&mut filters, "event_type", &params.event_type);
        self.push_opt_term(&mut filters, "dns.type", &params.dns_type);
        self.push_opt_query(&mut filters, &params.query_string);
        let ghost before = items_view(filters@);
        if !self.ecs {
            if let Some(sensor_name) = &params.sensor_name {
                if sensor_name.unicode_len() > 0 {
                    push_item(&mut filters, self.mapped_term("host", sensor_name.as_str()));
                }
            }
        }
        assert(items_view(filters@) =~= histogram_filters(self.ecs, *params));
        let mut should: Vec<Json> = Vec::new();
        let mut msm: u64 = 0;
        if let Some(a) = &params.address_filter {
            push_item(&mut should, self.mapped_term("src_ip", a.as_str()));
            push_item(&mut should, self.mapped_term("dest_ip", a.as_str()));
            msm = 1;
        }
        assert(items_view(should@) =~= address_should(self.ecs, params.address_filter));
        let interval = match params.interval {
            Some(HistogramInterval::Minute) => "1m",
            Some(HistogramInterval::Hour) => "1h",
            Some(HistogramInterval::Day) => "1d",
            None => "1h",
        };
        let key = if major_version < 7 {
            "interval"
        } else {
            "calendar_interval"
        };
        let bound_max = match params.max_timestamp {
            Some(n) => Json::Str(format_timestamp(n)),
            None => Json::Null,
        };
        let bound_min = match params.min_timestamp {
            Some(n) => Json::Str(format_timestamp(n)),
            None => Json::Null,
        };
        let events_over_time = object1(
            "date_histogram",
            object4(
                "field",
                json_str("@timestamp"),
                key,
                json_str(interval),
                "min_doc_count",
                Json::UInt(0),
                "extended_bounds",
                object2("max", bound_max, "min", bound_min),
            ),
        );
        let stats = self.mapped_term("event_type", "stats");
        object4(
            "query",
            object1(
                "bool",
                object4(
                    "filter",
                    json_array(filters),
                    "must_not",
                    json_array1(stats),
                    "should",
                    json_array(should),
                    "minimum_should_match",
                    Json::UInt(msm),
                ),
            ),
            "size",
            Json::UInt(0),
            "sort",
            sort_by("@timestamp", "desc"),
            "aggs",
            object1("events_over_time", events_over_time),
        )
    }

    /// The importer that writes into this store's base index.
    pub fn get_importer(&self) -> (r: Importer)
        ensures
            r.base_index@ == self.base_index@,
    {
        Importer { base_index: self.base_index.clone() }
    }

    /// Maps a field name to its name in the documents of this store.
    pub fn map_field(&self, name: &str) -> (r: String)
        ensures
            r@ == map_field_spec(self.ecs, name@),
    {
        if self.ecs {
            if str_eq(name, "dest_ip") {
                String::from_str("destination.address")
            } else if str_eq(name, "dest_port") {
                String::from_str("destination.port")
            } else if str_eq(name, "dns.rrname") {
                String::from_str("dns.question.name")
            } else if str_eq(name, "dns.rrtype") {
                String::from_str("dns.question.type")
            } else if str_eq(name, "dns.rcode") {
                String::from_str("dns.response_code")
            } else if str_eq(name, "dns.type") {
                String::from_str(name)
            } else if str_eq(name, "src_ip") {
                String::from_str("source.address")
            } else if str_eq(name, "src_port") {
                String::from_str("source.port")
            } else if starts_with(name, "suricata") {
                String::from_str(name)
            } else {
                concat2("suricata.eve.", name)
            }
        } else if str_eq(name, "alert.category") || str_eq(name, "alert.signature") || str_eq(
            name,
            "app_proto",
        ) || str_eq(name, "dest_ip") || str_eq(name, "dhcp.assigned_ip") || str_eq(
            name,
            "dhcp.client_mac",
        ) || str_eq(name, "dns.rrname") || str_eq(name, "dns.rrtype") || str_eq(name, "dns.rcode")
            || str_eq(name, "dns.rdata") || str_eq(name, "host") || str_eq(name, "src_ip")
            || str_eq(name, "ssh.client.software_version") || str_eq(
            name,
            "ssh.server.software_version",
        ) || str_eq(name, "traffic.id") || str_eq(name, "traffic.label") {
            concat2(name, ".keyword")
        } else {
            String::from_str(name)
        }
    }

    /// `{"term": {map_field(name): value}}`
    pub fn mapped_term(&self, name: &str, value: &str) -> (r: Json)
        ensures
            r@ == term_v(map_field_spec(self.ecs, name@), jstr(value@)),
    {
        let field = self.map_field(name);
        term_filter(field.as_str(), value)
    }

    /// `{"exists": {"field": map_field(name)}}`
    pub fn mapped_exists(&self, name: &str) -> (r: Json)
        ensures
            r@ == exists_v(map_field_spec(self.ecs, name@)),
    {
        let field = self.map_field(name);
        exists_filter(field.as_str())
    }

    /// Appends the filters of the search string `q` to `filters`: an exact
    /// match on the mapped field for each `key:value`, a free-text query for
    /// any other token.
    pub fn push_query_string_filters(&self, filters: &mut Vec<Json>, q: &str)
        ensures
            items_view(final(filters)@) == items_view(old(filters)@) + query_string_filters(
                self.ecs,
                q@,
            ),
    {
        let elements = parse_query(q, QUERY_STRING_LIMIT);
        let ghost start = items_view(filters@);
        let ghost wanted = query_string_filters(self.ecs, q@);
        let mut i: usize = 0;
        proof {
            assert(elements_view(elements@).len() == elements@.len());
            assert(start + wanted.take(0) =~= start);
        }
        while i < elements.len()
            invariant
                i <= elements@.len(),
                elements_view(elements@) == parse_spec(q@, QUERY_STRING_LIMIT as nat),
                wanted == query_string_filters(self.ecs, q@),
                wanted.len() == elements@.len(),
                items_view(filters@) == start + wanted.take(i as int),
            decreases elements.len() - i,
        {
            assert(elements_view(elements@)[i as int] == elements@[i as int]@);
            let f = match &elements[i] {
                QueryElement::KeyVal(k, v) => self.mapped_term(k.as_str(), v.as_str()),
                QueryElement::Text(t) => query_string_query(t.as_str()),
            };
            push_item(filters, f);
            assert(start + wanted.take(i + 1) =~= (start + wanted.take(i as int)).push(
                wanted[i as int],
            ));
            i += 1;
        }
        assert(wanted.take(i as int) =~= wanted);
    }

    /// The filters of the search string `q`.
    pub fn query_string_to_filters(&self, q: &str) -> (r: Vec<Json>)
        ensures
            items_view(r@) == query_string_filters(self.ecs, q@),
    {
        let mut filters: Vec<Json> = Vec::new();
        self.push_query_string_filters(&mut filters, q);
        assert(items_view(Seq::<Json>::empty()) + query_string_filters(self.ecs, q@)
            =~= query_string_filters(self.ecs, q@));
        filters
    }

    /// The filters that select exactly the alerts of the group `g`.
    pub fn build_alert_group_filter(&self, g: &AlertGroupSpec) -> (r: Vec<Json>)
        ensures
            items_view(r@) == alert_group_filter_spec(self.ecs, g@),
    {
        let mut filter: Vec<Json> = Vec::new();
        push_item(&mut filter, self.mapped_exists("event_type"));
        push_item(&mut filter, self.mapped_term("event_type", "alert"));
        push_item(
            &mut filter,
            object1(
                "range",
                object1(
                    "@timestamp",
                    object2(
                        "gte",
                        json_str(g.min_timestamp.as_str()),
                        "lte",
                        json_str(g.max_timestamp.as_str()),
                    ),
                ),
            ),
        );
        push_item(&mut filter, self.mapped_term("src_ip", g.src_ip.as_str()));
        push_item(&mut filter, self.mapped_term("dest_ip", g.dest_ip.as_str()));
        let sig = self.map_field("alert.signature_id");
        push_item(&mut filter, object1("term", object1(sig.as_str(), Json::UInt(g.signature_id))));
        assert(items_view(filter@) =~= alert_group_filter_spec(self.ecs, g@));
        filter
    }
}

} // verus!
