use vstd::prelude::*;

use crate::datastore::{DatastoreError, EventQueryParams};
use crate::elastic::{
    gte_filters,
    map_field_spec,
    query_string_query,
    query_string_v,
    sort_v,
    term_v,
    terms_v,
    timestamp_gte_filter,
    EventStore,
};
use crate::json::{
    items_view,
    jat,
    jget,
    jitems,
    jstr,
    json_array,
    json_array1,
    json_str,
    lemma_items_view,
    obj1,
    obj2,
    obj3,
    object1,
    object2,
    object3,
    push_entry,
    push_item,
    Json,
    JsonV,
};
use crate::text::{concat2, str_eq};

verus! {

/// The DHCP reports.
#[derive(PartialEq, Eq, Structural, Clone, Copy, Debug)]
pub enum DhcpReport {
    /// The latest acknowledgement of each client.
    Ack,
    /// The latest request of each client.
    Request,
    /// The addresses that answer as servers.
    Servers,
    /// The addresses assigned to each client.
    Mac,
    /// The clients assigned each address.
    Ip,
}

/// The report that a name stands for.
pub open spec fn report_named(s: Seq<char>) -> Option<DhcpReport> {
    if s == "ack"@ {
        Some(DhcpReport::Ack)
    } else if s == "request"@ {
        Some(DhcpReport::Request)
    } else if s == "servers"@ {
        Some(DhcpReport::Servers)
    } else if s == "mac"@ {
        Some(DhcpReport::Mac)
    } else if s == "ip"@ {
        Some(DhcpReport::Ip)
    } else {
        None
    }
}

impl DhcpReport {
    /// Reads a report name; any other name is an error that says so.
    pub fn from_name(what: &str) -> (r: Result<DhcpReport, DatastoreError>)
        ensures
            match report_named(what@) {
                Some(k) => r == Ok::<DhcpReport, DatastoreError>(k),
                None => r matches Err(DatastoreError::AnyhowError(m)) && m@ == "No DHCP report for "@
                    + what@,
            },
    {
        if str_eq(what, "ack") {
            Ok(DhcpReport::Ack)
        } else if str_eq(what, "request") {
            Ok(DhcpReport::Request)
        } else if str_eq(what, "servers") {
            Ok(DhcpReport::Servers)
        } else if str_eq(what, "mac") {
            Ok(DhcpReport::Mac)
        } else if str_eq(what, "ip") {
            Ok(DhcpReport::Ip)
        } else {
            Err(DatastoreError::AnyhowError(concat2("No DHCP report for ", what)))
        }
    }
}

/// The filters shared by the reports: DHCP events, from the minimum
/// timestamp on, matching the search string as free text.
pub open spec fn dhcp_filters(ecs: bool, p: EventQueryParams) -> Seq<JsonV> {
    seq![term_v(map_field_spec(ecs, "event_type"@), jstr("dhcp"@))] + gte_filters(p.min_timestamp)
        + match p.query_string {
        Some(q) => seq![query_string_v(q@)],
        None => Seq::empty(),
    }
}

/// The filter that a report adds.
pub open spec fn report_filter(ecs: bool, k: DhcpReport) -> JsonV {
    match k {
        DhcpReport::Ack => term_v(map_field_spec(ecs, "dhcp.dhcp_type"@), jstr("ack"@)),
        DhcpReport::Request => term_v(map_field_spec(ecs, "dhcp.dhcp_type"@), jstr("request"@)),
        _ => term_v(map_field_spec(ecs, "dhcp.type"@), jstr("reply"@)),
    }
}

/// The latest event of a bucket.
pub open spec fn latest_v() -> JsonV {
    obj1("top_hits"@, obj2("sort"@, sort_v("@timestamp"@, "desc"@), "size"@, JsonV::Int(1)))
}

/// The aggregation of a report.
pub open spec fn report_aggs(ecs: bool, k: DhcpReport) -> JsonV {
    let mac = map_field_spec(ecs, "dhcp.client_mac"@);
    let ip = map_field_spec(ecs, "dhcp.assigned_ip"@);
    match k {
        DhcpReport::Servers => obj1(
            "servers"@,
            obj1("terms"@, terms_v(map_field_spec(ecs, "src_ip"@), 10000)),
        ),
        DhcpReport::Mac => obj1(
            "client_mac"@,
            obj2(
                "terms"@,
                terms_v(mac, 10000),
                "aggs"@,
                obj1("assigned_ip"@, obj1("terms"@, obj1("field"@, jstr(ip)))),
            ),
        ),
        DhcpReport::Ip => obj1(
            "assigned_ip"@,
            obj2(
                "terms"@,
                terms_v(ip, 10000),
                "aggs"@,
                obj1("client_mac"@, obj1("terms"@, obj1("field"@, jstr(mac)))),
            ),
        ),
        _ => obj1(
            "client_mac"@,
            obj2("terms"@, terms_v(mac, 10000), "aggs"@, obj1("latest"@, latest_v())),
        ),
    }
}

/// The body of a report: no hits, only the aggregation.
pub open spec fn report_request_spec(ecs: bool, p: EventQueryParams, k: DhcpReport) -> JsonV {
    obj3(
        "query"@,
        obj1(
            "bool"@,
            obj1("filter"@, JsonV::Array(dhcp_filters(ecs, p).push(report_filter(ecs, k)))),
        ),
        "aggs"@,
        report_aggs(ecs, k),
        "size"@,
        JsonV::Int(0),
    )
}

/// The fields of a DHCP event that the reports show.
pub open spec fn dhcp_event_v(event: JsonV, ecs: bool) -> JsonV {
    let dhcp = if ecs {
        jget(jget(jget(event, "suricata"@), "eve"@), "dhcp"@)
    } else {
        jget(event, "dhcp"@)
    };
    let timestamp = if ecs {
        jget(event, "@timestamp"@)
    } else {
        jget(event, "timestamp"@)
    };
    let sensor = if ecs {
        jget(jget(event, "agent"@), "hostname"@)
    } else {
        jget(event, "host"@)
    };
    JsonV::Object(
        Seq::empty().push(("timestamp"@, timestamp)).push(("sensor"@, sensor)).push(
            ("client_mac"@, jget(dhcp, "client_mac"@)),
        ).push(("hostname"@, jget(dhcp, "hostname"@))).push(
            ("lease_time"@, jget(dhcp, "lease_time"@)),
        ).push(("assigned_ip"@, jget(dhcp, "assigned_ip"@))),
    )
}

/// The text keys of a list of buckets, leaving out `0.0.0.0` when `skip_any`.
pub open spec fn bucket_keys(bs: Seq<JsonV>, skip_any: bool) -> Seq<JsonV>
    decreases bs.len(),
{
    if bs.len() == 0 {
        Seq::empty()
    } else {
        let rest = bucket_keys(bs.drop_last(), skip_any);
        let k = jget(bs.last(), "key"@);
        if k is Str && !(skip_any && k->Str_0 == "0.0.0.0"@) {
            rest.push(k)
        } else {
            rest
        }
    }
}

/// One entry of a report from one bucket, if the bucket gives one.
pub open spec fn report_entry(ecs: bool, k: DhcpReport, b: JsonV) -> Option<JsonV> {
    match k {
        DhcpReport::Servers => Some(
            obj2("ip"@, jget(b, "key"@), "count"@, jget(b, "doc_count"@)),
        ),
        DhcpReport::Mac => Some(
            obj2(
                "mac"@,
                jget(b, "key"@),
                "addrs"@,
                JsonV::Array(bucket_keys(jitems(jget(jget(b, "assigned_ip"@), "buckets"@)), true)),
            ),
        ),
        DhcpReport::Ip => if jget(b, "key"@) == jstr("0.0.0.0"@) {
            None
        } else {
            Some(
                obj2(
                    "ip"@,
                    jget(b, "key"@),
                    "macs"@,
                    JsonV::Array(
                        bucket_keys(jitems(jget(jget(b, "client_mac"@), "buckets"@)), false),
                    ),
                ),
            )
        },
        _ => Some(
            dhcp_event_v(
                jget(jat(jget(jget(jget(b, "latest"@), "hits"@), "hits"@), 0), "_source"@),
                ecs,
            ),
        ),
    }
}

/// The name of the aggregation that a report reads.
pub open spec fn report_agg_name(k: DhcpReport) -> Seq<char> {
    match k {
        DhcpReport::Servers => "servers"@,
        DhcpReport::Ip => "assigned_ip"@,
        _ => "client_mac"@,
    }
}

/// The entries of a report from its buckets, in order.
pub open spec fn report_entries(ecs: bool, k: DhcpReport, bs: Seq<JsonV>) -> Seq<JsonV>
    decreases bs.len(),
{
    if bs.len() == 0 {
        Seq::empty()
    } else {
        let rest = report_entries(ecs, k, bs.drop_last());
        match report_entry(ecs, k, bs.last()) {
            Some(e) => rest.push(e),
            None => rest,
        }
    }
}

/// The answer of a report to a response.
pub open spec fn report_response_spec(ecs: bool, k: DhcpReport, resp: JsonV) -> JsonV {
    obj1(
        "data"@,
        JsonV::Array(
            report_entries(
                ecs,
                k,
                jitems(jget(jget(jget(resp, "aggregations"@), report_agg_name(k)), "buckets"@)),
            ),
        ),
    )
}

/// The fields of a DHCP event that the reports show.
pub fn map_dhcp_event(event: &Json, ecs: bool) -> (r: Json)
    ensures
        r@ == dhcp_event_v(event@, ecs),
{
    let dhcp = if ecs {
        event.get("suricata").get("eve").get("dhcp")
    } else {
        event.get("dhcp")
    };
    let timestamp = if ecs {
        event.get("@timestamp")
    } else {
        event.get("timestamp")
    };
    let sensor = if ecs {
        event.get("agent").get("hostname")
    } else {
        event.get("host")
    };
    let mut o: Vec<(String, Json)> = Vec::new();
    push_entry(&mut o, "timestamp", timestamp.deep_clone());
    push_entry(&mut o, "sensor", sensor.deep_clone());
    push_entry(&mut o, "client_mac", dhcp.get("client_mac").deep_clone());
    push_entry(&mut o, "hostname", dhcp.get("hostname").deep_clone());
    push_entry(&mut o, "lease_time", dhcp.get("lease_time").deep_clone());
    push_entry(&mut o, "assigned_ip", dhcp.get("assigned_ip").deep_clone());
    Json::Object(o)
}

/// The text keys of the buckets, leaving out `0.0.0.0` when `skip_any`.
fn keys_of(buckets: &[Json], skip_any: bool) -> (r: Vec<Json>)
    ensures
        items_view(r@) == bucket_keys(items_view(buckets@), skip_any),
{
    let ghost bv = items_view(buckets@);
    proof {
        lemma_items_view(buckets@);
    }
    let mut out: Vec<Json> = Vec::new();
    let mut i: usize = 0;
    assert(bv.take(0) =~= Seq::<JsonV>::empty());
    while i < buckets.len()
        invariant
            i <= buckets@.len(),
            bv == items_view(buckets@),
            bv.len() == buckets@.len(),
            forall|j: int| 0 <= j < buckets@.len() ==> #[trigger] bv[j] == buckets@[j]@,
            items_view(out@) == bucket_keys(bv.take(i as int), skip_any),
        decreases buckets.len() - i,
    {
        assert(bv.take(i + 1).drop_last() =~= bv.take(i as int));
        if let Json::Str(k) = buckets[i].get("key") {
            if !(skip_any && str_eq(k.as_str(), "0.0.0.0")) {
                push_item(&mut out, Json::Str(k.clone()));
            }
        }
        i += 1;
    }
    assert(bv.take(i as int) =~= bv);
    out
}

/// One entry of a report from one bucket, if the bucket gives one.
fn entry_of(ecs: bool, k: DhcpReport, b: &Json) -> (r: Option<Json>)
    ensures
        match report_entry(ecs, k, b@) {
            Some(e) => r matches Some(x) && x@ == e,
            None => r is None,
        },
{
    match k {
        DhcpReport::Servers => Some(
            object2("ip", b.get("key").deep_clone(), "count", b.get("doc_count").deep_clone()),
        ),
        DhcpReport::Mac => Some(
            object2(
                "mac",
                b.get("key").deep_clone(),
                "addrs",
                json_array(keys_of(b.get("assigned_ip").get("buckets").items(), true)),
            ),
        ),
        DhcpReport::Ip => {
            let key = b.get("key");
            let any = match key {
                Json::Str(s) => str_eq(s.as_str(), "0.0.0.0"),
                _ => false,
            };
            proof {
                reveal_strlit("0.0.0.0");
            }
            if any {
                None
            } else {
                Some(
                    object2(
                        "ip",
                        key.deep_clone(),
                        "macs",
                        json_array(keys_of(b.get("client_mac").get("buckets").items(), false)),
                    ),
                )
            }
        },
        _ => Some(
            map_dhcp_event(b.get("latest").get("hits").get("hits").at(0).get("_source"), ecs),
        ),
    }
}

impl EventStore {
    /// The body of a DHCP report over the events that `params` selects.
    pub fn dhcp_report_request(&self, params: &EventQueryParams, k: DhcpReport) -> (r: Json)
        ensures
            r@ == report_request_spec(self.ecs, *params, k),
    {
        let mut filters: Vec<Json> = Vec::new();
        push_item(&mut filters, self.mapped_term("event_type", "dhcp"));
        if let Some(n) = params.min_timestamp {
            push_item(&mut filters, timestamp_gte_filter(n));
        }
        if let Some(q) = &params.query_string {
            push_item(&mut filters, query_string_query(q.as_str()));
        }
        assert(items_view(filters@) =~= dhcp_filters(self.ecs, *params));
        let f = match k {
            DhcpReport::Ack => self.mapped_term("dhcp.dhcp_type", "ack"),
            DhcpReport::Request => self.mapped_term("dhcp.dhcp_type", "request"),
            _ => self.mapped_term("dhcp.type", "reply"),
        };
        push_item(&mut filters, f);
        let mac = self.map_field("dhcp.client_mac");
        let ip = self.map_field("dhcp.assigned_ip");
        let terms = |field: &str| -> (t: Json)
            ensures
                t@ == terms_v(field@, 10000),
            { object2("field", json_str(field), "size", Json::UInt(10000)) };
        let aggs = match k {
            DhcpReport::Servers => {
                let src = self.map_field("src_ip");
                object1("servers", object1("terms", terms(src.as_str())))
            },
            DhcpReport::Mac => object1(
                "client_mac",
                object2(
                    "terms",
                    terms(mac.as_str()),
                    "aggs",
                    object1("assigned_ip", object1("terms", object1("field", json_str(ip.as_str())))),
                ),
            ),
            DhcpReport::Ip => object1(
                "assigned_ip",
                object2(
                    "terms",
                    terms(ip.as_str()),
                    "aggs",
                    object1("client_mac", object1("terms", object1("field", json_str(mac.as_str())))),
                ),
            ),
            _ => object1(
                "client_mac",
                object2(
                    "terms",
                    terms(mac.as_str()),
                    "aggs",
                    object1(
                        "latest",
                        object1(
                            "top_hits",
                            object2(
                                "sort",
                                json_array1(object1("@timestamp", object1("order", json_str("desc")))),
                                "size",
                                Json::UInt(1),
                            ),
                        ),
                    ),
                ),
            ),
        };
        object3(
            "query",
            object1("bool", object1("filter", json_array(filters))),
            "aggs",
            aggs,
            "size",
            Json::UInt(0),
        )
    }

    /// The answer of a DHCP report to the search response.
    pub fn dhcp_report_response(&self, k: DhcpReport, resp: &Json) -> (r: Json)
        ensures
            r@ == report_response_spec(self.ecs, k, resp@),
    {
        let name = match k {
            DhcpReport::Servers => "servers",
            DhcpReport::Ip => "assigned_ip",
            _ => "client_mac",
        };
        let buckets = resp.get("aggregations").get(name).get("buckets").items();
        let ghost bv = items_view(buckets@);
        proof {
            lemma_items_view(buckets@);
        }
        let mut data: Vec<Json> = Vec::new();
        let mut i: usize = 0;
        assert(bv.take(0) =~= Seq::<JsonV>::empty());
        while i < buckets.len()
            invariant
                i <= buckets@.len(),
                bv == items_view(buckets@),
                bv.len() == buckets@.len(),
                forall|j: int| 0 <= j < buckets@.len() ==> #[trigger] bv[j] == buckets@[j]@,
                items_view(data@) == report_entries(self.ecs, k, bv.take(i as int)),
            decreases buckets.len() - i,
        {
            assert(bv.take(i + 1).drop_last() =~= bv.take(i as int));
            if let Some(e) = entry_of(self.ecs, k, &buckets[i]) {
                push_item(&mut data, e);
            }
            i += 1;
        }
        assert(bv.take(i as int) =~= bv);
        object1("data", json_array(data))
    }
}

} // verus!
