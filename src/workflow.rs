use vstd::prelude::*;

use crate::elastic::{
    alert_group_filter_spec,
    id_query,
    id_query_v,
    tag_term_v,
    term_filter,
    EventStore,
};
use crate::json::{
    items_view,
    jstr,
    json_array,
    json_opt_str,
    json_str,
    obj1,
    obj2,
    obj3,
    obj4,
    object1,
    object2,
    object3,
    object4,
    push_item,
    Json,
    JsonV,
};
use crate::sqlite::{alert_group_preds, row_meets, row_meets_all, Flag, PredicateV, RowV, SqlValueV};
use crate::timestamp::{format_timestamp, rfc3339_millis_of};

verus! {

/// The alerts of one signature from one source to one destination within a
/// time window: the address of a workflow action on a group.
#[derive(Clone, Debug, PartialEq)]
pub struct AlertGroupSpec {
    pub signature_id: u64,
    pub src_ip: String,
    pub dest_ip: String,
    pub min_timestamp: String,
    pub max_timestamp: String,
}

pub struct AlertGroupSpecV {
    pub signature_id: u64,
    pub src_ip: Seq<char>,
    pub dest_ip: Seq<char>,
    pub min_timestamp: Seq<char>,
    pub max_timestamp: Seq<char>,
}

impl View for AlertGroupSpec {
    type V = AlertGroupSpecV;

    open spec fn view(&self) -> AlertGroupSpecV {
        AlertGroupSpecV {
            signature_id: self.signature_id,
            src_ip: self.src_ip@,
            dest_ip: self.dest_ip@,
            min_timestamp: self.min_timestamp@,
            max_timestamp: self.max_timestamp@,
        }
    }
}

/// One entry of an event's audit trail.
#[derive(Clone, Debug, PartialEq)]
pub struct HistoryEntry {
    pub username: String,
    pub timestamp: String,
    pub action: String,
    pub comment: Option<String>,
}

pub open spec fn history_v(username: Seq<char>, timestamp: Seq<char>, action: Seq<char>, comment: JsonV) -> JsonV {
    obj4("username"@, jstr(username), "timestamp"@, jstr(timestamp), "action"@, jstr(action), "comment"@, comment)
}

impl HistoryEntry {
    /// The entry as it is stored in a document.
    pub fn to_json(&self) -> (r: Json)
        ensures
            r@ == history_v(self.username@, self.timestamp@, self.action@, match self.comment {
                Some(c) => jstr(c@),
                None => JsonV::Null,
            }),
    {
        object4(
            "username",
            json_str(self.username.as_str()),
            "timestamp",
            json_str(self.timestamp.as_str()),
            "action",
            json_str(self.action.as_str()),
            "comment",
            json_opt_str(&self.comment),
        )
    }
}

/// The script that adds tags to each matched document (a tag already there
/// is not added again) and appends the history entry in any case.
pub open spec fn add_tags_script() -> Seq<char> {
    "if (params.tags != null) { if (ctx._source.tags == null) { ctx._source.tags = new ArrayList(); } for (tag in params.tags) { if (!ctx._source.tags.contains(tag)) { ctx._source.tags.add(tag); } } } if (ctx._source.evebox == null) { ctx._source.evebox = new HashMap(); } if (ctx._source.evebox.history == null) { ctx._source.evebox.history = new ArrayList(); } ctx._source.evebox.history.add(params.action);"@
}

/// The script that removes tags from each matched document and appends the
/// history entry in any case.
pub open spec fn remove_tags_script() -> Seq<char> {
    "if (ctx._source.tags != null) { for (tag in params.tags) { ctx._source.tags.removeIf(entry -> entry == tag); } } if (ctx._source.evebox == null) { ctx._source.evebox = new HashMap(); } if (ctx._source.evebox.history == null) { ctx._source.evebox.history = new ArrayList(); } ctx._source.evebox.history.add(params.action);"@
}

fn add_tags_script_text() -> (r: &'static str)
    ensures
        r@ == add_tags_script(),
{
    "if (params.tags != null) { if (ctx._source.tags == null) { ctx._source.tags = new ArrayList(); } for (tag in params.tags) { if (!ctx._source.tags.contains(tag)) { ctx._source.tags.add(tag); } } } if (ctx._source.evebox == null) { ctx._source.evebox = new HashMap(); } if (ctx._source.evebox.history == null) { ctx._source.evebox.history = new ArrayList(); } ctx._source.evebox.history.add(params.action);"
}

fn remove_tags_script_text() -> (r: &'static str)
    ensures
        r@ == remove_tags_script(),
{
    "if (ctx._source.tags != null) { for (tag in params.tags) { ctx._source.tags.removeIf(entry -> entry == tag); } } if (ctx._source.evebox == null) { ctx._source.evebox = new HashMap(); } if (ctx._source.evebox.history == null) { ctx._source.evebox.history = new ArrayList(); } ctx._source.evebox.history.add(params.action);"
}

pub open spec fn tags_json_v(tags: Seq<Seq<char>>) -> JsonV {
    JsonV::Array(tags.map_values(|t: Seq<char>| jstr(t)))
}

/// The body of an update by query: the documents that `query` matches run
/// `script` with the tags and the history entry as parameters.
pub open spec fn update_body_v(query: JsonV, script: Seq<char>, tags: Seq<Seq<char>>, action: JsonV) -> JsonV {
    obj2(
        "query"@,
        query,
        "script"@,
        obj3("lang"@, jstr("painless"@), "inline"@, jstr(script), "params"@, obj2("tags"@, tags_json_v(tags), "action"@, action)),
    )
}

/// The tag that the listing of alerts reads as "archived".
pub open spec fn archived_tag() -> Seq<char> {
    "evebox.archived"@
}

/// The tag that the listing of alerts reads as "escalated".
pub open spec fn escalated_tag() -> Seq<char> {
    "evebox.escalated"@
}

/// The tags that mark an archived event.
pub open spec fn archived_tags() -> Seq<Seq<char>> {
    seq!["archived"@, "evebox.archived"@]
}

/// The tags that mark an escalated event.
pub open spec fn escalated_tags() -> Seq<Seq<char>> {
    seq!["escalated"@, "evebox.escalated"@]
}

/// The query of a group update: the alerts of the group that carry none of
/// `except` (so that adding tags again does not add history again).
pub open spec fn group_query_v(ecs: bool, g: AlertGroupSpecV, except: Seq<Seq<char>>) -> JsonV {
    obj1(
        "bool"@,
        obj2(
            "filter"@,
            JsonV::Array(alert_group_filter_spec(ecs, g)),
            "must_not"@,
            JsonV::Array(except.map_values(|t: Seq<char>| tag_term_v(t))),
        ),
    )
}

/// The query of a group update that removes tags: the alerts of the group
/// that carry each of the tags.
pub open spec fn group_remove_query_v(ecs: bool, g: AlertGroupSpecV, tags: Seq<Seq<char>>) -> JsonV {
    obj1(
        "bool"@,
        obj1(
            "filter"@,
            JsonV::Array(alert_group_filter_spec(ecs, g) + tags.map_values(|t: Seq<char>| tag_term_v(t))),
        ),
    )
}

fn string_list(tags: &Vec<&str>) -> (r: Json)
    ensures
        r@ == tags_json_v(tags@.map_values(|t: &str| t@)),
{
    let ghost tv = tags@.map_values(|t: &str| t@);
    let mut out: Vec<Json> = Vec::new();
    let mut i: usize = 0;
    assert(tv.take(0).map_values(|t: Seq<char>| jstr(t)) =~= Seq::<JsonV>::empty());
    while i < tags.len()
        invariant
            i <= tags@.len(),
            tv == tags@.map_values(|t: &str| t@),
            items_view(out@) == tv.take(i as int).map_values(|t: Seq<char>| jstr(t)),
        decreases tags.len() - i,
    {
        push_item(&mut out, json_str(tags[i]));
        assert(tv.take(i + 1).map_values(|t: Seq<char>| jstr(t)) =~= tv.take(i as int).map_values(|t: Seq<char>| jstr(t)).push(jstr(tv[i as int])));
        i += 1;
    }
    assert(tv.take(i as int) =~= tv);
    json_array(out)
}

fn tag_terms(tags: &Vec<&str>, filters: &mut Vec<Json>)
    ensures
        items_view(final(filters)@) == items_view(old(filters)@) + tags@.map_values(|t: &str| t@).map_values(|t: Seq<char>| tag_term_v(t)),
{
    let ghost tv = tags@.map_values(|t: &str| t@).map_values(|t: Seq<char>| tag_term_v(t));
    let ghost start = items_view(filters@);
    let mut i: usize = 0;
    assert(start + tv.take(0) =~= start);
    while i < tags.len()
        invariant
            i <= tags@.len(),
            tv == tags@.map_values(|t: &str| t@).map_values(|t: Seq<char>| tag_term_v(t)),
            items_view(filters@) == start + tv.take(i as int),
        decreases tags.len() - i,
    {
        push_item(filters, term_filter("tags", tags[i]));
        assert(start + tv.take(i + 1) =~= (start + tv.take(i as int)).push(tv[i as int]));
        i += 1;
    }
    assert(tv.take(i as int) =~= tv);
}

/// The body that adds `tags` to the documents matched by `query`.
pub fn add_tags_by_query(query: Json, tags: &Vec<&str>, action: &HistoryEntry) -> (r: Json)
    ensures
        r@ == update_body_v(query@, add_tags_script(), tags@.map_values(|t: &str| t@), action.to_json_v()),
{
    object2(
        "query",
        query,
        "script",
        object3("lang", json_str("painless"), "inline", json_str(add_tags_script_text()), "params", object2("tags", string_list(tags), "action", action.to_json())),
    )
}

/// The body that removes `tags` from the documents matched by `query`.
pub fn remove_tags_by_query(query: Json, tags: &Vec<&str>, action: &HistoryEntry) -> (r: Json)
    ensures
        r@ == update_body_v(query@, remove_tags_script(), tags@.map_values(|t: &str| t@), action.to_json_v()),
{
    object2(
        "query",
        query,
        "script",
        object3("lang", json_str("painless"), "inline", json_str(remove_tags_script_text()), "params", object2("tags", string_list(tags), "action", action.to_json())),
    )
}

impl HistoryEntry {
    pub open spec fn to_json_v(&self) -> JsonV {
        history_v(self.username@, self.timestamp@, self.action@, match self.comment {
            Some(c) => jstr(c@),
            None => JsonV::Null,
        })
    }
}

/// A history entry of `username` doing `action` at `now` nanoseconds.
pub fn history_entry(username: &str, now: i64, action: &str, comment: Option<String>) -> (r: HistoryEntry)
    ensures
        r.username@ == username@,
        r.timestamp@ == rfc3339_millis_of(now),
        r.action@ == action@,
        r.comment == comment,
{
    HistoryEntry {
        username: String::from_str(username),
        timestamp: format_timestamp(now),
        action: String::from_str(action),
        comment,
    }
}

pub open spec fn entry_v(username: Seq<char>, now: i64, action: Seq<char>) -> JsonV {
    history_v(username, rfc3339_millis_of(now), action, JsonV::Null)
}

fn archived_tag_list() -> (r: Vec<&'static str>)
    ensures
        r@.map_values(|t: &str| t@) == archived_tags(),
{
    let v = vec!["archived", "evebox.archived"];
    assert(v@.map_values(|t: &str| t@) =~= archived_tags());
    v
}

fn escalated_tag_list() -> (r: Vec<&'static str>)
    ensures
        r@.map_values(|t: &str| t@) == escalated_tags(),
{
    let v = vec!["escalated", "evebox.escalated"];
    assert(v@.map_values(|t: &str| t@) =~= escalated_tags());
    v
}

fn one_tag(t: &'static str) -> (r: Vec<&'static str>)
    ensures
        r@.map_values(|x: &str| x@) == seq![t@],
{
    let v = vec![t];
    assert(v@.map_values(|x: &str| x@) =~= seq![t@]);
    v
}

fn no_tags() -> (r: Vec<&'static str>)
    ensures
        r@.map_values(|x: &str| x@) == Seq::<Seq<char>>::empty(),
{
    let v: Vec<&'static str> = Vec::new();
    assert(v@.map_values(|x: &str| x@) =~= Seq::<Seq<char>>::empty());
    v
}

impl EventStore {
    /// The update that archives the event with this id, as done by
    /// `anonymous` at `now` nanoseconds: it gets the tag that the alert
    /// listing reads as archived.
    pub fn archive_event_by_id(&self, event_id: &str, now: i64) -> (r: Json)
        ensures
            r@ == update_body_v(id_query_v(event_id@), add_tags_script(), seq![archived_tag()], entry_v("anonymous"@, now, "archived"@)),
    {
        let action = history_entry("anonymous", now, "archived", None);
        add_tags_by_query(id_query(event_id), &one_tag("evebox.archived"), &action)
    }

    /// The update that escalates the event with this id: it gets the tag
    /// that the alert listing counts as escalated.
    pub fn escalate_event_by_id(&self, event_id: &str, now: i64) -> (r: Json)
        ensures
            r@ == update_body_v(id_query_v(event_id@), add_tags_script(), seq![escalated_tag()], entry_v("anonymous"@, now, "escalated"@)),
    {
        let action = history_entry("anonymous", now, "escalated", None);
        add_tags_by_query(id_query(event_id), &one_tag("evebox.escalated"), &action)
    }

    /// The update that de-escalates the event with this id: the tag that
    /// the alert listing counts as escalated is removed.
    pub fn deescalate_event_by_id(&self, event_id: &str, now: i64) -> (r: Json)
        ensures
            r@ == update_body_v(id_query_v(event_id@), remove_tags_script(), seq![escalated_tag()], entry_v("anonymous"@, now, "de-escalated"@)),
    {
        let action = history_entry("anonymous", now, "de-escalated", None);
        remove_tags_by_query(id_query(event_id), &one_tag("evebox.escalated"), &action)
    }

    /// The update that adds a comment by `username` to the event with this
    /// id, leaving its tags as they are.
    pub fn comment_event_by_id(&self, event_id: &str, comment: String, username: &str, now: i64) -> (r: Json)
        ensures
            r@ == update_body_v(id_query_v(event_id@), add_tags_script(), Seq::empty(), history_v(username@, rfc3339_millis_of(now), "comment"@, jstr(comment@))),
    {
        let action = history_entry(username, now, "comment", Some(comment));
        add_tags_by_query(id_query(event_id), &no_tags(), &action)
    }

    /// The query of the alerts of a group that carry none of `except`.
    fn group_query(&self, g: &AlertGroupSpec, except: &Vec<&str>) -> (r: Json)
        ensures
            r@ == group_query_v(self.ecs, g@, except@.map_values(|t: &str| t@)),
    {
        let mut must_not: Vec<Json> = Vec::new();
        tag_terms(except, &mut must_not);
        assert(items_view(must_not@) =~= except@.map_values(|t: &str| t@).map_values(|t: Seq<char>| tag_term_v(t)));
        object1("bool", object2("filter", json_array(self.build_alert_group_filter(g)), "must_not", json_array(must_not)))
    }

    /// The update that archives the alerts of a group that are not archived
    /// yet.
    pub fn archive_by_alert_group(&self, g: &AlertGroupSpec, now: i64) -> (r: Json)
        ensures
            r@ == update_body_v(group_query_v(self.ecs, g@, archived_tags()), add_tags_script(), archived_tags(), entry_v("anonymous"@, now, "archived"@)),
    {
        let action = history_entry("anonymous", now, "archived", None);
        let tags = archived_tag_list();
        add_tags_by_query(self.group_query(g, &tags), &tags, &action)
    }

    /// The update that escalates, for `username`, the alerts of a group that
    /// are not escalated yet.
    pub fn escalate_by_alert_group(&self, g: &AlertGroupSpec, username: &str, now: i64) -> (r: Json)
        ensures
            r@ == update_body_v(group_query_v(self.ecs, g@, escalated_tags()), add_tags_script(), escalated_tags(), entry_v(username@, now, "escalated"@)),
    {
        let action = history_entry(username, now, "escalated", None);
        let tags = escalated_tag_list();
        add_tags_by_query(self.group_query(g, &tags), &tags, &action)
    }

    /// The update that de-escalates the escalated alerts of a group.
    pub fn deescalate_by_alert_group(&self, g: &AlertGroupSpec, now: i64) -> (r: Json)
        ensures
            r@ == update_body_v(group_remove_query_v(self.ecs, g@, escalated_tags()), remove_tags_script(), escalated_tags(), entry_v("anonymous"@, now, "de-escalated"@)),
    {
        let action = history_entry("anonymous", now, "de-escalated", None);
        let tags = escalated_tag_list();
        let mut filters = self.build_alert_group_filter(g);
        tag_terms(&tags, &mut filters);
        let query = object1("bool", object1("filter", json_array(filters)));
        remove_tags_by_query(query, &tags, &action)
    }

    /// The update that adds a comment by `username` to the alerts of a
    /// group.
    pub fn comment_by_alert_group(&self, g: &AlertGroupSpec, comment: String, username: &str, now: i64) -> (r: Json)
        ensures
            r@ == update_body_v(group_query_v(self.ecs, g@, Seq::empty()), add_tags_script(), Seq::empty(), history_v(username@, rfc3339_millis_of(now), "comment"@, jstr(comment@))),
    {
        let action = history_entry(username, now, "comment", Some(comment));
        let tags = no_tags();
        add_tags_by_query(self.group_query(g, &tags), &tags, &action)
    }
}

/// The workflow state of one stored document: its tags and its history.
pub struct EventStateV {
    pub tags: Seq<Seq<char>>,
    pub history: Seq<JsonV>,
}

/// `cur` with each of `tags` added when it is not there yet.
pub open spec fn add_each(cur: Seq<Seq<char>>, tags: Seq<Seq<char>>) -> Seq<Seq<char>>
    decreases tags.len(),
{
    if tags.len() == 0 {
        cur
    } else {
        let c = add_each(cur, tags.drop_last());
        if c.contains(tags.last()) {
            c
        } else {
            c.push(tags.last())
        }
    }
}

/// What the add script does to a matched document.
pub open spec fn add_tags_effect(s: EventStateV, tags: Seq<Seq<char>>, action: JsonV) -> EventStateV {
    EventStateV { tags: add_each(s.tags, tags), history: s.history.push(action) }
}

/// What the remove script does to a matched document.
pub open spec fn remove_tags_effect(s: EventStateV, tags: Seq<Seq<char>>, action: JsonV) -> EventStateV {
    EventStateV { tags: s.tags.filter(keeps(tags)), history: s.history.push(action) }
}

/// Whether a tag is kept when `tags` are removed.
pub open spec fn keeps(tags: Seq<Seq<char>>) -> spec_fn(Seq<char>) -> bool {
    |t: Seq<char>| !tags.contains(t)
}

proof fn lemma_add_each_contains(cur: Seq<Seq<char>>, tags: Seq<Seq<char>>)
    ensures
        forall|t: Seq<char>| tags.contains(t) ==> add_each(cur, tags).contains(t),
        forall|t: Seq<char>| cur.contains(t) ==> add_each(cur, tags).contains(t),
        forall|t: Seq<char>| add_each(cur, tags).contains(t) ==> cur.contains(t) || tags.contains(t),
    decreases tags.len(),
{
    if tags.len() > 0 {
        lemma_add_each_contains(cur, tags.drop_last());
        let c = add_each(cur, tags.drop_last());
        assert forall|t: Seq<char>| tags.contains(t) implies add_each(cur, tags).contains(t) by {
            let i = choose|i: int| 0 <= i < tags.len() && tags[i] == t;
            if i < tags.len() - 1 {
                assert(tags.drop_last()[i] == t);
                assert(tags.drop_last().contains(t));
                assert(c.contains(t));
                if !c.contains(tags.last()) {
                    let k = choose|k: int| 0 <= k < c.len() && c[k] == t;
                    assert(c.push(tags.last())[k] == t);
                }
            } else if !c.contains(tags.last()) {
                assert(c.push(tags.last())[c.len() as int] == tags.last());
            }
        }
        assert forall|t: Seq<char>| add_each(cur, tags).contains(t) implies cur.contains(t) || tags.contains(t) by {
            if c.contains(t) {
                if tags.drop_last().contains(t) {
                    let i = choose|i: int| 0 <= i < tags.drop_last().len() && tags.drop_last()[i] == t;
                    assert(tags[i] == t);
                }
            } else {
                assert(t == tags.last());
                assert(tags[tags.len() - 1] == t);
            }
        }
        assert forall|t: Seq<char>| cur.contains(t) implies add_each(cur, tags).contains(t) by {
            if !c.contains(tags.last()) {
                let i = choose|i: int| 0 <= i < c.len() && c[i] == t;
                assert(c.push(tags.last())[i] == t);
            }
        }
    }
}

proof fn lemma_add_each_idempotent(cur: Seq<Seq<char>>, tags: Seq<Seq<char>>)
    requires
        forall|t: Seq<char>| tags.contains(t) ==> cur.contains(t),
    ensures
        add_each(cur, tags) == cur,
    decreases tags.len(),
{
    if tags.len() > 0 {
        assert forall|t: Seq<char>| tags.drop_last().contains(t) implies cur.contains(t) by {
            let i = choose|i: int| 0 <= i < tags.drop_last().len() && tags.drop_last()[i] == t;
            assert(tags[i] == t);
        }
        lemma_add_each_idempotent(cur, tags.drop_last());
        assert(tags[tags.len() - 1] == tags.last());
    }
}

proof fn lemma_add_each_no_duplicates(cur: Seq<Seq<char>>, tags: Seq<Seq<char>>)
    requires
        cur.no_duplicates(),
    ensures
        add_each(cur, tags).no_duplicates(),
    decreases tags.len(),
{
    if tags.len() > 0 {
        lemma_add_each_no_duplicates(cur, tags.drop_last());
        let c = add_each(cur, tags.drop_last());
        if !c.contains(tags.last()) {
            let d = c.push(tags.last());
            assert forall|i: int, j: int|
                0 <= i < d.len() && 0 <= j < d.len() && i != j implies d[i] != d[j] by {
                if i == c.len() {
                    assert(d[j] == c[j]);
                } else if j == c.len() {
                    assert(d[i] == c[i]);
                } else {
                    assert(d[i] == c[i] && d[j] == c[j]);
                }
            }
        }
    }
}

/// Adding the same tags twice: the document carries them after the first
/// time (each once, when its tags had no repeats), the second time leaves
/// its tags as they were, and each time appends its history entry (entries
/// are not deduplicated). This is what archiving an event twice does.
pub proof fn lemma_add_tags_twice(s: EventStateV, tags: Seq<Seq<char>>, a1: JsonV, a2: JsonV)
    ensures
        ({
            let s1 = add_tags_effect(s, tags, a1);
            let s2 = add_tags_effect(s1, tags, a2);
            &&& forall|t: Seq<char>| tags.contains(t) ==> s2.tags.contains(t)
            &&& s2.tags == s1.tags
            &&& (s.tags.no_duplicates() ==> s2.tags.no_duplicates())
            &&& s2.history == s.history.push(a1).push(a2)
        }),
{
    let s1 = add_tags_effect(s, tags, a1);
    if s.tags.no_duplicates() {
        lemma_add_each_no_duplicates(s.tags, tags);
    }
    lemma_add_each_contains(s.tags, tags);
    lemma_add_each_idempotent(s1.tags, tags);
}

/// Tag operations are independent per tag: removing tags leaves every other
/// tag in place. So an archived event that is then de-escalated stays
/// archived.
pub proof fn lemma_archive_then_deescalate(s: EventStateV, a1: JsonV, a2: JsonV)
    ensures
        ({
            let s2 = remove_tags_effect(add_tags_effect(s, archived_tags(), a1), escalated_tags(), a2);
            &&& s2.tags.contains("archived"@)
            &&& s2.tags.contains("evebox.archived"@)
            &&& s2.history == s.history.push(a1).push(a2)
        }),
{
    let s1 = add_tags_effect(s, archived_tags(), a1);
    lemma_add_each_contains(s.tags, archived_tags());
    assert(archived_tags()[0] == "archived"@);
    assert(archived_tags()[1] == "evebox.archived"@);
    assert(archived_tags().contains("archived"@));
    assert(archived_tags().contains("evebox.archived"@));
    reveal_strlit("archived");
    reveal_strlit("evebox.archived");
    reveal_strlit("escalated");
    reveal_strlit("evebox.escalated");
    assert(!escalated_tags().contains("archived"@)) by {
        assert(escalated_tags()[0] != "archived"@);
        assert(escalated_tags()[1] != "archived"@);
    }
    assert("evebox.archived"@.len() == 15);
    assert("escalated"@.len() == 9);
    assert("evebox.escalated"@.len() == 16);
    assert(!escalated_tags().contains("evebox.archived"@)) by {
        assert(escalated_tags()[0] != "evebox.archived"@);
        assert(escalated_tags()[1] != "evebox.archived"@);
    }
    let i = choose|i: int| 0 <= i < s1.tags.len() && s1.tags[i] == "archived"@;
    let j = choose|j: int| 0 <= j < s1.tags.len() && s1.tags[j] == "evebox.archived"@;
    s1.tags.lemma_filter_contains(keeps(escalated_tags()), i);
    s1.tags.lemma_filter_contains(keeps(escalated_tags()), j);
}

/// The same for single events: archiving an event by id and then
/// de-escalating it by id leaves its archive tag in place.
pub proof fn lemma_archive_then_deescalate_by_id(s: EventStateV, a1: JsonV, a2: JsonV)
    ensures
        ({
            let s2 = remove_tags_effect(
                add_tags_effect(s, seq![archived_tag()], a1),
                seq![escalated_tag()],
                a2,
            );
            &&& s2.tags.contains(archived_tag())
            &&& s2.history == s.history.push(a1).push(a2)
        }),
{
    let s1 = add_tags_effect(s, seq![archived_tag()], a1);
    lemma_add_each_contains(s.tags, seq![archived_tag()]);
    assert(seq![archived_tag()][0] == archived_tag());
    assert(seq![archived_tag()].contains(archived_tag()));
    reveal_strlit("evebox.archived");
    reveal_strlit("evebox.escalated");
    assert("evebox.archived"@.len() == 15);
    assert("evebox.escalated"@.len() == 16);
    assert(!seq![escalated_tag()].contains(archived_tag())) by {
        assert(seq![escalated_tag()][0] != archived_tag());
    }
    let i = choose|i: int| 0 <= i < s1.tags.len() && s1.tags[i] == archived_tag();
    s1.tags.lemma_filter_contains(keeps(seq![escalated_tag()]), i);
}

/// A row after the update of its flag `f` to `value`.
pub open spec fn set_flag(r: RowV, f: Flag, value: bool) -> RowV {
    match f {
        Flag::Archived => RowV { archived: value, ..r },
        Flag::Escalated => RowV { escalated: value, ..r },
    }
}

/// A group update of the relational store changes only alerts of the group:
/// every row it selects is an alert with the group's signature, source and
/// destination, within the window.
pub proof fn lemma_alert_group_selects_group(
    r: RowV,
    g: AlertGroupSpecV,
    f: Flag,
    value: bool,
    min: i64,
    max: i64,
)
    requires
        row_meets_all(r, alert_group_preds(g, f, value, min, max)),
    ensures
        r.fields.contains_key("event_type"@) && r.fields["event_type"@] == SqlValueV::Text(
            "alert"@,
        ),
        r.fields.contains_key("alert.signature_id"@) && r.fields["alert.signature_id"@]
            == SqlValueV::Int((g.signature_id as i64) as int),
        r.fields.contains_key("src_ip"@) && r.fields["src_ip"@] == SqlValueV::Text(g.src_ip),
        r.fields.contains_key("dest_ip"@) && r.fields["dest_ip"@] == SqlValueV::Text(g.dest_ip),
        min <= r.timestamp <= max,
{
    let ps = alert_group_preds(g, f, value, min, max);
    assert(row_meets(r, ps[0]));
    assert(row_meets(r, ps[2]));
    assert(row_meets(r, ps[3]));
    assert(row_meets(r, ps[4]));
    assert(row_meets(r, ps[5]));
    assert(row_meets(r, ps[6]));
}

/// A group update of the relational store selects a row at most once: once
/// updated, the row no longer meets its conditions, so a repeated update
/// changes nothing.
pub proof fn lemma_alert_group_update_once(
    r: RowV,
    g: AlertGroupSpecV,
    f: Flag,
    value: bool,
    min: i64,
    max: i64,
)
    ensures
        !row_meets_all(set_flag(r, f, value), alert_group_preds(g, f, value, min, max)),
{
    let ps = alert_group_preds(g, f, value, min, max);
    assert(!row_meets(set_flag(r, f, value), ps[1]));
}

/// The flags of a row are independent: archiving it and then de-escalating
/// it leaves it archived.
pub proof fn lemma_archive_then_deescalate_row(r: RowV)
    ensures
        set_flag(set_flag(r, Flag::Archived, true), Flag::Escalated, false).archived,
        !set_flag(set_flag(r, Flag::Archived, true), Flag::Escalated, false).escalated,
        set_flag(set_flag(r, Flag::Archived, true), Flag::Escalated, false).source == r.source,
        set_flag(set_flag(r, Flag::Archived, true), Flag::Escalated, false).fields == r.fields,
{
}

/// Archiving a row twice leaves it archived.
pub proof fn lemma_archive_row_twice(r: RowV)
    ensures
        set_flag(set_flag(r, Flag::Archived, true), Flag::Archived, true) == set_flag(
            r,
            Flag::Archived,
            true,
        ),
        set_flag(r, Flag::Archived, true).archived,
        set_flag(r, Flag::Archived, true).escalated == r.escalated,
        set_flag(r, Flag::Archived, true).source == r.source,
        set_flag(r, Flag::Archived, true).fields == r.fields,
        set_flag(r, Flag::Archived, true).timestamp == r.timestamp,
{
}

/// The value of the flag `f` of a row.
pub open spec fn flag_of(r: RowV, f: Flag) -> bool {
    match f {
        Flag::Archived => r.archived,
        Flag::Escalated => r.escalated,
    }
}

/// Whether a row is an alert of the group: its signature, source and
/// destination, with a timestamp in `[min, max]`.
pub open spec fn in_alert_group(r: RowV, g: AlertGroupSpecV, min: i64, max: i64) -> bool {
    &&& r.fields.contains_key("event_type"@)
    &&& r.fields["event_type"@] == SqlValueV::Text("alert"@)
    &&& r.fields.contains_key("alert.signature_id"@)
    &&& r.fields["alert.signature_id"@] == SqlValueV::Int((g.signature_id as i64) as int)
    &&& r.fields.contains_key("src_ip"@)
    &&& r.fields["src_ip"@] == SqlValueV::Text(g.src_ip)
    &&& r.fields.contains_key("dest_ip"@)
    &&& r.fields["dest_ip"@] == SqlValueV::Text(g.dest_ip)
    &&& min <= r.timestamp <= max
}

/// The table after an update that sets the flag `f` to `value` on the rows
/// meeting the conditions `ps`, as `UPDATE events SET ... WHERE ...` does.
pub open spec fn update_table(rows: Seq<RowV>, ps: Seq<PredicateV>, f: Flag, value: bool) -> Seq<
    RowV,
> {
    rows.map_values(
        |r: RowV|
            if row_meets_all(r, ps) {
                set_flag(r, f, value)
            } else {
                r
            },
    )
}

/// The conditions of a group update select exactly the alerts of the group
/// in the window whose flag does not have the new value yet.
pub proof fn lemma_alert_group_preds_exact(
    r: RowV,
    g: AlertGroupSpecV,
    f: Flag,
    value: bool,
    min: i64,
    max: i64,
)
    ensures
        row_meets_all(r, alert_group_preds(g, f, value, min, max)) <==> (in_alert_group(
            r,
            g,
            min,
            max,
        ) && flag_of(r, f) != value),
{
    let ps = alert_group_preds(g, f, value, min, max);
    if row_meets_all(r, ps) {
        lemma_alert_group_selects_group(r, g, f, value, min, max);
        assert(row_meets(r, ps[1]));
    }
    if in_alert_group(r, g, min, max) && flag_of(r, f) != value {
        assert forall|i: int| 0 <= i < ps.len() implies row_meets(r, #[trigger] ps[i]) by {
            assert(i == 0 || i == 1 || i == 2 || i == 3 || i == 4 || i == 5 || i == 6);
        }
    }
}

/// A group update of the relational store, on a whole table: the alerts of
/// the group in the window whose flag did not have the new value get it,
/// every other row stays as it was, and running the update again changes
/// nothing.
pub proof fn lemma_alert_group_update_table(
    rows: Seq<RowV>,
    g: AlertGroupSpecV,
    f: Flag,
    value: bool,
    min: i64,
    max: i64,
)
    ensures
        ({
            let ps = alert_group_preds(g, f, value, min, max);
            let after = update_table(rows, ps, f, value);
            &&& after.len() == rows.len()
            &&& forall|i: int|
                0 <= i < rows.len() ==> #[trigger] after[i] == if in_alert_group(
                    rows[i],
                    g,
                    min,
                    max,
                ) && flag_of(rows[i], f) != value {
                    set_flag(rows[i], f, value)
                } else {
                    rows[i]
                }
            &&& forall|i: int|
                0 <= i < rows.len() ==> flag_of(#[trigger] after[i], f) == if in_alert_group(
                    rows[i],
                    g,
                    min,
                    max,
                ) {
                    value
                } else {
                    flag_of(rows[i], f)
                }
            &&& update_table(after, ps, f, value) == after
        }),
{
    let ps = alert_group_preds(g, f, value, min, max);
    let after = update_table(rows, ps, f, value);
    assert forall|i: int| 0 <= i < rows.len() implies #[trigger] after[i] == if in_alert_group(
        rows[i],
        g,
        min,
        max,
    ) && flag_of(rows[i], f) != value {
        set_flag(rows[i], f, value)
    } else {
        rows[i]
    } by {
        lemma_alert_group_preds_exact(rows[i], g, f, value, min, max);
    }
    assert forall|i: int| 0 <= i < rows.len() implies flag_of(#[trigger] after[i], f) == if in_alert_group(
        rows[i],
        g,
        min,
        max,
    ) {
        value
    } else {
        flag_of(rows[i], f)
    } by {
        lemma_alert_group_preds_exact(rows[i], g, f, value, min, max);
    }
    let again = update_table(after, ps, f, value);
    assert forall|i: int| 0 <= i < after.len() implies #[trigger] again[i] == after[i] by {
        lemma_alert_group_preds_exact(rows[i], g, f, value, min, max);
        lemma_alert_group_preds_exact(after[i], g, f, value, min, max);
    }
    assert(again =~= after);
}

} // verus!
