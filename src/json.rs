use vstd::prelude::*;

verus! {

/// A JSON value as the datastore builds and reads it: query bodies sent to
/// the search engine, the responses it sends back, and stored event
/// documents.
pub enum Json {
    Null,
    Bool(bool),
    Int(i64),
    UInt(u64),
    /// A number that is not an integer, held as its decimal text.
    Decimal(String),
    Str(String),
    Array(Vec<Json>),
    Object(Vec<(String, Json)>),
}

/// The mathematical value of a `Json`.
pub enum JsonV {
    Null,
    Bool(bool),
    Int(int),
    Decimal(Seq<char>),
    Str(Seq<char>),
    Array(Seq<JsonV>),
    Object(Seq<(Seq<char>, JsonV)>),
}

impl View for Json {
    type V = JsonV;

    open spec fn view(&self) -> JsonV
        decreases self,
    {
        match self {
            Json::Null => JsonV::Null,
            Json::Bool(b) => JsonV::Bool(*b),
            Json::Int(n) => JsonV::Int(*n as int),
            Json::UInt(n) => JsonV::Int(*n as int),
            Json::Decimal(s) => JsonV::Decimal(s@),
            Json::Str(s) => JsonV::Str(s@),
            Json::Array(a) => JsonV::Array(items_view(a@)),
            Json::Object(o) => JsonV::Object(entries_view(o@)),
        }
    }
}

pub open spec fn items_view(s: Seq<Json>) -> Seq<JsonV>
    decreases s,
{
    if s.len() == 0 {
        Seq::empty()
    } else {
        items_view(s.drop_last()).push(s.last()@)
    }
}

pub open spec fn entries_view(s: Seq<(String, Json)>) -> Seq<(Seq<char>, JsonV)>
    decreases s,
{
    if s.len() == 0 {
        Seq::empty()
    } else {
        entries_view(s.drop_last()).push((s.last().0@, s.last().1@))
    }
}

pub open spec fn jstr(s: Seq<char>) -> JsonV {
    JsonV::Str(s)
}

pub open spec fn obj1(k1: Seq<char>, v1: JsonV) -> JsonV {
    JsonV::Object(Seq::empty().push((k1, v1)))
}

pub open spec fn obj2(k1: Seq<char>, v1: JsonV, k2: Seq<char>, v2: JsonV) -> JsonV {
    JsonV::Object(Seq::empty().push((k1, v1)).push((k2, v2)))
}

pub open spec fn obj3(
    k1: Seq<char>,
    v1: JsonV,
    k2: Seq<char>,
    v2: JsonV,
    k3: Seq<char>,
    v3: JsonV,
) -> JsonV {
    JsonV::Object(Seq::empty().push((k1, v1)).push((k2, v2)).push((k3, v3)))
}

pub open spec fn obj4(
    k1: Seq<char>,
    v1: JsonV,
    k2: Seq<char>,
    v2: JsonV,
    k3: Seq<char>,
    v3: JsonV,
    k4: Seq<char>,
    v4: JsonV,
) -> JsonV {
    JsonV::Object(Seq::empty().push((k1, v1)).push((k2, v2)).push((k3, v3)).push((k4, v4)))
}

pub open spec fn obj5(
    k1: Seq<char>,
    v1: JsonV,
    k2: Seq<char>,
    v2: JsonV,
    k3: Seq<char>,
    v3: JsonV,
    k4: Seq<char>,
    v4: JsonV,
    k5: Seq<char>,
    v5: JsonV,
) -> JsonV {
    JsonV::Object(
        Seq::empty().push((k1, v1)).push((k2, v2)).push((k3, v3)).push((k4, v4)).push((k5, v5)),
    )
}

/// The entries of an object after `v[k] = x`: the first entry with key `k`
/// takes the value `x`, or the entry is added at the end.
pub open spec fn set_entry(es: Seq<(Seq<char>, JsonV)>, k: Seq<char>, x: JsonV) -> Seq<
    (Seq<char>, JsonV),
>
    decreases es.len(),
{
    if es.len() == 0 {
        seq![(k, x)]
    } else if es[0].0 == k {
        es.update(0, (k, x))
    } else {
        seq![es[0]] + set_entry(es.skip(1), k, x)
    }
}

/// `v[k] = x`: null becomes an object of one entry; a value that is neither
/// null nor an object stays as it is.
pub open spec fn jset(v: JsonV, k: Seq<char>, x: JsonV) -> JsonV {
    match v {
        JsonV::Object(es) => JsonV::Object(set_entry(es, k, x)),
        JsonV::Null => JsonV::Object(seq![(k, x)]),
        _ => v,
    }
}

/// The value under `k` in an object (the first entry with that key), or
/// null.
pub open spec fn lookup_entry(es: Seq<(Seq<char>, JsonV)>, k: Seq<char>) -> JsonV
    decreases es.len(),
{
    if es.len() == 0 {
        JsonV::Null
    } else if es[0].0 == k {
        es[0].1
    } else {
        lookup_entry(es.skip(1), k)
    }
}

/// `v[k]`: the member `k` of an object, null for anything else.
pub open spec fn jget(v: JsonV, k: Seq<char>) -> JsonV {
    match v {
        JsonV::Object(es) => lookup_entry(es, k),
        _ => JsonV::Null,
    }
}

/// `v[i]`: the element `i` of an array, null for anything else.
pub open spec fn jat(v: JsonV, i: int) -> JsonV {
    match v {
        JsonV::Array(a) => if 0 <= i < a.len() {
            a[i]
        } else {
            JsonV::Null
        },
        _ => JsonV::Null,
    }
}

/// The elements of an array, empty for anything else.
pub open spec fn jitems(v: JsonV) -> Seq<JsonV> {
    match v {
        JsonV::Array(a) => a,
        _ => Seq::empty(),
    }
}

pub proof fn lemma_items_view(s: Seq<Json>)
    ensures
        items_view(s).len() == s.len(),
        forall|i: int| 0 <= i < s.len() ==> #[trigger] items_view(s)[i] == s[i]@,
    decreases s.len(),
{
    if s.len() > 0 {
        lemma_items_view(s.drop_last());
        assert(items_view(s) == items_view(s.drop_last()).push(s.last()@));
        assert forall|i: int| 0 <= i < s.len() implies #[trigger] items_view(s)[i] == s[i]@ by {
            if i < s.len() - 1 {
                assert(s.drop_last()[i] == s[i]);
            }
        }
    }
}

pub proof fn lemma_entries_view(s: Seq<(String, Json)>)
    ensures
        entries_view(s).len() == s.len(),
        forall|i: int|
            0 <= i < s.len() ==> #[trigger] entries_view(s)[i] == (s[i].0@, s[i].1@),
    decreases s.len(),
{
    if s.len() > 0 {
        lemma_entries_view(s.drop_last());
        assert(entries_view(s) == entries_view(s.drop_last()).push((s.last().0@, s.last().1@)));
        assert forall|i: int| 0 <= i < s.len() implies #[trigger] entries_view(s)[i] == (
            s[i].0@,
            s[i].1@,
        ) by {
            if i < s.len() - 1 {
                assert(s.drop_last()[i] == s[i]);
                assert(entries_view(s)[i] == entries_view(s.drop_last())[i]);
            }
        }
    }
}

pub proof fn lemma_items_view_push(s: Seq<Json>, x: Json)
    ensures
        items_view(s.push(x)) == items_view(s).push(x@),
{
    assert(s.push(x).drop_last() =~= s);
}

pub proof fn lemma_entries_view_push(s: Seq<(String, Json)>, e: (String, Json))
    ensures
        entries_view(s.push(e)) == entries_view(s).push((e.0@, e.1@)),
{
    assert(s.push(e).drop_last() =~= s);
}

/// Appends `x` to a list of JSON values.
pub fn push_item(a: &mut Vec<Json>, x: Json)
    ensures
        items_view(final(a)@) == items_view(old(a)@).push(x@),
{
    proof {
        lemma_items_view_push(old(a)@, x);
    }
    a.push(x);
}

/// Appends the entry `k: v` to the entries of an object.
pub fn push_entry(o: &mut Vec<(String, Json)>, k: &str, v: Json)
    ensures
        entries_view(final(o)@) == entries_view(old(o)@).push((k@, v@)),
{
    let key = String::from_str(k);
    proof {
        lemma_entries_view_push(old(o)@, (key, v));
    }
    o.push((key, v));
}

/// A JSON string.
pub fn json_str(s: &str) -> (r: Json)
    ensures
        r@ == jstr(s@),
{
    Json::Str(String::from_str(s))
}

/// A JSON array of the given values.
pub fn json_array(a: Vec<Json>) -> (r: Json)
    ensures
        r@ == JsonV::Array(items_view(a@)),
{
    Json::Array(a)
}

/// The object `{k1: v1}`.
pub fn object1(k1: &str, v1: Json) -> (r: Json)
    ensures
        r@ == obj1(k1@, v1@),
{
    let mut o: Vec<(String, Json)> = Vec::new();
    push_entry(&mut o, k1, v1);
    Json::Object(o)
}

/// The object `{k1: v1, k2: v2}`.
pub fn object2(k1: &str, v1: Json, k2: &str, v2: Json) -> (r: Json)
    ensures
        r@ == obj2(k1@, v1@, k2@, v2@),
{
    let mut o: Vec<(String, Json)> = Vec::new();
    push_entry(&mut o, k1, v1);
    push_entry(&mut o, k2, v2);
    Json::Object(o)
}

/// The object `{k1: v1, k2: v2, k3: v3}`.
pub fn object3(k1: &str, v1: Json, k2: &str, v2: Json, k3: &str, v3: Json) -> (r: Json)
    ensures
        r@ == obj3(k1@, v1@, k2@, v2@, k3@, v3@),
{
    let mut o: Vec<(String, Json)> = Vec::new();
    push_entry(&mut o, k1, v1);
    push_entry(&mut o, k2, v2);
    push_entry(&mut o, k3, v3);
    Json::Object(o)
}

/// The object `{k1: v1, k2: v2, k3: v3, k4: v4}`.
pub fn object4(
    k1: &str,
    v1: Json,
    k2: &str,
    v2: Json,
    k3: &str,
    v3: Json,
    k4: &str,
    v4: Json,
) -> (r: Json)
    ensures
        r@ == obj4(k1@, v1@, k2@, v2@, k3@, v3@, k4@, v4@),
{
    let mut o: Vec<(String, Json)> = Vec::new();
    push_entry(&mut o, k1, v1);
    push_entry(&mut o, k2, v2);
    push_entry(&mut o, k3, v3);
    push_entry(&mut o, k4, v4);
    Json::Object(o)
}

/// The object `{k1: v1, k2: v2, k3: v3, k4: v4, k5: v5}`.
pub fn object5(
    k1: &str,
    v1: Json,
    k2: &str,
    v2: Json,
    k3: &str,
    v3: Json,
    k4: &str,
    v4: Json,
    k5: &str,
    v5: Json,
) -> (r: Json)
    ensures
        r@ == obj5(k1@, v1@, k2@, v2@, k3@, v3@, k4@, v4@, k5@, v5@),
{
    let mut o: Vec<(String, Json)> = Vec::new();
    push_entry(&mut o, k1, v1);
    push_entry(&mut o, k2, v2);
    push_entry(&mut o, k3, v3);
    push_entry(&mut o, k4, v4);
    push_entry(&mut o, k5, v5);
    Json::Object(o)
}

/// A JSON array of one value.
pub fn json_array1(x: Json) -> (r: Json)
    ensures
        r@ == JsonV::Array(seq![x@]),
{
    let mut a: Vec<Json> = Vec::new();
    push_item(&mut a, x);
    Json::Array(a)
}

/// The JSON value of an optional string: the string, or null.
pub fn json_opt_str(s: &Option<String>) -> (r: Json)
    ensures
        r@ == match s {
            Some(t) => jstr(t@),
            None => JsonV::Null,
        },
{
    match s {
        Some(t) => json_str(t.as_str()),
        None => Json::Null,
    }
}

impl Json {
    /// This value after `self[key] = x`.
    pub fn with_member(self, key: &str, x: Json) -> (r: Json)
        ensures
            r@ == jset(self@, key@, x@),
    {
        let ghost orig = self@;
        match self {
            Json::Object(mut o) => {
                let k = String::from_str(key);
                let ghost es = entries_view(o@);
                let mut i: usize = 0;
                proof {
                    lemma_entries_view(o@);
                    assert(es.skip(0) =~= es);
                    assert(es.take(0) + set_entry(es, key@, x@) =~= set_entry(es, key@, x@));
                }
                while i < o.len()
                    invariant
                        i <= o@.len(),
                        es == entries_view(o@),
                        orig == JsonV::Object(es),
                        orig == self@,
                        es.len() == o@.len(),
                        forall|j: int| 0 <= j < o@.len() ==> #[trigger] es[j] == (o@[j].0@, o@[j].1@),
                        k@ == key@,
                        set_entry(es, key@, x@) == es.take(i as int) + set_entry(
                            es.skip(i as int),
                            key@,
                            x@,
                        ),
                    decreases o.len() - i,
                {
                    if o[i].0 == k {
                        assert(es.skip(i as int)[0] == es[i as int]);
                        assert(es.skip(i as int).len() > 0);
                        assert(es.skip(i as int)[0].0 == key@);
                        assert(set_entry(es.skip(i as int), key@, x@) == es.skip(i as int).update(
                            0,
                            (key@, x@),
                        ));
                        assert(es.take(i as int) + es.skip(i as int).update(0, (key@, x@)) =~= es.update(i as int, (key@, x@)));
                        let ghost old_o = o@;
                        o.set(i, (k, x));
                        proof {
                            lemma_entries_view(o@);
                            assert(entries_view(o@) =~= es.update(i as int, (key@, x@)));
                            assert(set_entry(es, key@, x@) =~= es.update(i as int, (key@, x@)));
                            assert(jset(orig, key@, x@) == JsonV::Object(entries_view(o@)));
                        }
                        let r = Json::Object(o);
                        return r;
                    }
                    assert(es.skip(i as int) =~= seq![es[i as int]] + es.skip(i + 1));
                    assert(es.skip(i as int).skip(1) =~= es.skip(i + 1));
                    assert(es.take(i + 1) =~= es.take(i as int) + seq![es[i as int]]);
                    i += 1;
                }
                assert(es.skip(i as int) =~= Seq::<(Seq<char>, JsonV)>::empty());
                assert(es.take(i as int) =~= es);
                assert(es + seq![(key@, x@)] =~= es.push((key@, x@)));
                proof {
                    lemma_entries_view_push(o@, (k, x));
                }
                o.push((k, x));
                Json::Object(o)
            },
            Json::Null => {
                let mut o: Vec<(String, Json)> = Vec::new();
                push_entry(&mut o, key, x);
                Json::Object(o)
            },
            other => other,
        }
    }

    /// A copy of this value.
    pub fn deep_clone(&self) -> (r: Json)
        ensures
            r@ == self@,
        decreases self,
    {
        match self {
            Json::Null => Json::Null,
            Json::Bool(b) => Json::Bool(*b),
            Json::Int(n) => Json::Int(*n),
            Json::UInt(n) => Json::UInt(*n),
            Json::Decimal(s) => Json::Decimal(s.clone()),
            Json::Str(s) => Json::Str(s.clone()),
            Json::Array(a) => {
                let mut out: Vec<Json> = Vec::new();
                let mut i: usize = 0;
                while i < a.len()
                    invariant
                        i <= a@.len(),
                        *self == Json::Array(*a),
                        items_view(out@) == items_view(a@.take(i as int)),
                    decreases a.len() - i,
                {
                    proof {
                        broadcast use vstd::std_specs::vec::axiom_vec_index_decreases;

                        assert(decreases_to!(*self => self->Array_0));
                        assert(decreases_to!(self->Array_0 => self->Array_0[i as int]));
                    }
                    let x = a[i].deep_clone();
                    push_item(&mut out, x);
                    assert(a@.take(i + 1).drop_last() =~= a@.take(i as int));
                    i += 1;
                }
                assert(a@.take(a@.len() as int) =~= a@);
                Json::Array(out)
            },
            Json::Object(o) => {
                let mut out: Vec<(String, Json)> = Vec::new();
                let mut i: usize = 0;
                while i < o.len()
                    invariant
                        i <= o@.len(),
                        *self == Json::Object(*o),
                        entries_view(out@) == entries_view(o@.take(i as int)),
                    decreases o.len() - i,
                {
                    proof {
                        broadcast use vstd::std_specs::vec::axiom_vec_index_decreases;

                        assert(decreases_to!(*self => self->Object_0));
                        assert(decreases_to!(self->Object_0 => self->Object_0[i as int]));
                        assert(decreases_to!(self->Object_0[i as int] => self->Object_0[i as int].1));
                    }
                    let x = o[i].1.deep_clone();
                    let k = o[i].0.clone();
                    proof {
                        lemma_entries_view_push(out@, (k, x));
                    }
                    out.push((k, x));
                    assert(o@.take(i + 1).drop_last() =~= o@.take(i as int));
                    i += 1;
                }
                assert(o@.take(o@.len() as int) =~= o@);
                Json::Object(out)
            },
        }
    }

    /// `self[key]`: the member `key` of an object; null when there is none
    /// or when `self` is not an object.
    pub fn get(&self, key: &str) -> (r: &Json)
        ensures
            r@ == jget(self@, key@),
    {
        match self {
            Json::Object(o) => {
                let k = String::from_str(key);
                let mut i: usize = 0;
                proof {
                    lemma_entries_view(o@);
                    assert(entries_view(o@).skip(0) =~= entries_view(o@));
                }
                while i < o.len()
                    invariant
                        i <= o@.len(),
                        *self == Json::Object(*o),
                        entries_view(o@).len() == o@.len(),
                        forall|j: int|
                            0 <= j < o@.len() ==> #[trigger] entries_view(o@)[j] == (
                                o@[j].0@,
                                o@[j].1@,
                            ),
                        k@ == key@,
                        lookup_entry(entries_view(o@), key@) == lookup_entry(
                            entries_view(o@).skip(i as int),
                            key@,
                        ),
                    decreases o.len() - i,
                {
                    let ghost es = entries_view(o@);
                    if o[i].0 == k {
                        assert(es.skip(i as int)[0] == es[i as int]);
                        assert(es.skip(i as int).len() > 0);
                        assert(es.skip(i as int)[0].0 == key@);
                        return &o[i].1;
                    }
                    assert(es.skip(i as int).skip(1) =~= es.skip(i + 1));
                    i += 1;
                }
                &Json::Null
            },
            _ => &Json::Null,
        }
    }

    /// `self[i]`: the element `i` of an array; null when there is none or
    /// when `self` is not an array.
    pub fn at(&self, i: usize) -> (r: &Json)
        ensures
            r@ == jat(self@, i as int),
    {
        match self {
            Json::Array(a) => {
                proof {
                    lemma_items_view(a@);
                }
                if i < a.len() {
                    &a[i]
                } else {
                    &Json::Null
                }
            },
            _ => &Json::Null,
        }
    }

    /// The elements of an array (none when `self` is not an array).
    pub fn items(&self) -> (r: &[Json])
        ensures
            items_view(r@) == jitems(self@),
    {
        match self {
            Json::Array(a) => a.as_slice(),
            _ => &[],
        }
    }
}

} // verus!
