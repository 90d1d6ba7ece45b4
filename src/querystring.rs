use vstd::prelude::*;

verus! {

/// One element of a search string.
#[derive(Clone, Debug, PartialEq)]
pub enum QueryElement {
    /// `key:value`: an exact match on a field.
    KeyVal(String, String),
    /// Any other token: free text searched for in the whole event.
    Text(String),
}

pub enum QueryElementV {
    KeyVal(Seq<char>, Seq<char>),
    Text(Seq<char>),
}

impl View for QueryElement {
    type V = QueryElementV;

    open spec fn view(&self) -> QueryElementV {
        match self {
            QueryElement::KeyVal(k, v) => QueryElementV::KeyVal(k@, v@),
            QueryElement::Text(t) => QueryElementV::Text(t@),
        }
    }
}

pub open spec fn elements_view(s: Seq<QueryElement>) -> Seq<QueryElementV> {
    s.map_values(|e: QueryElement| e@)
}

/// The characters that separate tokens.
pub open spec fn is_space(c: char) -> bool {
    c == ' ' || c == '\t' || c == '\n' || c == '\r'
}

/// The first position at or after `i` that does not hold a separator.
pub open spec fn skip_spaces(s: Seq<char>, i: int) -> int
    decreases s.len() - i,
{
    if 0 <= i < s.len() && is_space(s[i]) {
        skip_spaces(s, i + 1)
    } else {
        i
    }
}

/// The first position at or after `i` that holds a separator, or the end.
pub open spec fn token_end(s: Seq<char>, i: int) -> int
    decreases s.len() - i,
{
    if 0 <= i < s.len() && !is_space(s[i]) {
        token_end(s, i + 1)
    } else {
        i
    }
}

/// The position of the first `:` at or after `i` in `t`, or its length.
pub open spec fn colon_index(t: Seq<char>, i: int) -> int
    decreases t.len() - i,
{
    if i < 0 || i >= t.len() {
        t.len() as int
    } else if t[i] == ':' {
        i
    } else {
        colon_index(t, i + 1)
    }
}

/// A token is `key:value` when it holds a `:` after at least one character;
/// otherwise it is free text.
pub open spec fn element_of(t: Seq<char>) -> QueryElementV {
    let c = colon_index(t, 0);
    if 0 < c < t.len() {
        QueryElementV::KeyVal(t.subrange(0, c), t.subrange(c + 1, t.len() as int))
    } else {
        QueryElementV::Text(t)
    }
}

/// The elements of `s` from position `i` on, at most `limit` of them.
pub open spec fn elements_from(s: Seq<char>, i: int, limit: nat) -> Seq<QueryElementV>
    decreases limit,
{
    if limit == 0 {
        Seq::empty()
    } else {
        let j = skip_spaces(s, i);
        if j >= s.len() {
            Seq::empty()
        } else {
            let k = token_end(s, j);
            seq![element_of(s.subrange(j, k))] + elements_from(s, k, (limit - 1) as nat)
        }
    }
}

pub open spec fn parse_spec(s: Seq<char>, limit: nat) -> Seq<QueryElementV> {
    elements_from(s, 0, limit)
}

proof fn lemma_token_end(s: Seq<char>, i: int)
    requires
        0 <= i <= s.len(),
    ensures
        i <= token_end(s, i) <= s.len(),
        i < s.len() && !is_space(s[i]) ==> i < token_end(s, i),
    decreases s.len() - i,
{
    if i < s.len() && !is_space(s[i]) {
        lemma_token_end(s, i + 1);
    }
}

proof fn lemma_elements_len(s: Seq<char>, i: int, limit: nat)
    ensures
        elements_from(s, i, limit).len() <= limit,
    decreases limit,
{
    if limit > 0 {
        let j = skip_spaces(s, i);
        if j < s.len() {
            lemma_elements_len(s, token_end(s, j), (limit - 1) as nat);
        }
    }
}

fn is_space_char(c: char) -> (r: bool)
    ensures
        r == is_space(c),
{
    c == ' ' || c == '\t' || c == '\n' || c == '\r'
}

/// Reads the token of `q` that starts at `j` (`j < k`, `k` its end).
fn element_at(q: &str, j: usize, k: usize) -> (r: QueryElement)
    requires
        j < k <= q@.len(),
    ensures
        r@ == element_of(q@.subrange(j as int, k as int)),
{
    let ghost t = q@.subrange(j as int, k as int);
    let mut p: usize = j;
    while p < k && q.get_char(p) != ':'
        invariant
            j <= p <= k,
            k <= q@.len(),
            t == q@.subrange(j as int, k as int),
            colon_index(t, 0) == colon_index(t, p - j),
        decreases k - p,
    {
        p += 1;
    }
    assert(colon_index(t, p - j) == p - j);
    if p > j && p < k {
        let key = String::from_str(q.substring_char(j, p));
        let val = String::from_str(q.substring_char(p + 1, k));
        assert(key@ =~= t.subrange(0, p - j));
        assert(val@ =~= t.subrange(p - j + 1, t.len() as int));
        QueryElement::KeyVal(key, val)
    } else {
        QueryElement::Text(String::from_str(q.substring_char(j, k)))
    }
}

/// Splits a search string into its elements: tokens are separated by
/// spaces, a token `key:value` is an exact match and any other token free
/// text. At most `limit` elements are read, so that parsing ends on every
/// input after a bounded number of steps; what lies beyond them is dropped.
pub fn parse_query(q: &str, limit: usize) -> (r: Vec<QueryElement>)
    ensures
        elements_view(r@) == parse_spec(q@, limit as nat),
        r@.len() <= limit,
{
    let n = q.unicode_len();
    let mut out: Vec<QueryElement> = Vec::new();
    let mut i: usize = 0;
    let mut count: usize = 0;
    proof {
        assert(elements_view(out@) =~= Seq::<QueryElementV>::empty());
    }
    while count < limit
        invariant
            n == q@.len(),
            i <= n,
            count <= limit,
            out@.len() == count,
            elements_view(out@) + elements_from(q@, i as int, (limit - count) as nat)
                == parse_spec(q@, limit as nat),
        decreases limit - count,
    {
        let ghost s = q@;
        let mut j: usize = i;
        while j < n && is_space_char(q.get_char(j))
            invariant
                n == q@.len(),
                s == q@,
                i <= j <= n,
                skip_spaces(s, i as int) == skip_spaces(s, j as int),
            decreases n - j,
        {
            j += 1;
        }
        if j >= n {
            assert(elements_from(s, i as int, (limit - count) as nat) =~= Seq::empty());
            assert(elements_view(out@) =~= parse_spec(q@, limit as nat));
            proof {
                lemma_elements_len(s, 0, limit as nat);
            }
            return out;
        }
        let mut k: usize = j;
        while k < n && !is_space_char(q.get_char(k))
            invariant
                n == q@.len(),
                s == q@,
                j <= k <= n,
                j < n,
                !is_space(s[j as int]),
                token_end(s, j as int) == token_end(s, k as int),
            decreases n - k,
        {
            k += 1;
        }
        proof {
            lemma_token_end(s, j as int);
        }
        let e = element_at(q, j, k);
        let ghost before = elements_view(out@);
        out.push(e);
        assert(elements_view(out@) =~= before.push(e@));
        assert(elements_from(s, i as int, (limit - count) as nat) == seq![e@] + elements_from(
            s,
            k as int,
            (limit - count - 1) as nat,
        ));
        assert(before.push(e@) + elements_from(s, k as int, (limit - count - 1) as nat) =~= before
            + (seq![e@] + elements_from(s, k as int, (limit - count - 1) as nat)));
        i = k;
        count += 1;
    }
    assert(elements_from(q@, i as int, 0) =~= Seq::empty());
    assert(elements_view(out@) =~= parse_spec(q@, limit as nat));
    out
}

} // verus!
