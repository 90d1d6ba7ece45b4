use vstd::prelude::*;

use crate::text::concat2;

verus! {

/// Why a request was turned away.
#[derive(PartialEq, Eq, Structural, Clone, Copy, Debug)]
pub enum GenericError {
    NotFound,
    AuthenticationRequired,
}

/// `s` without its leading and trailing white space.
pub uninterp spec fn trim_of(s: Seq<char>) -> Seq<char>;

/// Relies on `str::trim`: the text without leading and trailing white
/// space, which depends on the text alone.
#[verifier::external_body]
fn trimmed(s: &str) -> (r: String)
    ensures
        r@ == trim_of(s@),
{
    s.trim().to_string()
}

/// The first position of `,` in `s`, or its length.
pub open spec fn comma_index(s: Seq<char>, i: int) -> int
    decreases s.len() - i,
{
    if i < 0 || i >= s.len() {
        s.len() as int
    } else if s[i] == ',' {
        i
    } else {
        comma_index(s, i + 1)
    }
}

/// The address a request came from: the first address of the forwarded-for
/// header when that header is trusted and present, else the address of the
/// peer, else a placeholder.
pub open spec fn remote_addr_spec(socket_ip: Option<Seq<char>>, xff: Option<Seq<char>>, enable_xff: bool) -> Seq<char> {
    if enable_xff && xff is Some {
        let x = xff->Some_0;
        trim_of(x.subrange(0, comma_index(x, 0)))
    } else if socket_ip is Some {
        socket_ip->Some_0
    } else {
        "<unknown-remote>"@
    }
}

/// The address a request came from; `socket_ip` is the peer's address as
/// text.
pub fn get_remote_addr(socket_ip: Option<String>, xff: Option<String>, enable_xff: bool) -> (r: String)
    ensures
        r@ == remote_addr_spec(
            match socket_ip {
                Some(s) => Some(s@),
                None => None,
            },
            match xff {
                Some(s) => Some(s@),
                None => None,
            },
            enable_xff,
        ),
{
    if enable_xff {
        if let Some(x) = &xff {
            let n = x.as_str().unicode_len();
            let mut i: usize = 0;
            while i < n && x.as_str().get_char(i) != ','
                invariant
                    n == x@.len(),
                    i <= n,
                    comma_index(x@, 0) == comma_index(x@, i as int),
                decreases n - i,
            {
                i += 1;
            }
            return trimmed(x.as_str().substring_char(0, i));
        }
    }
    match socket_ip {
        Some(s) => s,
        None => String::from_str("<unknown-remote>"),
    }
}

/// The index pattern that searches cover: the base index itself, or all
/// the indices named after it with a suffix.
pub fn index_pattern(base_index: &str, no_index_suffix: bool) -> (r: String)
    ensures
        r@ == if no_index_suffix {
            base_index@
        } else {
            base_index@ + "-*"@
        },
{
    if no_index_suffix {
        String::from_str(base_index)
    } else {
        concat2(base_index, "-*")
    }
}

} // verus!
