//! Parsing the relay command out of a request URI's query string.
//!
//! The command arrives as `?relay=on` (possibly among other parameters); the
//! value of the first `relay` pair wins.

use vstd::prelude::*;

use crate::text::{find_char, find_char_idx, lemma_find_char_idx_bounds, str_eq};

verus! {

/// The value of a single `key=value` pair when its key is `relay`: the part
/// after the first `=`, which may itself contain `=`.
pub open spec fn relay_kv(kv: Seq<char>) -> Option<Seq<char>> {
    let eq = find_char_idx(kv, '=');
    if eq == kv.len() {
        None
    } else if kv.take(eq) == "relay"@ {
        Some(kv.skip(eq + 1))
    } else {
        None
    }
}

/// The value of the first `relay` pair among the `&`-separated pairs of a
/// query string, if any.
pub open spec fn relay_in_query(qs: Seq<char>) -> Option<Seq<char>>
    decreases qs.len(),
    via relay_in_query_decreases
{
    let amp = find_char_idx(qs, '&');
    match relay_kv(qs.take(amp)) {
        Some(v) => Some(v),
        None => if amp == qs.len() {
            None
        } else {
            relay_in_query(qs.skip(amp + 1))
        },
    }
}

#[via_fn]
proof fn relay_in_query_decreases(qs: Seq<char>) {
    lemma_find_char_idx_bounds(qs, '&');
}

/// The relay value carried in a URI: the first `relay` pair of the query
/// string after the first `?`, if both exist.
pub open spec fn relay_param_of(uri: Seq<char>) -> Option<Seq<char>> {
    let q = find_char_idx(uri, '?');
    if q == uri.len() {
        None
    } else {
        relay_in_query(uri.skip(q + 1))
    }
}

/// The value of a `key=value` pair when its key is `relay`.
fn relay_kv_str(kv: &str) -> (r: Option<&str>)
    ensures
        r is Some <==> relay_kv(kv@) is Some,
        r matches Some(v) ==> v@ == relay_kv(kv@)->0,
{
    let n = kv.unicode_len();
    let eq = find_char(kv, '=');
    if eq == n {
        return None;
    }
    let key = kv.substring_char(0, eq);
    proof {
        assert(key@ =~= kv@.take(eq as int));
    }
    if str_eq(key, "relay") {
        let value = kv.substring_char(eq + 1, n);
        proof {
            assert(value@ =~= kv@.skip(eq + 1 as int));
        }
        Some(value)
    } else {
        None
    }
}

/// The value of the first `relay` pair in a query string.
fn relay_in_query_str(qs: &str) -> (r: Option<&str>)
    ensures
        r is Some <==> relay_in_query(qs@) is Some,
        r matches Some(v) ==> v@ == relay_in_query(qs@)->0,
    decreases qs@.len(),
{
    let n = qs.unicode_len();
    let amp = find_char(qs, '&');
    let kv = qs.substring_char(0, amp);
    proof {
        assert(kv@ =~= qs@.take(amp as int));
    }
    match relay_kv_str(kv) {
        Some(value) => Some(value),
        None => {
            if amp == n {
                None
            } else {
                let rest = qs.substring_char(amp + 1, n);
                proof {
                    assert(rest@ =~= qs@.skip(amp + 1 as int));
                }
                relay_in_query_str(rest)
            }
        },
    }
}

/// Extracts the relay command value from a request URI, if its query string
/// carries one.
pub fn extract_relay_param(uri: &str) -> (r: Option<&str>)
    ensures
        r is Some <==> relay_param_of(uri@) is Some,
        r matches Some(v) ==> v@ == relay_param_of(uri@)->0,
{
    let n = uri.unicode_len();
    let q = find_char(uri, '?');
    if q == n {
        return None;
    }
    let qs = uri.substring_char(q + 1, n);
    proof {
        assert(qs@ =~= uri@.skip(q + 1 as int));
    }
    relay_in_query_str(qs)
}

} // verus!
