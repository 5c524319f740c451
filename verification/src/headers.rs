//! The header filter: the only boundary deciding which inbound headers
//! may cross to an upstream service. A header is forwarded iff its name
//! case-insensitively equals one of `authorization`, `content-type`,
//! `accept`, `user-agent`, or starts with `x-`.

use vstd::prelude::*;

use crate::text::{ascii_lower_char, eq_ignore_ascii_case, str_eq_ignore_case, lower_char};

verus! {

/// The forwarding policy: a header name passes iff it case-insensitively
/// equals one of the four allowed names or starts with `x-`.
pub open spec fn header_allowed(h: Seq<char>) -> bool {
    ||| eq_ignore_ascii_case(h, "authorization"@)
    ||| eq_ignore_ascii_case(h, "content-type"@)
    ||| eq_ignore_ascii_case(h, "accept"@)
    ||| eq_ignore_ascii_case(h, "user-agent"@)
    ||| (h.len() >= 2 && ascii_lower_char(h[0]) == 'x' && ascii_lower_char(h[1]) == '-')
}

/// Decide whether a header may be forwarded to an upstream service.
pub fn should_forward_header(header_name: &str) -> (forward: bool)
    ensures
        forward == header_allowed(header_name@),
{
    if str_eq_ignore_case(header_name, "authorization") {
        return true;
    }
    if str_eq_ignore_case(header_name, "content-type") {
        return true;
    }
    if str_eq_ignore_case(header_name, "accept") {
        return true;
    }
    if str_eq_ignore_case(header_name, "user-agent") {
        return true;
    }
    let n = header_name.unicode_len();
    if n >= 2 {
        let c0 = lower_char(header_name.get_char(0));
        let c1 = lower_char(header_name.get_char(1));
        c0 == 'x' && c1 == '-'
    } else {
        false
    }
}

/// The subsequence of headers whose names pass the filter, in their
/// original order, with names and values unchanged.
pub open spec fn spec_filter_headers(hs: Seq<(String, String)>) -> Seq<(String, String)>
    decreases hs.len(),
{
    if hs.len() == 0 {
        Seq::empty()
    } else if header_allowed(hs[0].0@) {
        seq![hs[0]] + spec_filter_headers(hs.drop_first())
    } else {
        spec_filter_headers(hs.drop_first())
    }
}

/// Law: the filtered headers are exactly the allowed ones — every kept
/// header passes the policy, no more headers are kept than were given,
/// and every given header that passes the policy is kept.
pub proof fn lemma_filter_headers_exact(hs: Seq<(String, String)>)
    ensures
        forall|i: int|
            0 <= i < spec_filter_headers(hs).len() ==> header_allowed(
                (#[trigger] spec_filter_headers(hs)[i]).0@,
            ),
        spec_filter_headers(hs).len() <= hs.len(),
        forall|j: int|
            0 <= j < hs.len() && header_allowed((#[trigger] hs[j]).0@) ==> spec_filter_headers(
                hs,
            ).contains(hs[j]),
    decreases hs.len(),
{
    if hs.len() > 0 {
        lemma_filter_headers_exact(hs.drop_first());
        let rest = spec_filter_headers(hs.drop_first());
        assert forall|j: int| 0 <= j < hs.len() && header_allowed((#[trigger] hs[j]).0@) implies
            spec_filter_headers(hs).contains(hs[j]) by {
            if j == 0 {
                assert(spec_filter_headers(hs)[0] == hs[0]);
            } else {
                assert(hs.drop_first()[j - 1] == hs[j]);
                assert(rest.contains(hs[j]));
                let k = choose|k: int| 0 <= k < rest.len() && rest[k] == hs[j];
                if header_allowed(hs[0].0@) {
                    assert(spec_filter_headers(hs)[k + 1] == hs[j]);
                } else {
                    assert(spec_filter_headers(hs)[k] == hs[j]);
                }
            }
        }
    }
}

/// Keep exactly the headers the policy allows, preserving their order.
pub fn filter_headers(headers: Vec<(String, String)>) -> (kept: Vec<(String, String)>)
    ensures
        kept@ == spec_filter_headers(headers@),
{
    let mut rest = headers;
    let mut kept: Vec<(String, String)> = Vec::new();
    loop
        invariant
            kept@ + spec_filter_headers(rest@) == spec_filter_headers(headers@),
        decreases rest@.len(),
    {
        if rest.len() == 0 {
            proof {
                assert(kept@ + spec_filter_headers(rest@) =~= kept@);
            }
            return kept;
        }
        let ghost r: Seq<(String, String)> = rest@;
        let ghost k: Seq<(String, String)> = kept@;
        let pair = rest.remove(0);
        proof {
            assert(rest@ =~= r.drop_first());
        }
        let forward = should_forward_header(pair.0.as_str());
        if forward {
            kept.push(pair);
            proof {
                assert(spec_filter_headers(r) == seq![pair] + spec_filter_headers(r.drop_first()));
                assert(kept@ + spec_filter_headers(rest@) =~= k + spec_filter_headers(r));
            }
        } else {
            proof {
                assert(spec_filter_headers(r) == spec_filter_headers(r.drop_first()));
            }
        }
    }
}

} // verus!
