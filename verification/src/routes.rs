//! The routing table: which HTTP verb and path reach which handler.
//! The health, direct-fetch and id-fetch routes are exact GET paths;
//! the embed route is a POST under `/embed/`; the proxy routes are GET
//! and POST under `/api/`. Everything else is unrouted.

use vstd::prelude::*;

use crate::proxy::HttpMethod;
use crate::text::str_eq;

verus! {

/// The handler an inbound request is bound to. The embed and proxy
/// routes carry the remaining path segment.
pub enum Route {
    Health,
    Data,
    Mock,
    Embed(String),
    Api(String),
}

/// Whether `p` starts with the (non-empty) prefix `pre` and has more
/// characters after it.
pub open spec fn strict_prefix_of(pre: Seq<char>, p: Seq<char>) -> bool {
    p.len() > pre.len() && p.subrange(0, pre.len() as int) == pre
}

/// Whether a verb-and-path pair reaches no handler at all.
pub open spec fn unrouted(method: HttpMethod, path: Seq<char>) -> bool {
    &&& !(method is Get && path == "/health"@)
    &&& !(method is Get && path == "/data"@)
    &&& !(method is Get && path == "/mock"@)
    &&& !(method is Post && strict_prefix_of("/embed/"@, path))
    &&& !strict_prefix_of("/api/"@, path)
}

/// Bind a verb and path to a handler. Each returned route says exactly
/// which requests reach it; `None` is returned exactly for the unrouted
/// ones.
pub fn match_route(method: HttpMethod, path: &str) -> (r: Option<Route>)
    ensures
        match r {
            Some(Route::Health) => method is Get && path@ == "/health"@,
            Some(Route::Data) => method is Get && path@ == "/data"@,
            Some(Route::Mock) => method is Get && path@ == "/mock"@,
            Some(Route::Embed(rest)) => method is Post && strict_prefix_of("/embed/"@, path@)
                && rest@ == path@.skip("/embed/"@.len() as int),
            Some(Route::Api(rest)) => strict_prefix_of("/api/"@, path@) && rest@ == path@.skip(
                "/api/"@.len() as int,
            ),
            None => unrouted(method, path@),
        },
{
    proof {
        reveal_strlit("/health");
        reveal_strlit("/data");
        reveal_strlit("/mock");
        reveal_strlit("/embed/");
        reveal_strlit("/api/");
    }
    let is_get = match method {
        HttpMethod::Get => true,
        HttpMethod::Post => false,
    };
    if is_get && str_eq(path, "/health") {
        return Some(Route::Health);
    }
    if is_get && str_eq(path, "/data") {
        return Some(Route::Data);
    }
    if is_get && str_eq(path, "/mock") {
        return Some(Route::Mock);
    }
    let n = path.unicode_len();
    if !is_get && n > 7 {
        let head = path.substring_char(0, 7);
        if str_eq(head, "/embed/") {
            let rest = path.substring_char(7, n);
            return Some(Route::Embed(rest.to_owned()));
        }
    }
    if n > 5 {
        let head = path.substring_char(0, 5);
        if str_eq(head, "/api/") {
            let rest = path.substring_char(5, n);
            return Some(Route::Api(rest.to_owned()));
        }
    }
    None
}

} // verus!
