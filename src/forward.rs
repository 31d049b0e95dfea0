//! The request forwarder: from an inbound request and its route to the
//! outbound request, and from the upstream's answer to the client's reply.
use vstd::prelude::*;
use vstd::string::*;
use crate::headers::{client_headers, outbound_headers, pairs, relayed, upstream_headers, Header};
use crate::route::Route;
use crate::text::{has_prefix, starts_with, trim_trailing_slashes, trimmed_len};

verus! {

/// The path sent upstream: the inbound path without the route's prefix
/// (kept whole under the root prefix), or `/` when nothing is left.
pub open spec fn rewritten_path(prefix: Seq<char>, path: Seq<char>) -> Seq<char> {
    let rest = if prefix == "/"@ {
        path
    } else if has_prefix(path, prefix) {
        path.subrange(prefix.len() as int, path.len() as int)
    } else {
        path
    };
    if rest.len() == 0 { "/"@ } else { rest }
}

/// `?` and the query, or nothing when there is none.
pub open spec fn query_suffix(query: Option<Seq<char>>) -> Seq<char> {
    match query {
        Some(q) => "?"@ + q,
        None => Seq::empty(),
    }
}

/// The upstream URL: base without trailing slashes, rewritten path, query.
pub open spec fn target_of(upstream: Seq<char>, prefix: Seq<char>, path: Seq<char>, query: Option<Seq<char>>) -> Seq<char> {
    trim_trailing_slashes(upstream) + rewritten_path(prefix, path) + query_suffix(query)
}

pub open spec fn opt_view(q: Option<&str>) -> Option<Seq<char>> {
    match q {
        Some(s) => Some(s@),
        None => None,
    }
}

pub fn rewrite_path(prefix: &str, path: &str) -> (r: String)
    ensures
        r@ == rewritten_path(prefix@, path@),
{
    let is_root = prefix.to_owned() == String::from_str("/");
    let rest: &str = if is_root {
        path
    } else if starts_with(path, prefix) {
        path.substring_char(prefix.unicode_len(), path.unicode_len())
    } else {
        path
    };
    if rest.unicode_len() == 0 {
        String::from_str("/")
    } else {
        String::from_str(rest)
    }
}

/// The URL that a request for `path?query` under the route goes to.
pub fn target_url(upstream: &str, prefix: &str, path: &str, query: Option<&str>) -> (r: String)
    ensures
        r@ == target_of(upstream@, prefix@, path@, opt_view(query)),
{
    let n = trimmed_len(upstream);
    let base = String::from_str(upstream.substring_char(0, n));
    let rest = rewrite_path(prefix, path);
    let mut target = base.concat(rest.as_str());
    match query {
        Some(q) => {
            target.append("?");
            target.append(q);
            proof {
                assert(target@ =~= trim_trailing_slashes(upstream@) + rewritten_path(prefix@, path@) + ("?"@ + q@));
            }
        },
        None => {
            proof {
                assert(target@ =~= target@ + Seq::<char>::empty());
            }
        },
    }
    target
}

/// What the inbound body turned out to be once read.
pub enum InboundBody {
    /// The whole body, read within the limit.
    Bytes(Vec<u8>),
    /// Reading stopped because the body went past the limit.
    OverLimit,
}

/// The request to send upstream.
pub struct OutboundRequest {
    pub method: String,
    pub url: String,
    pub headers: Vec<Header>,
    pub body: Vec<u8>,
}

/// A response for the client.
pub struct Reply {
    pub status: u16,
    pub headers: Vec<Header>,
    pub body: Vec<u8>,
}

pub const PAYLOAD_TOO_LARGE: u16 = 413;
pub const BAD_GATEWAY: u16 = 502;

/// A fixed response with no headers and a short text body.
pub open spec fn is_fixed_reply(r: Reply, status: u16, text: Seq<char>) -> bool {
    r.status == status && r.headers@.len() == 0 && r.body@ == text.map_values(|c: char| c as u8)
}

/// What the forwarder does with an inbound request: answer it at once, or
/// send a request upstream.
pub enum Plan {
    Answer(Reply),
    Send(OutboundRequest),
}

/// The body fits the configured ceiling.
pub open spec fn body_fits(body: InboundBody, max_body: usize) -> bool {
    match body {
        InboundBody::Bytes(b) => b@.len() <= max_body,
        InboundBody::OverLimit => false,
    }
}

fn text_bytes(s: &str) -> (r: Vec<u8>)
    requires
        forall|i: int| 0 <= i < s@.len() ==> (s@[i] as u32) < 128,
    ensures
        r@ == s@.map_values(|c: char| c as u8),
{
    let n = s.unicode_len();
    let mut out: Vec<u8> = Vec::new();
    let mut i: usize = 0;
    while i < n
        invariant
            n == s@.len(),
            i <= n,
            forall|k: int| 0 <= k < s@.len() ==> (s@[k] as u32) < 128,
            out@ == s@.subrange(0, i as int).map_values(|c: char| c as u8),
        decreases n - i,
    {
        let c = s.get_char(i);
        out.push(c as u8);
        proof {
            assert(s@.subrange(0, i + 1).map_values(|c: char| c as u8) =~= s@.subrange(0, i as int).map_values(|c: char| c as u8).push(c as u8));
        }
        i = i + 1;
    }
    proof {
        assert(s@.subrange(0, n as int) =~= s@);
    }
    out
}

/// The answer to a body over the ceiling: 413, "payload too large".
pub fn payload_too_large() -> (r: Reply)
    ensures
        is_fixed_reply(r, 413, "payload too large"@),
{
    proof {
        reveal_strlit("payload too large");
    }
    Reply { status: PAYLOAD_TOO_LARGE, headers: Vec::new(), body: text_bytes("payload too large") }
}

/// The answer when the upstream cannot be reached or read: 502, "bad gateway".
pub fn bad_gateway() -> (r: Reply)
    ensures
        is_fixed_reply(r, 502, "bad gateway"@),
{
    proof {
        reveal_strlit("bad gateway");
    }
    Reply { status: BAD_GATEWAY, headers: Vec::new(), body: text_bytes("bad gateway") }
}

/// Decides what to do with an inbound request served by `route`: a body over
/// `max_body` is answered with 413 and nothing is sent; otherwise the request
/// goes to the rewritten URL with the same method, the cleaned headers and
/// the body unchanged.
pub fn plan_request(
    route: &Route,
    method: &str,
    path: &str,
    query: Option<&str>,
    headers: &Vec<Header>,
    body: InboundBody,
    max_body: usize,
) -> (r: Plan)
    ensures
        !body_fits(body, max_body) ==> (r matches Plan::Answer(a) && is_fixed_reply(a, 413, "payload too large"@)),
        body_fits(body, max_body) ==> (r matches Plan::Send(o) && {
            &&& o.method@ == method@
            &&& o.url@ == target_of(route.upstream@, route.prefix@, path@, opt_view(query))
            &&& pairs(o.headers@) == outbound_headers(pairs(headers@))
            &&& body matches InboundBody::Bytes(b) && o.body@ == b@
        }),
{
    match body {
        InboundBody::OverLimit => Plan::Answer(payload_too_large()),
        InboundBody::Bytes(b) => {
            if b.len() > max_body {
                Plan::Answer(payload_too_large())
            } else {
                let url = target_url(route.upstream.as_str(), route.prefix.as_str(), path, query);
                Plan::Send(OutboundRequest {
                    method: String::from_str(method),
                    url,
                    headers: upstream_headers(headers),
                    body: b,
                })
            }
        },
    }
}

/// Relies on `http::StatusCode::from_u16`, which accepts exactly the codes
/// from 100 to 999.
#[verifier::external_body]
fn status_representable(code: u16) -> (r: bool)
    ensures
        r == (100 <= code && code <= 999),
{
    axum::http::StatusCode::from_u16(code).is_ok()
}

/// The status relayed for an upstream status: itself when representable,
/// else 502.
pub open spec fn relayed_status(code: u16) -> u16 {
    if 100 <= code && code <= 999 { code } else { 502 }
}

pub open spec fn body_view(body: Option<Vec<u8>>) -> Option<Seq<u8>> {
    match body {
        Some(b) => Some(b@),
        None => None,
    }
}

/// `r` is the reply for an upstream answer with this status and headers,
/// and this body (`None`: reading it failed).
pub open spec fn relays_as(status: u16, hs: Seq<(Seq<char>, Seq<char>)>, body: Option<Seq<u8>>, r: Reply) -> bool {
    match body {
        None => is_fixed_reply(r, 502, "bad gateway"@),
        Some(b) => {
            &&& r.status == relayed_status(status)
            &&& pairs(r.headers@) == relayed(hs)
            &&& r.body@ == b
        },
    }
}

/// Turns the upstream's answer into the client's reply. `body` is `None`
/// when reading the upstream's body failed: the reply is then 502.
pub fn relay_response(status: u16, headers: &Vec<Header>, body: Option<Vec<u8>>) -> (r: Reply)
    ensures
        relays_as(status, pairs(headers@), body_view(body), r),
{
    match body {
        None => bad_gateway(),
        Some(b) => {
            let code = if status_representable(status) { status } else { BAD_GATEWAY };
            Reply { status: code, headers: client_headers(headers), body: b }
        },
    }
}

/// The reply when the upstream could not be reached: 502, with no second
/// attempt.
pub fn upstream_unreachable() -> (r: Reply)
    ensures
        is_fixed_reply(r, 502, "bad gateway"@),
{
    bad_gateway()
}

} // verus!
