//! Header hygiene: which headers cross the proxy, in each direction.
use vstd::prelude::*;
use vstd::string::*;
use crate::text::{eq_ignore_case, equals_ignore_case, is_visible_ascii, visible_ascii};

verus! {

/// One HTTP header, as a name and a textual value.
pub struct Header {
    pub name: String,
    pub value: String,
}

impl Header {
    pub fn new(name: &str, value: &str) -> (r: Header)
        ensures
            r.name@ == name@,
            r.value@ == value@,
    {
        Header { name: String::from_str(name), value: String::from_str(value) }
    }

    pub fn duplicate(&self) -> (r: Header)
        ensures
            r.name@ == self.name@,
            r.value@ == self.value@,
    {
        Header { name: String::from_str(self.name.as_str()), value: String::from_str(self.value.as_str()) }
    }
}

/// The plain view of a header list: (name, value) pairs in order.
pub open spec fn pairs(hs: Seq<Header>) -> Seq<(Seq<char>, Seq<char>)> {
    hs.map_values(|h: Header| (h.name@, h.value@))
}

/// Headers that concern only one network hop.
pub open spec fn hop_by_hop(name: Seq<char>) -> bool {
    eq_ignore_case(name, "connection"@) || eq_ignore_case(name, "proxy-authenticate"@)
        || eq_ignore_case(name, "proxy-authorization"@) || eq_ignore_case(name, "te"@)
        || eq_ignore_case(name, "trailer"@) || eq_ignore_case(name, "transfer-encoding"@)
        || eq_ignore_case(name, "upgrade"@)
}

pub open spec fn is_host(name: Seq<char>) -> bool {
    eq_ignore_case(name, "host"@)
}

/// A header that never crosses the proxy, in either direction.
pub open spec fn withheld(name: Seq<char>) -> bool {
    hop_by_hop(name) || is_host(name)
}

/// Whether an inbound header is passed upstream. The proxy sets
/// `x-forwarded-proto` itself, and `x-forwarded-host` when it knows the host.
pub open spec fn passes_upstream(name: Seq<char>, host_known: bool) -> bool {
    !withheld(name) && !eq_ignore_case(name, "x-forwarded-proto"@)
        && !(host_known && eq_ignore_case(name, "x-forwarded-host"@))
}

/// The inbound headers passed upstream, in order.
pub open spec fn passed_upstream(hs: Seq<(Seq<char>, Seq<char>)>, host_known: bool) -> Seq<(Seq<char>, Seq<char>)>
    decreases hs.len(),
{
    if hs.len() == 0 {
        hs
    } else {
        let rest = passed_upstream(hs.drop_last(), host_known);
        if passes_upstream(hs.last().0, host_known) {
            rest.push(hs.last())
        } else {
            rest
        }
    }
}

/// The upstream's response headers relayed to the client, in order.
pub open spec fn relayed(hs: Seq<(Seq<char>, Seq<char>)>) -> Seq<(Seq<char>, Seq<char>)>
    decreases hs.len(),
{
    if hs.len() == 0 {
        hs
    } else {
        let rest = relayed(hs.drop_last());
        if !withheld(hs.last().0) {
            rest.push(hs.last())
        } else {
            rest
        }
    }
}

/// The value of the first `Host` header at index `i` or later, if any.
pub open spec fn host_from(hs: Seq<(Seq<char>, Seq<char>)>, i: int) -> Option<Seq<char>>
    decreases hs.len() - i,
{
    if i < 0 || i >= hs.len() {
        None
    } else if is_host(hs[i].0) {
        Some(hs[i].1)
    } else {
        host_from(hs, i + 1)
    }
}

/// The inbound host to report upstream: the first `Host` value, when it is
/// readable as text.
pub open spec fn forwarded_host(hs: Seq<(Seq<char>, Seq<char>)>) -> Option<Seq<char>> {
    match host_from(hs, 0) {
        Some(v) => if is_visible_ascii(v) { Some(v) } else { None },
        None => None,
    }
}

/// The full header list sent upstream: the passed headers, then
/// `x-forwarded-host` when the host is known, then `x-forwarded-proto: https`.
pub open spec fn outbound_headers(hs: Seq<(Seq<char>, Seq<char>)>) -> Seq<(Seq<char>, Seq<char>)> {
    let fh = forwarded_host(hs);
    let base = passed_upstream(hs, fh.is_some());
    let with_host = match fh {
        Some(v) => base.push(("x-forwarded-host"@, v)),
        None => base,
    };
    with_host.push(("x-forwarded-proto"@, "https"@))
}

pub fn is_hop_by_hop(name: &str) -> (r: bool)
    ensures
        r == hop_by_hop(name@),
{
    equals_ignore_case(name, "connection") || equals_ignore_case(name, "proxy-authenticate")
        || equals_ignore_case(name, "proxy-authorization") || equals_ignore_case(name, "te")
        || equals_ignore_case(name, "trailer") || equals_ignore_case(name, "transfer-encoding")
        || equals_ignore_case(name, "upgrade")
}

/// The value of the first `Host` header, when it is readable as text.
pub fn inbound_host(headers: &Vec<Header>) -> (r: Option<String>)
    ensures
        r matches Some(v) ==> forwarded_host(pairs(headers@)) == Some(v@),
        r.is_none() ==> forwarded_host(pairs(headers@)).is_none(),
{
    let ghost hs = pairs(headers@);
    let mut i: usize = 0;
    while i < headers.len()
        invariant
            i <= headers@.len(),
            hs == pairs(headers@),
            host_from(hs, 0) == host_from(hs, i as int),
        decreases headers@.len() - i,
    {
        let h = &headers[i];
        if equals_ignore_case(h.name.as_str(), "host") {
            if visible_ascii(h.value.as_str()) {
                return Some(String::from_str(h.value.as_str()));
            } else {
                return None;
            }
        }
        i = i + 1;
    }
    None
}

/// The headers to send upstream for an inbound request's headers.
pub fn upstream_headers(headers: &Vec<Header>) -> (r: Vec<Header>)
    ensures
        pairs(r@) == outbound_headers(pairs(headers@)),
{
    let ghost hs = pairs(headers@);
    let host = inbound_host(headers);
    let host_known = host.is_some();
    let mut out: Vec<Header> = Vec::new();
    let mut i: usize = 0;
    while i < headers.len()
        invariant
            i <= headers@.len(),
            hs == pairs(headers@),
            host_known == forwarded_host(hs).is_some(),
            pairs(out@) == passed_upstream(hs.subrange(0, i as int), host_known),
        decreases headers@.len() - i,
    {
        let h = &headers[i];
        let name = h.name.as_str();
        let keep = !is_hop_by_hop(name) && !equals_ignore_case(name, "host")
            && !equals_ignore_case(name, "x-forwarded-proto")
            && !(host_known && equals_ignore_case(name, "x-forwarded-host"));
        proof {
            assert(hs.subrange(0, i + 1).drop_last() =~= hs.subrange(0, i as int));
            assert(hs.subrange(0, i + 1).last() == (h.name@, h.value@));
        }
        if keep {
            let ghost before = out@;
            out.push(h.duplicate());
            proof {
                assert(pairs(out@) =~= pairs(before).push(hs[i as int]));
            }
        }
        i = i + 1;
    }
    proof {
        assert(hs.subrange(0, headers@.len() as int) =~= hs);
    }
    match host {
        Some(v) => {
            let ghost before = out@;
            out.push(Header { name: String::from_str("x-forwarded-host"), value: v });
            proof {
                assert(pairs(out@) =~= pairs(before).push(("x-forwarded-host"@, forwarded_host(hs).unwrap())));
            }
        },
        None => {},
    }
    let ghost before = out@;
    out.push(Header::new("x-forwarded-proto", "https"));
    proof {
        assert(pairs(out@) =~= pairs(before).push(("x-forwarded-proto"@, "https"@)));
    }
    out
}

/// The upstream's response headers to relay to the client.
pub fn client_headers(headers: &Vec<Header>) -> (r: Vec<Header>)
    ensures
        pairs(r@) == relayed(pairs(headers@)),
{
    let ghost hs = pairs(headers@);
    let mut out: Vec<Header> = Vec::new();
    let mut i: usize = 0;
    while i < headers.len()
        invariant
            i <= headers@.len(),
            hs == pairs(headers@),
            pairs(out@) == relayed(hs.subrange(0, i as int)),
        decreases headers@.len() - i,
    {
        let h = &headers[i];
        let name = h.name.as_str();
        let keep = !is_hop_by_hop(name) && !equals_ignore_case(name, "host");
        proof {
            assert(hs.subrange(0, i + 1).drop_last() =~= hs.subrange(0, i as int));
            assert(hs.subrange(0, i + 1).last() == (h.name@, h.value@));
        }
        if keep {
            let ghost before = out@;
            out.push(h.duplicate());
            proof {
                assert(pairs(out@) =~= pairs(before).push(hs[i as int]));
            }
        }
        i = i + 1;
    }
    proof {
        assert(hs.subrange(0, headers@.len() as int) =~= hs);
    }
    out
}

} // verus!
