//! Properties that relate the components' contracts.
use vstd::prelude::*;
use crate::cert::{can_start, CachedCertificate, IssueOutcome};
use crate::forward::{query_suffix, relays_as, target_of, Reply};
use crate::headers::{forwarded_host, outbound_headers, passed_upstream, relayed, withheld};
use crate::route::route_matches;
use crate::text::{char_matches_lower, eq_ignore_case, trim_trailing_slashes};

verus! {

/// A route serves its bare prefix and every path below it, and forwards
/// them to the upstream base with the remainder as path (`/` when there is
/// none) and the query string unchanged.
pub proof fn lemma_prefix_forwarding(prefix: Seq<char>, upstream: Seq<char>, rest: Seq<char>, query: Option<Seq<char>>)
    requires
        prefix == "/"@ || (prefix.len() > 0 && prefix.last() != '/'),
    ensures
        route_matches(prefix, prefix),
        target_of(upstream, prefix, prefix, query) == trim_trailing_slashes(upstream) + "/"@ + query_suffix(query),
        route_matches(prefix, trim_trailing_slashes(prefix) + "/"@ + rest),
        target_of(upstream, prefix, trim_trailing_slashes(prefix) + "/"@ + rest, query)
            == trim_trailing_slashes(upstream) + ("/"@ + rest) + query_suffix(query),
{
    reveal_strlit("/");
    let t = trim_trailing_slashes(prefix);
    let path = t + "/"@ + rest;
    if prefix == "/"@ {
        assert(prefix.len() == 1 && prefix.last() == '/');
        assert(prefix.drop_last() =~= Seq::<char>::empty());
        assert(trim_trailing_slashes(prefix.drop_last()) =~= Seq::<char>::empty());
        assert(t =~= Seq::<char>::empty());
        assert(path =~= "/"@ + rest);
        assert(path.subrange(0, 1) =~= t.push('/'));
    } else {
        assert(t == prefix);
        assert(path.subrange(0, t.len() as int + 1) =~= t.push('/'));
        assert(path.subrange(0, prefix.len() as int) =~= prefix);
        assert(path.subrange(prefix.len() as int, path.len() as int) =~= "/"@ + rest);
        assert(prefix.subrange(0, prefix.len() as int) =~= prefix);
        assert(prefix.subrange(prefix.len() as int, prefix.len() as int) =~= Seq::<char>::empty());
    }
}

proof fn lemma_passed_never_withheld(hs: Seq<(Seq<char>, Seq<char>)>, host_known: bool)
    ensures
        forall|k: int| 0 <= k < passed_upstream(hs, host_known).len() ==> !withheld(#[trigger] passed_upstream(hs, host_known)[k].0),
    decreases hs.len(),
{
    if hs.len() > 0 {
        let rest = passed_upstream(hs.drop_last(), host_known);
        lemma_passed_never_withheld(hs.drop_last(), host_known);
        let all = passed_upstream(hs, host_known);
        assert forall|k: int| 0 <= k < all.len() implies !withheld(#[trigger] all[k].0) by {
            if k < rest.len() {
                assert(all[k] == rest[k]);
            }
        }
    }
}

proof fn lemma_relayed_never_withheld(hs: Seq<(Seq<char>, Seq<char>)>)
    ensures
        forall|k: int| 0 <= k < relayed(hs).len() ==> !withheld(#[trigger] relayed(hs)[k].0),
    decreases hs.len(),
{
    if hs.len() > 0 {
        let rest = relayed(hs.drop_last());
        lemma_relayed_never_withheld(hs.drop_last());
        let all = relayed(hs);
        assert forall|k: int| 0 <= k < all.len() implies !withheld(#[trigger] all[k].0) by {
            if k < rest.len() {
                assert(all[k] == rest[k]);
            }
        }
    }
}

/// Hop-by-hop headers and `Host` are absent from every request sent
/// upstream and from every response relayed back, whatever came in.
pub proof fn lemma_header_hygiene(inbound: Seq<(Seq<char>, Seq<char>)>, upstream: Seq<(Seq<char>, Seq<char>)>)
    ensures
        forall|k: int| 0 <= k < outbound_headers(inbound).len() ==> !withheld(#[trigger] outbound_headers(inbound)[k].0),
        forall|k: int| 0 <= k < relayed(upstream).len() ==> !withheld(#[trigger] relayed(upstream)[k].0),
{
    reveal_strlit("x-forwarded-host");
    reveal_strlit("x-forwarded-proto");
    reveal_strlit("connection");
    reveal_strlit("proxy-authenticate");
    reveal_strlit("proxy-authorization");
    reveal_strlit("te");
    reveal_strlit("trailer");
    reveal_strlit("transfer-encoding");
    reveal_strlit("upgrade");
    reveal_strlit("host");
    assert(!char_matches_lower('x', 't'));
    assert(!eq_ignore_case("x-forwarded-proto"@, "transfer-encoding"@)) by {
        assert(!char_matches_lower("x-forwarded-proto"@[0], "transfer-encoding"@[0]));
    }
    assert(!withheld("x-forwarded-host"@));
    assert(!withheld("x-forwarded-proto"@));
    lemma_passed_never_withheld(inbound, forwarded_host(inbound).is_some());
    lemma_relayed_never_withheld(upstream);
}

/// Forwarding keeps no state: the same upstream answer relayed twice gives
/// the same status and body both times.
pub proof fn lemma_relay_repeatable(status: u16, hs: Seq<(Seq<char>, Seq<char>)>, body: Option<Seq<u8>>, first: Reply, second: Reply)
    requires
        relays_as(status, hs, body, first),
        relays_as(status, hs, body, second),
    ensures
        first.status == second.status,
        first.body@ == second.body@,
{
}

/// Startup fails exactly when no valid certificate is cached and none can
/// be issued; a valid cached one suffices while the authority is away.
pub proof fn lemma_bootstrap_outcomes(cache: CachedCertificate, issue: IssueOutcome)
    ensures
        cache != CachedCertificate::Valid && issue == IssueOutcome::Unreachable ==> !can_start(cache, issue),
        cache == CachedCertificate::Valid ==> can_start(cache, issue),
{
}

} // verus!
