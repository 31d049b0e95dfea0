//! The route table: path prefixes mapped to upstream base URLs, matched
//! longest prefix first.
use vstd::prelude::*;
use vstd::string::*;
use crate::text::{has_prefix, starts_with, trim_trailing_slashes, trimmed_len};

verus! {

/// One configured mapping from a path prefix to an upstream base URL.
pub struct Route {
    pub prefix: String,
    pub upstream: String,
}

impl Route {
    pub fn duplicate(&self) -> (r: Route)
        ensures
            r.prefix@ == self.prefix@,
            r.upstream@ == self.upstream@,
    {
        Route { prefix: String::from_str(self.prefix.as_str()), upstream: String::from_str(self.upstream.as_str()) }
    }
}

/// A request path is served by a route when it equals the prefix, or starts
/// with the prefix (trailing slashes removed) followed by `/`.
pub open spec fn route_matches(prefix: Seq<char>, path: Seq<char>) -> bool {
    path == prefix || has_prefix(path, trim_trailing_slashes(prefix).push('/'))
}

/// The route at `i` serves `path`.
pub open spec fn serves(routes: Seq<Route>, i: int, path: Seq<char>) -> bool {
    0 <= i < routes.len() && route_matches(routes[i].prefix@, path)
}

/// `i` is the route chosen for `path`: it serves the path, no route that
/// serves it has a longer prefix, and none before it has one as long.
pub open spec fn chosen(routes: Seq<Route>, i: int, path: Seq<char>) -> bool {
    &&& serves(routes, i, path)
    &&& forall|j: int| #[trigger] serves(routes, j, path) ==> routes[j].prefix@.len() <= routes[i].prefix@.len()
    &&& forall|j: int| 0 <= j < i && #[trigger] serves(routes, j, path) ==> routes[j].prefix@.len() < routes[i].prefix@.len()
}

/// Whether a route with this prefix serves `path`.
pub fn matches_path(prefix: &str, path: &str) -> (r: bool)
    ensures
        r == route_matches(prefix@, path@),
{
    if prefix.unicode_len() == path.unicode_len() && starts_with(path, prefix) {
        proof {
            assert(path@.subrange(0, prefix@.len() as int) =~= path@);
        }
        return true;
    }
    let n = trimmed_len(prefix);
    let pl = path.unicode_len();
    if pl <= n {
        proof {
            if path@ == prefix@ {
                assert(path@.subrange(0, prefix@.len() as int) =~= path@);
            }
        }
        return false;
    }
    let head = path.substring_char(0, n);
    let same = starts_with(prefix, head) && path.get_char(n) == '/';
    proof {
        let t = trim_trailing_slashes(prefix@);
        assert(prefix@.subrange(0, n as int) == t);
        if path@ == prefix@ {
            assert(path@.subrange(0, prefix@.len() as int) =~= path@);
        }
        if same {
            assert(path@.subrange(0, n + 1) =~= t.push('/'));
        }
        if has_prefix(path@, t.push('/')) {
            assert(path@.subrange(0, n as int) =~= path@.subrange(0, n + 1).subrange(0, n as int));
            assert(head@ =~= t);
            assert(prefix@.subrange(0, head@.len() as int) =~= head@);
            assert(path@[n as int] == path@.subrange(0, n + 1)[n as int]);
        }
    }
    same
}

/// The plain view of routes: (prefix, upstream) pairs in order.
pub open spec fn route_views(routes: Seq<Route>) -> Seq<(Seq<char>, Seq<char>)> {
    routes.map_values(|r: Route| (r.prefix@, r.upstream@))
}

/// No route has a longer prefix than one before it.
pub open spec fn longest_first(routes: Seq<Route>) -> bool {
    forall|a: int, b: int| 0 <= a < b < routes.len() ==> routes[a].prefix@.len() >= routes[b].prefix@.len()
}

/// The routes of a server.
pub struct RouteTable {
    pub routes: Vec<Route>,
}

impl RouteTable {
    /// The routes ordered longest prefix first.
    pub open spec fn wf(&self) -> bool {
        longest_first(self.routes@)
    }

    /// Builds the table from configured routes: the same routes, ordered by
    /// prefix length, longest first; routes of equal length keep their order.
    pub fn new(routes: Vec<Route>) -> (r: RouteTable)
        ensures
            r.wf(),
            route_views(r.routes@).to_multiset() == route_views(routes@).to_multiset(),
    {
        let mut out: Vec<Route> = Vec::new();
        let mut i: usize = 0;
        proof {
            assert(route_views(out@) =~= route_views(routes@.subrange(0, 0)));
        }
        while i < routes.len()
            invariant
                i <= routes@.len(),
                longest_first(out@),
                route_views(out@).to_multiset() == route_views(routes@.subrange(0, i as int)).to_multiset(),
            decreases routes@.len() - i,
        {
            let r = routes[i].duplicate();
            let len = r.prefix.unicode_len();
            let mut j: usize = 0;
            while j < out.len() && out[j].prefix.unicode_len() >= len
                invariant
                    j <= out@.len(),
                    len == r.prefix@.len(),
                    forall|k: int| 0 <= k < j ==> out@[k].prefix@.len() >= len,
                decreases out@.len() - j,
            {
                j = j + 1;
            }
            let ghost before = out@;
            let ghost rv = (r.prefix@, r.upstream@);
            out.insert(j, r);
            proof {
                assert(route_views(out@) =~= route_views(before).insert(j as int, rv));
                vstd::seq_lib::to_multiset_insert(route_views(before), j as int, rv);
                assert(routes@.subrange(0, i + 1) =~= routes@.subrange(0, i as int).push(routes@[i as int]));
                assert(route_views(routes@.subrange(0, i + 1)) =~= route_views(routes@.subrange(0, i as int)).push(rv));
                vstd::seq_lib::to_multiset_build(route_views(routes@.subrange(0, i as int)), rv);
                assert forall|a: int, b: int| 0 <= a < b < out@.len() implies out@[a].prefix@.len() >= out@[b].prefix@.len() by {
                    if j < before.len() {
                        assert(before[j as int].prefix@.len() < len);
                    }
                }
            }
            i = i + 1;
        }
        proof {
            assert(routes@.subrange(0, routes@.len() as int) =~= routes@);
        }
        RouteTable { routes: out }
    }

    /// The route that serves `path`: the one with the longest matching prefix,
    /// the first of them on a tie; `None` when no route serves it.
    pub fn lookup(&self, path: &str) -> (r: Option<usize>)
        ensures
            r.is_none() <==> forall|j: int| !#[trigger] serves(self.routes@, j, path@),
            r matches Some(i) ==> chosen(self.routes@, i as int, path@),
    {
        let mut best: Option<usize> = None;
        let mut i: usize = 0;
        while i < self.routes.len()
            invariant
                i <= self.routes@.len(),
                best.is_none() ==> forall|j: int| 0 <= j < i ==> !#[trigger] serves(self.routes@, j, path@),
                best matches Some(b) ==> {
                    &&& b < i
                    &&& serves(self.routes@, b as int, path@)
                    &&& forall|j: int| 0 <= j < i && #[trigger] serves(self.routes@, j, path@) ==> self.routes@[j].prefix@.len() <= self.routes@[b as int].prefix@.len()
                    &&& forall|j: int| 0 <= j < b && #[trigger] serves(self.routes@, j, path@) ==> self.routes@[j].prefix@.len() < self.routes@[b as int].prefix@.len()
                },
            decreases self.routes@.len() - i,
        {
            let route = &self.routes[i];
            if matches_path(route.prefix.as_str(), path) {
                let len = route.prefix.unicode_len();
                match best {
                    None => {
                        best = Some(i);
                    },
                    Some(b) => {
                        if len > self.routes[b].prefix.unicode_len() {
                            best = Some(i);
                        }
                    },
                }
            }
            i = i + 1;
        }
        best
    }
}

/// The wildcard pattern under which a prefix's sub-paths are registered.
pub open spec fn wildcard_of(prefix: Seq<char>) -> Seq<char> {
    if prefix == "/"@ {
        "/{*path}"@
    } else {
        trim_trailing_slashes(prefix) + "/{*path}"@
    }
}

/// The pattern that captures every path below `prefix`.
pub fn wildcard_pattern(prefix: &str) -> (r: String)
    ensures
        r@ == wildcard_of(prefix@),
{
    let root = String::from_str("/");
    if prefix.to_owned() == root {
        return String::from_str("/{*path}");
    }
    let n = trimmed_len(prefix);
    String::from_str(prefix.substring_char(0, n)).concat("/{*path}")
}

} // verus!
