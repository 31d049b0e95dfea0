//! The plaintext listener: certificate challenges are answered, everything
//! else is sent to the secure listener.
use vstd::prelude::*;
use vstd::string::*;
use crate::forward::{opt_view, query_suffix};
use crate::headers::{forwarded_host, inbound_host, pairs, Header};
use crate::text::{has_prefix, starts_with};

verus! {

/// The path under which the certificate authority fetches challenge tokens.
pub open spec fn challenge_root() -> Seq<char> {
    "/.well-known/acme-challenge/"@
}

/// A challenge request: the challenge root followed by one non-empty path
/// segment, the token.
pub open spec fn is_challenge(path: Seq<char>) -> bool {
    let n = challenge_root().len();
    &&& has_prefix(path, challenge_root())
    &&& path.len() > n
    &&& forall|i: int| n <= i < path.len() ==> path[i] != '/'
}

/// The host named in a redirect: the request's readable `Host`, else the
/// configured default.
pub open spec fn redirect_host(hs: Seq<(Seq<char>, Seq<char>)>, default_host: Seq<char>) -> Seq<char> {
    match forwarded_host(hs) {
        Some(h) => h,
        None => default_host,
    }
}

/// The HTTPS address with the same host, path and query.
pub open spec fn https_location(host: Seq<char>, path: Seq<char>, query: Option<Seq<char>>) -> Seq<char> {
    "https://"@ + host + path + query_suffix(query)
}

pub const PERMANENT_REDIRECT: u16 = 308;

/// What the plaintext listener does with a request.
pub enum PlainAction {
    /// Hand the request to the challenge responder, for this token.
    Challenge(String),
    /// Redirect permanently to this location.
    Redirect { status: u16, location: String },
}

pub fn challenge_path(path: &str) -> (r: bool)
    ensures
        r == is_challenge(path@),
{
    let root = "/.well-known/acme-challenge/";
    if !starts_with(path, root) {
        return false;
    }
    let n = root.unicode_len();
    let len = path.unicode_len();
    if len <= n {
        return false;
    }
    let mut i: usize = n;
    while i < len
        invariant
            n == challenge_root().len(),
            len == path@.len(),
            n <= i <= len,
            forall|k: int| n <= k < i ==> path@[k] != '/',
        decreases len - i,
    {
        if path.get_char(i) == '/' {
            return false;
        }
        i = i + 1;
    }
    true
}

/// Decides the plaintext listener's answer to a request for `path?query`.
pub fn plaintext_action(path: &str, query: Option<&str>, headers: &Vec<Header>, default_host: &str) -> (r: PlainAction)
    ensures
        is_challenge(path@) ==> (r matches PlainAction::Challenge(t)
            && t@ == path@.subrange(challenge_root().len() as int, path@.len() as int)),
        !is_challenge(path@) ==> (r matches PlainAction::Redirect { status, location } && status == 308
            && location@ == https_location(redirect_host(pairs(headers@), default_host@), path@, opt_view(query))),
{
    if challenge_path(path) {
        let n = "/.well-known/acme-challenge/".unicode_len();
        return PlainAction::Challenge(String::from_str(path.substring_char(n, path.unicode_len())));
    }
    let host = match inbound_host(headers) {
        Some(h) => h,
        None => String::from_str(default_host),
    };
    let mut location = String::from_str("https://").concat(host.as_str());
    location.append(path);
    match query {
        Some(q) => {
            location.append("?");
            location.append(q);
            proof {
                assert(location@ =~= https_location(redirect_host(pairs(headers@), default_host@), path@, opt_view(query)));
            }
        },
        None => {
            proof {
                assert(location@ =~= https_location(redirect_host(pairs(headers@), default_host@), path@, opt_view(query)));
            }
        },
    }
    PlainAction::Redirect { status: PERMANENT_REDIRECT, location }
}

} // verus!
