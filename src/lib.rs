//! An edge server's core: a route table matched longest prefix first, a
//! request forwarder with header hygiene and a body ceiling, the plaintext
//! listener's challenge-or-redirect decision, and the certificate
//! orchestrator's startup and renewal decisions.
use vstd::prelude::*;

pub mod cert;
pub mod error;
pub mod forward;
pub mod headers;
pub mod laws;
pub mod plaintext;
pub mod route;
pub mod text;

verus! {

} // verus!
