//! Authentication gate for incoming SSH connections.
//!
//! The server relies on transport-layer trust: the only identity it accepts
//! is the fixed service account `git`, with no credential and no further
//! method negotiation offered to anybody else.

use vstd::prelude::*;

verus! {

/// Outcome of the authentication gate.
#[derive(Clone, Copy, Debug, PartialEq, Eq, Structural)]
pub enum AuthDecision {
    Accept,
    Reject,
}

/// The one identity that may open a session.
pub open spec fn service_identity() -> Seq<char> {
    "git"@
}

/// Accepts exactly the designated service identity and rejects every other
/// one.
pub fn authenticate(user: &str) -> (decision: AuthDecision)
    ensures
        decision is Accept <==> user@ == service_identity(),
{
    let name = String::from_str(user);
    let expected = String::from_str("git");
    if name.eq(&expected) {
        AuthDecision::Accept
    } else {
        AuthDecision::Reject
    }
}

/// Every identity other than the service identity is rejected.
pub proof fn lemma_authenticate_rejects_others(user: Seq<char>, decision: AuthDecision)
    requires
        user != service_identity(),
        decision is Accept ==> user == service_identity(),
    ensures
        decision is Reject,
{
    assert(!(decision is Accept));
}

} // verus!
