//! Change detection: does the upstream branch hold commits the local
//! checkout lacks?
//!
//! The comparison of the two commit hashes is the whole decision; fetching
//! the hashes themselves is I/O and stays with the caller.

use vstd::prelude::*;

verus! {

/// A new commit is available exactly when the local and upstream hashes
/// differ.
pub open spec fn has_update_spec(local: Seq<char>, upstream: Seq<char>) -> bool {
    local != upstream
}

/// Decide whether the upstream branch moved, given the local HEAD hash and
/// the upstream tracking hash.
pub fn has_update(local: &String, upstream: &String) -> (r: bool)
    ensures
        r == has_update_spec(local@, upstream@),
{
    !local.eq(upstream)
}

/// Two detections with the same local and upstream hashes (no intervening
/// remote change, no advance of the checkout) decide the same way.
pub proof fn lemma_has_update_idempotent(
    local1: Seq<char>,
    upstream1: Seq<char>,
    local2: Seq<char>,
    upstream2: Seq<char>,
)
    requires
        local1 == local2,
        upstream1 == upstream2,
    ensures
        has_update_spec(local1, upstream1) == has_update_spec(local2, upstream2),
{
}

} // verus!
