//! What can go wrong while one subject is reconciled.

use vstd::prelude::*;

verus! {

/// Why a reconciliation attempt failed. Every variant ends the attempt; the
/// scheduler decides whether the subject is tried again.
#[derive(Clone, Copy, Debug, PartialEq, Eq, Structural)]
pub enum ReconcileError {
    /// The platform did not hand out the community's roles or the
    /// identity's roles.
    Platform,
    /// The quote provider could not be reached.
    Fetch,
    /// The quote provider answered with no samples at all.
    EmptyResult,
    /// A sample carries a timestamp that falls on no calendar date.
    MalformedTimestamp,
    /// There is no quote to evaluate.
    NoQuotes,
    /// Every quote before the last one lies on the last quote's trading day,
    /// or later.
    NoPriorDay,
    /// The community does not know the configured role.
    RoleLookup { role: u64 },
    /// The platform refused a role mutation; the flags say which.
    MembershipMutation { add_failed: bool, remove_failed: bool },
}

} // verus!
