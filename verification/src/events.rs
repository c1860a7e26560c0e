//! Lifecycle events, recorded in an append-only log.

use vstd::prelude::*;

verus! {

/// One entry of the contract's append-only event log. The log records
/// what happened; it is never read back by the lifecycle logic.
#[derive(Clone, Copy, Debug, PartialEq, Eq, Structural)]
pub enum Event {
    /// A policy was purchased and its premium collected.
    PolicyPurchased {
        user: u128,
        policy_id: u64,
        flight_id: u64,
        coverage_amount: u64,
        premium_paid: u64,
        expiration: u64,
    },
    /// A policy's `active` / `claimed` flags changed.
    PolicyStatusChanged { policy_id: u64, active: bool, claimed: bool },
    /// The verifier's decision on a claim, whatever it was.
    ClaimVerified { policy_id: u64, triggered: bool },
    /// A triggered claim was paid out to the policy holder.
    ClaimPaid { user: u128, policy_id: u64, payout: u64 },
    /// A policy lapsed after its expiration time.
    PolicyExpired { policy_id: u64 },
}

} // verus!
