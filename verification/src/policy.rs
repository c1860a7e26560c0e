//! The policy record and its invariants.

use vstd::prelude::*;
use crate::premium::premium_of;

verus! {

/// One purchased coverage unit. Amounts are denominated in the
/// stablecoin's smallest unit; `expiration` is a unix timestamp.
/// Identifier zero is reserved to mean "does not exist" in the wire
/// encoding, so no real policy ever carries it.
#[derive(Clone, Copy, Debug, PartialEq, Eq, Structural)]
pub struct Policy {
    pub id: u64,
    pub user: u128,
    pub flight_id: u64,
    pub ticket_price: u64,
    pub premium_paid: u64,
    pub coverage_amount: u64,
    pub expiration: u64,
    /// True from creation until the policy is claimed or expired.
    pub active: bool,
    /// True only after a successful triggered payout; never reverts.
    pub claimed: bool,
}

impl Policy {
    /// What holds of every stored policy: a real identifier, a non-zero
    /// ticket price, coverage equal to the ticket price, the premium
    /// derived from it by the five-percent quote, and the flag
    /// discipline that a claimed policy is no longer active.
    pub open spec fn wf(self) -> bool {
        &&& self.id != 0
        &&& self.ticket_price != 0
        &&& self.coverage_amount == self.ticket_price
        &&& self.premium_paid == premium_of(self.ticket_price)
        &&& self.claimed ==> !self.active
    }

    /// The creation-time copy of a policy that the per-owner list
    /// keeps: the same record with the flags as they stood at purchase.
    /// The list is a point-in-time snapshot; later claim or expiration
    /// of the canonical record deliberately leaves it untouched.
    pub open spec fn snapshot(self) -> Policy {
        Policy { active: true, claimed: false, ..self }
    }
}

/// Looks a policy up in a sequence ordered by identifier, where the
/// record with identifier `i` sits at position `i - 1`. Zero and
/// out-of-range identifiers find nothing.
pub open spec fn seq_policy(s: Seq<Policy>, policy_id: u64) -> Option<Policy> {
    if 1 <= policy_id <= s.len() {
        Some(s[policy_id - 1])
    } else {
        None
    }
}

} // verus!
