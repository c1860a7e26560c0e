//! Durable policy storage: the canonical record per identifier, plus a
//! denormalized per-owner snapshot list.

use vstd::prelude::*;
use crate::policy::{seq_policy, Policy};
use crate::premium::premium_of;

verus! {

/// The predicate selecting one owner's policies.
pub open spec fn owned_by(user: u128) -> spec_fn(Policy) -> bool {
    |p: Policy| p.user == user
}

/// Policy storage. `all_policies` is the canonical store: the record
/// with identifier `i` sits at position `i - 1`, so identifiers are
/// dense, start at one, and are never reused. `user_policies` holds one
/// creation-time snapshot per policy, in creation order; an owner's
/// list is the subsequence of snapshots carrying that owner. Claim and
/// expiration touch only the canonical record, so a snapshot keeps the
/// flags it was created with.
pub struct PolicyStore {
    pub all_policies: Vec<Policy>,
    pub user_policies: Vec<Policy>,
}

impl PolicyStore {
    /// Storage invariant: both lists grow in lockstep, records are
    /// well-formed, identifiers match positions, and each snapshot is
    /// the creation-time copy of its canonical record.
    pub open spec fn wf(self) -> bool {
        &&& forall|i: int|
            0 <= i < self.all_policies@.len() ==> (#[trigger] self.all_policies@[i]).wf()
        &&& forall|i: int|
            0 <= i < self.all_policies@.len() ==> (#[trigger] self.all_policies@[i]).id == i + 1
        &&& self.user_policies@.len() == self.all_policies@.len()
        &&& forall|i: int|
            0 <= i < self.all_policies@.len() ==> #[trigger] self.user_policies@[i]
                == self.all_policies@[i].snapshot()
    }

    /// One owner's policies, as the per-owner list reports them.
    pub open spec fn policies_of(self, user: u128) -> Seq<Policy> {
        self.user_policies@.filter(owned_by(user))
    }

    pub fn new() -> (s: Self)
        ensures
            s.wf(),
            s.all_policies@ == Seq::<Policy>::empty(),
            s.user_policies@ == Seq::<Policy>::empty(),
    {
        PolicyStore { all_policies: Vec::new(), user_policies: Vec::new() }
    }

    /// Allocates the next identifier, writes the canonical record, and
    /// appends the creation-time snapshot to the owner list. Never
    /// reuses an identifier.
    pub fn create(
        &mut self,
        user: u128,
        flight_id: u64,
        ticket_price: u64,
        premium: u64,
        expiration: u64,
    ) -> (id: u64)
        requires
            old(self).wf(),
            old(self).all_policies@.len() < u64::MAX,
            ticket_price != 0,
            premium == premium_of(ticket_price),
        ensures
            final(self).wf(),
            id == old(self).all_policies@.len() + 1,
            final(self).all_policies@ == old(self).all_policies@.push(
                (Policy {
                    id,
                    user,
                    flight_id,
                    ticket_price,
                    premium_paid: premium,
                    coverage_amount: ticket_price,
                    expiration,
                    active: true,
                    claimed: false,
                }),
            ),
            final(self).user_policies@ == old(self).user_policies@.push(
                (Policy {
                    id,
                    user,
                    flight_id,
                    ticket_price,
                    premium_paid: premium,
                    coverage_amount: ticket_price,
                    expiration,
                    active: true,
                    claimed: false,
                }),
            ),
    {
        let id: u64 = (self.all_policies.len() as u64) + 1;
        let record = Policy {
            id,
            user,
            flight_id,
            ticket_price,
            premium_paid: premium,
            coverage_amount: ticket_price,
            expiration,
            active: true,
            claimed: false,
        };
        self.all_policies.push(record);
        self.user_policies.push(record);
        id
    }

    /// Fetches the canonical record for an identifier, or nothing when
    /// no policy was ever stored under it.
    pub fn get(&self, policy_id: u64) -> (r: Option<Policy>)
        ensures
            r == seq_policy(self.all_policies@, policy_id),
    {
        let n: usize = self.all_policies.len();
        if policy_id == 0 || policy_id > n as u64 {
            return None;
        }
        let idx: usize = (policy_id - 1) as usize;
        Some(self.all_policies[idx])
    }

    /// Rewrites one canonical record's `active` flag, touching nothing
    /// else — in particular not the owner-list snapshot.
    pub fn set_active(&mut self, policy_id: u64, value: bool)
        requires
            1 <= policy_id <= old(self).all_policies@.len(),
        ensures
            final(self).all_policies@ == old(self).all_policies@.update(
                policy_id - 1,
                (Policy { active: value, ..old(self).all_policies@[policy_id - 1] }),
            ),
            final(self).user_policies@ == old(self).user_policies@,
    {
        let n: usize = self.all_policies.len();
        proof {
            assert(policy_id - 1 < n);
        }
        let idx: usize = (policy_id - 1) as usize;
        let record = self.all_policies[idx];
        self.all_policies[idx] = Policy { active: value, ..record };
    }

    /// Rewrites one canonical record's `claimed` flag, touching nothing
    /// else — in particular not the owner-list snapshot.
    pub fn set_claimed(&mut self, policy_id: u64, value: bool)
        requires
            1 <= policy_id <= old(self).all_policies@.len(),
        ensures
            final(self).all_policies@ == old(self).all_policies@.update(
                policy_id - 1,
                (Policy { claimed: value, ..old(self).all_policies@[policy_id - 1] }),
            ),
            final(self).user_policies@ == old(self).user_policies@,
    {
        let n: usize = self.all_policies.len();
        proof {
            assert(policy_id - 1 < n);
        }
        let idx: usize = (policy_id - 1) as usize;
        let record = self.all_policies[idx];
        self.all_policies[idx] = Policy { claimed: value, ..record };
    }

    /// All snapshots belonging to one owner, in creation order.
    pub fn policies_for_owner(&self, user: u128) -> (r: Vec<Policy>)
        ensures
            r@ == self.policies_of(user),
    {
        let mut out: Vec<Policy> = Vec::new();
        let n: usize = self.user_policies.len();
        let mut i: usize = 0;
        while i < n
            invariant
                i <= n,
                n == self.user_policies@.len(),
                out@ == self.user_policies@.subrange(0, i as int).filter(owned_by(user)),
            decreases n - i,
        {
            let p = self.user_policies[i];
            if p.user == user {
                out.push(p);
            }
            proof {
                let prefix = self.user_policies@.subrange(0, i as int);
                assert(self.user_policies@.subrange(0, i as int + 1) =~= prefix.push(p));
                prefix.lemma_filter_push(p, owned_by(user));
                assert(owned_by(user)(p) == (p.user == user));
                assert(self.user_policies@.subrange(0, i as int + 1).filter(owned_by(user))
                    == (if p.user == user {
                        prefix.filter(owned_by(user)).push(p)
                    } else {
                        prefix.filter(owned_by(user))
                    }));
            }
            i += 1;
        }
        proof {
            assert(self.user_policies@.subrange(0, n as int) =~= self.user_policies@);
        }
        out
    }
}

} // verus!
