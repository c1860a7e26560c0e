//! The properties the lifecycle promises, stated over the contract
//! model and proved once and for all.

use vstd::prelude::*;
use crate::contract::{
    buy_recorded, claim_recorded, claim_settled, expire_recorded, BalanceCheck, BuyRequest,
    ContractModel, PayoutRequest, Pending, GUARD_OPEN,
};
use crate::premium::premium_of;

verus! {

/// A zero ticket price is quoted a zero premium.
pub proof fn lemma_zero_ticket_zero_premium()
    ensures
        premium_of(0) == 0,
{
}

/// While any outbound token call is owed, the reentrancy guard is
/// held, so a re-entrant `buy_policy` or `verify_and_pay_claim` — at
/// any nesting depth — finds the guard closed and fails with
/// `Reentrancy`, leaving the state untouched (their contracts say so
/// whenever `locked` is not open).
pub proof fn lemma_guard_held_while_call_pending(m: ContractModel)
    requires
        m.wf(),
        !(m.pending is Idle),
    ensures
        m.locked != GUARD_OPEN,
{
}

/// Policy identifiers are dense and sequential: the record stored at
/// position `i` carries identifier `i + 1`, so identifiers start at
/// one and strictly increase in order of purchase.
pub proof fn lemma_policy_ids_sequential(m: ContractModel, i: int)
    requires
        m.wf(),
        0 <= i < m.all_policies.len(),
    ensures
        m.all_policies[i].id == i + 1,
{
}

/// Round trip: the policy recorded by a completed purchase is readable
/// under the new identifier and returns exactly the fields that were
/// requested, the computed five-percent premium, coverage equal to the
/// ticket price, and the active/unclaimed creation flags.
pub proof fn lemma_buy_round_trip(m: ContractModel, req: BuyRequest)
    requires
        m.wf(),
        m.pending == Pending::BuyTransfer(req),
        m.next_policy_id < u64::MAX,
    ensures
        ({
            let id = (m.next_policy_id + 1) as u64;
            let post = buy_recorded(m, req);
            &&& post.has_policy(id)
            &&& post.policy_at(id).id == id
            &&& post.policy_at(id).user == req.sender
            &&& post.policy_at(id).flight_id == req.flight_id
            &&& post.policy_at(id).ticket_price == req.ticket_price
            &&& post.policy_at(id).premium_paid == premium_of(req.ticket_price)
            &&& post.policy_at(id).coverage_amount == req.ticket_price
            &&& post.policy_at(id).expiration == req.expiration
            &&& post.policy_at(id).active
            &&& !post.policy_at(id).claimed
            &&& post.next_policy_id == id
        }),
{
}

/// A recorded claim is terminal: the policy comes out claimed and
/// inactive, every other record is untouched, and the payout owed is
/// exactly the policy's coverage amount. Because a claimed policy is
/// inactive and the claim checks test `active` first, any further
/// claim attempt on it fails (with `PolicyNotActive`) and moves no
/// funds.
pub proof fn lemma_claim_terminal(m: ContractModel, pay: PayoutRequest)
    requires
        m.wf(),
        m.pending == Pending::ClaimBalance(
            (BalanceCheck { policy_id: pay.policy_id, user: pay.user, coverage: pay.coverage }),
        ),
    ensures
        ({
            let post = claim_recorded(m, pay);
            &&& post.policy_at(pay.policy_id).claimed
            &&& !post.policy_at(pay.policy_id).active
            &&& pay.coverage == m.policy_at(pay.policy_id).coverage_amount
            &&& pay.user == m.policy_at(pay.policy_id).user
            &&& forall|other: u64|
                post.has_policy(other) && other != pay.policy_id ==> post.policy_at(other)
                    == m.policy_at(other)
        }),
{
}

/// A claimed policy is no longer active, in every well-formed state.
pub proof fn lemma_claimed_implies_inactive(m: ContractModel, policy_id: u64)
    requires
        m.wf(),
        m.has_policy(policy_id),
        m.policy_at(policy_id).claimed,
    ensures
        !m.policy_at(policy_id).active,
{
}

/// The claimed flag never reverts: across every state transition the
/// lifecycle performs — recording a purchase, recording or settling a
/// claim, lapsing a policy — a policy that was claimed stays claimed.
pub proof fn lemma_claimed_is_permanent(
    m: ContractModel,
    req: BuyRequest,
    pay: PayoutRequest,
    expired_id: u64,
    policy_id: u64,
)
    requires
        m.wf(),
        m.has_policy(policy_id),
        m.policy_at(policy_id).claimed,
        m.has_policy(expired_id),
        m.has_policy(pay.policy_id),
    ensures
        buy_recorded(m, req).policy_at(policy_id).claimed,
        claim_recorded(m, pay).policy_at(policy_id).claimed,
        claim_settled(m, pay).policy_at(policy_id).claimed,
        expire_recorded(m, expired_id).policy_at(policy_id).claimed,
{
}

/// Expiration is terminal and idempotent: a lapsed policy is inactive
/// with its claimed flag untouched, every other record is unchanged,
/// and — since the expire operation treats an inactive policy as a
/// successful no-op — a second call on the same identifier changes
/// nothing and logs nothing further.
pub proof fn lemma_expire_terminal(m: ContractModel, policy_id: u64)
    requires
        m.wf(),
        m.has_policy(policy_id),
        m.policy_at(policy_id).active,
    ensures
        ({
            let post = expire_recorded(m, policy_id);
            &&& !post.policy_at(policy_id).active
            &&& post.policy_at(policy_id).claimed == m.policy_at(policy_id).claimed
            &&& forall|other: u64|
                post.has_policy(other) && other != policy_id ==> post.policy_at(other)
                    == m.policy_at(other)
        }),
{
}

} // verus!
