//! The contract state and the policy lifecycle state machine.
//!
//! Every outbound stablecoin call can fail or re-enter, so each
//! lifecycle operation that needs one is split at the call: the entry
//! function validates, takes the reentrancy guard, records what call is
//! owed and returns its description; the host performs the call and
//! reports the outcome to the matching completion function, which
//! commits or rolls back and releases the guard. While a call is owed
//! the guard stays held, so any re-entrant lifecycle attempt fails with
//! `Reentrancy`.

use vstd::prelude::*;
use crate::errors::PalomitoError;
use crate::events::Event;
use crate::policy::{seq_policy, Policy};
use crate::premium::{compute_premium, premium_of};
use crate::store::PolicyStore;

verus! {

/// The premium pull owed after a validated purchase: `premium` units
/// from `sender` to the contract.
#[derive(Clone, Copy, Debug, PartialEq, Eq, Structural)]
pub struct BuyRequest {
    pub sender: u128,
    pub flight_id: u64,
    pub ticket_price: u64,
    pub premium: u64,
    pub expiration: u64,
}

/// The balance query owed after a triggered claim passed its checks;
/// `user` and `coverage` are the policy fields read before the call.
#[derive(Clone, Copy, Debug, PartialEq, Eq, Structural)]
pub struct BalanceCheck {
    pub policy_id: u64,
    pub user: u128,
    pub coverage: u64,
}

/// The payout transfer owed once a claim is recorded: `coverage` units
/// to `user`.
#[derive(Clone, Copy, Debug, PartialEq, Eq, Structural)]
pub struct PayoutRequest {
    pub policy_id: u64,
    pub user: u128,
    pub coverage: u64,
}

/// Which outbound token call the contract is waiting on, if any. While
/// this is not `Idle`, the reentrancy guard is held.
#[derive(Clone, Copy, Debug, PartialEq, Eq, Structural)]
pub enum Pending {
    Idle,
    BuyTransfer(BuyRequest),
    ClaimBalance(BalanceCheck),
    ClaimTransfer(PayoutRequest),
}

impl Pending {
    pub open spec fn buy_req(self) -> BuyRequest {
        match self {
            Pending::BuyTransfer(r) => r,
            _ => arbitrary(),
        }
    }

    pub open spec fn balance_check(self) -> BalanceCheck {
        match self {
            Pending::ClaimBalance(c) => c,
            _ => arbitrary(),
        }
    }

    pub open spec fn payout(self) -> PayoutRequest {
        match self {
            Pending::ClaimTransfer(p) => p,
            _ => arbitrary(),
        }
    }
}

/// The guard value of a contract that was never initialized. Guarded
/// operations refuse to run until initialization unlocks the guard.
pub const GUARD_UNSET: u64 = 0;

/// The guard value when no guarded operation is in flight.
pub const GUARD_OPEN: u64 = 1;

/// The guard value held across an outbound token call.
pub const GUARD_HELD: u64 = 2;

/// The mathematical value of the whole contract: storage, counters,
/// guard, the owed token call, and the event log.
pub ghost struct ContractModel {
    pub all_policies: Seq<Policy>,
    pub user_policies: Seq<Policy>,
    pub next_policy_id: u64,
    pub owner: u128,
    pub usdc_token: u128,
    pub locked: u64,
    pub pending: Pending,
    pub events: Seq<Event>,
}

impl ContractModel {
    pub open spec fn has_policy(self, policy_id: u64) -> bool {
        seq_policy(self.all_policies, policy_id) is Some
    }

    pub open spec fn policy_at(self, policy_id: u64) -> Policy
        recommends
            self.has_policy(policy_id),
    {
        self.all_policies[policy_id - 1]
    }

    /// What must hold of the owed token call for the completion
    /// functions to commit correctly: a purchase in flight carries a
    /// consistent quote, and a claim in flight points at a stored
    /// policy whose immutable fields match what was read.
    pub open spec fn pending_ok(self) -> bool {
        match self.pending {
            Pending::Idle => true,
            Pending::BuyTransfer(req) => {
                &&& req.ticket_price != 0
                &&& req.premium == premium_of(req.ticket_price)
            },
            Pending::ClaimBalance(chk) => {
                &&& self.has_policy(chk.policy_id)
                &&& chk.user == self.policy_at(chk.policy_id).user
                &&& chk.coverage == self.policy_at(chk.policy_id).coverage_amount
                &&& !self.policy_at(chk.policy_id).claimed
            },
            Pending::ClaimTransfer(pay) => {
                &&& self.has_policy(pay.policy_id)
                &&& pay.user == self.policy_at(pay.policy_id).user
                &&& pay.coverage == self.policy_at(pay.policy_id).coverage_amount
                &&& self.policy_at(pay.policy_id).claimed
                &&& !self.policy_at(pay.policy_id).active
            },
        }
    }

    /// The contract invariant. Identifiers are dense and start at one,
    /// records are well-formed, the per-owner list mirrors creation,
    /// the guard takes only its three values and is held exactly while
    /// a token call is owed, and an uninitialized contract (owner zero)
    /// has issued no policy.
    pub open spec fn wf(self) -> bool {
        &&& self.all_policies.len() == self.next_policy_id
        &&& forall|i: int| 0 <= i < self.all_policies.len() ==> (#[trigger] self.all_policies[i]).wf()
        &&& forall|i: int|
            0 <= i < self.all_policies.len() ==> (#[trigger] self.all_policies[i]).id == i + 1
        &&& self.user_policies.len() == self.all_policies.len()
        &&& forall|i: int|
            0 <= i < self.all_policies.len() ==> #[trigger] self.user_policies[i]
                == self.all_policies[i].snapshot()
        &&& self.locked <= GUARD_HELD
        &&& (self.locked == GUARD_HELD <==> !(self.pending is Idle))
        &&& self.pending_ok()
        &&& (self.owner == 0 ==> self.next_policy_id == 0 && self.locked == GUARD_UNSET
            && self.pending is Idle)
    }
}

/// The record a completed purchase stores under identifier `id`.
pub open spec fn policy_for(req: BuyRequest, id: u64) -> Policy {
    Policy {
        id,
        user: req.sender,
        flight_id: req.flight_id,
        ticket_price: req.ticket_price,
        premium_paid: req.premium,
        coverage_amount: req.ticket_price,
        expiration: req.expiration,
        active: true,
        claimed: false,
    }
}

/// The state after a purchase whose premium pull succeeded: the new
/// record stored under the next identifier, its snapshot appended to
/// the owner list, both purchase events logged, the guard released.
pub open spec fn buy_recorded(m: ContractModel, req: BuyRequest) -> ContractModel {
    let id = (m.next_policy_id + 1) as u64;
    let p = policy_for(req, id);
    ContractModel {
        all_policies: m.all_policies.push(p),
        user_policies: m.user_policies.push(p),
        next_policy_id: id,
        locked: GUARD_OPEN,
        pending: Pending::Idle,
        events: m.events.push(
            Event::PolicyPurchased {
                user: req.sender,
                policy_id: id,
                flight_id: req.flight_id,
                coverage_amount: req.ticket_price,
                premium_paid: req.premium,
                expiration: req.expiration,
            },
        ).push(Event::PolicyStatusChanged { policy_id: id, active: true, claimed: false }),
        ..m
    }
}

/// The state after a triggered claim passed the balance check: the
/// policy marked claimed and inactive before any transfer goes out,
/// the payout transfer owed, the guard still held.
pub open spec fn claim_recorded(m: ContractModel, pay: PayoutRequest) -> ContractModel {
    ContractModel {
        all_policies: m.all_policies.update(
            pay.policy_id - 1,
            (Policy { claimed: true, active: false, ..m.policy_at(pay.policy_id) }),
        ),
        pending: Pending::ClaimTransfer(pay),
        ..m
    }
}

/// The state after a recorded claim's payout transfer succeeded: both
/// settlement events logged, the guard released.
pub open spec fn claim_settled(m: ContractModel, pay: PayoutRequest) -> ContractModel {
    ContractModel {
        locked: GUARD_OPEN,
        pending: Pending::Idle,
        events: m.events.push(
            Event::PolicyStatusChanged { policy_id: pay.policy_id, active: false, claimed: true },
        ).push(Event::ClaimPaid { user: pay.user, policy_id: pay.policy_id, payout: pay.coverage }),
        ..m
    }
}

/// The state after a policy lapsed: the record marked inactive, its
/// claimed flag untouched, both expiration events logged.
pub open spec fn expire_recorded(m: ContractModel, policy_id: u64) -> ContractModel {
    let p = m.policy_at(policy_id);
    ContractModel {
        all_policies: m.all_policies.update(policy_id - 1, (Policy { active: false, ..p })),
        events: m.events.push(Event::PolicyExpired { policy_id }).push(
            Event::PolicyStatusChanged { policy_id, active: false, claimed: p.claimed },
        ),
        ..m
    }
}

/// The flight-insurance contract. One instance exists per deployment;
/// every operation runs against it.
pub struct PalomitoInsurance {
    pub store: PolicyStore,
    pub next_policy_id: u64,
    pub owner: u128,
    pub usdc_token: u128,
    pub locked: u64,
    pub pending: Pending,
    pub events: Vec<Event>,
}

impl View for PalomitoInsurance {
    type V = ContractModel;

    open spec fn view(&self) -> ContractModel {
        ContractModel {
            all_policies: self.store.all_policies@,
            user_policies: self.store.user_policies@,
            next_policy_id: self.next_policy_id,
            owner: self.owner,
            usdc_token: self.usdc_token,
            locked: self.locked,
            pending: self.pending,
            events: self.events@,
        }
    }
}

impl PalomitoInsurance {
    pub open spec fn wf(self) -> bool {
        self@.wf()
    }

    /// The contract as deployment leaves it: no owner, no policies, the
    /// guard not yet unlocked, so guarded operations refuse to run
    /// until `init`.
    pub fn new() -> (s: Self)
        ensures
            s.wf(),
            s@.owner == 0,
            s@.usdc_token == 0,
            s@.next_policy_id == 0,
            s@.locked == GUARD_UNSET,
            s@.pending is Idle,
            s@.all_policies == Seq::<Policy>::empty(),
            s@.user_policies == Seq::<Policy>::empty(),
            s@.events == Seq::<Event>::empty(),
    {
        PalomitoInsurance {
            store: PolicyStore::new(),
            next_policy_id: 0,
            owner: 0,
            usdc_token: 0,
            locked: GUARD_UNSET,
            pending: Pending::Idle,
            events: Vec::new(),
        }
    }

    /// One-time initialization: records the caller as owner and the
    /// stablecoin address, and opens the reentrancy guard. A repeat
    /// call finds the owner already set and changes nothing. The zero
    /// account is the reserved "owner unset" sentinel, so the caller
    /// must be a real account.
    pub fn init(&mut self, sender: u128, usdc_address: u128)
        requires
            old(self).wf(),
            sender != 0,
        ensures
            final(self).wf(),
            old(self)@.owner != 0 ==> final(self)@ == old(self)@,
            old(self)@.owner == 0 ==> final(self)@ == (ContractModel {
                owner: sender,
                usdc_token: usdc_address,
                locked: GUARD_OPEN,
                next_policy_id: 0,
                ..old(self)@
            }),
    {
        if self.owner == 0 {
            self.owner = sender;
            self.usdc_token = usdc_address;
            self.locked = GUARD_OPEN;
            self.next_policy_id = 0;
        }
    }

    /// Quotes the premium for a ticket price: five percent, rounded
    /// down, exact over the whole input range.
    pub fn quote_premium(ticket_price: u64) -> (r: u64)
        ensures
            r == premium_of(ticket_price),
            r as int == (ticket_price as int) * 5 / 100,
    {
        compute_premium(ticket_price)
    }

    /// Purchase entry: takes the guard, validates the request, and
    /// returns the premium pull the host owes the token gateway. The
    /// guard stays held until `buy_policy_complete` reports the
    /// outcome. On any validation failure the call returns the exact
    /// error, releases the guard and leaves the state untouched.
    pub fn buy_policy(
        &mut self,
        sender: u128,
        now: u64,
        flight_id: u64,
        ticket_price: u64,
        expiration: u64,
    ) -> (r: Result<BuyRequest, PalomitoError>)
        requires
            old(self).wf(),
        ensures
            final(self).wf(),
            ({
                let m = old(self)@;
                let req = BuyRequest {
                    sender,
                    flight_id,
                    ticket_price,
                    premium: premium_of(ticket_price),
                    expiration,
                };
                &&& m.locked != GUARD_OPEN ==> r == Err::<BuyRequest, PalomitoError>(
                    PalomitoError::Reentrancy,
                ) && final(self)@ == m
                &&& m.locked == GUARD_OPEN && expiration <= now ==> r == Err::<
                    BuyRequest,
                    PalomitoError,
                >(PalomitoError::ExpirationInPast) && final(self)@ == m
                &&& m.locked == GUARD_OPEN && expiration > now && ticket_price == 0 ==> r == Err::<
                    BuyRequest,
                    PalomitoError,
                >(PalomitoError::InvalidTicketPrice) && final(self)@ == m
                &&& m.locked == GUARD_OPEN && expiration > now && ticket_price != 0 ==> r == Ok::<
                    BuyRequest,
                    PalomitoError,
                >(req) && final(self)@ == (ContractModel {
                    locked: GUARD_HELD,
                    pending: Pending::BuyTransfer(req),
                    ..m
                })
            }),
    {
        if self.locked != GUARD_OPEN {
            return Err(PalomitoError::Reentrancy);
        }
        self.locked = GUARD_HELD;
        if expiration <= now {
            self.locked = GUARD_OPEN;
            return Err(PalomitoError::ExpirationInPast);
        }
        if ticket_price == 0 {
            self.locked = GUARD_OPEN;
            return Err(PalomitoError::InvalidTicketPrice);
        }
        let premium: u64 = compute_premium(ticket_price);
        let req = BuyRequest { sender, flight_id, ticket_price, premium, expiration };
        self.pending = Pending::BuyTransfer(req);
        Ok(req)
    }

    /// Purchase completion: the host reports whether the premium pull
    /// succeeded. On success the policy is created in its active state
    /// and its identifier returned; on failure nothing was stored and
    /// the purchase fails with `IncorrectPremium`. Either way the guard
    /// is released.
    pub fn buy_policy_complete(&mut self, transfer_ok: bool) -> (r: Result<u64, PalomitoError>)
        requires
            old(self).wf(),
            old(self)@.pending is BuyTransfer,
            old(self)@.next_policy_id < u64::MAX,
        ensures
            final(self).wf(),
            !transfer_ok ==> r == Err::<u64, PalomitoError>(PalomitoError::IncorrectPremium)
                && final(self)@ == (ContractModel {
                locked: GUARD_OPEN,
                pending: Pending::Idle,
                ..old(self)@
            }),
            transfer_ok ==> r == Ok::<u64, PalomitoError>((old(self)@.next_policy_id + 1) as u64)
                && final(self)@ == buy_recorded(old(self)@, old(self)@.pending.buy_req()),
    {
        let req = match self.pending {
            Pending::BuyTransfer(req) => req,
            // dead arm: the precondition pins the variant
            _ => BuyRequest { sender: 0, flight_id: 0, ticket_price: 0, premium: 0, expiration: 0 },
        };
        self.pending = Pending::Idle;
        if !transfer_ok {
            self.locked = GUARD_OPEN;
            return Err(PalomitoError::IncorrectPremium);
        }
        let id: u64 = self.store.create(
            req.sender,
            req.flight_id,
            req.ticket_price,
            req.premium,
            req.expiration,
        );
        self.next_policy_id = id;
        self.events.push(
            Event::PolicyPurchased {
                user: req.sender,
                policy_id: id,
                flight_id: req.flight_id,
                coverage_amount: req.ticket_price,
                premium_paid: req.premium,
                expiration: req.expiration,
            },
        );
        self.events.push(Event::PolicyStatusChanged { policy_id: id, active: true, claimed: false });
        self.locked = GUARD_OPEN;
        Ok(id)
    }

    /// Claim entry, owner only: validates the policy, logs the
    /// verifier's decision either way, and says whether a payout is in
    /// motion. `Ok(false)` means the claim did not trigger: the policy
    /// stays active and nothing else changes. `Ok(true)` means the
    /// checks passed: the guard stays held and the host owes the
    /// contract its stablecoin balance via `verify_claim_with_balance`.
    pub fn verify_and_pay_claim(
        &mut self,
        caller: u128,
        policy_id: u64,
        cancellation_triggered: bool,
    ) -> (r: Result<bool, PalomitoError>)
        requires
            old(self).wf(),
        ensures
            final(self).wf(),
            ({
                let m = old(self)@;
                let checks_passed = caller == m.owner && m.locked == GUARD_OPEN && m.has_policy(
                    policy_id,
                ) && m.policy_at(policy_id).active && !m.policy_at(policy_id).claimed;
                &&& caller != m.owner ==> r == Err::<bool, PalomitoError>(PalomitoError::NotOwner)
                    && final(self)@ == m
                &&& caller == m.owner && m.locked != GUARD_OPEN ==> r == Err::<bool, PalomitoError>(
                    PalomitoError::Reentrancy,
                ) && final(self)@ == m
                &&& caller == m.owner && m.locked == GUARD_OPEN && !m.has_policy(policy_id) ==> r
                    == Err::<bool, PalomitoError>(PalomitoError::PolicyNotFound) && final(self)@ == m
                &&& caller == m.owner && m.locked == GUARD_OPEN && m.has_policy(policy_id)
                    && !m.policy_at(policy_id).active ==> r == Err::<bool, PalomitoError>(
                    PalomitoError::PolicyNotActive,
                ) && final(self)@ == m
                &&& caller == m.owner && m.locked == GUARD_OPEN && m.has_policy(policy_id)
                    && m.policy_at(policy_id).active && m.policy_at(policy_id).claimed ==> r
                    == Err::<bool, PalomitoError>(PalomitoError::PolicyAlreadyClaimed)
                    && final(self)@ == m
                &&& checks_passed && !cancellation_triggered ==> r == Ok::<bool, PalomitoError>(
                    false,
                ) && final(self)@ == (ContractModel {
                    events: m.events.push(Event::ClaimVerified { policy_id, triggered: false }),
                    ..m
                })
                &&& checks_passed && cancellation_triggered ==> r == Ok::<bool, PalomitoError>(true)
                    && final(self)@ == (ContractModel {
                    locked: GUARD_HELD,
                    pending: Pending::ClaimBalance(
                        (BalanceCheck {
                            policy_id,
                            user: m.policy_at(policy_id).user,
                            coverage: m.policy_at(policy_id).coverage_amount,
                        }),
                    ),
                    events: m.events.push(Event::ClaimVerified { policy_id, triggered: true }),
                    ..m
                })
            }),
    {
        if caller != self.owner {
            return Err(PalomitoError::NotOwner);
        }
        if self.locked != GUARD_OPEN {
            return Err(PalomitoError::Reentrancy);
        }
        self.locked = GUARD_HELD;
        let got = self.store.get(policy_id);
        match got {
            None => {
                self.locked = GUARD_OPEN;
                Err(PalomitoError::PolicyNotFound)
            },
            Some(p) => {
                if !p.active {
                    self.locked = GUARD_OPEN;
                    return Err(PalomitoError::PolicyNotActive);
                }
                if p.claimed {
                    self.locked = GUARD_OPEN;
                    return Err(PalomitoError::PolicyAlreadyClaimed);
                }
                self.events.push(
                    Event::ClaimVerified { policy_id, triggered: cancellation_triggered },
                );
                if !cancellation_triggered {
                    self.locked = GUARD_OPEN;
                    return Ok(false);
                }
                self.pending = Pending::ClaimBalance(
                    BalanceCheck { policy_id, user: p.user, coverage: p.coverage_amount },
                );
                Ok(true)
            },
        }
    }

    /// Claim balance step: the host reports the contract's stablecoin
    /// balance (or that the query failed). If the balance cannot cover
    /// the payout, the claim fails with `InsufficientContractUSDC` and
    /// the policy stays as it was. Otherwise the policy is marked
    /// claimed and inactive *before* any transfer goes out, and the
    /// returned payout transfer is owed to `verify_claim_complete`.
    pub fn verify_claim_with_balance(&mut self, balance: Option<u64>) -> (r: Result<
        PayoutRequest,
        PalomitoError,
    >)
        requires
            old(self).wf(),
            old(self)@.pending is ClaimBalance,
        ensures
            final(self).wf(),
            ({
                let chk = old(self)@.pending.balance_check();
                &&& (balance is None || balance.unwrap() < chk.coverage) ==> r == Err::<
                    PayoutRequest,
                    PalomitoError,
                >(PalomitoError::InsufficientContractUSDC) && final(self)@ == (ContractModel {
                    locked: GUARD_OPEN,
                    pending: Pending::Idle,
                    ..old(self)@
                })
                &&& (balance is Some && balance.unwrap() >= chk.coverage) ==> r == Ok::<
                    PayoutRequest,
                    PalomitoError,
                >(
                    (PayoutRequest { policy_id: chk.policy_id, user: chk.user, coverage: chk.coverage }),
                ) && final(self)@ == claim_recorded(
                    old(self)@,
                    (PayoutRequest { policy_id: chk.policy_id, user: chk.user, coverage: chk.coverage }),
                )
            }),
    {
        let chk = match self.pending {
            Pending::ClaimBalance(chk) => chk,
            // dead arm: the precondition pins the variant
            _ => BalanceCheck { policy_id: 0, user: 0, coverage: 0 },
        };
        let enough: bool = match balance {
            Some(b) => b >= chk.coverage,
            None => false,
        };
        if !enough {
            self.locked = GUARD_OPEN;
            self.pending = Pending::Idle;
            return Err(PalomitoError::InsufficientContractUSDC);
        }
        self.store.set_claimed(chk.policy_id, true);
        self.store.set_active(chk.policy_id, false);
        let pay = PayoutRequest { policy_id: chk.policy_id, user: chk.user, coverage: chk.coverage };
        self.pending = Pending::ClaimTransfer(pay);
        proof {
            // the two successive flag writes collapse to one record update
            assert(old(self)@.all_policies.update(
                chk.policy_id - 1,
                (Policy { claimed: true, ..old(self)@.policy_at(chk.policy_id) }),
            ).update(
                chk.policy_id - 1,
                (Policy {
                    active: false,
                    ..(Policy { claimed: true, ..old(self)@.policy_at(chk.policy_id) })
                }),
            ) =~= old(self)@.all_policies.update(
                chk.policy_id - 1,
                (Policy { claimed: true, active: false, ..old(self)@.policy_at(chk.policy_id) }),
            ));
            assert(self@ =~= claim_recorded(old(self)@, pay));
        }
        Ok(pay)
    }

    /// Claim completion: the host reports whether the payout transfer
    /// succeeded. The policy stays claimed either way — state was
    /// finalized before the transfer went out, deliberately — and the
    /// guard is released; a failed transfer reports `USDCTransferFailed`.
    pub fn verify_claim_complete(&mut self, transfer_ok: bool) -> (r: Result<(), PalomitoError>)
        requires
            old(self).wf(),
            old(self)@.pending is ClaimTransfer,
        ensures
            final(self).wf(),
            !transfer_ok ==> r == Err::<(), PalomitoError>(PalomitoError::USDCTransferFailed)
                && final(self)@ == (ContractModel {
                locked: GUARD_OPEN,
                pending: Pending::Idle,
                ..old(self)@
            }),
            transfer_ok ==> r == Ok::<(), PalomitoError>(()) && final(self)@ == claim_settled(
                old(self)@,
                old(self)@.pending.payout(),
            ),
    {
        let pay = match self.pending {
            Pending::ClaimTransfer(pay) => pay,
            // dead arm: the precondition pins the variant
            _ => PayoutRequest { policy_id: 0, user: 0, coverage: 0 },
        };
        self.pending = Pending::Idle;
        self.locked = GUARD_OPEN;
        if !transfer_ok {
            return Err(PalomitoError::USDCTransferFailed);
        }
        self.events.push(
            Event::PolicyStatusChanged { policy_id: pay.policy_id, active: false, claimed: true },
        );
        self.events.push(
            Event::ClaimPaid { user: pay.user, policy_id: pay.policy_id, payout: pay.coverage },
        );
        Ok(())
    }

    /// Lapses a policy whose expiration has passed. Callable by anyone;
    /// it moves no funds, so it takes no guard. A policy already
    /// inactive lapses as a no-op, logging nothing further.
    pub fn expire_policy(&mut self, now: u64, policy_id: u64) -> (r: Result<(), PalomitoError>)
        requires
            old(self).wf(),
        ensures
            final(self).wf(),
            !old(self)@.has_policy(policy_id) ==> r == Err::<(), PalomitoError>(
                PalomitoError::PolicyNotFound,
            ) && final(self)@ == old(self)@,
            old(self)@.has_policy(policy_id) && now <= old(self)@.policy_at(policy_id).expiration
                ==> r == Err::<(), PalomitoError>(PalomitoError::PolicyNotExpired) && final(self)@
                == old(self)@,
            old(self)@.has_policy(policy_id) && now > old(self)@.policy_at(policy_id).expiration
                && !old(self)@.policy_at(policy_id).active ==> r == Ok::<(), PalomitoError>(())
                && final(self)@ == old(self)@,
            old(self)@.has_policy(policy_id) && now > old(self)@.policy_at(policy_id).expiration
                && old(self)@.policy_at(policy_id).active ==> r == Ok::<(), PalomitoError>(())
                && final(self)@ == expire_recorded(old(self)@, policy_id),
    {
        let got = self.store.get(policy_id);
        match got {
            None => Err(PalomitoError::PolicyNotFound),
            Some(p) => {
                if now <= p.expiration {
                    return Err(PalomitoError::PolicyNotExpired);
                }
                if !p.active {
                    return Ok(());
                }
                self.store.set_active(policy_id, false);
                self.events.push(Event::PolicyExpired { policy_id });
                self.events.push(
                    Event::PolicyStatusChanged { policy_id, active: false, claimed: p.claimed },
                );
                Ok(())
            },
        }
    }

    /// Whether a policy was ever stored under this identifier.
    pub fn policy_exists(&self, policy_id: u64) -> (r: bool)
        ensures
            r == self@.has_policy(policy_id),
    {
        let got = self.store.get(policy_id);
        got.is_some()
    }

    /// Status summary of a policy: exists, active, claimed, expired as
    /// of `now`, and the expiration itself. A missing policy reads as
    /// all-false with expiration zero.
    pub fn get_policy_status(&self, now: u64, policy_id: u64) -> (r: (bool, bool, bool, bool, u64))
        ensures
            self@.has_policy(policy_id) ==> r == (
                true,
                self@.policy_at(policy_id).active,
                self@.policy_at(policy_id).claimed,
                now > self@.policy_at(policy_id).expiration,
                self@.policy_at(policy_id).expiration,
            ),
            !self@.has_policy(policy_id) ==> r == (false, false, false, false, 0u64),
    {
        let got = self.store.get(policy_id);
        match got {
            Some(p) => (true, p.active, p.claimed, now > p.expiration, p.expiration),
            None => (false, false, false, false, 0u64),
        }
    }

    /// How many policies this owner has purchased.
    pub fn get_user_policies_count(&self, user: u128) -> (n: u64)
        ensures
            n == self.store.policies_of(user).len(),
    {
        let list = self.store.policies_for_owner(user);
        list.len() as u64
    }

    /// The canonical record's fields, as one flat tuple. A missing
    /// policy reads as the all-zero record, identifier zero first.
    pub fn get_policy(&self, policy_id: u64) -> (r: (
        u64,
        u128,
        u64,
        u64,
        u64,
        u64,
        u64,
        bool,
        bool,
    ))
        ensures
            self@.has_policy(policy_id) ==> r == policy_fields(self@.policy_at(policy_id)),
            !self@.has_policy(policy_id) ==> r == (0u64, 0u128, 0u64, 0u64, 0u64, 0u64, 0u64, false, false),
    {
        let got = self.store.get(policy_id);
        match got {
            Some(p) => (
                p.id,
                p.user,
                p.flight_id,
                p.ticket_price,
                p.premium_paid,
                p.coverage_amount,
                p.expiration,
                p.active,
                p.claimed,
            ),
            None => (0u64, 0u128, 0u64, 0u64, 0u64, 0u64, 0u64, false, false),
        }
    }

    /// One of an owner's policies, by position in the owner's list.
    /// The list keeps creation-time snapshots, so the flags read as
    /// they stood at purchase. An out-of-range position is a caller
    /// error the contract does not tolerate.
    pub fn get_user_policy_by_index(&self, user: u128, index: u64) -> (r: (
        u64,
        u128,
        u64,
        u64,
        u64,
        u64,
        u64,
        bool,
        bool,
    ))
        requires
            index < self.store.policies_of(user).len(),
        ensures
            r == policy_fields(self.store.policies_of(user)[index as int]),
    {
        let list = self.store.policies_for_owner(user);
        let p = list[index as usize];
        (
            p.id,
            p.user,
            p.flight_id,
            p.ticket_price,
            p.premium_paid,
            p.coverage_amount,
            p.expiration,
            p.active,
            p.claimed,
        )
    }

    /// The contract's stablecoin balance as the gateway reported it; a
    /// failed query reads as zero.
    pub fn contract_usdc_balance(&self, balance: Option<u64>) -> (r: u64)
        ensures
            balance is Some ==> r == balance.unwrap(),
            balance is None ==> r == 0,
    {
        match balance {
            Some(b) => b,
            None => 0,
        }
    }

    pub fn get_owner(&self) -> (r: u128)
        ensures
            r == self@.owner,
    {
        self.owner
    }

    pub fn get_usdc_token(&self) -> (r: u128)
        ensures
            r == self@.usdc_token,
    {
        self.usdc_token
    }

    pub fn get_next_policy_id(&self) -> (r: u64)
        ensures
            r == self@.next_policy_id,
    {
        self.next_policy_id
    }

    /// Hands ownership to another account; owner only.
    pub fn transfer_ownership(&mut self, caller: u128, new_owner: u128) -> (r: Result<
        (),
        PalomitoError,
    >)
        requires
            old(self).wf(),
        ensures
            caller != old(self)@.owner ==> r == Err::<(), PalomitoError>(PalomitoError::NotOwner)
                && final(self)@ == old(self)@,
            caller == old(self)@.owner ==> r == Ok::<(), PalomitoError>(()) && final(self)@
                == (ContractModel { owner: new_owner, ..old(self)@ }),
            caller != old(self)@.owner || new_owner != 0 ==> final(self).wf(),
    {
        if caller != self.owner {
            return Err(PalomitoError::NotOwner);
        }
        self.owner = new_owner;
        Ok(())
    }
}

/// A policy record flattened to the tuple shape the read accessors
/// return.
pub open spec fn policy_fields(p: Policy) -> (u64, u128, u64, u64, u64, u64, u64, bool, bool) {
    (
        p.id,
        p.user,
        p.flight_id,
        p.ticket_price,
        p.premium_paid,
        p.coverage_amount,
        p.expiration,
        p.active,
        p.claimed,
    )
}

} // verus!
