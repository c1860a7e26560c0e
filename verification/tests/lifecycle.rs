use palomito::contract::PalomitoInsurance;
use palomito::errors::PalomitoError;
use palomito::events::Event;

const OWNER: u128 = 0xA11CE;
const BUYER: u128 = 0xB0B;
const TOKEN: u128 = 0x05DC;

fn initialized() -> PalomitoInsurance {
    let mut c = PalomitoInsurance::new();
    c.init(OWNER, TOKEN);
    c
}

fn buy(
    c: &mut PalomitoInsurance,
    sender: u128,
    now: u64,
    flight_id: u64,
    ticket_price: u64,
    expiration: u64,
) -> Result<u64, PalomitoError> {
    c.buy_policy(sender, now, flight_id, ticket_price, expiration)?;
    c.buy_policy_complete(true)
}

#[test]
fn quote_premium_is_five_percent_floor() {
    assert_eq!(PalomitoInsurance::quote_premium(0), 0);
    assert_eq!(PalomitoInsurance::quote_premium(1_000_000), 50_000);
    assert_eq!(PalomitoInsurance::quote_premium(19), 0);
    assert_eq!(PalomitoInsurance::quote_premium(20), 1);
    assert_eq!(PalomitoInsurance::quote_premium(99), 4);
    assert_eq!(PalomitoInsurance::quote_premium(100), 5);
    assert_eq!(PalomitoInsurance::quote_premium(u64::MAX), u64::MAX / 20);
}

#[test]
fn buy_policy_records_fields_and_first_id_is_one() {
    let mut c = initialized();
    let req = c.buy_policy(BUYER, 100, 42, 1_000_000, 500).unwrap();
    assert_eq!(req.premium, 50_000);
    assert_eq!(req.sender, BUYER);
    let id = c.buy_policy_complete(true).unwrap();
    assert_eq!(id, 1);
    // round trip: every stored field is exactly what was passed in,
    // plus the computed premium and the creation flags
    let (pid, user, flight, price, premium, coverage, exp, active, claimed) = c.get_policy(1);
    assert_eq!(pid, 1);
    assert_eq!(user, BUYER);
    assert_eq!(flight, 42);
    assert_eq!(price, 1_000_000);
    assert_eq!(premium, 50_000);
    assert_eq!(coverage, 1_000_000);
    assert_eq!(exp, 500);
    assert!(active);
    assert!(!claimed);
}

#[test]
fn policy_ids_strictly_increase() {
    let mut c = initialized();
    assert_eq!(buy(&mut c, BUYER, 100, 1, 1_000_000, 500).unwrap(), 1);
    assert_eq!(buy(&mut c, BUYER, 100, 2, 2_000_000, 600).unwrap(), 2);
    assert_eq!(buy(&mut c, OWNER, 100, 3, 3_000_000, 700).unwrap(), 3);
    assert_eq!(c.get_next_policy_id(), 3);
}

#[test]
fn buy_policy_expiration_in_past_is_rejected_without_effect() {
    let mut c = initialized();
    let before_events = c.events.len();
    let r = c.buy_policy(BUYER, 100, 42, 1_000_000, 100);
    assert_eq!(r.unwrap_err(), PalomitoError::ExpirationInPast);
    assert_eq!(c.get_next_policy_id(), 0);
    assert!(!c.policy_exists(1));
    assert_eq!(c.events.len(), before_events);
    // the guard was released: a fresh, valid purchase still works
    assert_eq!(buy(&mut c, BUYER, 100, 42, 1_000_000, 500).unwrap(), 1);
}

#[test]
fn buy_policy_zero_ticket_price_is_rejected() {
    let mut c = initialized();
    let r = c.buy_policy(BUYER, 100, 42, 0, 500);
    assert_eq!(r.unwrap_err(), PalomitoError::InvalidTicketPrice);
    assert_eq!(c.get_next_policy_id(), 0);
}

#[test]
fn buy_policy_failed_premium_pull_creates_nothing() {
    let mut c = initialized();
    c.buy_policy(BUYER, 100, 42, 1_000_000, 500).unwrap();
    let r = c.buy_policy_complete(false);
    assert_eq!(r.unwrap_err(), PalomitoError::IncorrectPremium);
    assert_eq!(c.get_next_policy_id(), 0);
    assert!(!c.policy_exists(1));
    assert_eq!(c.events.len(), 0);
}

#[test]
fn reentrant_buy_during_premium_pull_is_rejected() {
    let mut c = initialized();
    c.buy_policy(BUYER, 100, 42, 1_000_000, 500).unwrap();
    // the token callback re-enters while the guard is held
    let r = c.buy_policy(BUYER, 100, 7, 500_000, 600);
    assert_eq!(r.unwrap_err(), PalomitoError::Reentrancy);
    let r2 = c.verify_and_pay_claim(OWNER, 1, true);
    assert_eq!(r2.unwrap_err(), PalomitoError::Reentrancy);
    // the outer purchase still completes untouched
    assert_eq!(c.buy_policy_complete(true).unwrap(), 1);
}

#[test]
fn reentrant_calls_during_payout_are_rejected() {
    let mut c = initialized();
    buy(&mut c, BUYER, 100, 42, 1_000_000, 500).unwrap();
    assert_eq!(c.verify_and_pay_claim(OWNER, 1, true).unwrap(), true);
    // callback during the balance query window
    assert_eq!(
        c.buy_policy(BUYER, 100, 7, 500_000, 600).unwrap_err(),
        PalomitoError::Reentrancy
    );
    let pay = c.verify_claim_with_balance(Some(2_000_000)).unwrap();
    // callback during the outbound transfer window
    assert_eq!(
        c.verify_and_pay_claim(OWNER, 1, true).unwrap_err(),
        PalomitoError::Reentrancy
    );
    assert_eq!(pay.user, BUYER);
    assert_eq!(pay.coverage, 1_000_000);
    c.verify_claim_complete(true).unwrap();
}

#[test]
fn triggered_claim_pays_coverage_and_is_terminal() {
    let mut c = initialized();
    buy(&mut c, BUYER, 100, 42, 1_000_000, 500).unwrap();
    assert_eq!(c.verify_and_pay_claim(OWNER, 1, true).unwrap(), true);
    let pay = c.verify_claim_with_balance(Some(1_000_000)).unwrap();
    assert_eq!(pay.policy_id, 1);
    assert_eq!(pay.user, BUYER);
    assert_eq!(pay.coverage, 1_000_000);
    c.verify_claim_complete(true).unwrap();
    let (_, _, _, _, _, _, _, active, claimed) = c.get_policy(1);
    assert!(!active);
    assert!(claimed);
    // a second claim on the same policy fails: the claimed policy is
    // inactive, and the active check runs before the claimed check
    assert_eq!(
        c.verify_and_pay_claim(OWNER, 1, true).unwrap_err(),
        PalomitoError::PolicyNotActive
    );
}

#[test]
fn non_triggered_claim_changes_nothing_but_logs_decision() {
    let mut c = initialized();
    buy(&mut c, BUYER, 100, 42, 1_000_000, 500).unwrap();
    let before_events = c.events.len();
    let policy_before = c.get_policy(1);
    assert_eq!(c.verify_and_pay_claim(OWNER, 1, false).unwrap(), false);
    assert_eq!(c.get_policy(1), policy_before);
    assert_eq!(c.events.len(), before_events + 1);
    assert_eq!(
        c.events[before_events],
        Event::ClaimVerified { policy_id: 1, triggered: false }
    );
    // the policy is still active and can be claimed later
    assert_eq!(c.verify_and_pay_claim(OWNER, 1, true).unwrap(), true);
}

#[test]
fn claim_requires_owner() {
    let mut c = initialized();
    buy(&mut c, BUYER, 100, 42, 1_000_000, 500).unwrap();
    assert_eq!(
        c.verify_and_pay_claim(BUYER, 1, true).unwrap_err(),
        PalomitoError::NotOwner
    );
}

#[test]
fn claim_on_missing_policy_fails() {
    let mut c = initialized();
    assert_eq!(
        c.verify_and_pay_claim(OWNER, 1, true).unwrap_err(),
        PalomitoError::PolicyNotFound
    );
    assert_eq!(
        c.verify_and_pay_claim(OWNER, 0, true).unwrap_err(),
        PalomitoError::PolicyNotFound
    );
}

#[test]
fn claim_with_insufficient_balance_leaves_policy_active() {
    let mut c = initialized();
    buy(&mut c, BUYER, 100, 42, 1_000_000, 500).unwrap();
    assert_eq!(c.verify_and_pay_claim(OWNER, 1, true).unwrap(), true);
    let r = c.verify_claim_with_balance(Some(999_999));
    assert_eq!(r.unwrap_err(), PalomitoError::InsufficientContractUSDC);
    let (_, _, _, _, _, _, _, active, claimed) = c.get_policy(1);
    assert!(active);
    assert!(!claimed);
    // a failed balance query counts as insufficient too
    assert_eq!(c.verify_and_pay_claim(OWNER, 1, true).unwrap(), true);
    let r2 = c.verify_claim_with_balance(None);
    assert_eq!(r2.unwrap_err(), PalomitoError::InsufficientContractUSDC);
}

#[test]
fn failed_payout_transfer_keeps_policy_claimed() {
    let mut c = initialized();
    buy(&mut c, BUYER, 100, 42, 1_000_000, 500).unwrap();
    assert_eq!(c.verify_and_pay_claim(OWNER, 1, true).unwrap(), true);
    c.verify_claim_with_balance(Some(1_000_000)).unwrap();
    let r = c.verify_claim_complete(false);
    assert_eq!(r.unwrap_err(), PalomitoError::USDCTransferFailed);
    // state was finalized before the transfer went out, deliberately
    let (_, _, _, _, _, _, _, active, claimed) = c.get_policy(1);
    assert!(!active);
    assert!(claimed);
}

#[test]
fn expire_before_expiration_fails() {
    let mut c = initialized();
    buy(&mut c, BUYER, 100, 42, 1_000_000, 500).unwrap();
    assert_eq!(
        c.expire_policy(400, 1).unwrap_err(),
        PalomitoError::PolicyNotExpired
    );
    // the boundary instant itself is still not expired
    assert_eq!(
        c.expire_policy(500, 1).unwrap_err(),
        PalomitoError::PolicyNotExpired
    );
}

#[test]
fn expire_after_expiration_deactivates_then_second_call_is_noop() {
    let mut c = initialized();
    buy(&mut c, BUYER, 100, 42, 1_000_000, 500).unwrap();
    c.expire_policy(501, 1).unwrap();
    let (_, _, _, _, _, _, _, active, claimed) = c.get_policy(1);
    assert!(!active);
    assert!(!claimed);
    let events_after_first = c.events.clone();
    c.expire_policy(501, 1).unwrap();
    // the no-op repeat logs nothing further
    assert_eq!(c.events, events_after_first);
}

#[test]
fn expire_missing_policy_fails() {
    let mut c = initialized();
    assert_eq!(
        c.expire_policy(501, 9).unwrap_err(),
        PalomitoError::PolicyNotFound
    );
}

#[test]
fn purchase_emits_both_events() {
    let mut c = initialized();
    buy(&mut c, BUYER, 100, 42, 1_000_000, 500).unwrap();
    assert_eq!(c.events.len(), 2);
    assert_eq!(
        c.events[0],
        Event::PolicyPurchased {
            user: BUYER,
            policy_id: 1,
            flight_id: 42,
            coverage_amount: 1_000_000,
            premium_paid: 50_000,
            expiration: 500,
        }
    );
    assert_eq!(
        c.events[1],
        Event::PolicyStatusChanged { policy_id: 1, active: true, claimed: false }
    );
}

#[test]
fn payout_emits_status_and_claim_paid_events() {
    let mut c = initialized();
    buy(&mut c, BUYER, 100, 42, 1_000_000, 500).unwrap();
    let before = c.events.len();
    c.verify_and_pay_claim(OWNER, 1, true).unwrap();
    c.verify_claim_with_balance(Some(1_000_000)).unwrap();
    c.verify_claim_complete(true).unwrap();
    assert_eq!(c.events.len(), before + 3);
    assert_eq!(c.events[before], Event::ClaimVerified { policy_id: 1, triggered: true });
    assert_eq!(
        c.events[before + 1],
        Event::PolicyStatusChanged { policy_id: 1, active: false, claimed: true }
    );
    assert_eq!(
        c.events[before + 2],
        Event::ClaimPaid { user: BUYER, policy_id: 1, payout: 1_000_000 }
    );
}
