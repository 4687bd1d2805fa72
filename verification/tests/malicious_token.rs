//! An adversarial token: whatever it does during a transfer (re-entering the
//! escrow, failing, exhausting the budget), the operation that made the
//! transfer is undone and no balance moves.

use escrow::types::{Address, Transfer};
use escrow::Escrow;

const CONTRACT: Address = Address(1);
const ADMIN: Address = Address(2);
const FEE_COLLECTOR: Address = Address(3);
const SELLER: Address = Address(10);
const BUYER: Address = Address(11);
const RESOLVER: Address = Address(12);

use escrow::lifecycle::SellerOrPayees;
use escrow::token::{Attack, MaliciousToken};
use escrow::types::{EscrowState, Payee};

const AMOUNT: i128 = 1_000;
const MTOKEN: Address = Address(500);

/// The escrow, an adversarial token holding every balance, and the clock.
struct Fixture {
    esc: Escrow,
    mtoken: MaliciousToken,
    id: u64,
    now: u64,
}

/// An initialized contract with one created (unfunded) escrow in the
/// adversarial token, paying the seller in full; the buyer holds `AMOUNT`.
fn setup() -> Fixture {
    let mut esc = Escrow::new(CONTRACT);
    esc.initialize(ADMIN, FEE_COLLECTOR, 0, 0).unwrap();
    let mut mtoken = MaliciousToken::new();
    mtoken.set_attack(Attack::Honest);
    mtoken.mint(BUYER, AMOUNT);
    let id = esc
        .create_escrow(
            SellerOrPayees::Payees(vec![Payee { address: SELLER, bps: 10_000 }]),
            None,
            RESOLVER,
            MTOKEN,
            AMOUNT,
            0,
            0,
            3_600,
            None,
            0,
        )
        .unwrap();
    Fixture { esc, mtoken, id, now: 0 }
}

/// Runs an operation and makes its transfers through the adversarial
/// token; any refused transfer undoes the whole operation.
fn run<F>(f: &mut Fixture, op: F) -> Result<(), String>
where
    F: FnOnce(&mut Escrow, u64) -> Result<Vec<Transfer>, escrow::ContractError>,
{
    let snapshot = f.esc.clone();
    let ts = op(&mut f.esc, f.now).map_err(|e| format!("{e:?}"))?;
    for t in &ts {
        if let Err(e) = f.mtoken.transfer(t.from, t.to, t.amount) {
            f.esc = snapshot;
            return Err(format!("{e:?}"));
        }
    }
    Ok(())
}

fn fund_and_ship(f: &mut Fixture) {
    f.mtoken.set_attack(Attack::Honest);
    let id = f.id;
    run(f, |e, now| e.fund_escrow(id, BUYER, now)).unwrap();
    f.esc.mark_shipped(SELLER, id, b"TRACK-402".to_vec(), f.now).unwrap();
    assert_eq!(f.mtoken.balance(CONTRACT), AMOUNT);
}

#[test]
fn reentrancy_during_fund_is_blocked() {
    let mut f = setup();
    f.mtoken.set_reentry(CONTRACT, BUYER, f.id);
    f.mtoken.set_attack(Attack::ReenterConfirm);

    let id = f.id;
    let result = run(&mut f, |e, now| e.fund_escrow(id, BUYER, now));
    assert!(result.is_err(), "re-entrant fund_escrow must revert");

    assert_eq!(f.esc.get_escrow(id).unwrap().state, EscrowState::Pending);
    assert_eq!(f.mtoken.balance(BUYER), AMOUNT);
    assert_eq!(f.mtoken.balance(CONTRACT), 0);
}

#[test]
fn reentrancy_attempting_double_fund_is_blocked() {
    let mut f = setup();
    f.mtoken.set_reentry(CONTRACT, BUYER, f.id);
    f.mtoken.set_attack(Attack::ReenterFund);

    let id = f.id;
    let result = run(&mut f, |e, now| e.fund_escrow(id, BUYER, now));
    assert!(result.is_err(), "re-entrant double fund must revert");

    assert_eq!(f.esc.get_escrow(id).unwrap().state, EscrowState::Pending);
    assert_eq!(f.mtoken.balance(BUYER), AMOUNT);
    assert_eq!(f.mtoken.balance(CONTRACT), 0);
}

#[test]
fn reentrancy_during_payout_cannot_double_release() {
    let mut f = setup();
    fund_and_ship(&mut f);
    f.mtoken.set_reentry(CONTRACT, BUYER, f.id);
    f.mtoken.set_attack(Attack::ReenterConfirm);

    let id = f.id;
    let result = run(&mut f, |e, now| e.confirm_delivery(BUYER, id, now));
    assert!(result.is_err(), "re-entrant payout must revert");

    assert_eq!(f.mtoken.balance(CONTRACT), AMOUNT);
    assert_eq!(f.mtoken.balance(SELLER), 0);
    assert_eq!(f.mtoken.balance(FEE_COLLECTOR), 0);
    assert_ne!(f.esc.get_escrow(id).unwrap().state, EscrowState::Completed);
}

#[test]
fn reentrancy_attempting_cancel_during_payout_is_blocked() {
    let mut f = setup();
    fund_and_ship(&mut f);
    f.mtoken.set_reentry(CONTRACT, BUYER, f.id);
    f.mtoken.set_attack(Attack::ReenterCancel);

    let id = f.id;
    let result = run(&mut f, |e, now| e.confirm_delivery(BUYER, id, now));
    assert!(result.is_err(), "re-entrant cancel must revert");

    assert_eq!(f.mtoken.balance(CONTRACT), AMOUNT);
    assert_eq!(f.mtoken.balance(SELLER), 0);
    assert_eq!(f.mtoken.balance(BUYER), 0);
}

#[test]
fn always_failing_token_cannot_fund() {
    let mut f = setup();
    f.mtoken.set_attack(Attack::Fail);

    let id = f.id;
    let result = run(&mut f, |e, now| e.fund_escrow(id, BUYER, now));
    assert!(result.is_err(), "funding through a failing token must revert");

    assert_eq!(f.esc.get_escrow(id).unwrap().state, EscrowState::Pending);
    assert_eq!(f.mtoken.balance(BUYER), AMOUNT);
    assert_eq!(f.mtoken.balance(CONTRACT), 0);
}

#[test]
fn always_failing_token_on_payout_preserves_escrowed_funds() {
    let mut f = setup();
    fund_and_ship(&mut f);
    f.mtoken.set_attack(Attack::Fail);

    let id = f.id;
    let result = run(&mut f, |e, now| e.confirm_delivery(BUYER, id, now));
    assert!(result.is_err(), "payout through a failing token must revert");

    assert_eq!(f.mtoken.balance(CONTRACT), AMOUNT);
    assert_eq!(f.mtoken.balance(SELLER), 0);
    assert_eq!(f.mtoken.balance(FEE_COLLECTOR), 0);
    assert_ne!(f.esc.get_escrow(id).unwrap().state, EscrowState::Completed);
}

#[test]
fn budget_exhausting_token_reverts_without_side_effects() {
    let mut f = setup();
    fund_and_ship(&mut f);
    f.mtoken.set_attack(Attack::BurnBudget);

    let id = f.id;
    let result = run(&mut f, |e, now| e.confirm_delivery(BUYER, id, now));
    assert!(result.is_err(), "budget-exhausting token must abort the call");

    assert_eq!(f.mtoken.balance(CONTRACT), AMOUNT);
    assert_eq!(f.mtoken.balance(SELLER), 0);
    assert_ne!(f.esc.get_escrow(id).unwrap().state, EscrowState::Completed);
}

#[test]
fn failing_token_reverts_a_release_that_the_contract_allows() {
    let mut f = setup();
    fund_and_ship(&mut f);
    // Past the dispute window the release itself is allowed; only the
    // token's refusal stops it.
    f.now = escrow::DISPUTE_WINDOW;
    f.mtoken.set_attack(Attack::Fail);
    let id = f.id;
    let result = run(&mut f, |e, now| e.confirm_delivery(BUYER, id, now));
    assert_eq!(result, Err("Rejected".to_string()));
    assert_eq!(f.esc.get_escrow(id).unwrap().state, EscrowState::Shipped);

    f.mtoken.set_attack(Attack::Honest);
    run(&mut f, |e, now| e.confirm_delivery(BUYER, id, now)).unwrap();
    assert_eq!(f.esc.get_escrow(id).unwrap().state, EscrowState::Completed);
    assert_eq!(f.mtoken.balance(SELLER), AMOUNT);
    assert_eq!(f.mtoken.balance(CONTRACT), 0);
}

#[test]
fn reentry_without_target_is_refused() {
    let mut t = MaliciousToken::new();
    t.mint(BUYER, 10);
    t.set_attack(Attack::ReenterFund);
    assert_eq!(t.transfer(BUYER, SELLER, 5), Err(escrow::token::TokenFailure::ReentryNotConfigured));
    assert_eq!(t.balance(BUYER), 10);
}

#[test]
fn honest_token_moves_balances_and_refuses_overdrafts() {
    let mut t = MaliciousToken::new();
    t.mint(BUYER, 10);
    assert_eq!(t.transfer(BUYER, SELLER, 4), Ok(()));
    assert_eq!(t.balance(BUYER), 6);
    assert_eq!(t.balance(SELLER), 4);
    assert_eq!(t.transfer(BUYER, SELLER, 7), Err(escrow::token::TokenFailure::InsufficientBalance));
    assert_eq!(t.transfer(BUYER, BUYER, 6), Ok(()));
    assert_eq!(t.balance(BUYER), 6);
}
