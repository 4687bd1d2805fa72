//! The arbitration fee: what a decision charges, that it is charged once
//! across appeals, and the guard against fees above the amount.

use std::collections::HashMap;

use escrow::types::{Address, Transfer};
use escrow::Escrow;

const CONTRACT: Address = Address(1);
const ADMIN: Address = Address(2);
const FEE_COLLECTOR: Address = Address(3);
const SELLER: Address = Address(10);
const BUYER: Address = Address(11);
const RESOLVER: Address = Address(12);
const TOKEN: Address = Address(100);

/// The contract state, the token balances, and the ledger clock. Every
/// operation runs against a snapshot: when the token movements it asks for
/// cannot all be made, the whole operation is undone.
struct World {
    esc: Escrow,
    balances: HashMap<(Address, Address), i128>,
    now: u64,
}

#[allow(dead_code)]
impl World {
    fn new(arbitration_fee_bps: u32) -> World {
        let mut esc = Escrow::new(CONTRACT);
        esc.initialize(ADMIN, FEE_COLLECTOR, arbitration_fee_bps, 0).unwrap();
        World { esc, balances: HashMap::new(), now: 0 }
    }

    fn mint(&mut self, token: Address, to: Address, amount: i128) {
        *self.balances.entry((token, to)).or_insert(0) += amount;
    }

    fn balance(&self, token: Address, who: Address) -> i128 {
        *self.balances.get(&(token, who)).unwrap_or(&0)
    }

    /// Makes every movement or none: `false` when some sender lacks funds.
    fn settle(&mut self, ts: &[Transfer]) -> bool {
        let mut next = self.balances.clone();
        for t in ts {
            let from = next.entry((t.token, t.from)).or_insert(0);
            if *from < t.amount {
                return false;
            }
            *from -= t.amount;
            *next.entry((t.token, t.to)).or_insert(0) += t.amount;
        }
        self.balances = next;
        true
    }

    /// Runs an operation that moves tokens; a refused operation or one whose
    /// movements cannot be made leaves everything as it was.
    fn pay<F>(&mut self, op: F) -> Result<(), escrow::ContractError>
    where
        F: FnOnce(&mut Escrow, u64) -> Result<Vec<Transfer>, escrow::ContractError>,
    {
        let snapshot = self.esc.clone();
        let now = self.now;
        let ts = op(&mut self.esc, now)?;
        if !self.settle(&ts) {
            self.esc = snapshot;
            return Err(escrow::ContractError::InsufficientBalance);
        }
        Ok(())
    }
}

use escrow::lifecycle::SellerOrPayees;
use escrow::types::{EscrowState, Payee, ResolutionType};
use escrow::ContractError;

fn payees() -> SellerOrPayees {
    SellerOrPayees::Payees(vec![Payee { address: SELLER, bps: 10_000 }])
}

/// Funds, ships and disputes escrow `id` (of `amount`) ten seconds after
/// shipping.
fn fund_ship_dispute(w: &mut World, id: u64, amount: i128, tracking: &str) {
    w.mint(TOKEN, BUYER, amount);
    w.pay(|e, now| e.fund_escrow(id, BUYER, now)).unwrap();
    let now = w.now;
    w.esc.mark_shipped(SELLER, id, tracking.as_bytes().to_vec(), now).unwrap();
    w.now += 10;
    let now = w.now;
    w.esc.raise_dispute(BUYER, id, b"reason".to_vec(), b"desc".to_vec(), [0u8; 32], now).unwrap();
}

fn resolve(w: &mut World, id: u64, resolution: ResolutionType) -> Result<(), ContractError> {
    w.pay(|e, now| e.resolve_dispute(RESOLVER, id, resolution, now))
}

fn finalize(w: &mut World, id: u64) {
    w.pay(|e, now| e.finalize_dispute(RESOLVER, id, now)).unwrap();
}

#[test]
fn test_arbitration_fee_deduction_on_resolve_release() {
    let mut w = World::new(500);
    let now = w.now;
    let id = w.esc.create_escrow_8(payees(), None, RESOLVER, TOKEN, 1000, 200, 3600, now).unwrap();
    fund_ship_dispute(&mut w, id, 1000, "TRACK-ARB-1");

    assert_eq!(w.esc.get_total_arbitration_fees(TOKEN), 0);
    assert_eq!(w.esc.get_arbitration_fee(), 500);

    resolve(&mut w, id, ResolutionType::Release).unwrap();
    w.now += 86_401;
    finalize(&mut w, id);

    assert_eq!(w.balance(TOKEN, SELLER), 931);
    assert_eq!(w.balance(TOKEN, CONTRACT), 0);
    assert_eq!(w.balance(TOKEN, FEE_COLLECTOR), 69);
    assert_eq!(w.esc.get_total_arbitration_fees(TOKEN), 50);
}

#[test]
fn test_arbitration_fee_deduction_on_resolve_refund() {
    let mut w = World::new(500);
    let now = w.now;
    let id = w.esc.create_escrow_8(payees(), None, RESOLVER, TOKEN, 1000, 300, 3600, now).unwrap();
    fund_ship_dispute(&mut w, id, 1000, "TRACK-ARB-2");

    resolve(&mut w, id, ResolutionType::Refund).unwrap();
    w.now += 86_401;
    finalize(&mut w, id);

    assert_eq!(w.balance(TOKEN, BUYER), 922);
    assert_eq!(w.balance(TOKEN, CONTRACT), 0);
    assert_eq!(w.balance(TOKEN, FEE_COLLECTOR), 78);
    assert_eq!(w.esc.get_total_arbitration_fees(TOKEN), 50);
}

#[test]
fn test_arbitration_fee_charged_once_across_appeal() {
    let mut w = World::new(500);
    let now = w.now;
    let id = w.esc.create_escrow_8(payees(), None, RESOLVER, TOKEN, 1000, 0, 3600, now).unwrap();
    fund_ship_dispute(&mut w, id, 1000, "TRACK-ARB-APPEAL");

    resolve(&mut w, id, ResolutionType::Release).unwrap();
    assert_eq!(w.esc.get_total_arbitration_fees(TOKEN), 50);
    assert_eq!(w.balance(TOKEN, FEE_COLLECTOR), 50);
    assert_eq!(w.esc.get_dispute(id).unwrap().arbitration_fee, 50);

    let now = w.now;
    w.esc.appeal_dispute(BUYER, id, now).unwrap();
    resolve(&mut w, id, ResolutionType::Release).unwrap();

    assert_eq!(w.esc.get_total_arbitration_fees(TOKEN), 50);
    assert_eq!(w.balance(TOKEN, FEE_COLLECTOR), 50);
    assert_eq!(w.esc.get_dispute(id).unwrap().arbitration_fee, 50);

    w.now += 86_401;
    finalize(&mut w, id);

    assert_eq!(w.balance(TOKEN, SELLER), 950);
    assert_eq!(w.balance(TOKEN, FEE_COLLECTOR), 50);
    assert_eq!(w.balance(TOKEN, CONTRACT), 0);
    assert_eq!(w.esc.get_total_arbitration_fees(TOKEN), 50);
}

#[test]
fn test_set_and_get_arbitration_fee() {
    let mut w = World::new(50);
    assert_eq!(w.esc.get_arbitration_fee(), 50);
    let now = w.now;
    w.esc.set_arbitration_fee(ADMIN, 150, now).unwrap();
    assert_eq!(w.esc.get_arbitration_fee(), 150);
}

#[test]
fn test_resolution_transition_min_amount_max_fees_does_not_underflow() {
    let mut w = World::new(500);
    let now = w.now;
    let id = w.esc.create_escrow(payees(), None, RESOLVER, TOKEN, 1, 0, 300, 3600, None, now).unwrap();
    fund_ship_dispute(&mut w, id, 1, "TRACK-MIN");

    resolve(&mut w, id, ResolutionType::Release).unwrap();
    w.now += 86_401;
    finalize(&mut w, id);

    assert_eq!(w.balance(TOKEN, SELLER), 1);
    assert_eq!(w.balance(TOKEN, CONTRACT), 0);
    assert_eq!(w.balance(TOKEN, FEE_COLLECTOR), 0);
    assert_eq!(w.esc.get_total_arbitration_fees(TOKEN), 0);
}

#[test]
fn test_execute_resolution_transition_rejects_fees_exceeding_amount() {
    let mut w = World::new(500);
    let now = w.now;
    let id = w.esc.create_escrow(payees(), None, RESOLVER, TOKEN, 100, 0, 0, 3600, None, now).unwrap();
    fund_ship_dispute(&mut w, id, 100, "TRACK-FEE-CAP");

    // Out of reach of every entry point: a resolver fee of the whole amount,
    // written into the stored escrow directly.
    w.esc.escrows[(id - 1) as usize].data.resolver_fee_bps = 10_000;

    assert_eq!(resolve(&mut w, id, ResolutionType::Release), Err(ContractError::FeeExceedsMax));

    let escrow = w.esc.get_escrow(id).unwrap();
    assert_eq!(escrow.amount, 100);
    assert_eq!(escrow.state, EscrowState::Disputed);
    let dispute = w.esc.get_dispute(id).unwrap();
    assert_eq!(dispute.arbitration_fee, 0);
    assert_eq!(dispute.resolver_fee, 0);

    assert_eq!(w.balance(TOKEN, CONTRACT), 100);
    assert_eq!(w.balance(TOKEN, RESOLVER), 0);
    assert_eq!(w.balance(TOKEN, FEE_COLLECTOR), 0);
}
