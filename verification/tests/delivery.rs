//! Shipping, the timelocked delivery record, and the buyer's confirmation:
//! who may act, in which state, and when.

use std::collections::HashMap;

use escrow::types::{Address, Transfer};
use escrow::Escrow;

const CONTRACT: Address = Address(1);
const ADMIN: Address = Address(2);
const FEE_COLLECTOR: Address = Address(3);
const SELLER: Address = Address(10);
const BUYER: Address = Address(11);
const RESOLVER: Address = Address(12);
const TOKEN: Address = Address(100);

/// The contract state, the token balances, and the ledger clock. Every
/// operation runs against a snapshot: when the token movements it asks for
/// cannot all be made, the whole operation is undone.
struct World {
    esc: Escrow,
    balances: HashMap<(Address, Address), i128>,
    now: u64,
}

#[allow(dead_code)]
impl World {
    fn new(arbitration_fee_bps: u32) -> World {
        let mut esc = Escrow::new(CONTRACT);
        esc.initialize(ADMIN, FEE_COLLECTOR, arbitration_fee_bps, 0).unwrap();
        World { esc, balances: HashMap::new(), now: 0 }
    }

    fn mint(&mut self, token: Address, to: Address, amount: i128) {
        *self.balances.entry((token, to)).or_insert(0) += amount;
    }

    fn balance(&self, token: Address, who: Address) -> i128 {
        *self.balances.get(&(token, who)).unwrap_or(&0)
    }

    /// Makes every movement or none: `false` when some sender lacks funds.
    fn settle(&mut self, ts: &[Transfer]) -> bool {
        let mut next = self.balances.clone();
        for t in ts {
            let from = next.entry((t.token, t.from)).or_insert(0);
            if *from < t.amount {
                return false;
            }
            *from -= t.amount;
            *next.entry((t.token, t.to)).or_insert(0) += t.amount;
        }
        self.balances = next;
        true
    }

    /// Runs an operation that moves tokens; a refused operation or one whose
    /// movements cannot be made leaves everything as it was.
    fn pay<F>(&mut self, op: F) -> Result<(), escrow::ContractError>
    where
        F: FnOnce(&mut Escrow, u64) -> Result<Vec<Transfer>, escrow::ContractError>,
    {
        let snapshot = self.esc.clone();
        let now = self.now;
        let ts = op(&mut self.esc, now)?;
        if !self.settle(&ts) {
            self.esc = snapshot;
            return Err(escrow::ContractError::InsufficientBalance);
        }
        Ok(())
    }
}

use escrow::events::EVENT_SCHEMA_VERSION;
use escrow::lifecycle::SellerOrPayees;
use escrow::types::{EscrowState, Payee};
use escrow::{ContractError, DELIVERY_TIMELOCK};

fn payees() -> SellerOrPayees {
    SellerOrPayees::Payees(vec![Payee { address: SELLER, bps: 10_000 }])
}

/// An initialized contract with one escrow of `amount` funded by `BUYER`.
fn funded(amount: i128, fee_bps: u32) -> (World, u64) {
    let mut w = World::new(0);
    w.mint(TOKEN, BUYER, amount);
    let now = w.now;
    let id = w.esc.create_escrow_7(payees(), None, RESOLVER, TOKEN, amount, fee_bps, now).unwrap();
    w.pay(|e, now| e.fund_escrow(id, BUYER, now)).unwrap();
    (w, id)
}

fn ship(w: &mut World, id: u64, tracking: &str) -> Result<(), ContractError> {
    let now = w.now;
    w.esc.mark_shipped(SELLER, id, tracking.as_bytes().to_vec(), now)
}

fn propose(w: &mut World, id: u64) {
    let now = w.now;
    w.esc.propose_record_delivery(ADMIN, id, now).unwrap();
}

fn record(w: &mut World, id: u64) -> Result<escrow::events::DeliveryRecorded, ContractError> {
    let now = w.now;
    w.esc.record_delivery(ADMIN, id, now)
}

fn confirm(w: &mut World, caller: Address, id: u64) -> Result<(), ContractError> {
    w.pay(|e, now| e.confirm_delivery(caller, id, now))
}

#[test]
fn test_mark_shipped_transitions_state() {
    let (mut w, id) = funded(1000, 100);
    let expected_ts = w.now;
    ship(&mut w, id, "TRACK-001").unwrap();

    let escrow = w.esc.get_escrow(id).unwrap();
    assert_eq!(escrow.state, EscrowState::Shipped);
    assert_eq!(escrow.shipped_at, expected_ts);
    assert_eq!(escrow.tracking_id, Some(b"TRACK-001".to_vec()));
}

#[test]
fn test_mark_shipped_rejects_empty_tracking_id() {
    let (mut w, id) = funded(1000, 100);
    assert!(matches!(ship(&mut w, id, ""), Err(ContractError::InvalidTrackingId)));
    assert_eq!(w.esc.get_escrow(id).unwrap().state, EscrowState::Funded);
}

#[test]
fn test_record_delivery_sets_timestamp() {
    let (mut w, id) = funded(1000, 100);
    ship(&mut w, id, "TRACK-002").unwrap();
    w.now += 60;
    propose(&mut w, id);
    w.now += DELIVERY_TIMELOCK;
    let expected_ts = w.now;

    let event = record(&mut w, id).unwrap();
    assert_eq!(event.escrow_id, id);
    assert_eq!(event.delivered_at, expected_ts);
    assert_eq!(event.schema_version, EVENT_SCHEMA_VERSION);

    let escrow = w.esc.get_escrow(id).unwrap();
    assert_eq!(escrow.state, EscrowState::Shipped);
    assert_eq!(escrow.delivered_at, Some(expected_ts));
}

#[test]
fn test_record_delivery_requires_shipped_state() {
    let (mut w, id) = funded(1000, 100);
    assert!(matches!(record(&mut w, id), Err(ContractError::InvalidState)));
}

#[test]
fn test_confirm_delivery_after_mark_shipped() {
    let (mut w, id) = funded(1000, 0);
    ship(&mut w, id, "TRACK-003").unwrap();
    w.now = w.esc.get_escrow(id).unwrap().dispute_deadline + 1;
    confirm(&mut w, BUYER, id).unwrap();

    assert_eq!(w.esc.get_escrow(id).unwrap().state, EscrowState::Completed);
    assert_eq!(w.balance(TOKEN, SELLER), 1000);
}

#[test]
fn test_confirm_delivery_during_dispute_window_reverts() {
    let (mut w, id) = funded(1000, 0);
    ship(&mut w, id, "TRACK-WIN").unwrap();
    let deadline = w.esc.get_escrow(id).unwrap().dispute_deadline;
    assert!(w.now < deadline);

    assert_eq!(confirm(&mut w, BUYER, id), Err(ContractError::DisputeWindowStillOpen));
    assert_eq!(w.esc.get_escrow(id).unwrap().state, EscrowState::Shipped);

    w.now = deadline - 1;
    assert_eq!(confirm(&mut w, BUYER, id), Err(ContractError::DisputeWindowStillOpen));

    w.now = deadline;
    confirm(&mut w, BUYER, id).unwrap();
    assert_eq!(w.esc.get_escrow(id).unwrap().state, EscrowState::Completed);
}

#[test]
fn test_confirm_delivery_by_vendor_reverts() {
    let (mut w, id) = funded(1000, 0);
    ship(&mut w, id, "TRACK-004").unwrap();
    w.now = w.esc.get_escrow(id).unwrap().dispute_deadline + 1;
    assert_eq!(confirm(&mut w, SELLER, id), Err(ContractError::NotAuthorized));
}

#[test]
fn test_confirm_delivery_by_third_party_reverts() {
    let (mut w, id) = funded(1000, 0);
    let intruder = Address(40);
    ship(&mut w, id, "TRACK-005").unwrap();
    w.now = w.esc.get_escrow(id).unwrap().dispute_deadline + 1;
    assert_eq!(confirm(&mut w, intruder, id), Err(ContractError::NotAuthorized));
}

#[test]
fn test_record_delivery_timestamp_matches_ledger_timestamp() {
    let (mut w, id) = funded(1000, 100);
    ship(&mut w, id, "TRACK001").unwrap();
    w.now += 60;
    propose(&mut w, id);
    w.now += DELIVERY_TIMELOCK;
    let expected_ts = w.now;

    let event = record(&mut w, id).unwrap();
    assert_eq!(event.escrow_id, id);
    assert_eq!(event.delivered_at, expected_ts);
    assert_eq!(w.esc.get_escrow(id).unwrap().delivered_at, Some(expected_ts));
}

#[test]
fn test_record_delivery_rejects_zero_timestamp() {
    let (mut w, id) = funded(1000, 100);
    ship(&mut w, id, "TRACK001").unwrap();
    w.now = 0;
    propose(&mut w, id);
    w.now = DELIVERY_TIMELOCK;
    record(&mut w, id).unwrap();
    assert_eq!(w.esc.get_escrow(id).unwrap().delivered_at, Some(DELIVERY_TIMELOCK));
}

#[test]
fn test_record_delivery_accepts_maximum_valid_timestamp() {
    let (mut w, id) = funded(1000, 100);
    ship(&mut w, id, "TRACK001").unwrap();
    let max_ts: u64 = 100_000_000_000;
    w.now = max_ts - DELIVERY_TIMELOCK;
    propose(&mut w, id);
    w.now = max_ts;
    record(&mut w, id).unwrap();
    assert_eq!(w.esc.get_escrow(id).unwrap().delivered_at, Some(max_ts));
}

#[test]
fn test_record_delivery_rejects_duplicate_call() {
    let (mut w, id) = funded(1000, 100);
    ship(&mut w, id, "TRACK001").unwrap();
    w.now = 1_700_000_100 - DELIVERY_TIMELOCK;
    propose(&mut w, id);
    w.now = 1_700_000_100;
    record(&mut w, id).unwrap();
    assert_eq!(w.esc.get_escrow(id).unwrap().delivered_at, Some(1_700_000_100));

    w.now = 1_700_000_200;
    assert_eq!(record(&mut w, id), Err(ContractError::DeliveryAlreadyRecorded));

    let escrow = w.esc.get_escrow(id).unwrap();
    assert_eq!(escrow.delivered_at, Some(1_700_000_100));
    assert_eq!(escrow.state, EscrowState::Shipped);
}

#[test]
fn test_record_delivery_timelock_flow() {
    let (mut w, id) = funded(1000, 100);
    ship(&mut w, id, "TRACK-TIMELOCK").unwrap();

    w.now = 1_000_000;
    propose(&mut w, id);

    w.now = 1_000_000 + DELIVERY_TIMELOCK - 1;
    assert_eq!(record(&mut w, id), Err(ContractError::TimelockNotElapsed));

    assert_eq!(w.esc.cancel_delivery_proposal(SELLER, id), Err(ContractError::NotAuthorized));

    w.now = 1_000_000 + DELIVERY_TIMELOCK;
    record(&mut w, id).unwrap();
    assert_eq!(w.esc.get_escrow(id).unwrap().delivered_at, Some(1_000_000 + DELIVERY_TIMELOCK));
}

#[test]
fn test_cancel_delivery_proposal() {
    let (mut w, id) = funded(1000, 100);
    ship(&mut w, id, "TRACK-CANCEL").unwrap();
    propose(&mut w, id);
    w.esc.cancel_delivery_proposal(ADMIN, id).unwrap();

    w.now += DELIVERY_TIMELOCK;
    assert_eq!(record(&mut w, id), Err(ContractError::DeliveryNotProposed));
}

#[test]
fn test_confirm_delivery_from_pending_state_fails() {
    let mut w = World::new(0);
    let now = w.now;
    let id = w
        .esc
        .create_escrow(payees(), Some(BUYER), RESOLVER, TOKEN, 1000, 100, 0, 3600, None, now)
        .unwrap();
    assert_eq!(confirm(&mut w, BUYER, id), Err(ContractError::InvalidStateTransition));
}

#[test]
fn test_confirm_delivery_from_funded_state_fails() {
    let (mut w, id) = funded(1000, 100);
    assert_eq!(confirm(&mut w, BUYER, id), Err(ContractError::InvalidStateTransition));
}

#[test]
fn test_confirm_delivery_from_disputed_state_fails() {
    let (mut w, id) = funded(1000, 100);
    let now = w.now;
    w.esc
        .raise_dispute(BUYER, id, b"reason".to_vec(), b"dispute description".to_vec(), [0; 32], now)
        .unwrap();
    assert_eq!(confirm(&mut w, BUYER, id), Err(ContractError::InvalidStateTransition));
}

#[test]
fn test_confirm_delivery_from_canceled_state_fails() {
    let mut w = World::new(0);
    let now = w.now;
    let id = w
        .esc
        .create_escrow(payees(), Some(BUYER), RESOLVER, TOKEN, 1000, 100, 0, 3600, None, now)
        .unwrap();
    w.pay(|e, now| e.cancel_escrow(SELLER, id, now)).unwrap();
    assert_eq!(confirm(&mut w, BUYER, id), Err(ContractError::InvalidStateTransition));
}

#[test]
fn test_confirm_delivery_from_completed_state_fails() {
    let (mut w, id) = funded(1000, 0);
    ship(&mut w, id, "TRACK-001").unwrap();
    w.now = w.esc.get_escrow(id).unwrap().dispute_deadline + 1;
    confirm(&mut w, BUYER, id).unwrap();
    assert_eq!(confirm(&mut w, BUYER, id), Err(ContractError::InvalidStateTransition));
}
