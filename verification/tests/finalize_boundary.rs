//! Dispute finalization: the appeal-window boundary and the settlement.

use std::collections::HashMap;

use escrow::types::{Address, Transfer};
use escrow::Escrow;

const CONTRACT: Address = Address(1);
const ADMIN: Address = Address(2);
const FEE_COLLECTOR: Address = Address(3);
const SELLER: Address = Address(10);
const BUYER: Address = Address(11);
const RESOLVER: Address = Address(12);
const TOKEN: Address = Address(100);

/// The contract state, the token balances, and the ledger clock. Every
/// operation runs against a snapshot: when the token movements it asks for
/// cannot all be made, the whole operation is undone.
struct World {
    esc: Escrow,
    balances: HashMap<(Address, Address), i128>,
    now: u64,
}

#[allow(dead_code)]
impl World {
    fn new(arbitration_fee_bps: u32) -> World {
        let mut esc = Escrow::new(CONTRACT);
        esc.initialize(ADMIN, FEE_COLLECTOR, arbitration_fee_bps, 0).unwrap();
        World { esc, balances: HashMap::new(), now: 0 }
    }

    fn mint(&mut self, token: Address, to: Address, amount: i128) {
        *self.balances.entry((token, to)).or_insert(0) += amount;
    }

    fn balance(&self, token: Address, who: Address) -> i128 {
        *self.balances.get(&(token, who)).unwrap_or(&0)
    }

    /// Makes every movement or none: `false` when some sender lacks funds.
    fn settle(&mut self, ts: &[Transfer]) -> bool {
        let mut next = self.balances.clone();
        for t in ts {
            let from = next.entry((t.token, t.from)).or_insert(0);
            if *from < t.amount {
                return false;
            }
            *from -= t.amount;
            *next.entry((t.token, t.to)).or_insert(0) += t.amount;
        }
        self.balances = next;
        true
    }

    /// Runs an operation that moves tokens; a refused operation or one whose
    /// movements cannot be made leaves everything as it was.
    fn pay<F>(&mut self, op: F) -> Result<(), escrow::ContractError>
    where
        F: FnOnce(&mut Escrow, u64) -> Result<Vec<Transfer>, escrow::ContractError>,
    {
        let snapshot = self.esc.clone();
        let now = self.now;
        let ts = op(&mut self.esc, now)?;
        if !self.settle(&ts) {
            self.esc = snapshot;
            return Err(escrow::ContractError::InsufficientBalance);
        }
        Ok(())
    }
}

use escrow::lifecycle::SellerOrPayees;
use escrow::types::{EscrowState, Payee, ResolutionType};
use escrow::{ContractError, APPEAL_WINDOW};

const AMOUNT: i128 = 1_000;

/// A single-resolver escrow awaiting finalization of a release decision,
/// and its appeal deadline.
fn setup_pending_finalization() -> (World, u64, u64) {
    let mut w = World::new(50);
    let id = w
        .esc
        .create_escrow(
            SellerOrPayees::Payees(vec![Payee { address: SELLER, bps: 10_000 }]),
            None,
            RESOLVER,
            TOKEN,
            AMOUNT,
            0,
            0,
            3600,
            None,
            w.now,
        )
        .unwrap();
    w.mint(TOKEN, BUYER, AMOUNT);
    w.pay(|e, now| e.fund_escrow(id, BUYER, now)).unwrap();
    let now = w.now;
    w.esc
        .raise_dispute(BUYER, id, b"non_delivery".to_vec(), b"Item never arrived".to_vec(), [0xab; 32], now)
        .unwrap();
    w.pay(|e, now| e.resolve_dispute(RESOLVER, id, ResolutionType::Release, now)).unwrap();
    assert_eq!(w.esc.get_escrow(id).unwrap().state, EscrowState::PendingFinalization);
    let resolved_at = w.esc.get_dispute(id).expect("dispute exists").resolved_at;
    (w, id, resolved_at + APPEAL_WINDOW)
}

#[test]
fn finalize_rejected_one_tick_before_deadline() {
    let (mut w, id, appeal_deadline) = setup_pending_finalization();
    assert!(appeal_deadline >= APPEAL_WINDOW);
    w.now = appeal_deadline - 1;

    let res = w.pay(|e, now| e.finalize_dispute(RESOLVER, id, now));
    assert_eq!(res, Err(ContractError::AppealWindowActive));
    assert_eq!(w.esc.get_escrow(id).unwrap().state, EscrowState::PendingFinalization);
}

#[test]
fn finalize_succeeds_exactly_at_deadline() {
    let (mut w, id, appeal_deadline) = setup_pending_finalization();
    w.now = appeal_deadline;
    w.pay(|e, now| e.finalize_dispute(RESOLVER, id, now)).unwrap();
    assert_eq!(w.esc.get_escrow(id).unwrap().state, EscrowState::Completed);
}

#[test]
fn finalize_succeeds_one_tick_after_deadline() {
    let (mut w, id, appeal_deadline) = setup_pending_finalization();
    w.now = appeal_deadline + 1;
    w.pay(|e, now| e.finalize_dispute(RESOLVER, id, now)).unwrap();
    assert_eq!(w.esc.get_escrow(id).unwrap().state, EscrowState::Completed);
}

#[test]
fn finalize_pays_platform_fee_to_treasury_and_protocol_fee_to_collector() {
    let mut w = World::new(0);
    let treasury = Address(50);
    w.esc.queue_set_treasury(ADMIN, treasury, 0).unwrap();
    w.esc.queue_set_platform_fee(ADMIN, 100, 0).unwrap();
    w.now = escrow::ADMIN_TIMELOCK_DELAY_SECONDS;
    w.esc.execute_set_treasury(ADMIN, w.now).unwrap();
    w.esc.execute_set_platform_fee(ADMIN, w.now).unwrap();

    let id = w
        .esc
        .create_escrow(
            SellerOrPayees::Seller(SELLER),
            Some(BUYER),
            RESOLVER,
            TOKEN,
            10_000,
            200,
            0,
            3600,
            None,
            w.now,
        )
        .unwrap();
    w.mint(TOKEN, BUYER, 10_000);
    w.pay(|e, now| e.fund_escrow(id, BUYER, now)).unwrap();
    let now = w.now;
    w.esc.raise_dispute(BUYER, id, b"r".to_vec(), b"d".to_vec(), [0; 32], now).unwrap();
    w.pay(|e, now| e.resolve_dispute(RESOLVER, id, ResolutionType::Release, now)).unwrap();
    w.now += APPEAL_WINDOW;
    w.pay(|e, now| e.finalize_dispute(SELLER, id, now)).unwrap();

    // 1% platform fee of 10_000 is 100; 2% protocol fee of the remaining
    // 9_900 is 198; the seller receives 9_702.
    assert_eq!(w.balance(TOKEN, treasury), 100);
    assert_eq!(w.balance(TOKEN, FEE_COLLECTOR), 198);
    assert_eq!(w.balance(TOKEN, SELLER), 9_702);
    assert_eq!(w.balance(TOKEN, CONTRACT), 0);
    assert_eq!(w.esc.get_stats().total_completed, 1);
}

#[test]
fn finalize_requires_a_pending_decision() {
    let (mut w, id, appeal_deadline) = setup_pending_finalization();
    w.now = appeal_deadline;
    w.pay(|e, now| e.finalize_dispute(RESOLVER, id, now)).unwrap();
    let res = w.pay(|e, now| e.finalize_dispute(RESOLVER, id, now));
    assert_eq!(res, Err(ContractError::NotPendingFinalization));
}
