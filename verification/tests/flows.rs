//! Refund requests, expiry, pending cancellation, resolver rotation,
//! multi-resolver votes, batches and the read-only views.

use std::collections::HashMap;

use escrow::types::{Address, Transfer};
use escrow::Escrow;

const CONTRACT: Address = Address(1);
const ADMIN: Address = Address(2);
const FEE_COLLECTOR: Address = Address(3);
const SELLER: Address = Address(10);
const BUYER: Address = Address(11);
const RESOLVER: Address = Address(12);
const TOKEN: Address = Address(100);

/// The contract state, the token balances, and the ledger clock. Every
/// operation runs against a snapshot: when the token movements it asks for
/// cannot all be made, the whole operation is undone.
struct World {
    esc: Escrow,
    balances: HashMap<(Address, Address), i128>,
    now: u64,
}

#[allow(dead_code)]
impl World {
    fn new(arbitration_fee_bps: u32) -> World {
        let mut esc = Escrow::new(CONTRACT);
        esc.initialize(ADMIN, FEE_COLLECTOR, arbitration_fee_bps, 0).unwrap();
        World { esc, balances: HashMap::new(), now: 0 }
    }

    fn mint(&mut self, token: Address, to: Address, amount: i128) {
        *self.balances.entry((token, to)).or_insert(0) += amount;
    }

    fn balance(&self, token: Address, who: Address) -> i128 {
        *self.balances.get(&(token, who)).unwrap_or(&0)
    }

    /// Makes every movement or none: `false` when some sender lacks funds.
    fn settle(&mut self, ts: &[Transfer]) -> bool {
        let mut next = self.balances.clone();
        for t in ts {
            let from = next.entry((t.token, t.from)).or_insert(0);
            if *from < t.amount {
                return false;
            }
            *from -= t.amount;
            *next.entry((t.token, t.to)).or_insert(0) += t.amount;
        }
        self.balances = next;
        true
    }

    /// Runs an operation that moves tokens; a refused operation or one whose
    /// movements cannot be made leaves everything as it was.
    fn pay<F>(&mut self, op: F) -> Result<(), escrow::ContractError>
    where
        F: FnOnce(&mut Escrow, u64) -> Result<Vec<Transfer>, escrow::ContractError>,
    {
        let snapshot = self.esc.clone();
        let now = self.now;
        let ts = op(&mut self.esc, now)?;
        if !self.settle(&ts) {
            self.esc = snapshot;
            return Err(escrow::ContractError::InsufficientBalance);
        }
        Ok(())
    }
}

use escrow::lifecycle::SellerOrPayees;
use escrow::types::{EscrowInput, EscrowState, Payee, ResolutionType, ResolverSet};
use escrow::{ContractError, PENDING_EXPIRY_WINDOW};

fn funded(amount: i128) -> (World, u64) {
    let mut w = World::new(0);
    w.mint(TOKEN, BUYER, amount);
    let now = w.now;
    let id = w
        .esc
        .create_escrow_8(SellerOrPayees::Seller(SELLER), None, RESOLVER, TOKEN, amount, 0, 3600, now)
        .unwrap();
    w.pay(|e, now| e.fund_escrow(id, BUYER, now)).unwrap();
    (w, id)
}

#[test]
fn a_refund_request_approved_by_the_seller_refunds_the_buyer() {
    let (mut w, id) = funded(300);
    let now = w.now;
    assert_eq!(w.esc.request_refund(SELLER, id, now), Err(ContractError::NotAuthorized));
    w.esc.request_refund(BUYER, id, now).unwrap();
    assert_eq!(w.esc.get_escrow(id).unwrap().state, EscrowState::RefundRequested);
    assert_eq!(w.esc.request_refund(BUYER, id, now), Err(ContractError::InvalidStateTransition));

    assert_eq!(w.pay(|e, now| e.approve_refund(BUYER, id, now)), Err(ContractError::NotAuthorized));
    w.pay(|e, now| e.approve_refund(SELLER, id, now)).unwrap();
    assert_eq!(w.esc.get_escrow(id).unwrap().state, EscrowState::Refunded);
    assert_eq!(w.balance(TOKEN, BUYER), 300);
    assert_eq!(w.balance(TOKEN, CONTRACT), 0);
    assert_eq!(w.esc.get_stats().total_refunded, 1);
}

#[test]
fn approving_without_a_request_is_refused() {
    let (mut w, id) = funded(300);
    assert_eq!(
        w.pay(|e, now| e.approve_refund(SELLER, id, now)),
        Err(ContractError::InvalidStateTransition)
    );
}

#[test]
fn an_expired_escrow_is_reclaimed_after_its_grace_period() {
    let mut w = World::new(0);
    w.mint(TOKEN, BUYER, 500);
    let id = w
        .esc
        .create_escrow_with_expiration(SELLER, None, RESOLVER, TOKEN, 500, 0, 3600, Some(1_000), 100, 0)
        .unwrap();
    w.pay(|e, now| e.fund_escrow(id, BUYER, now)).unwrap();

    w.now = 999;
    assert_eq!(w.pay(|e, now| e.reclaim_expired(id, now)), Err(ContractError::InvalidState));
    w.now = 1_050;
    assert_eq!(w.pay(|e, now| e.reclaim_expired(id, now)), Err(ContractError::GracePeriodNotElapsed));
    w.now = 1_100;
    w.pay(|e, now| e.reclaim_expired(id, now)).unwrap();
    assert_eq!(w.balance(TOKEN, BUYER), 500);
    assert_eq!(w.balance(TOKEN, CONTRACT), 0);
    assert_eq!(w.esc.get_escrow(id).unwrap().state, EscrowState::Expired);
}

#[test]
fn an_unfunded_escrow_is_cancelled_after_the_pending_window() {
    let mut w = World::new(0);
    let id = w
        .esc
        .create_escrow_8(SellerOrPayees::Seller(SELLER), None, RESOLVER, TOKEN, 10, 0, 3600, 0)
        .unwrap();
    assert_eq!(
        w.esc.auto_cancel_pending(id, PENDING_EXPIRY_WINDOW),
        Err(ContractError::ShippingWindowNotElapsed)
    );
    w.esc.auto_cancel_pending(id, PENDING_EXPIRY_WINDOW + 1).unwrap();
    assert_eq!(w.esc.get_escrow(id).unwrap().state, EscrowState::Canceled);
    assert_eq!(w.esc.auto_cancel_pending(id, PENDING_EXPIRY_WINDOW + 2), Err(ContractError::InvalidState));
}

#[test]
fn the_seller_or_the_administrator_rotates_the_resolver() {
    let (mut w, id) = funded(10);
    let next = Address(50);
    assert_eq!(w.esc.rotate_resolver(BUYER, id, next, w.now), Err(ContractError::NotAuthorized));
    assert_eq!(w.esc.rotate_resolver(SELLER, id, RESOLVER, w.now), Err(ContractError::SameAddress));
    assert_eq!(w.esc.rotate_resolver(SELLER, id, BUYER, w.now), Err(ContractError::InvalidAddress));
    w.esc.rotate_resolver(SELLER, id, next, w.now).unwrap();
    assert_eq!(w.esc.get_escrow(id).unwrap().resolvers, ResolverSet::Single(next));
    w.esc.rotate_resolver(ADMIN, id, Address(51), w.now).unwrap();
    assert_eq!(w.esc.get_escrow(id).unwrap().resolvers, ResolverSet::Single(Address(51)));
}

#[test]
fn the_buyer_cancels_a_funded_escrow_for_a_full_refund() {
    let (mut w, id) = funded(250);
    assert_eq!(w.pay(|e, now| e.cancel_escrow(Address(66), id, now)), Err(ContractError::NotAuthorized));
    assert_eq!(w.pay(|e, now| e.cancel_escrow(SELLER, id, now)), Err(ContractError::InvalidState));
    w.pay(|e, now| e.cancel_escrow(BUYER, id, now)).unwrap();
    assert_eq!(w.balance(TOKEN, BUYER), 250);
    assert_eq!(w.esc.get_escrow(id).unwrap().state, EscrowState::Refunded);
}

#[test]
fn a_multi_resolver_escrow_is_decided_by_its_threshold() {
    let mut w = World::new(0);
    let (r1, r2, r3) = (Address(60), Address(61), Address(62));
    w.mint(TOKEN, BUYER, 900);
    let id = w.esc.create_escrow_multi(SELLER, None, vec![r1, r2, r3], 2, TOKEN, 900, 0, 3600, 0).unwrap();
    w.pay(|e, now| e.fund_escrow(id, BUYER, now)).unwrap();
    w.esc.raise_dispute(BUYER, id, b"r".to_vec(), b"d".to_vec(), [1; 32], 0).unwrap();

    w.pay(|e, now| e.vote(r1, id, ResolutionType::Refund, now)).unwrap();
    assert_eq!(w.esc.get_escrow(id).unwrap().state, EscrowState::Disputed);
    assert_eq!(w.esc.get_resolver_votes(id).len(), 1);
    w.pay(|e, now| e.vote(r2, id, ResolutionType::Refund, now)).unwrap();
    assert_eq!(w.esc.get_escrow(id).unwrap().state, EscrowState::PendingFinalization);

    w.now = escrow::APPEAL_WINDOW;
    w.pay(|e, now| e.finalize_dispute(r3, id, now)).unwrap();
    assert_eq!(w.esc.get_escrow(id).unwrap().state, EscrowState::Refunded);
    assert_eq!(w.balance(TOKEN, BUYER), 900);
}

#[test]
fn a_multi_resolver_set_is_checked_at_creation() {
    let mut w = World::new(0);
    let (r1, r2) = (Address(60), Address(61));
    assert!(w.esc.create_escrow_multi(SELLER, None, vec![r1, r2], 3, TOKEN, 10, 0, 3600, 0).is_err());
    assert!(w.esc.create_escrow_multi(SELLER, None, vec![r1, r1], 1, TOKEN, 10, 0, 3600, 0).is_err());
    assert!(w.esc.create_escrow_multi(SELLER, None, vec![r1, SELLER], 1, TOKEN, 10, 0, 3600, 0).is_err());
    assert!(w.esc.create_escrow_multi(SELLER, None, vec![r1, r2], 2, TOKEN, 10, 0, 3600, 0).is_ok());
}

#[test]
fn a_batch_is_created_whole_or_not_at_all() {
    let mut w = World::new(0);
    let item = |amount: i128| EscrowInput {
        buyer: None,
        resolver: RESOLVER,
        token: TOKEN,
        amount,
        fee_bps: 0,
        shipping_window: 3600,
        notes: None,
    };
    let ids = w.esc.batch_create_escrow(SELLER, vec![item(10), item(20), item(30)], 0).unwrap();
    assert_eq!(ids, vec![1, 2, 3]);
    assert_eq!(w.esc.get_escrow(3).unwrap().amount, 30);

    let before = w.esc.clone();
    assert_eq!(
        w.esc.batch_create_escrow(SELLER, vec![item(10), item(0)], 0),
        Err(ContractError::InvalidAmount)
    );
    assert_eq!(w.esc, before);
    assert_eq!(w.esc.get_escrows_by_seller(SELLER), vec![1, 2, 3]);
}

#[test]
fn counters_and_configuration_views() {
    let (mut w, id) = funded(100);
    let stats = w.esc.get_stats();
    // Single-resolver creation is not counted; multi-resolver creation is.
    assert_eq!(stats.total_created, 0);
    assert_eq!(stats.total_completed, 0);
    w.esc.create_escrow_multi(SELLER, None, vec![RESOLVER], 1, TOKEN, 5, 0, 3600, 0).unwrap();
    assert_eq!(w.esc.get_stats().total_created, 1);

    w.pay(|e, now| e.co_signed_release(SELLER, id, now)).unwrap();
    assert_eq!(w.esc.get_stats().total_completed, 1);

    let public = w.esc.get_public_config();
    assert_eq!(public.escrow_count, 2);
    assert!(!public.paused);
    let config = w.esc.get_contract_config().unwrap();
    assert_eq!(config.admin, ADMIN);
    assert_eq!(config.fee_collector, FEE_COLLECTOR);

    let fresh = Escrow::new(CONTRACT);
    assert_eq!(fresh.get_contract_config(), Err(ContractError::NotInitialized));
}

#[test]
fn the_state_history_records_every_transition() {
    let (mut w, id) = funded(100);
    w.now = 5;
    let now = w.now;
    w.esc.mark_shipped(SELLER, id, b"T".to_vec(), now).unwrap();
    let history = w.esc.get_state_history(id).unwrap();
    let states: Vec<EscrowState> = history.iter().map(|(s, _)| *s).collect();
    assert_eq!(states, vec![EscrowState::Pending, EscrowState::Funded, EscrowState::Shipped]);
    assert_eq!(history[2].1, 5);
    assert_eq!(w.esc.get_state_history(99), Err(ContractError::EscrowNotFound));
}

#[test]
fn a_fallback_escrow_records_both_resolvers() {
    let mut w = World::new(0);
    let backup = Address(80);
    let id = w
        .esc
        .create_escrow_with_fallback(SELLER, None, RESOLVER, backup, 10_000, TOKEN, 10, 0, 3600, 0)
        .unwrap();
    match w.esc.get_escrow(id).unwrap().resolvers {
        ResolverSet::Fallback(f) => {
            assert_eq!((f.primary, f.backup, f.dispute_deadline), (RESOLVER, backup, 10_000));
        }
        _ => panic!("expected a fallback resolver set"),
    }
}

#[test]
fn split_payees_share_a_release_exactly() {
    let mut w = World::new(0);
    let other = Address(90);
    w.mint(TOKEN, BUYER, 1_001);
    let payees = vec![Payee { address: SELLER, bps: 3_333 }, Payee { address: other, bps: 6_667 }];
    let id = w
        .esc
        .create_escrow_8(SellerOrPayees::Payees(payees), None, RESOLVER, TOKEN, 1_001, 100, 3600, 0)
        .unwrap();
    w.pay(|e, now| e.fund_escrow(id, BUYER, now)).unwrap();
    w.esc.mark_shipped(SELLER, id, b"T".to_vec(), 0).unwrap();
    w.now = w.esc.get_escrow(id).unwrap().dispute_deadline;
    w.pay(|e, now| e.confirm_delivery(BUYER, id, now)).unwrap();
    let total = w.balance(TOKEN, SELLER) + w.balance(TOKEN, other) + w.balance(TOKEN, FEE_COLLECTOR);
    assert_eq!(total, 1_001);
    assert_eq!(w.balance(TOKEN, CONTRACT), 0);
    assert_eq!(w.balance(TOKEN, FEE_COLLECTOR), 10);
}
