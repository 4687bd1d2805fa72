//! Initialization, the protocol fee setter, and a dispute decided for the
//! vendor from start to finish.

use std::collections::HashMap;

use escrow::types::{Address, Transfer};
use escrow::Escrow;

const CONTRACT: Address = Address(1);
const ADMIN: Address = Address(2);
const FEE_COLLECTOR: Address = Address(3);
const SELLER: Address = Address(10);
const BUYER: Address = Address(11);
const RESOLVER: Address = Address(12);
const TOKEN: Address = Address(100);

/// The contract state, the token balances, and the ledger clock. Every
/// operation runs against a snapshot: when the token movements it asks for
/// cannot all be made, the whole operation is undone.
struct World {
    esc: Escrow,
    balances: HashMap<(Address, Address), i128>,
    now: u64,
}

#[allow(dead_code)]
impl World {
    fn new(arbitration_fee_bps: u32) -> World {
        let mut esc = Escrow::new(CONTRACT);
        esc.initialize(ADMIN, FEE_COLLECTOR, arbitration_fee_bps, 0).unwrap();
        World { esc, balances: HashMap::new(), now: 0 }
    }

    fn mint(&mut self, token: Address, to: Address, amount: i128) {
        *self.balances.entry((token, to)).or_insert(0) += amount;
    }

    fn balance(&self, token: Address, who: Address) -> i128 {
        *self.balances.get(&(token, who)).unwrap_or(&0)
    }

    /// Makes every movement or none: `false` when some sender lacks funds.
    fn settle(&mut self, ts: &[Transfer]) -> bool {
        let mut next = self.balances.clone();
        for t in ts {
            let from = next.entry((t.token, t.from)).or_insert(0);
            if *from < t.amount {
                return false;
            }
            *from -= t.amount;
            *next.entry((t.token, t.to)).or_insert(0) += t.amount;
        }
        self.balances = next;
        true
    }

    /// Runs an operation that moves tokens; a refused operation or one whose
    /// movements cannot be made leaves everything as it was.
    fn pay<F>(&mut self, op: F) -> Result<(), escrow::ContractError>
    where
        F: FnOnce(&mut Escrow, u64) -> Result<Vec<Transfer>, escrow::ContractError>,
    {
        let snapshot = self.esc.clone();
        let now = self.now;
        let ts = op(&mut self.esc, now)?;
        if !self.settle(&ts) {
            self.esc = snapshot;
            return Err(escrow::ContractError::InsufficientBalance);
        }
        Ok(())
    }
}

use escrow::lifecycle::SellerOrPayees;
use escrow::types::{DisputeStatus, EscrowState, Payee, ResolutionType};
use escrow::ContractError;

const ADMIN_B: Address = Address(20);
const FEE_COLLECTOR_B: Address = Address(21);

fn payees() -> SellerOrPayees {
    SellerOrPayees::Payees(vec![Payee { address: SELLER, bps: 10_000 }])
}

#[test]
fn test_double_initialize_fails() {
    let mut esc = Escrow::new(CONTRACT);
    esc.initialize(ADMIN, FEE_COLLECTOR, 0, 0).unwrap();
    let attacker = Address(66);
    assert!(esc.initialize(attacker, FEE_COLLECTOR, 0, 0).is_err());
}

#[test]
fn test_set_fee_requires_admin() {
    let mut w = World::new(0);
    assert!(w.esc.set_fee(ADMIN, 200, 0).is_ok());
    assert_eq!(w.esc.set_fee(Address(66), 200, 0), Err(ContractError::NotAuthorized));
}

#[test]
fn test_set_fee_exceeds_max_fails() {
    let mut w = World::new(0);
    assert!(matches!(w.esc.set_fee(ADMIN, 500, 0), Err(ContractError::FeeExceedsMax)));
}

#[test]
fn second_initialize_reverts_with_already_initialized() {
    let mut esc = Escrow::new(CONTRACT);
    esc.initialize(ADMIN, FEE_COLLECTOR, 100, 0).unwrap();
    let res = esc.initialize(ADMIN_B, FEE_COLLECTOR_B, 100, 0);
    assert!(matches!(res, Err(ContractError::AlreadyInitialized)));
}

#[test]
fn storage_from_the_first_initialize_is_unchanged_after_a_failed_second_call() {
    let mut esc = Escrow::new(CONTRACT);
    esc.initialize(ADMIN, FEE_COLLECTOR, 100, 0).unwrap();
    let res = esc.initialize(ADMIN_B, FEE_COLLECTOR_B, 100, 0);
    assert!(matches!(res, Err(ContractError::AlreadyInitialized)));
    assert_eq!(esc.admin, Some(ADMIN));
    assert_eq!(esc.fee_collector, Some(FEE_COLLECTOR));
}

#[test]
fn initialize_refuses_the_same_account_for_both_roles() {
    let mut esc = Escrow::new(CONTRACT);
    assert_eq!(esc.initialize(ADMIN, ADMIN, 0, 0), Err(ContractError::InvalidAddress));
    assert_eq!(esc.initialize(Address(0), FEE_COLLECTOR, 0, 0), Err(ContractError::InvalidAddress));
    assert_eq!(esc.initialize(ADMIN, FEE_COLLECTOR, 501, 0), Err(ContractError::ArbitrationFeeExceedsMax));
    assert!(esc.admin.is_none());
}

#[test]
fn full_dispute_release_to_vendor() {
    let mut w = World::new(50);
    let now = w.now;
    let id = w.esc.create_escrow(payees(), None, RESOLVER, TOKEN, 1_000, 0, 0, 3600, None, now).unwrap();
    w.mint(TOKEN, BUYER, 1_000);
    w.pay(|e, now| e.fund_escrow(id, BUYER, now)).unwrap();
    w.now += 3601;
    let now = w.now;
    w.esc.mark_shipped(SELLER, id, b"TRK-001".to_vec(), now).unwrap();
    w.esc
        .raise_dispute(BUYER, id, b"non_delivery".to_vec(), b"Item never arrived".to_vec(), [0xab; 32], now)
        .unwrap();
    assert_eq!(w.esc.get_escrow(id).unwrap().state, EscrowState::Disputed);

    w.pay(|e, now| e.resolve_dispute(RESOLVER, id, ResolutionType::Release, now)).unwrap();
    w.now += 86_401;
    w.pay(|e, now| e.finalize_dispute(RESOLVER, id, now)).unwrap();

    assert_eq!(w.balance(TOKEN, SELLER), 1_000 - 5);
    assert_eq!(w.balance(TOKEN, BUYER), 0);
    assert_eq!(w.esc.get_escrow(id).unwrap().state, EscrowState::Completed);
    assert_eq!(w.esc.get_dispute(id).unwrap().status, DisputeStatus::Resolved);
}

#[test]
fn dispute_resolution_with_zero_resolver_fee_and_appeal() {
    let mut w = World::new(0);
    let now = w.now;
    let id = w.esc.create_escrow(payees(), None, RESOLVER, TOKEN, 1_000, 0, 0, 3600, None, now).unwrap();
    w.mint(TOKEN, BUYER, 1_000);
    w.pay(|e, now| e.fund_escrow(id, BUYER, now)).unwrap();

    w.now = 1_000;
    w.esc.mark_shipped(SELLER, id, b"TRK-ZERO".to_vec(), 1_000).unwrap();
    w.esc
        .raise_dispute(BUYER, id, b"no_delivery".to_vec(), b"Item not received".to_vec(), [0u8; 32], 1_000)
        .unwrap();

    w.now = 2_000;
    w.pay(|e, now| e.resolve_dispute(RESOLVER, id, ResolutionType::Release, now)).unwrap();
    let d = w.esc.get_dispute(id).unwrap();
    assert_eq!(d.arbitration_fee, 0);
    assert_eq!(d.resolver_fee, 0);
    let e = w.esc.get_escrow(id).unwrap();
    assert_eq!(e.state, EscrowState::PendingFinalization);
    assert_eq!(e.amount, 1_000);

    w.now = 3_000;
    w.esc.appeal_dispute(BUYER, id, 3_000).unwrap();
    let d = w.esc.get_dispute(id).unwrap();
    assert_eq!(d.appeal_count, 1);
    assert_eq!(d.arbitration_fee, 0);
    assert_eq!(d.resolver_fee, 0);
    assert_eq!(w.esc.get_escrow(id).unwrap().state, EscrowState::Disputed);

    w.now = 4_000;
    w.pay(|e, now| e.resolve_dispute(RESOLVER, id, ResolutionType::Release, now)).unwrap();
    let d = w.esc.get_dispute(id).unwrap();
    assert_eq!(d.arbitration_fee, 0);
    assert_eq!(d.resolver_fee, 0);
    let e = w.esc.get_escrow(id).unwrap();
    assert_eq!(e.amount, 1_000);
    assert_eq!(e.state, EscrowState::PendingFinalization);

    w.now = 91_000;
    w.pay(|e, now| e.finalize_dispute(RESOLVER, id, now)).unwrap();
    assert_eq!(w.balance(TOKEN, SELLER), 1_000);
    assert_eq!(w.balance(TOKEN, BUYER), 0);
    assert_eq!(w.balance(TOKEN, FEE_COLLECTOR), 0);
    assert_eq!(w.esc.get_escrow(id).unwrap().state, EscrowState::Completed);
}
