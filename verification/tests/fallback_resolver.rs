//! Fallback resolver sets: the primary decides at any time, the backup from
//! its deadline on, and the rest of the lifecycle runs as usual.

use std::collections::HashMap;

use escrow::types::{Address, Transfer};
use escrow::Escrow;

const CONTRACT: Address = Address(1);
const ADMIN: Address = Address(2);
const FEE_COLLECTOR: Address = Address(3);
const SELLER: Address = Address(10);
const BUYER: Address = Address(11);
const RESOLVER: Address = Address(12);
const TOKEN: Address = Address(100);

/// The contract state, the token balances, and the ledger clock. Every
/// operation runs against a snapshot: when the token movements it asks for
/// cannot all be made, the whole operation is undone.
struct World {
    esc: Escrow,
    balances: HashMap<(Address, Address), i128>,
    now: u64,
}

#[allow(dead_code)]
impl World {
    fn new(arbitration_fee_bps: u32) -> World {
        let mut esc = Escrow::new(CONTRACT);
        esc.initialize(ADMIN, FEE_COLLECTOR, arbitration_fee_bps, 0).unwrap();
        World { esc, balances: HashMap::new(), now: 0 }
    }

    fn mint(&mut self, token: Address, to: Address, amount: i128) {
        *self.balances.entry((token, to)).or_insert(0) += amount;
    }

    fn balance(&self, token: Address, who: Address) -> i128 {
        *self.balances.get(&(token, who)).unwrap_or(&0)
    }

    /// Makes every movement or none: `false` when some sender lacks funds.
    fn settle(&mut self, ts: &[Transfer]) -> bool {
        let mut next = self.balances.clone();
        for t in ts {
            let from = next.entry((t.token, t.from)).or_insert(0);
            if *from < t.amount {
                return false;
            }
            *from -= t.amount;
            *next.entry((t.token, t.to)).or_insert(0) += t.amount;
        }
        self.balances = next;
        true
    }

    /// Runs an operation that moves tokens; a refused operation or one whose
    /// movements cannot be made leaves everything as it was.
    fn pay<F>(&mut self, op: F) -> Result<(), escrow::ContractError>
    where
        F: FnOnce(&mut Escrow, u64) -> Result<Vec<Transfer>, escrow::ContractError>,
    {
        let snapshot = self.esc.clone();
        let now = self.now;
        let ts = op(&mut self.esc, now)?;
        if !self.settle(&ts) {
            self.esc = snapshot;
            return Err(escrow::ContractError::InsufficientBalance);
        }
        Ok(())
    }
}

use escrow::lifecycle::SellerOrPayees;
use escrow::types::{EscrowState, Payee, ResolutionType, ResolverSet};
use escrow::ContractError;

const PRIMARY: Address = Address(20);
const BACKUP: Address = Address(21);

fn setup() -> World {
    World::new(0)
}

/// Creates a fallback-resolver escrow whose backup may act from `now + 100`,
/// funds it, ships it and raises a dispute, leaving the clock unchanged.
fn create_funded_shipped_disputed(w: &mut World) -> u64 {
    let amount = 1000_i128;
    let now = w.now;
    let fallback_deadline = now + 100;
    let id = w
        .esc
        .create_escrow_with_fallback(
            SELLER,
            Some(BUYER),
            PRIMARY,
            BACKUP,
            fallback_deadline,
            TOKEN,
            amount,
            0,
            3600,
            now,
        )
        .unwrap();
    w.mint(TOKEN, BUYER, amount);
    w.pay(|e, now| e.fund_escrow(id, BUYER, now)).unwrap();
    w.esc.mark_shipped(SELLER, id, b"TRK".to_vec(), now).unwrap();
    w.esc
        .raise_dispute(BUYER, id, b"reason".to_vec(), b"desc".to_vec(), [0xab; 32], now)
        .unwrap();
    id
}

fn resolve(w: &mut World, who: Address, id: u64, res: ResolutionType) -> Result<(), ContractError> {
    w.pay(|e, now| e.resolve_dispute(who, id, res, now))
}

#[test]
fn test_create_escrow_with_fallback_success() {
    let mut w = setup();
    let id = w
        .esc
        .create_escrow_with_fallback(SELLER, Some(BUYER), PRIMARY, BACKUP, 3600, TOKEN, 1000, 100, 7200, w.now)
        .unwrap();
    let escrow = w.esc.get_escrow(id).unwrap();
    assert_eq!(escrow.state, EscrowState::Pending);
    assert_eq!(escrow.payees[0].address, SELLER);
}

#[test]
fn primary_resolver_can_resolve_dispute() {
    let mut w = setup();
    let id = create_funded_shipped_disputed(&mut w);

    resolve(&mut w, PRIMARY, id, ResolutionType::Release).unwrap();
    assert_eq!(w.esc.get_escrow(id).unwrap().state, EscrowState::PendingFinalization);

    w.now += 86401;
    w.pay(|e, now| e.finalize_dispute(PRIMARY, id, now)).unwrap();
    assert_eq!(w.esc.get_escrow(id).unwrap().state, EscrowState::Completed);
}

#[test]
fn backup_resolver_can_resolve_dispute_after_deadline() {
    let mut w = setup();
    let id = create_funded_shipped_disputed(&mut w);

    w.now += 200;
    let result = resolve(&mut w, BACKUP, id, ResolutionType::Refund);
    assert!(result.is_ok());
    assert_eq!(w.esc.get_escrow(id).unwrap().state, EscrowState::PendingFinalization);
}

#[test]
fn backup_resolver_authorized_exactly_at_deadline() {
    let mut w = setup();
    let id = create_funded_shipped_disputed(&mut w);

    w.now = 100;
    let result = resolve(&mut w, BACKUP, id, ResolutionType::Refund);
    assert!(result.is_ok());
    assert_eq!(w.esc.get_escrow(id).unwrap().state, EscrowState::PendingFinalization);
}

#[test]
fn backup_resolver_cannot_resolve_dispute_before_deadline() {
    let mut w = setup();
    let id = create_funded_shipped_disputed(&mut w);

    let result = resolve(&mut w, BACKUP, id, ResolutionType::Refund);
    assert_eq!(result, Err(ContractError::NotAuthorized));
}

#[test]
fn primary_resolver_can_resolve_dispute_regardless_of_deadline() {
    let mut w = setup();
    let id = create_funded_shipped_disputed(&mut w);

    resolve(&mut w, PRIMARY, id, ResolutionType::Release).unwrap();
    assert_eq!(w.esc.get_escrow(id).unwrap().state, EscrowState::PendingFinalization);
}

#[test]
fn single_resolver_set_is_unaffected_by_fallback_deadline_logic() {
    let mut w = setup();
    w.mint(TOKEN, BUYER, 10_000);
    let id = w
        .esc
        .create_escrow_8(
            SellerOrPayees::Payees(vec![Payee { address: SELLER, bps: 10_000 }]),
            Some(BUYER),
            RESOLVER,
            TOKEN,
            1000,
            0,
            3600,
            w.now,
        )
        .unwrap();
    w.pay(|e, now| e.fund_escrow(id, BUYER, now)).unwrap();
    w.now += 3601;
    w.esc.mark_shipped(SELLER, id, b"TRK-SINGLE".to_vec(), w.now).unwrap();
    w.esc
        .raise_dispute(BUYER, id, b"defective".to_vec(), b"Item is defective".to_vec(), [0xef; 32], w.now)
        .unwrap();

    resolve(&mut w, RESOLVER, id, ResolutionType::Release).unwrap();
    assert_eq!(w.esc.get_escrow(id).unwrap().state, EscrowState::PendingFinalization);
}

#[test]
fn non_resolver_cannot_resolve_dispute() {
    let mut w = setup();
    let id = create_funded_shipped_disputed(&mut w);

    let result = resolve(&mut w, Address(999), id, ResolutionType::Release);
    assert_eq!(result, Err(ContractError::NotAuthorized));
}

#[test]
fn resolve_non_disputed_escrow_fails() {
    let mut w = setup();
    let amount = 1000_i128;
    let id = w
        .esc
        .create_escrow_with_fallback(SELLER, Some(BUYER), PRIMARY, BACKUP, 3600, TOKEN, amount, 100, 0, w.now)
        .unwrap();
    w.mint(TOKEN, BUYER, amount);
    w.pay(|e, now| e.fund_escrow(id, BUYER, now)).unwrap();
    w.esc.mark_shipped(SELLER, id, b"TRK".to_vec(), w.now).unwrap();

    let result = resolve(&mut w, PRIMARY, id, ResolutionType::Refund);
    assert_eq!(result, Err(ContractError::InvalidState));

    let result_vote = w.pay(|e, now| e.vote(BACKUP, id, ResolutionType::Refund, now));
    assert_eq!(result_vote, Err(ContractError::InvalidState));
}

#[test]
fn backup_resolver_vote_allowed_after_deadline() {
    let mut w = setup();
    let id = create_funded_shipped_disputed(&mut w);

    w.now += 200;
    w.pay(|e, now| e.vote(BACKUP, id, ResolutionType::Release, now)).unwrap();
    assert_eq!(w.esc.get_escrow(id).unwrap().state, EscrowState::PendingFinalization);
}

#[test]
fn test_fallback_creation_role_conflicts() {
    let mut w = setup();
    let amount = 1000_i128;
    let deadline = 100_000_u64;
    let now = w.now;
    let cases = [
        (SELLER, BACKUP),
        (PRIMARY, SELLER),
        (BUYER, BACKUP),
        (PRIMARY, BUYER),
        (PRIMARY, PRIMARY),
    ];
    for (primary, backup) in cases {
        let res = w.esc.create_escrow_with_fallback(
            SELLER,
            Some(BUYER),
            primary,
            backup,
            deadline,
            TOKEN,
            amount,
            0,
            3600,
            now,
        );
        assert_eq!(res, Err(ContractError::ConflictingRoles));
    }
}

#[test]
fn test_fallback_creation_amount_and_fee_boundaries() {
    let mut w = setup();
    let deadline = 100_000_u64;
    let now = w.now;
    assert_eq!(
        w.esc.create_escrow_with_fallback(SELLER, Some(BUYER), PRIMARY, BACKUP, deadline, TOKEN, 0, 0, 3600, now),
        Err(ContractError::InvalidAmount)
    );
    assert_eq!(
        w.esc.create_escrow_with_fallback(SELLER, Some(BUYER), PRIMARY, BACKUP, deadline, TOKEN, -100, 0, 3600, now),
        Err(ContractError::InvalidAmount)
    );
    assert_eq!(
        w.esc.create_escrow_with_fallback(SELLER, Some(BUYER), PRIMARY, BACKUP, deadline, TOKEN, 1000, 301, 3600, now),
        Err(ContractError::FeeExceedsMax)
    );
}

#[test]
fn test_fallback_primary_resolves_refund_and_finalizes() {
    let mut w = setup();
    let id = create_funded_shipped_disputed(&mut w);

    resolve(&mut w, PRIMARY, id, ResolutionType::Refund).unwrap();
    assert_eq!(w.esc.get_escrow(id).unwrap().state, EscrowState::PendingFinalization);

    w.now += 86401;
    w.pay(|e, now| e.finalize_dispute(BUYER, id, now)).unwrap();
    assert_eq!(w.esc.get_escrow(id).unwrap().state, EscrowState::Refunded);
    assert_eq!(w.balance(TOKEN, BUYER), 1000);
}

#[test]
fn test_fallback_backup_resolves_release_and_finalizes() {
    let mut w = setup();
    let id = create_funded_shipped_disputed(&mut w);
    let t = w.now;

    w.now = t + 101;
    resolve(&mut w, BACKUP, id, ResolutionType::Release).unwrap();
    assert_eq!(w.esc.get_escrow(id).unwrap().state, EscrowState::PendingFinalization);

    w.now = t + 101 + 86401;
    w.pay(|e, now| e.finalize_dispute(SELLER, id, now)).unwrap();
    assert_eq!(w.esc.get_escrow(id).unwrap().state, EscrowState::Completed);
    assert_eq!(w.balance(TOKEN, SELLER), 1000);
}

#[test]
fn test_fallback_backup_exact_deadline_boundary() {
    let mut w = setup();
    let id = create_funded_shipped_disputed(&mut w);
    let now = w.now;

    w.now = now + 99;
    assert_eq!(resolve(&mut w, BACKUP, id, ResolutionType::Release), Err(ContractError::NotAuthorized));

    w.now = now + 100;
    assert!(resolve(&mut w, BACKUP, id, ResolutionType::Release).is_ok());
    assert_eq!(w.esc.get_escrow(id).unwrap().state, EscrowState::PendingFinalization);
}

#[test]
fn test_fallback_get_resolver_votes_query() {
    let mut w = setup();
    let id = create_funded_shipped_disputed(&mut w);

    resolve(&mut w, PRIMARY, id, ResolutionType::Release).unwrap();

    let votes = w.esc.get_resolver_votes(id);
    assert_eq!(votes.len(), 1);
    let vote = votes[0];
    assert_eq!(vote.resolver, PRIMARY);
    assert_eq!(vote.resolution, ResolutionType::Release);
}

#[test]
fn test_fallback_appeal_flow_reopens_dispute() {
    let mut w = setup();
    let id = create_funded_shipped_disputed(&mut w);

    resolve(&mut w, PRIMARY, id, ResolutionType::Release).unwrap();
    assert_eq!(w.esc.get_escrow(id).unwrap().state, EscrowState::PendingFinalization);

    w.esc.appeal_dispute(BUYER, id, w.now).unwrap();
    assert_eq!(w.esc.get_escrow(id).unwrap().state, EscrowState::Disputed);

    let now = w.now;
    w.now = now + 200;
    resolve(&mut w, BACKUP, id, ResolutionType::Refund).unwrap();
    assert_eq!(w.esc.get_escrow(id).unwrap().state, EscrowState::PendingFinalization);

    w.now = now + 200 + 86401;
    w.pay(|e, now| e.finalize_dispute(BUYER, id, now)).unwrap();
    assert_eq!(w.esc.get_escrow(id).unwrap().state, EscrowState::Refunded);
    assert_eq!(w.balance(TOKEN, BUYER), 1000);
}

#[test]
fn test_fallback_rotate_resolver_fails() {
    let mut w = setup();
    let id = create_funded_shipped_disputed(&mut w);
    assert_eq!(w.esc.rotate_resolver(SELLER, id, Address(998), w.now), Err(ContractError::InvalidState));
}

#[test]
fn test_fallback_mutual_cancel_success() {
    let mut w = setup();
    let amount = 1000_i128;
    let id = w
        .esc
        .create_escrow_with_fallback(SELLER, Some(BUYER), PRIMARY, BACKUP, 100_000, TOKEN, amount, 0, 3600, w.now)
        .unwrap();
    w.mint(TOKEN, BUYER, amount);
    w.pay(|e, now| e.fund_escrow(id, BUYER, now)).unwrap();

    w.pay(|e, now| e.mutual_cancel(id, now)).unwrap();

    assert_eq!(w.esc.get_escrow(id).unwrap().state, EscrowState::Canceled);
    assert_eq!(w.balance(TOKEN, BUYER), amount);
}

#[test]
fn test_fallback_co_signed_release_success() {
    let mut w = setup();
    let amount = 1000_i128;
    let id = w
        .esc
        .create_escrow_with_fallback(SELLER, Some(BUYER), PRIMARY, BACKUP, 100_000, TOKEN, amount, 0, 3600, w.now)
        .unwrap();
    w.mint(TOKEN, BUYER, amount);
    w.pay(|e, now| e.fund_escrow(id, BUYER, now)).unwrap();

    w.pay(|e, now| e.co_signed_release(SELLER, id, now)).unwrap();

    assert_eq!(w.esc.get_escrow(id).unwrap().state, EscrowState::Completed);
    assert_eq!(w.balance(TOKEN, SELLER), amount);
}

#[test]
fn fallback_deadline_is_not_range_checked() {
    let mut w = setup();
    let now = 1_000;
    let id = w
        .esc
        .create_escrow_with_fallback(SELLER, Some(BUYER), PRIMARY, BACKUP, u64::MAX, TOKEN, 1000, 0, 3600, now)
        .unwrap();
    match &w.esc.get_escrow(id).unwrap().resolvers {
        ResolverSet::Fallback(f) => assert_eq!((f.primary, f.backup, f.dispute_deadline), (PRIMARY, BACKUP, u64::MAX)),
        other => panic!("unexpected resolvers {:?}", other),
    }
    let past = w
        .esc
        .create_escrow_with_fallback(SELLER, Some(BUYER), PRIMARY, BACKUP, 0, TOKEN, 1000, 0, 3600, now)
        .unwrap();
    assert!(w.esc.get_escrow(past).is_ok());
}

#[test]
fn fallback_creation_needs_initialization() {
    let mut esc = Escrow::new(CONTRACT);
    let res = esc.create_escrow_with_fallback(SELLER, Some(BUYER), PRIMARY, BACKUP, 100, TOKEN, 1000, 0, 3600, 0);
    assert_eq!(res, Err(ContractError::NotInitialized));
}
