//! Multi-token (basket) escrows: creation checks every entry, funding pulls
//! every token or none, and each payout moves every token.

use std::collections::HashMap;

use escrow::types::{Address, Transfer};
use escrow::Escrow;

const CONTRACT: Address = Address(1);
const ADMIN: Address = Address(2);
const FEE_COLLECTOR: Address = Address(3);
const SELLER: Address = Address(10);
const BUYER: Address = Address(11);
const RESOLVER: Address = Address(12);
const TOKEN: Address = Address(100);

/// The contract state, the token balances, and the ledger clock. Every
/// operation runs against a snapshot: when the token movements it asks for
/// cannot all be made, the whole operation is undone.
struct World {
    esc: Escrow,
    balances: HashMap<(Address, Address), i128>,
    now: u64,
}

#[allow(dead_code)]
impl World {
    fn new(arbitration_fee_bps: u32) -> World {
        let mut esc = Escrow::new(CONTRACT);
        esc.initialize(ADMIN, FEE_COLLECTOR, arbitration_fee_bps, 0).unwrap();
        World { esc, balances: HashMap::new(), now: 0 }
    }

    fn mint(&mut self, token: Address, to: Address, amount: i128) {
        *self.balances.entry((token, to)).or_insert(0) += amount;
    }

    fn balance(&self, token: Address, who: Address) -> i128 {
        *self.balances.get(&(token, who)).unwrap_or(&0)
    }

    /// Makes every movement or none: `false` when some sender lacks funds.
    fn settle(&mut self, ts: &[Transfer]) -> bool {
        let mut next = self.balances.clone();
        for t in ts {
            let from = next.entry((t.token, t.from)).or_insert(0);
            if *from < t.amount {
                return false;
            }
            *from -= t.amount;
            *next.entry((t.token, t.to)).or_insert(0) += t.amount;
        }
        self.balances = next;
        true
    }

    /// Runs an operation that moves tokens; a refused operation or one whose
    /// movements cannot be made leaves everything as it was.
    fn pay<F>(&mut self, op: F) -> Result<(), escrow::ContractError>
    where
        F: FnOnce(&mut Escrow, u64) -> Result<Vec<Transfer>, escrow::ContractError>,
    {
        let snapshot = self.esc.clone();
        let now = self.now;
        let ts = op(&mut self.esc, now)?;
        if !self.settle(&ts) {
            self.esc = snapshot;
            return Err(escrow::ContractError::InsufficientBalance);
        }
        Ok(())
    }
}

use escrow::lifecycle::MAX_BASKET_SIZE;
use escrow::types::EscrowState;
use escrow::{ContractError, ADMIN_TIMELOCK_DELAY_SECONDS, MAX_ESCROW_AMOUNT};

const SHIPPING_WINDOW: u64 = 3_600;
const TOKEN_A: Address = Address(100);
const TOKEN_B: Address = Address(101);
const TOKEN_C: Address = Address(102);

fn setup() -> World {
    World::new(50)
}

fn create_basket(
    w: &mut World,
    buyer: Option<Address>,
    tokens: Vec<Address>,
    amounts: Vec<i128>,
) -> Result<u64, ContractError> {
    let now = w.now;
    w.esc.create_basket_escrow(SELLER, buyer, RESOLVER, tokens, amounts, 0, SHIPPING_WINDOW, now)
}

fn fund_basket(w: &mut World, id: u64, buyer: Address) -> Result<(), ContractError> {
    w.pay(|e, now| e.fund_basket_escrow(id, buyer, now))
}

/// A contract whose amount limits were set by the administrator through the
/// timelock.
fn with_limits(min: i128, max: i128) -> World {
    let mut w = World::new(0);
    w.esc.queue_set_amount_limits(ADMIN, min, max, 0).unwrap();
    w.now = ADMIN_TIMELOCK_DELAY_SECONDS;
    let now = w.now;
    w.esc.execute_set_amount_limits(ADMIN, now).unwrap();
    w
}

#[test]
fn create_basket_escrow_persists_all_tokens() {
    let mut w = setup();
    let id = create_basket(&mut w, None, vec![TOKEN_A, TOKEN_B, TOKEN_C], vec![1_000, 500, 200]).unwrap();

    let entries = w.esc.get_basket_tokens(id);
    assert_eq!(entries.len(), 3);
    assert_eq!(entries[0].token, TOKEN_A);
    assert_eq!(entries[0].amount, 1_000);
    assert_eq!(entries[1].token, TOKEN_B);
    assert_eq!(entries[1].amount, 500);
    assert_eq!(entries[2].token, TOKEN_C);
    assert_eq!(entries[2].amount, 200);

    let escrow = w.esc.get_escrow(id).unwrap();
    assert_eq!(escrow.token, TOKEN_A);
    assert_eq!(escrow.amount, 1_000);
    assert_eq!(escrow.state, EscrowState::Pending);
}

#[test]
fn create_basket_escrow_rejects_malformed_baskets() {
    let mut w = setup();
    let mismatched = create_basket(&mut w, None, vec![TOKEN_A, TOKEN_B], vec![1_000]);
    assert_eq!(mismatched, Err(ContractError::BasketTokenMismatch));

    let empty = create_basket(&mut w, None, vec![], vec![]);
    assert_eq!(empty, Err(ContractError::BasketTokenMismatch));
}

#[test]
fn fund_basket_escrow_pulls_every_token_from_buyer() {
    let mut w = setup();
    let id = create_basket(&mut w, None, vec![TOKEN_A, TOKEN_B, TOKEN_C], vec![1_000, 500, 200]).unwrap();
    w.mint(TOKEN_A, BUYER, 1_000);
    w.mint(TOKEN_B, BUYER, 500);
    w.mint(TOKEN_C, BUYER, 200);

    fund_basket(&mut w, id, BUYER).unwrap();

    assert_eq!(w.balance(TOKEN_A, BUYER), 0);
    assert_eq!(w.balance(TOKEN_B, BUYER), 0);
    assert_eq!(w.balance(TOKEN_C, BUYER), 0);
    assert_eq!(w.balance(TOKEN_A, CONTRACT), 1_000);
    assert_eq!(w.balance(TOKEN_B, CONTRACT), 500);
    assert_eq!(w.balance(TOKEN_C, CONTRACT), 200);

    let escrow = w.esc.get_escrow(id).unwrap();
    assert_eq!(escrow.state, EscrowState::Funded);
    assert_eq!(escrow.buyer, Some(BUYER));
}

#[test]
fn get_basket_tokens_empty_for_non_basket_escrow() {
    let w = setup();
    assert_eq!(w.esc.get_basket_tokens(999).len(), 0);
}

#[test]
fn payout_pays_each_basket_token_to_seller() {
    let mut w = setup();
    let id = create_basket(&mut w, None, vec![TOKEN_A, TOKEN_B, TOKEN_C], vec![1_000, 500, 200]).unwrap();
    w.mint(TOKEN_A, BUYER, 1_000);
    w.mint(TOKEN_B, BUYER, 500);
    w.mint(TOKEN_C, BUYER, 200);
    fund_basket(&mut w, id, BUYER).unwrap();

    let deadline = w.esc.get_escrow(id).unwrap().dispute_deadline;
    w.now = deadline + SHIPPING_WINDOW + 1;
    w.pay(|e, now| e.auto_release(id, now)).unwrap();

    assert_eq!(w.balance(TOKEN_A, SELLER), 1_000);
    assert_eq!(w.balance(TOKEN_B, SELLER), 500);
    assert_eq!(w.balance(TOKEN_C, SELLER), 200);
    assert_eq!(w.balance(TOKEN_A, CONTRACT), 0);
    assert_eq!(w.balance(TOKEN_B, CONTRACT), 0);
    assert_eq!(w.balance(TOKEN_C, CONTRACT), 0);
    assert_eq!(w.esc.get_escrow(id).unwrap().state, EscrowState::Completed);
}

#[test]
fn create_basket_escrow_rejects_zero_secondary_amount() {
    let mut w = setup();
    let result = create_basket(&mut w, None, vec![TOKEN_A, TOKEN_B, TOKEN_C], vec![1_000, 0, 200]);
    assert_eq!(result, Err(ContractError::InvalidAmount));
}

#[test]
fn fund_basket_escrow_rejects_a_buyer_other_than_the_expected_buyer() {
    let mut w = setup();
    let expected_buyer = Address(20);
    let stranger = Address(21);
    let id = create_basket(&mut w, Some(expected_buyer), vec![TOKEN_A], vec![100]).unwrap();
    w.mint(TOKEN_A, stranger, 100);
    assert_eq!(fund_basket(&mut w, id, stranger), Err(ContractError::NotAuthorized));
    assert_eq!(w.balance(TOKEN_A, stranger), 100);
    assert_eq!(w.balance(TOKEN_A, CONTRACT), 0);
}

#[test]
fn fund_basket_escrow_is_atomic_when_the_buyer_only_has_part_of_the_basket() {
    let mut w = setup();
    let id = create_basket(&mut w, Some(BUYER), vec![TOKEN_A, TOKEN_B], vec![100, 50]).unwrap();
    w.mint(TOKEN_A, BUYER, 100);
    w.mint(TOKEN_B, BUYER, 49);
    assert!(fund_basket(&mut w, id, BUYER).is_err());

    assert_eq!(w.balance(TOKEN_A, BUYER), 100);
    assert_eq!(w.balance(TOKEN_A, CONTRACT), 0);
    assert_eq!(w.balance(TOKEN_B, BUYER), 49);
    assert_eq!(w.balance(TOKEN_B, CONTRACT), 0);
    assert_eq!(w.esc.get_escrow(id).unwrap().state, EscrowState::Pending);
}

#[test]
fn fund_basket_escrow_rejects_a_basket_already_funded_by_fund_escrow() {
    let mut w = setup();
    let id = create_basket(&mut w, Some(BUYER), vec![TOKEN_A, TOKEN_B], vec![100, 50]).unwrap();
    w.mint(TOKEN_A, BUYER, 100);
    w.mint(TOKEN_B, BUYER, 50);
    w.pay(|e, now| e.fund_escrow(id, BUYER, now)).unwrap();

    assert_eq!(fund_basket(&mut w, id, BUYER), Err(ContractError::InvalidState));
    assert_eq!(w.balance(TOKEN_A, CONTRACT), 100);
    assert_eq!(w.balance(TOKEN_B, CONTRACT), 50);
}

#[test]
fn fund_basket_escrow_transfers_only_the_configured_amounts() {
    let mut w = setup();
    let id = create_basket(&mut w, Some(BUYER), vec![TOKEN_A, TOKEN_B], vec![100, 50]).unwrap();
    w.mint(TOKEN_A, BUYER, 150);
    w.mint(TOKEN_B, BUYER, 75);

    fund_basket(&mut w, id, BUYER).unwrap();

    assert_eq!(w.balance(TOKEN_A, CONTRACT), 100);
    assert_eq!(w.balance(TOKEN_B, CONTRACT), 50);
    assert_eq!(w.balance(TOKEN_A, BUYER), 50);
    assert_eq!(w.balance(TOKEN_B, BUYER), 25);
}

#[test]
fn cancel_escrow_refunds_basket_tokens_to_the_buyer() {
    let mut w = setup();
    let id = create_basket(&mut w, Some(BUYER), vec![TOKEN_A, TOKEN_B], vec![1_000, 500]).unwrap();
    w.mint(TOKEN_A, BUYER, 1_000);
    w.mint(TOKEN_B, BUYER, 500);
    fund_basket(&mut w, id, BUYER).unwrap();

    w.pay(|e, now| e.cancel_escrow(BUYER, id, now)).unwrap();

    assert_eq!(w.balance(TOKEN_A, BUYER), 1_000);
    assert_eq!(w.balance(TOKEN_B, BUYER), 500);
    assert_eq!(w.balance(TOKEN_A, CONTRACT), 0);
    assert_eq!(w.balance(TOKEN_B, CONTRACT), 0);
    assert_eq!(w.esc.get_escrow(id).unwrap().state, EscrowState::Refunded);
}

#[test]
fn mutual_cancel_refunds_basket_tokens_to_the_buyer() {
    let mut w = setup();
    let id = create_basket(&mut w, Some(BUYER), vec![TOKEN_A, TOKEN_B], vec![1_000, 500]).unwrap();
    w.mint(TOKEN_A, BUYER, 1_000);
    w.mint(TOKEN_B, BUYER, 500);
    fund_basket(&mut w, id, BUYER).unwrap();

    w.pay(|e, now| e.mutual_cancel(id, now)).unwrap();

    assert_eq!(w.balance(TOKEN_A, BUYER), 1_000);
    assert_eq!(w.balance(TOKEN_B, BUYER), 500);
    assert_eq!(w.balance(TOKEN_A, CONTRACT), 0);
    assert_eq!(w.balance(TOKEN_B, CONTRACT), 0);
    assert_eq!(w.esc.get_escrow(id).unwrap().state, EscrowState::Canceled);
}

#[test]
fn co_signed_release_pays_out_basket_tokens_to_the_seller() {
    let mut w = setup();
    let id = create_basket(&mut w, Some(BUYER), vec![TOKEN_A, TOKEN_B], vec![1_000, 500]).unwrap();
    w.mint(TOKEN_A, BUYER, 1_000);
    w.mint(TOKEN_B, BUYER, 500);
    fund_basket(&mut w, id, BUYER).unwrap();

    w.pay(|e, now| e.co_signed_release(SELLER, id, now)).unwrap();

    assert_eq!(w.balance(TOKEN_A, SELLER), 1_000);
    assert_eq!(w.balance(TOKEN_B, SELLER), 500);
    assert_eq!(w.balance(TOKEN_A, CONTRACT), 0);
    assert_eq!(w.balance(TOKEN_B, CONTRACT), 0);
    assert_eq!(w.esc.get_escrow(id).unwrap().state, EscrowState::Completed);
}

#[test]
fn create_basket_escrow_rejects_secondary_amount_below_minimum() {
    let mut w = with_limits(100, MAX_ESCROW_AMOUNT);
    let result = create_basket(&mut w, None, vec![TOKEN_A, TOKEN_B], vec![1_000, 50]);
    assert_eq!(result, Err(ContractError::AmountBelowMinimum));
}

#[test]
fn create_basket_escrow_rejects_secondary_amount_above_maximum() {
    let mut w = with_limits(1, 10_000);
    let result = create_basket(&mut w, None, vec![TOKEN_A, TOKEN_B], vec![1_000, 10_001]);
    assert_eq!(result, Err(ContractError::AmountExceedsMaximum));
}

#[test]
fn create_basket_escrow_with_all_valid_amounts_succeeds() {
    let mut w = setup();
    let id = create_basket(&mut w, None, vec![TOKEN_A, TOKEN_B, TOKEN_C], vec![1_000, 500, 200]).unwrap();
    let entries = w.esc.get_basket_tokens(id);
    assert_eq!(entries.len(), 3);
    assert_eq!(entries[0].amount, 1_000);
    assert_eq!(entries[1].amount, 500);
    assert_eq!(entries[2].amount, 200);
}

#[test]
fn fund_basket_escrow_rejects_buyer_equal_to_seller() {
    let mut w = setup();
    let id = create_basket(&mut w, None, vec![TOKEN_A], vec![1_000]).unwrap();
    w.mint(TOKEN_A, SELLER, 1_000);
    assert_eq!(fund_basket(&mut w, id, SELLER), Err(ContractError::ConflictingRoles));
    assert_eq!(w.balance(TOKEN_A, SELLER), 1_000);
    assert_eq!(w.balance(TOKEN_A, CONTRACT), 0);
    assert_eq!(w.esc.get_escrow(id).unwrap().state, EscrowState::Pending);
}

#[test]
fn fund_basket_escrow_rejects_buyer_equal_to_resolver() {
    let mut w = setup();
    let id = create_basket(&mut w, None, vec![TOKEN_A], vec![1_000]).unwrap();
    w.mint(TOKEN_A, RESOLVER, 1_000);
    assert_eq!(fund_basket(&mut w, id, RESOLVER), Err(ContractError::ConflictingRoles));
    assert_eq!(w.balance(TOKEN_A, RESOLVER), 1_000);
    assert_eq!(w.balance(TOKEN_A, CONTRACT), 0);
    assert_eq!(w.esc.get_escrow(id).unwrap().state, EscrowState::Pending);
}

#[test]
fn create_basket_escrow_accepts_basket_at_max_size() {
    let mut w = setup();
    let tokens: Vec<Address> = (0..MAX_BASKET_SIZE).map(|k| Address(200 + k)).collect();
    let amounts: Vec<i128> = (0..MAX_BASKET_SIZE).map(|_| 100).collect();
    let id = create_basket(&mut w, None, tokens, amounts).unwrap();
    assert_eq!(w.esc.get_basket_tokens(id).len() as u64, MAX_BASKET_SIZE);
}

#[test]
fn create_basket_escrow_rejects_basket_over_max_size() {
    let mut w = setup();
    let tokens: Vec<Address> = (0..MAX_BASKET_SIZE + 1).map(|k| Address(200 + k)).collect();
    let amounts: Vec<i128> = (0..MAX_BASKET_SIZE + 1).map(|_| 100).collect();
    let result = create_basket(&mut w, None, tokens, amounts);
    assert_eq!(result, Err(ContractError::BasketTokenMismatch));
}

#[test]
fn create_basket_escrow_rejects_duplicate_secondary_token() {
    let mut w = setup();
    let result = create_basket(&mut w, None, vec![TOKEN_A, TOKEN_B, TOKEN_B], vec![1_000, 300, 300]);
    assert_eq!(result, Err(ContractError::BasketTokenMismatch));
}

#[test]
fn create_basket_escrow_rejects_duplicate_primary_token() {
    let mut w = setup();
    let result = create_basket(&mut w, None, vec![TOKEN_A, TOKEN_B, TOKEN_A], vec![1_000, 300, 200]);
    assert_eq!(result, Err(ContractError::BasketTokenMismatch));
}

#[test]
fn fund_basket_escrow_asks_for_every_entry_whatever_its_token() {
    let mut w = setup();
    let id = create_basket(&mut w, None, vec![TOKEN_A, CONTRACT], vec![1_000, 300]).unwrap();
    let now = w.now;
    let ts = w.esc.fund_basket_escrow(id, BUYER, now).unwrap();
    assert_eq!(
        ts,
        vec![
            Transfer { token: TOKEN_A, from: BUYER, to: CONTRACT, amount: 1_000 },
            Transfer { token: CONTRACT, from: BUYER, to: CONTRACT, amount: 300 },
        ]
    );
}
