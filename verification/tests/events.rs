//! The event log: what each operation announces, in order, and that a
//! refused operation announces nothing.

use std::collections::HashMap;

use escrow::types::{Address, Transfer};
use escrow::Escrow;

const CONTRACT: Address = Address(1);
const ADMIN: Address = Address(2);
const FEE_COLLECTOR: Address = Address(3);
const SELLER: Address = Address(10);
const BUYER: Address = Address(11);
const RESOLVER: Address = Address(12);
const TOKEN: Address = Address(100);

/// The contract state, the token balances, and the ledger clock. Every
/// operation runs against a snapshot: when the token movements it asks for
/// cannot all be made, the whole operation is undone.
struct World {
    esc: Escrow,
    balances: HashMap<(Address, Address), i128>,
    now: u64,
}

#[allow(dead_code)]
impl World {
    fn new(arbitration_fee_bps: u32) -> World {
        let mut esc = Escrow::new(CONTRACT);
        esc.initialize(ADMIN, FEE_COLLECTOR, arbitration_fee_bps, 0).unwrap();
        World { esc, balances: HashMap::new(), now: 0 }
    }

    fn mint(&mut self, token: Address, to: Address, amount: i128) {
        *self.balances.entry((token, to)).or_insert(0) += amount;
    }

    fn balance(&self, token: Address, who: Address) -> i128 {
        *self.balances.get(&(token, who)).unwrap_or(&0)
    }

    /// Makes every movement or none: `false` when some sender lacks funds.
    fn settle(&mut self, ts: &[Transfer]) -> bool {
        let mut next = self.balances.clone();
        for t in ts {
            let from = next.entry((t.token, t.from)).or_insert(0);
            if *from < t.amount {
                return false;
            }
            *from -= t.amount;
            *next.entry((t.token, t.to)).or_insert(0) += t.amount;
        }
        self.balances = next;
        true
    }

    /// Runs an operation that moves tokens; a refused operation or one whose
    /// movements cannot be made leaves everything as it was.
    fn pay<F>(&mut self, op: F) -> Result<(), escrow::ContractError>
    where
        F: FnOnce(&mut Escrow, u64) -> Result<Vec<Transfer>, escrow::ContractError>,
    {
        let snapshot = self.esc.clone();
        let now = self.now;
        let ts = op(&mut self.esc, now)?;
        if !self.settle(&ts) {
            self.esc = snapshot;
            return Err(escrow::ContractError::InsufficientBalance);
        }
        Ok(())
    }
}

use escrow::events::{Event, EVENT_SCHEMA_VERSION};
use escrow::lifecycle::SellerOrPayees;
use escrow::types::{EscrowState, Payee, ResolutionType};
use escrow::{ContractError, ADMIN_TIMELOCK_DELAY_SECONDS, APPEAL_WINDOW, DISPUTE_WINDOW};

fn payees() -> SellerOrPayees {
    SellerOrPayees::Payees(vec![Payee { address: SELLER, bps: 10_000 }])
}

/// The administrator queues a change at 0 and it becomes executable after
/// the delay; returns that moment.
fn after_delay() -> u64 {
    ADMIN_TIMELOCK_DELAY_SECONDS
}

#[test]
fn set_ttl_extension_emits_event_with_caller_and_new_value() {
    let mut w = World::new(0);
    w.esc.queue_set_ttl_extension(ADMIN, 500, 0).unwrap();
    w.esc.execute_set_ttl_extension(ADMIN, after_delay()).unwrap();
    match w.esc.events.last() {
        Some(Event::TtlExtensionUpdated(ev)) => {
            assert_eq!(ev.new_ledgers, 500);
            assert_eq!(ev.caller, ADMIN);
            assert_eq!(ev.timestamp, after_delay());
        },
        other => panic!("unexpected event {:?}", other),
    }
}

#[test]
fn set_amount_limits_emits_event_with_caller_and_new_values() {
    let mut w = World::new(0);
    w.esc.queue_set_amount_limits(ADMIN, 100, 1_000_000, 0).unwrap();
    w.esc.execute_set_amount_limits(ADMIN, after_delay()).unwrap();
    match w.esc.events.last() {
        Some(Event::AmountLimitsUpdated(ev)) => {
            assert_eq!(ev.new_min_amount, 100);
            assert_eq!(ev.new_max_amount, 1_000_000);
            assert_eq!(ev.caller, ADMIN);
        },
        other => panic!("unexpected event {:?}", other),
    }
}

#[test]
fn add_approved_resolver_emits_event_with_caller_and_resolver() {
    let mut w = World::new(0);
    let resolver = Address(40);
    w.esc.queue_add_approved_resolver(ADMIN, resolver, 0).unwrap();
    w.esc.execute_add_approved_resolver(ADMIN, after_delay()).unwrap();
    match w.esc.events.last() {
        Some(Event::ResolverApproved(ev)) => {
            assert_eq!(ev.resolver, resolver);
            assert_eq!(ev.caller, ADMIN);
        },
        other => panic!("unexpected event {:?}", other),
    }
}

#[test]
fn re_adding_an_already_approved_resolver_does_not_emit_a_second_event() {
    let mut w = World::new(0);
    let resolver = Address(40);
    w.esc.queue_add_approved_resolver(ADMIN, resolver, 0).unwrap();
    w.esc.execute_add_approved_resolver(ADMIN, after_delay()).unwrap();
    let before = w.esc.events.len();

    w.esc.queue_add_approved_resolver(ADMIN, resolver, after_delay()).unwrap();
    w.esc.execute_add_approved_resolver(ADMIN, 2 * after_delay()).unwrap();
    let events_from_noop_call = w.esc.events.len() - before;

    assert_eq!(events_from_noop_call, 0);
}

#[test]
fn remove_approved_resolver_emits_event_with_caller_and_resolver() {
    let mut w = World::new(0);
    let resolver = Address(40);
    w.esc.queue_add_approved_resolver(ADMIN, resolver, 0).unwrap();
    w.esc.execute_add_approved_resolver(ADMIN, after_delay()).unwrap();
    w.esc.queue_remove_approved_resolver(ADMIN, resolver, after_delay()).unwrap();
    w.esc.execute_remove_approved_resolver(ADMIN, 2 * after_delay()).unwrap();
    match w.esc.events.last() {
        Some(Event::ResolverRemoved(ev)) => {
            assert_eq!(ev.resolver, resolver);
            assert_eq!(ev.caller, ADMIN);
        },
        other => panic!("unexpected event {:?}", other),
    }
}

#[test]
fn set_resolver_strict_emits_event_with_caller_and_new_value() {
    let mut w = World::new(0);
    w.esc.queue_set_resolver_strict(ADMIN, true, 0).unwrap();
    w.esc.execute_set_resolver_strict(ADMIN, after_delay()).unwrap();
    match w.esc.events.last() {
        Some(Event::ResolverStrictUpdated(ev)) => {
            assert!(ev.new_strict);
            assert!(!ev.old_strict);
            assert_eq!(ev.caller, ADMIN);
        },
        other => panic!("unexpected event {:?}", other),
    }
}

#[test]
fn initialization_is_announced() {
    let w = World::new(40);
    assert_eq!(w.esc.events.len(), 1);
    match &w.esc.events[0] {
        Event::ContractInitialized(ev) => {
            assert_eq!(ev.schema_version, EVENT_SCHEMA_VERSION);
            assert_eq!(ev.admin, ADMIN);
            assert_eq!(ev.fee_collector, FEE_COLLECTOR);
            assert_eq!(ev.arbitration_fee_bps, 40);
        },
        other => panic!("unexpected event {:?}", other),
    }
}

#[test]
fn a_refused_call_announces_nothing() {
    let mut w = World::new(0);
    let before = w.esc.events.clone();
    assert_eq!(w.esc.fund_escrow(77, BUYER, 0), Err(ContractError::EscrowNotFound));
    assert_eq!(w.esc.pause_contract(Address(66), 0), Err(ContractError::NotAuthorized));
    assert_eq!(w.esc.events, before);
}

#[test]
fn each_step_of_a_sale_is_announced_in_order() {
    let mut w = World::new(0);
    w.mint(TOKEN, BUYER, 1_000);
    let id = w.esc.create_escrow_8(payees(), Some(BUYER), RESOLVER, TOKEN, 1_000, 0, 3_600, 5).unwrap();
    w.now = 6;
    w.pay(|e, now| e.fund_escrow(id, BUYER, now)).unwrap();
    w.now = 7;
    w.esc.mark_shipped(SELLER, id, b"TRACK-1".to_vec(), 7).unwrap();
    w.now = 6 + DISPUTE_WINDOW;
    w.pay(|e, now| e.confirm_delivery(BUYER, id, now)).unwrap();

    let evs = &w.esc.events;
    assert_eq!(evs.len(), 5);
    match &evs[1] {
        Event::EscrowCreated(ev) => {
            assert_eq!((ev.escrow_id, ev.seller, ev.resolver, ev.token), (id, SELLER, RESOLVER, TOKEN));
            assert_eq!((ev.amount, ev.timestamp, ev.new_state), (1_000, 5, EscrowState::Pending));
        },
        other => panic!("unexpected event {:?}", other),
    }
    match &evs[2] {
        Event::EscrowFunded(ev) => {
            assert_eq!((ev.escrow_id, ev.buyer, ev.amount, ev.timestamp), (id, BUYER, 1_000, 6));
            assert_eq!((ev.prev_state, ev.new_state), (EscrowState::Pending, EscrowState::Funded));
        },
        other => panic!("unexpected event {:?}", other),
    }
    match &evs[3] {
        Event::EscrowShipped(ev) => {
            assert_eq!(ev.tracking_id, b"TRACK-1".to_vec());
            assert_eq!((ev.seller, ev.timestamp, ev.new_state), (SELLER, 7, EscrowState::Shipped));
        },
        other => panic!("unexpected event {:?}", other),
    }
    match &evs[4] {
        Event::EscrowCompleted(ev) => {
            assert_eq!((ev.escrow_id, ev.recipient, ev.amount), (id, SELLER, 1_000));
            assert_eq!((ev.prev_state, ev.new_state), (EscrowState::Shipped, EscrowState::Completed));
        },
        other => panic!("unexpected event {:?}", other),
    }
}

#[test]
fn a_dispute_is_announced_from_raising_to_finalization() {
    let mut w = World::new(100);
    w.mint(TOKEN, BUYER, 10_000);
    let id = w.esc.create_escrow_8(payees(), Some(BUYER), RESOLVER, TOKEN, 10_000, 0, 3_600, 0).unwrap();
    w.pay(|e, now| e.fund_escrow(id, BUYER, now)).unwrap();
    w.now = 10;
    w.esc.raise_dispute(BUYER, id, b"late".to_vec(), b"never came".to_vec(), [7u8; 32], 10).unwrap();
    match w.esc.events.last() {
        Some(Event::DisputeRaised(ev)) => {
            assert_eq!((ev.escrow_id, ev.buyer), (id, BUYER));
            assert_eq!(ev.reason, b"late".to_vec());
            assert_eq!(ev.description, b"never came".to_vec());
            assert_eq!(ev.evidence_hash, [7u8; 32]);
            assert_eq!((ev.prev_state, ev.new_state), (EscrowState::Funded, EscrowState::Disputed));
        },
        other => panic!("unexpected event {:?}", other),
    }

    w.now = 20;
    w.pay(|e, now| e.resolve_dispute(RESOLVER, id, ResolutionType::Refund, now)).unwrap();
    match w.esc.events.last() {
        Some(Event::DisputePendingFinalization(ev)) => {
            assert_eq!((ev.escrow_id, ev.resolver, ev.resolution), (id, RESOLVER, ResolutionType::Refund));
            assert_eq!(ev.amount, 9_900);
            assert_eq!((ev.appeal_deadline, ev.pending_at), (20 + APPEAL_WINDOW, 20));
        },
        other => panic!("unexpected event {:?}", other),
    }

    w.esc.appeal_dispute(SELLER, id, 30).unwrap();
    match w.esc.events.last() {
        Some(Event::DisputeAppealed(ev)) => assert_eq!((ev.escrow_id, ev.appellant, ev.timestamp), (id, SELLER, 30)),
        other => panic!("unexpected event {:?}", other),
    }

    w.now = 40;
    w.pay(|e, now| e.resolve_dispute(RESOLVER, id, ResolutionType::Refund, now)).unwrap();
    w.now = 40 + APPEAL_WINDOW;
    w.pay(|e, now| e.finalize_dispute(Address(77), id, now)).unwrap();
    match w.esc.events.last() {
        Some(Event::DisputeResolved(ev)) => {
            assert_eq!((ev.escrow_id, ev.resolver, ev.recipient), (id, RESOLVER, BUYER));
            assert_eq!((ev.resolution, ev.amount), (ResolutionType::Refund, 9_900));
            assert_eq!((ev.prev_state, ev.new_state), (EscrowState::PendingFinalization, EscrowState::Refunded));
        },
        other => panic!("unexpected event {:?}", other),
    }
}

#[test]
fn an_emergency_drain_is_announced_with_both_parties() {
    let mut w = World::new(0);
    w.mint(TOKEN, BUYER, 300);
    let id = w.esc.create_escrow_8(payees(), Some(BUYER), RESOLVER, TOKEN, 300, 0, 3_600, 0).unwrap();
    w.pay(|e, now| e.fund_escrow(id, BUYER, now)).unwrap();
    w.esc.pause_contract(ADMIN, 0).unwrap();
    w.now = 9;
    w.pay(|e, now| e.emergency_drain(id, now)).unwrap();
    match w.esc.events.last() {
        Some(Event::EmergencyDrain(ev)) => {
            assert_eq!((ev.escrow_id, ev.buyer, ev.seller, ev.timestamp), (id, BUYER, SELLER, 9));
        },
        other => panic!("unexpected event {:?}", other),
    }
}

#[test]
fn a_direct_fee_collector_change_names_both_collectors() {
    let mut w = World::new(0);
    w.esc.set_fee_collector(Address(71)).unwrap();
    assert_eq!(w.esc.events.last(), Some(&Event::FeeCollectorReplaced(FEE_COLLECTOR, Address(71))));
    let before = w.esc.events.len();
    assert_eq!(w.esc.set_fee_collector(Address(71)), Err(ContractError::SameAddress));
    assert_eq!(w.esc.events.len(), before);
}

#[test]
fn each_vote_is_announced_before_the_decision_it_completes() {
    let mut w = World::new(0);
    let (r1, r2, r3) = (Address(41), Address(42), Address(43));
    w.mint(TOKEN, BUYER, 2_000);
    let id = w
        .esc
        .create_escrow_multi(SELLER, Some(BUYER), vec![r1, r2, r3], 2, TOKEN, 2_000, 0, 3_600, 0)
        .unwrap();
    w.pay(|e, now| e.fund_escrow(id, BUYER, now)).unwrap();
    w.esc.raise_dispute(BUYER, id, b"late".to_vec(), b"".to_vec(), [0u8; 32], 1).unwrap();

    let before = w.esc.events.len();
    w.now = 2;
    w.pay(|e, now| e.vote(r1, id, ResolutionType::Refund, now)).unwrap();
    assert_eq!(w.esc.events.len(), before + 1);
    match w.esc.events.last() {
        Some(Event::ResolverVoteRecorded(ev)) => {
            assert_eq!((ev.escrow_id, ev.resolver, ev.resolution), (id, r1, ResolutionType::Refund));
            assert_eq!((ev.vote_count, ev.threshold, ev.voted_at), (1, 2, 2));
        },
        other => panic!("unexpected event {:?}", other),
    }

    w.now = 3;
    w.pay(|e, now| e.vote(r2, id, ResolutionType::Refund, now)).unwrap();
    assert_eq!(w.esc.events.len(), before + 3);
    match &w.esc.events[before + 1] {
        Event::ResolverVoteRecorded(ev) => assert_eq!((ev.resolver, ev.vote_count), (r2, 2)),
        other => panic!("unexpected event {:?}", other),
    }
    match &w.esc.events[before + 2] {
        Event::DisputePendingFinalization(ev) => {
            assert_eq!((ev.resolver, ev.resolution, ev.amount), (r2, ResolutionType::Refund, 2_000));
        },
        other => panic!("unexpected event {:?}", other),
    }
}
