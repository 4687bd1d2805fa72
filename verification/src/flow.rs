//! Funding, shipping, delivery, release, cancellation and refunds.

use vstd::prelude::*;
use crate::errors::ContractError;
use crate::fees::{calculate_protocol_fee, fee_result};
use crate::payout::{
    basket_deposit_payouts, basket_deposits, basket_payments, basket_payouts, distribute_to_payees,
    distribution, fee_split_payments, pay, payout, share_overflows, transfer_with_protocol_fee,
};
use crate::state::{append_index, has_owner, ids_of, is_payee, payees_contain, Escrow};
use crate::resolvers::set_contains;
use crate::events::{
    emit_auto_released, emit_delivery_recorded, emit_escrow_cancelled, emit_escrow_completed,
    emit_escrow_funded, emit_escrow_shipped, emit_message_posted, emit_refund_approved,
    emit_refund_requested, emit_resolver_rotated, published, AutoReleased, DeliveryRecorded, Event,
    EscrowCancelled, EscrowCompleted, EscrowFunded, EscrowShipped, MessagePosted,
    RefundApprovedEvent, RefundRequestedEvent, ResolverRotated, EVENT_SCHEMA_VERSION,
};
use crate::state::{history_after, EscrowRecord};
use crate::types::{copy_text, Address, ContractStats, EscrowData, EscrowState, Message, ResolverSet, Transfer};
use crate::{
    DELIVERY_RELEASE_WINDOW, DELIVERY_TIMELOCK, DISPUTE_WINDOW, MAX_MESSAGE_LEN,
    MAX_MESSAGES_PER_ESCROW, MAX_TRACKING_ID_LEN, PENDING_EXPIRY_WINDOW,
};

verus! {

impl Escrow {
    /// The event announcing that `buyer` funded escrow `id` at `now`.
    pub open spec fn funded_event(self, id: u64, buyer: Address, now: u64) -> Event {
        Event::EscrowFunded(
            EscrowFunded {
                schema_version: EVENT_SCHEMA_VERSION,
                escrow_id: id,
                buyer,
                amount: self.rec(id).data.amount,
                timestamp: now,
                prev_state: EscrowState::Pending,
                new_state: EscrowState::Funded,
            },
        )
    }

    /// The event announcing that escrow `id` shipped at `now` under
    /// `tracking_id`.
    pub open spec fn shipped_event(self, id: u64, tracking_id: Vec<u8>, now: u64) -> Event {
        Event::EscrowShipped(
            EscrowShipped {
                schema_version: EVENT_SCHEMA_VERSION,
                escrow_id: id,
                seller: self.rec(id).data.payees@[0].address,
                tracking_id,
                timestamp: now,
                prev_state: self.rec(id).data.state,
                new_state: EscrowState::Shipped,
            },
        )
    }

    /// The event announcing that escrow `id` was released to its first
    /// payee at `now`, with fee rate `fee_bps`.
    pub open spec fn completed_event(self, id: u64, fee_bps: u32, now: u64) -> Event {
        Event::EscrowCompleted(
            EscrowCompleted {
                schema_version: EVENT_SCHEMA_VERSION,
                escrow_id: id,
                recipient: self.rec(id).data.payees@[0].address,
                amount: self.rec(id).data.amount,
                fee_bps,
                timestamp: now,
                prev_state: self.rec(id).data.state,
                new_state: EscrowState::Completed,
            },
        )
    }

    /// The event announcing the automatic release of escrow `id` at `now`.
    pub open spec fn auto_released_event(self, id: u64, now: u64) -> Event {
        Event::AutoReleased(
            AutoReleased {
                schema_version: EVENT_SCHEMA_VERSION,
                escrow_id: id,
                seller: self.rec(id).data.payees@[0].address,
                amount: self.rec(id).data.amount,
                fee_bps: self.rec(id).data.fee_bps,
                timestamp: now,
                prev_state: self.rec(id).data.state,
                new_state: EscrowState::Completed,
            },
        )
    }

    /// The event announcing that `by` cancelled escrow `id` at `now`, which
    /// moved into `st`.
    pub open spec fn cancelled_event(self, id: u64, by: Address, st: EscrowState, now: u64) -> Event {
        Event::EscrowCancelled(
            EscrowCancelled {
                schema_version: EVENT_SCHEMA_VERSION,
                escrow_id: id,
                seller: self.rec(id).data.payees@[0].address,
                cancelled_by: by,
                timestamp: now,
                prev_state: self.rec(id).data.state,
                new_state: st,
            },
        )
    }
}

impl Escrow {
    /// The error `fund_escrow` reports, if any.
    pub open spec fn fund_error(self, id: u64, buyer: Address, now: u64) -> Option<ContractError> {
        let d = self.rec(id).data;
        let created = if self.rec(id).history@.len() > 0 { self.rec(id).history@[0].1 } else { 0 };
        if self.paused {
            Some(ContractError::ContractPaused)
        } else if !self.has(id) {
            Some(ContractError::EscrowNotFound)
        } else if d.state != EscrowState::Pending {
            Some(ContractError::InvalidState)
        } else if self.rec(id).expiry matches Some(s) && now >= s.expires_at + s.grace_period {
            Some(ContractError::EscrowExpired)
        } else if created + PENDING_EXPIRY_WINDOW > u64::MAX {
            Some(ContractError::ArithmeticOverflow)
        } else if now > created + PENDING_EXPIRY_WINDOW {
            Some(ContractError::EscrowExpired)
        } else if payees_contain(d.payees@, buyer) || set_contains(d.resolvers, buyer) {
            Some(ContractError::ConflictingRoles)
        } else if d.buyer matches Some(b) && b != buyer {
            Some(ContractError::NotAuthorized)
        } else if now + DISPUTE_WINDOW > u64::MAX {
            Some(ContractError::ArithmeticOverflow)
        } else {
            None
        }
    }

    /// Whether `new` is `self` after `buyer` funded escrow `id` at `now`.
    pub open spec fn funded(self, new: Escrow, id: u64, buyer: Address, now: u64) -> bool {
        &&& *&new == (Escrow { escrows: new.escrows, buyer_index: new.buyer_index, ..self })
        &&& self.others_same(new, id)
        &&& self.moved(new, id, EscrowData {
            buyer: Some(buyer),
            state: EscrowState::Funded,
            funded_at: now,
            dispute_deadline: (now + DISPUTE_WINDOW) as u64,
            ..self.rec(id).data
        }, now)
        &&& forall|o: Address| #[trigger]
            ids_of(new.buyer_index@, o) == (if o == buyer {
                ids_of(self.buyer_index@, o).push(id)
            } else {
                ids_of(self.buyer_index@, o)
            })
        &&& forall|o: Address| #[trigger]
            has_owner(new.buyer_index@, o) == (has_owner(self.buyer_index@, o) || o == buyer)
    }

    /// The buyer funds a pending escrow: pays in the escrowed amount and every
    /// other basket token, and the escrow becomes `Funded` with its dispute
    /// window open for `DISPUTE_WINDOW` seconds.
    pub fn fund_escrow(&mut self, escrow_id: u64, buyer: Address, now: u64) -> (r: Result<
        Vec<Transfer>,
        ContractError,
    >)
        requires
            old(self).wf(),
        ensures
            final(self).wf(),
            match r {
                Err(e) => old(self).fund_error(escrow_id, buyer, now) == Some(e) && *final(self)
                    == *old(self),
                Ok(ts) => published(old(self).events@, final(self).events@, old(self).funded_event(escrow_id, buyer, now)) && old(self).fund_error(escrow_id, buyer, now) is None && old(self).funded(
                    final(self).without_new_events(*old(self)),
                    escrow_id,
                    buyer,
                    now,
                ) && ts@ == seq![
                    Transfer {
                        token: old(self).rec(escrow_id).data.token,
                        from: buyer,
                        to: old(self).contract,
                        amount: old(self).rec(escrow_id).data.amount,
                    },
                ] + basket_payments(
                    buyer,
                    old(self).rec(escrow_id).basket@,
                    old(self).rec(escrow_id).data.token,
                    old(self).contract,
                ),
            },
    {
        self.ensure_not_paused()?;
        let i = self.locate(escrow_id)?;
        if self.escrows[i].data.state != EscrowState::Pending {
            return Err(ContractError::InvalidState);
        }
        if let Some(s) = self.escrows[i].expiry {
            if let Some(closes) = s.expires_at.checked_add(s.grace_period) {
                if now >= closes {
                    return Err(ContractError::EscrowExpired);
                }
            }
        }
        let created_at = self.escrow_created_at(escrow_id);
        let deadline = match created_at.checked_add(PENDING_EXPIRY_WINDOW) {
            Some(d) => d,
            None => return Err(ContractError::ArithmeticOverflow),
        };
        if now > deadline {
            return Err(ContractError::EscrowExpired);
        }
        if is_payee(&self.escrows[i].data.payees, buyer) {
            return Err(ContractError::ConflictingRoles);
        }
        if self.escrows[i].data.resolvers.contains(buyer) {
            return Err(ContractError::ConflictingRoles);
        }
        if let Some(b) = self.escrows[i].data.buyer {
            if b != buyer {
                return Err(ContractError::NotAuthorized);
            }
        }
        let dispute_deadline = match now.checked_add(DISPUTE_WINDOW) {
            Some(d) => d,
            None => return Err(ContractError::ArithmeticOverflow),
        };
        let token = self.escrows[i].data.token;
        let amount = self.escrows[i].data.amount;
        let mut ts: Vec<Transfer> = Vec::new();
        ts.push(Transfer { token, from: buyer, to: self.contract, amount: self.escrows[i].data.amount });
        basket_payouts(&mut ts, buyer, &self.escrows[i].basket, token, self.contract);
        let r = &mut self.escrows[i];
        r.data.buyer = Some(buyer);
        r.data.funded_at = now;
        r.data.dispute_deadline = dispute_deadline;
        self.set_state(escrow_id, EscrowState::Funded, now);
        append_index(&mut self.buyer_index, buyer, escrow_id);
        self.publish(Event::EscrowFunded(emit_escrow_funded(escrow_id, buyer, amount, EscrowState::Pending, EscrowState::Funded, now)));
        Ok(ts)
    }

    /// The error of paying out escrow `id` to its payees, if any.
    pub open spec fn release_error(self, id: u64, rate: u32) -> Option<ContractError> {
        let d = self.rec(id).data;
        match fee_result(d.amount, rate) {
            Err(e) => Some(e),
            Ok(fee) => if share_overflows(d.payees@, d.amount - fee) {
                Some(ContractError::ArithmeticError)
            } else {
                None
            },
        }
    }

    /// The payments releasing escrow `id`: the protocol fee at `rate` to
    /// `fc`, the rest split among the payees, and every other basket token to
    /// the first payee.
    pub open spec fn release_payments(self, id: u64, fc: Address, rate: u32) -> Seq<Transfer> {
        let d = self.rec(id).data;
        match fee_result(d.amount, rate) {
            Ok(fee) => pay(d.token, self.contract, fc, fee as int) + distribution(
                d.token,
                self.contract,
                d.payees@,
                d.amount - fee,
            ) + basket_payments(self.contract, self.rec(id).basket@, d.token, d.payees@[0].address),
            Err(_) => Seq::empty(),
        }
    }

    /// The payments returning escrow `id`'s funds to `to`: the escrowed
    /// amount, then every other basket token.
    pub open spec fn refund_payments(self, id: u64, to: Address) -> Seq<Transfer> {
        let d = self.rec(id).data;
        seq![Transfer { token: d.token, from: self.contract, to, amount: d.amount }]
            + basket_payments(self.contract, self.rec(id).basket@, d.token, to)
    }

    pub(crate) fn release_transfers(&self, id: u64, fc: Address, rate: u32) -> (r: Result<
        Vec<Transfer>,
        ContractError,
    >)
        requires
            self.wf(),
            self.has(id),
        ensures
            match r {
                Err(e) => self.release_error(id, rate) == Some(e),
                Ok(ts) => self.release_error(id, rate) is None && ts@ == self.release_payments(id, fc, rate),
            },
    {
        let i = (id - 1) as usize;
        let _n = self.escrows.len();
        proof {
            assert(crate::state::record_wf(self.escrows@[i as int]));
        }
        let d = &self.escrows[i].data;
        let (fee, net) = calculate_protocol_fee(d.amount, rate)?;
        let mut ts: Vec<Transfer> = Vec::new();
        payout(&mut ts, d.token, self.contract, fc, fee);
        distribute_to_payees(&mut ts, d.token, self.contract, &d.payees, net)?;
        basket_payouts(&mut ts, self.contract, &self.escrows[i].basket, d.token, d.payees[0].address);
        proof {
            assert(ts@ =~= self.release_payments(id, fc, rate));
        }
        Ok(ts)
    }

    pub(crate) fn refund_transfers(&self, id: u64, to: Address) -> (ts: Vec<Transfer>)
        requires
            self.has(id),
        ensures
            ts@ == self.refund_payments(id, to),
    {
        let i = (id - 1) as usize;
        let _n = self.escrows.len();
        let d = &self.escrows[i].data;
        let mut ts: Vec<Transfer> = Vec::new();
        ts.push(Transfer { token: d.token, from: self.contract, to, amount: d.amount });
        basket_payouts(&mut ts, self.contract, &self.escrows[i].basket, d.token, to);
        ts
    }

    /// The error `fund_basket_escrow` reports, if any.
    pub open spec fn fund_basket_error(self, id: u64, buyer: Address, now: u64) -> Option<ContractError> {
        let d = self.rec(id).data;
        if self.paused {
            Some(ContractError::ContractPaused)
        } else if !self.has(id) {
            Some(ContractError::EscrowNotFound)
        } else if d.state != EscrowState::Pending {
            Some(ContractError::InvalidState)
        } else if payees_contain(d.payees@, buyer) || set_contains(d.resolvers, buyer) {
            Some(ContractError::ConflictingRoles)
        } else if d.buyer matches Some(b) && b != buyer {
            Some(ContractError::NotAuthorized)
        } else if self.rec(id).basket@.len() == 0 {
            Some(ContractError::InvalidAmount)
        } else if now + DISPUTE_WINDOW > u64::MAX {
            Some(ContractError::ArithmeticError)
        } else {
            None
        }
    }

    /// The buyer funds a basket escrow with every token of the basket; the
    /// escrow becomes `Funded` as by `fund_escrow`.
    pub fn fund_basket_escrow(&mut self, escrow_id: u64, buyer: Address, now: u64) -> (r: Result<
        Vec<Transfer>,
        ContractError,
    >)
        requires
            old(self).wf(),
        ensures
            final(self).wf(),
            match r {
                Err(e) => old(self).fund_basket_error(escrow_id, buyer, now) == Some(e)
                    && *final(self) == *old(self),
                Ok(ts) => published(old(self).events@, final(self).events@, old(self).funded_event(escrow_id, buyer, now)) && old(self).fund_basket_error(escrow_id, buyer, now) is None && old(
                    self,
                ).funded(final(self).without_new_events(*old(self)), escrow_id, buyer, now) && ts@ == basket_deposits(
                    buyer,
                    old(self).rec(escrow_id).basket@,
                    old(self).contract,
                ),
            },
    {
        self.ensure_not_paused()?;
        let i = self.locate(escrow_id)?;
        if self.escrows[i].data.state != EscrowState::Pending {
            return Err(ContractError::InvalidState);
        }
        if is_payee(&self.escrows[i].data.payees, buyer) || self.escrows[i].data.resolvers.contains(
            buyer,
        ) {
            return Err(ContractError::ConflictingRoles);
        }
        if let Some(b) = self.escrows[i].data.buyer {
            if b != buyer {
                return Err(ContractError::NotAuthorized);
            }
        }
        if self.escrows[i].basket.len() == 0 {
            return Err(ContractError::InvalidAmount);
        }
        let dispute_deadline = match now.checked_add(DISPUTE_WINDOW) {
            Some(d) => d,
            None => return Err(ContractError::ArithmeticError),
        };
        let mut ts: Vec<Transfer> = Vec::new();
        basket_deposit_payouts(&mut ts, buyer, &self.escrows[i].basket, self.contract);
        proof {
            assert(ts@ =~= basket_deposits(buyer, old(self).rec(escrow_id).basket@, old(self).contract));
        }
        let amount = self.escrows[i].data.amount;
        let r = &mut self.escrows[i];
        r.data.buyer = Some(buyer);
        r.data.funded_at = now;
        r.data.dispute_deadline = dispute_deadline;
        self.set_state(escrow_id, EscrowState::Funded, now);
        append_index(&mut self.buyer_index, buyer, escrow_id);
        self.publish(Event::EscrowFunded(emit_escrow_funded(escrow_id, buyer, amount, EscrowState::Pending, EscrowState::Funded, now)));
        Ok(ts)
    }

    /// The error `mark_shipped` reports, if any.
    pub open spec fn ship_error(self, id: u64, caller: Address, tracking_len: nat, now: u64) -> Option<
        ContractError,
    > {
        let d = self.rec(id).data;
        if self.paused {
            Some(ContractError::ContractPaused)
        } else if self.expired_error(id, now) is Some {
            self.expired_error(id, now)
        } else if !payees_contain(d.payees@, caller) {
            Some(ContractError::NotAuthorized)
        } else if d.state != EscrowState::Funded && d.state != EscrowState::RefundRequested {
            Some(ContractError::InvalidState)
        } else if tracking_len == 0 {
            Some(ContractError::InvalidTrackingId)
        } else if tracking_len > MAX_TRACKING_ID_LEN {
            Some(ContractError::InputTooLong)
        } else {
            None
        }
    }

    /// A payee marks a funded escrow (or one with a pending refund request) as
    /// shipped under `tracking_id`.
    pub fn mark_shipped(&mut self, caller: Address, escrow_id: u64, tracking_id: Vec<u8>, now: u64) -> (r:
        Result<(), ContractError>)
        requires
            old(self).wf(),
        ensures
            final(self).wf(),
            match r {
                Err(e) => old(self).ship_error(escrow_id, caller, tracking_id@.len(), now) == Some(e)
                    && *final(self) == *old(self),
                Ok(_) => published(old(self).events@, final(self).events@, old(self).shipped_event(escrow_id, tracking_id, now)) && old(self).ship_error(escrow_id, caller, tracking_id@.len(), now) is None
                    && old(self).only_record_changed(final(self).without_new_events(*old(self)), escrow_id) && old(self).moved(
                    *final(self),
                    escrow_id,
                    EscrowData {
                        state: EscrowState::Shipped,
                        shipped_at: now,
                        tracking_id: Some(tracking_id),
                        ..old(self).rec(escrow_id).data
                    },
                    now,
                ),
            },
    {
        self.ensure_not_paused()?;
        self.ensure_not_expired(escrow_id, now)?;
        let i = self.locate(escrow_id)?;
        if !is_payee(&self.escrows[i].data.payees, caller) {
            return Err(ContractError::NotAuthorized);
        }
        let st = self.escrows[i].data.state;
        if st != EscrowState::Funded && st != EscrowState::RefundRequested {
            return Err(ContractError::InvalidState);
        }
        if tracking_id.len() == 0 {
            return Err(ContractError::InvalidTrackingId);
        }
        if tracking_id.len() as u64 > MAX_TRACKING_ID_LEN {
            return Err(ContractError::InputTooLong);
        }
        let seller = self.escrows[i].data.payees[0].address;
        let prev = self.escrows[i].data.state;
        let tracking = copy_text(&tracking_id);
        let r = &mut self.escrows[i];
        r.data.shipped_at = now;
        r.data.tracking_id = Some(tracking_id);
        self.set_state(escrow_id, EscrowState::Shipped, now);
        self.publish(Event::EscrowShipped(emit_escrow_shipped(escrow_id, seller, tracking, prev, EscrowState::Shipped, now)));
        Ok(())
    }

    /// The error of an administrator-only delivery call by `caller`, if any.
    pub open spec fn admin_caller_error(self, caller: Address) -> Option<ContractError> {
        match self.admin {
            None => Some(ContractError::NotAuthorized),
            Some(a) => if a != caller {
                Some(ContractError::NotAuthorized)
            } else {
                None
            },
        }
    }

    /// The error `propose_record_delivery` reports, if any.
    pub open spec fn propose_error(self, caller: Address, id: u64, now: u64) -> Option<ContractError> {
        if self.admin_caller_error(caller) is Some {
            self.admin_caller_error(caller)
        } else if !self.has(id) {
            Some(ContractError::EscrowNotFound)
        } else if self.rec(id).data.state != EscrowState::Shipped {
            Some(ContractError::InvalidState)
        } else if self.rec(id).data.delivered_at is Some {
            Some(ContractError::DeliveryAlreadyRecorded)
        } else if now + DELIVERY_TIMELOCK > u64::MAX {
            Some(ContractError::ArithmeticOverflow)
        } else {
            None
        }
    }

    /// The administrator proposes recording delivery of a shipped escrow; the
    /// record may be made `DELIVERY_TIMELOCK` seconds later.
    pub fn propose_record_delivery(&mut self, caller: Address, escrow_id: u64, now: u64) -> (r:
        Result<(), ContractError>)
        requires
            old(self).wf(),
        ensures
            final(self).wf(),
            match r {
                Err(e) => old(self).propose_error(caller, escrow_id, now) == Some(e) && *final(self)
                    == *old(self),
                Ok(_) => {
                    &&& old(self).propose_error(caller, escrow_id, now) is None
                    &&& old(self).only_record_changed(*final(self), escrow_id)
                    &&& final(self).rec(escrow_id).same_but_proposal(old(self).rec(escrow_id))
                    &&& final(self).rec(escrow_id).data == old(self).rec(escrow_id).data
                    &&& final(self).rec(escrow_id).delivery_proposal == Some((now + DELIVERY_TIMELOCK) as u64)
                },
            },
    {
        let admin = self.require_admin()?;
        if caller != admin {
            return Err(ContractError::NotAuthorized);
        }
        let i = self.locate(escrow_id)?;
        if self.escrows[i].data.state != EscrowState::Shipped {
            return Err(ContractError::InvalidState);
        }
        if self.escrows[i].data.delivered_at.is_some() {
            return Err(ContractError::DeliveryAlreadyRecorded);
        }
        let unlock_at = match now.checked_add(DELIVERY_TIMELOCK) {
            Some(u) => u,
            None => return Err(ContractError::ArithmeticOverflow),
        };
        self.escrows[i].delivery_proposal = Some(unlock_at);
        proof {
            assert forall|j: int| 0 <= j < self.escrows@.len() implies crate::state::record_wf(
                #[trigger] self.escrows@[j],
            ) by {
                assert(crate::state::record_wf(old(self).escrows@[j]));
            }
        }
        Ok(())
    }

    /// The error `cancel_delivery_proposal` reports, if any.
    pub open spec fn cancel_proposal_error(self, caller: Address, id: u64) -> Option<ContractError> {
        if self.admin_caller_error(caller) is Some {
            self.admin_caller_error(caller)
        } else if !self.has(id) {
            Some(ContractError::EscrowNotFound)
        } else if self.rec(id).delivery_proposal is None {
            Some(ContractError::DeliveryNotProposed)
        } else {
            None
        }
    }

    /// The administrator withdraws a pending delivery proposal.
    pub fn cancel_delivery_proposal(&mut self, caller: Address, escrow_id: u64) -> (r: Result<
        (),
        ContractError,
    >)
        requires
            old(self).wf(),
        ensures
            final(self).wf(),
            match r {
                Err(e) => old(self).cancel_proposal_error(caller, escrow_id) == Some(e) && *final(self)
                    == *old(self),
                Ok(_) => {
                    &&& old(self).cancel_proposal_error(caller, escrow_id) is None
                    &&& old(self).only_record_changed(*final(self), escrow_id)
                    &&& final(self).rec(escrow_id).same_but_proposal(old(self).rec(escrow_id))
                    &&& final(self).rec(escrow_id).data == old(self).rec(escrow_id).data
                    &&& final(self).rec(escrow_id).delivery_proposal is None
                },
            },
    {
        let admin = self.require_admin()?;
        if caller != admin {
            return Err(ContractError::NotAuthorized);
        }
        let i = self.locate(escrow_id)?;
        if self.escrows[i].delivery_proposal.is_none() {
            return Err(ContractError::DeliveryNotProposed);
        }
        self.escrows[i].delivery_proposal = None;
        proof {
            assert forall|j: int| 0 <= j < self.escrows@.len() implies crate::state::record_wf(
                #[trigger] self.escrows@[j],
            ) by {
                assert(crate::state::record_wf(old(self).escrows@[j]));
            }
        }
        Ok(())
    }

    /// The error `record_delivery` reports, if any.
    pub open spec fn record_delivery_error(self, caller: Address, id: u64, now: u64) -> Option<
        ContractError,
    > {
        if self.admin_caller_error(caller) is Some {
            self.admin_caller_error(caller)
        } else if !self.has(id) {
            Some(ContractError::EscrowNotFound)
        } else if self.rec(id).data.state != EscrowState::Shipped {
            Some(ContractError::InvalidState)
        } else if self.rec(id).data.delivered_at is Some {
            Some(ContractError::DeliveryAlreadyRecorded)
        } else if self.rec(id).delivery_proposal is None {
            Some(ContractError::DeliveryNotProposed)
        } else if now < self.rec(id).delivery_proposal->0 {
            Some(ContractError::TimelockNotElapsed)
        } else {
            None
        }
    }

    /// The administrator records delivery once the proposal's timelock has
    /// elapsed, consuming the proposal; the event announces the delivery time.
    pub fn record_delivery(&mut self, caller: Address, escrow_id: u64, now: u64) -> (r: Result<
        DeliveryRecorded,
        ContractError,
    >)
        requires
            old(self).wf(),
        ensures
            final(self).wf(),
            match r {
                Err(e) => old(self).record_delivery_error(caller, escrow_id, now) == Some(e)
                    && *final(self) == *old(self),
                Ok(ev) => {
                    &&& published(old(self).events@, final(self).events@, Event::DeliveryRecorded(ev))
                    &&& ev == (DeliveryRecorded { schema_version: EVENT_SCHEMA_VERSION, escrow_id, delivered_at: now })
                    &&& old(self).record_delivery_error(caller, escrow_id, now) is None
                    &&& old(self).only_record_changed(final(self).without_new_events(*old(self)), escrow_id)
                    &&& final(self).rec(escrow_id).same_but_proposal(old(self).rec(escrow_id))
                    &&& final(self).rec(escrow_id).data == (EscrowData { delivered_at: Some(now), ..old(self).rec(escrow_id).data })
                    &&& final(self).rec(escrow_id).delivery_proposal is None
                },
            },
    {
        let admin = self.require_admin()?;
        if caller != admin {
            return Err(ContractError::NotAuthorized);
        }
        let i = self.locate(escrow_id)?;
        if self.escrows[i].data.state != EscrowState::Shipped {
            return Err(ContractError::InvalidState);
        }
        if self.escrows[i].data.delivered_at.is_some() {
            return Err(ContractError::DeliveryAlreadyRecorded);
        }
        let unlock_at = match self.escrows[i].delivery_proposal {
            Some(u) => u,
            None => return Err(ContractError::DeliveryNotProposed),
        };
        if now < unlock_at {
            return Err(ContractError::TimelockNotElapsed);
        }
        let r = &mut self.escrows[i];
        r.delivery_proposal = None;
        r.data.delivered_at = Some(now);
        proof {
            assert forall|j: int| 0 <= j < self.escrows@.len() implies crate::state::record_wf(
                #[trigger] self.escrows@[j],
            ) by {
                assert(crate::state::record_wf(old(self).escrows@[j]));
            }
        }
        let ev = emit_delivery_recorded(escrow_id, now);
        self.publish(Event::DeliveryRecorded(ev));
        Ok(ev)
    }

    /// The error `confirm_delivery` reports, if any.
    pub open spec fn confirm_error(self, caller: Address, id: u64, now: u64) -> Option<ContractError> {
        let d = self.rec(id).data;
        if self.paused {
            Some(ContractError::ContractPaused)
        } else if self.expired_error(id, now) is Some {
            self.expired_error(id, now)
        } else if d.buyer is None {
            Some(ContractError::EscrowHasNoBuyer)
        } else if d.buyer != Some(caller) {
            Some(ContractError::NotAuthorized)
        } else if d.state != EscrowState::Shipped {
            Some(ContractError::InvalidStateTransition)
        } else if now < d.dispute_deadline {
            Some(ContractError::DisputeWindowStillOpen)
        } else if self.fee_collector is None {
            Some(ContractError::NotInitialized)
        } else if self.release_error(id, d.fee_bps) is Some {
            self.release_error(id, d.fee_bps)
        } else if self.stats.total_completed == u64::MAX {
            Some(ContractError::ArithmeticError)
        } else {
            None
        }
    }

    /// Whether `new` is `self` after escrow `id` moved into `st` at `now`,
    /// with the counters now `stats`.
    pub open spec fn closed(self, new: Escrow, id: u64, st: EscrowState, now: u64) -> bool {
        &&& new == (Escrow { escrows: new.escrows, stats: new.stats, ..self })
        &&& self.others_same(new, id)
        &&& self.moved(new, id, EscrowData { state: st, ..self.rec(id).data }, now)
    }

    /// The buyer confirms delivery of a shipped escrow once its dispute
    /// window has closed; the escrow is released to its payees and completes.
    pub fn confirm_delivery(&mut self, caller: Address, escrow_id: u64, now: u64) -> (r: Result<
        Vec<Transfer>,
        ContractError,
    >)
        requires
            old(self).wf(),
        ensures
            final(self).wf(),
            match r {
                Err(e) => old(self).confirm_error(caller, escrow_id, now) == Some(e) && *final(self)
                    == *old(self),
                Ok(ts) => published(old(self).events@, final(self).events@, old(self).completed_event(escrow_id, old(self).rec(escrow_id).data.fee_bps, now)) && old(self).confirm_error(caller, escrow_id, now) is None && old(self).closed(
                    final(self).without_new_events(*old(self)),
                    escrow_id,
                    EscrowState::Completed,
                    now,
                ) && final(self).stats == (crate::types::ContractStats {
                    total_completed: (old(self).stats.total_completed + 1) as u64,
                    ..old(self).stats
                }) && ts@ == old(self).release_payments(
                    escrow_id,
                    old(self).fee_collector->0,
                    old(self).rec(escrow_id).data.fee_bps,
                ),
            },
    {
        self.ensure_not_paused()?;
        self.ensure_not_expired(escrow_id, now)?;
        let i = self.locate(escrow_id)?;
        let buyer = match self.escrows[i].data.buyer {
            Some(b) => b,
            None => return Err(ContractError::EscrowHasNoBuyer),
        };
        if caller != buyer {
            return Err(ContractError::NotAuthorized);
        }
        if self.escrows[i].data.state != EscrowState::Shipped {
            return Err(ContractError::InvalidStateTransition);
        }
        if now < self.escrows[i].data.dispute_deadline {
            return Err(ContractError::DisputeWindowStillOpen);
        }
        let fc = match self.fee_collector {
            Some(f) => f,
            None => return Err(ContractError::NotInitialized),
        };
        let first = self.escrows[i].data.payees[0].address;
        let amount = self.escrows[i].data.amount;
        let fee_bps = self.escrows[i].data.fee_bps;
        let prev = self.escrows[i].data.state;
        let ts = self.release_transfers(escrow_id, fc, fee_bps)?;
        if self.stats.total_completed == u64::MAX {
            return Err(ContractError::ArithmeticError);
        }
        self.set_state(escrow_id, EscrowState::Completed, now);
        self.stats.total_completed = self.stats.total_completed + 1;
        self.publish(Event::EscrowCompleted(emit_escrow_completed(escrow_id, first, amount, fee_bps, prev, EscrowState::Completed, now)));
        Ok(ts)
    }

    /// The error `co_signed_release` reports, if any.
    pub open spec fn co_signed_error(self, id: u64) -> Option<ContractError> {
        let d = self.rec(id).data;
        if self.paused {
            Some(ContractError::ContractPaused)
        } else if !self.has(id) {
            Some(ContractError::EscrowNotFound)
        } else if d.buyer is None {
            Some(ContractError::EscrowHasNoBuyer)
        } else if d.state != EscrowState::Funded && d.state != EscrowState::Shipped {
            Some(ContractError::InvalidState)
        } else if self.rec(id).dispute is Some {
            Some(ContractError::InvalidState)
        } else if self.fee_collector is None {
            Some(ContractError::NotInitialized)
        } else if fee_result(d.amount, self.fees().protocol_fee_bps) is Err {
            Some(fee_result(d.amount, self.fees().protocol_fee_bps)->Err_0)
        } else if self.stats.total_completed == u64::MAX {
            Some(ContractError::ArithmeticError)
        } else {
            None
        }
    }

    /// Early release agreed by the first payee and the buyer (both authorize
    /// the call): the escrowed amount less the protocol fee at the global rate
    /// goes to the first payee, with every other basket token.
    pub fn co_signed_release(&mut self, caller: Address, escrow_id: u64, now: u64) -> (r: Result<
        Vec<Transfer>,
        ContractError,
    >)
        requires
            old(self).wf(),
        ensures
            final(self).wf(),
            match r {
                Err(e) => old(self).co_signed_error(escrow_id) == Some(e) && *final(self) == *old(
                    self,
                ),
                Ok(ts) => published(old(self).events@, final(self).events@, old(self).completed_event(escrow_id, old(self).fees().protocol_fee_bps, now)) && old(self).co_signed_error(escrow_id) is None && old(self).closed(
                    final(self).without_new_events(*old(self)),
                    escrow_id,
                    EscrowState::Completed,
                    now,
                ) && final(self).stats == (crate::types::ContractStats {
                    total_completed: (old(self).stats.total_completed + 1) as u64,
                    ..old(self).stats
                }) && ts@ == fee_split_payments(
                    old(self).rec(escrow_id).data.token,
                    old(self).contract,
                    old(self).rec(escrow_id).data.payees@[0].address,
                    old(self).fee_collector->0,
                    old(self).rec(escrow_id).data.amount,
                    old(self).fees().protocol_fee_bps,
                ) + basket_payments(
                    old(self).contract,
                    old(self).rec(escrow_id).basket@,
                    old(self).rec(escrow_id).data.token,
                    old(self).rec(escrow_id).data.payees@[0].address,
                ),
            },
    {
        self.ensure_not_paused()?;
        let i = self.locate(escrow_id)?;
        proof {
            assert(crate::state::record_wf(self.escrows@[i as int]));
        }
        if self.escrows[i].data.buyer.is_none() {
            return Err(ContractError::EscrowHasNoBuyer);
        }
        let st = self.escrows[i].data.state;
        if st != EscrowState::Funded && st != EscrowState::Shipped {
            return Err(ContractError::InvalidState);
        }
        if self.escrows[i].dispute.is_some() {
            return Err(ContractError::InvalidState);
        }
        let fc = match self.fee_collector {
            Some(f) => f,
            None => return Err(ContractError::NotInitialized),
        };
        let rate = self.read_fee_config().protocol_fee_bps;
        let d = &self.escrows[i].data;
        let first = d.payees[0].address;
        let mut ts: Vec<Transfer> = Vec::new();
        let amount = d.amount;
        transfer_with_protocol_fee(&mut ts, d.token, self.contract, first, fc, d.amount, rate)?;
        basket_payouts(&mut ts, self.contract, &self.escrows[i].basket, d.token, first);
        if self.stats.total_completed == u64::MAX {
            return Err(ContractError::ArithmeticError);
        }
        proof {
            assert(ts@ =~= fee_split_payments(
                old(self).rec(escrow_id).data.token,
                old(self).contract,
                old(self).rec(escrow_id).data.payees@[0].address,
                old(self).fee_collector->0,
                old(self).rec(escrow_id).data.amount,
                old(self).fees().protocol_fee_bps,
            ) + basket_payments(
                old(self).contract,
                old(self).rec(escrow_id).basket@,
                old(self).rec(escrow_id).data.token,
                old(self).rec(escrow_id).data.payees@[0].address,
            ));
        }
        self.set_state(escrow_id, EscrowState::Completed, now);
        self.stats.total_completed = self.stats.total_completed + 1;
        self.publish(Event::EscrowCompleted(emit_escrow_completed(escrow_id, first, amount, rate, st, EscrowState::Completed, now)));
        Ok(ts)
    }
}

impl Escrow {
    /// The eligibility gate of `auto_release` for escrow `id` at `now`.
    pub open spec fn auto_release_gate(self, id: u64, now: u64) -> Option<ContractError> {
        let d = self.rec(id).data;
        let base = if d.shipped_at > 0 { d.shipped_at } else { d.funded_at };
        if d.state != EscrowState::Funded && d.state != EscrowState::Shipped {
            Some(ContractError::InvalidState)
        } else if self.rec(id).dispute is Some {
            Some(ContractError::InvalidState)
        } else if d.delivered_at is Some {
            let t = d.delivered_at->0;
            if t + DELIVERY_RELEASE_WINDOW > u64::MAX {
                Some(ContractError::ArithmeticOverflow)
            } else if now < t + DELIVERY_RELEASE_WINDOW {
                Some(ContractError::ShippingWindowNotElapsed)
            } else {
                None
            }
        } else if d.state == EscrowState::Shipped {
            Some(ContractError::DeliveryNotRecorded)
        } else if now < d.dispute_deadline {
            Some(ContractError::DeliveryBeforeDisputeWindow)
        } else if base + d.shipping_window > u64::MAX {
            Some(ContractError::ArithmeticError)
        } else if now < base + d.shipping_window {
            Some(ContractError::ShippingWindowNotElapsed)
        } else {
            None
        }
    }

    /// Refuses an automatic release of escrow `id` at `now` unless it is
    /// funded or shipped, undisputed, and its release window has elapsed: two
    /// days after a recorded delivery, or, with no delivery and not shipped,
    /// once the dispute window has closed and the shipping window (from
    /// shipment, else from funding) has passed.
    pub fn ensure_auto_release_eligible(&self, escrow_id: u64, now: u64) -> (r: Result<
        (),
        ContractError,
    >)
        requires
            self.has(escrow_id),
        ensures
            r == (match self.auto_release_gate(escrow_id, now) {
                Some(e) => Err(e),
                None => Ok(()),
            }),
    {
        let _n = self.escrows.len();
        let i = (escrow_id - 1) as usize;
        let d = &self.escrows[i].data;
        if d.state != EscrowState::Funded && d.state != EscrowState::Shipped {
            return Err(ContractError::InvalidState);
        }
        if self.escrows[i].dispute.is_some() {
            return Err(ContractError::InvalidState);
        }
        if let Some(t) = d.delivered_at {
            let eligible_at = match t.checked_add(DELIVERY_RELEASE_WINDOW) {
                Some(x) => x,
                None => return Err(ContractError::ArithmeticOverflow),
            };
            if now < eligible_at {
                return Err(ContractError::ShippingWindowNotElapsed);
            }
        } else if d.state == EscrowState::Shipped {
            return Err(ContractError::DeliveryNotRecorded);
        } else {
            if now < d.dispute_deadline {
                return Err(ContractError::DeliveryBeforeDisputeWindow);
            }
            let base = if d.shipped_at > 0 {
                d.shipped_at
            } else {
                d.funded_at
            };
            let elapsed_at = match base.checked_add(d.shipping_window) {
                Some(x) => x,
                None => return Err(ContractError::ArithmeticError),
            };
            if now < elapsed_at {
                return Err(ContractError::ShippingWindowNotElapsed);
            }
        }
        Ok(())
    }

    /// The error `auto_release` reports, if any.
    pub open spec fn auto_release_error(self, id: u64, now: u64) -> Option<ContractError> {
        if self.paused {
            Some(ContractError::ContractPaused)
        } else if self.expired_error(id, now) is Some {
            self.expired_error(id, now)
        } else if self.auto_release_gate(id, now) is Some {
            self.auto_release_gate(id, now)
        } else if self.fee_collector is None {
            Some(ContractError::NotInitialized)
        } else if self.release_error(id, self.fees().protocol_fee_bps) is Some {
            self.release_error(id, self.fees().protocol_fee_bps)
        } else if self.stats.total_completed == u64::MAX {
            Some(ContractError::ArithmeticError)
        } else {
            None
        }
    }

    /// Anyone releases an undisputed escrow to its payees once its release
    /// window has elapsed; the escrow completes. The protocol fee is taken at
    /// the current global rate, not at the rate stored on the escrow.
    pub fn auto_release(&mut self, escrow_id: u64, now: u64) -> (r: Result<Vec<Transfer>, ContractError>)
        requires
            old(self).wf(),
        ensures
            final(self).wf(),
            match r {
                Err(e) => old(self).auto_release_error(escrow_id, now) == Some(e) && *final(self)
                    == *old(self),
                Ok(ts) => published(old(self).events@, final(self).events@, old(self).auto_released_event(escrow_id, now)) && old(self).auto_release_error(escrow_id, now) is None && old(self).closed(
                    final(self).without_new_events(*old(self)),
                    escrow_id,
                    EscrowState::Completed,
                    now,
                ) && final(self).stats == (ContractStats {
                    total_completed: (old(self).stats.total_completed + 1) as u64,
                    ..old(self).stats
                }) && ts@ == old(self).release_payments(
                    escrow_id,
                    old(self).fee_collector->0,
                    old(self).fees().protocol_fee_bps,
                ),
            },
    {
        self.ensure_not_paused()?;
        self.ensure_not_expired(escrow_id, now)?;
        self.ensure_auto_release_eligible(escrow_id, now)?;
        let fc = match self.fee_collector {
            Some(f) => f,
            None => return Err(ContractError::NotInitialized),
        };
        let i = self.locate(escrow_id)?;
        let first = self.escrows[i].data.payees[0].address;
        let amount = self.escrows[i].data.amount;
        let fee_bps = self.escrows[i].data.fee_bps;
        let prev = self.escrows[i].data.state;
        let rate = self.read_fee_config().protocol_fee_bps;
        let ts = self.release_transfers(escrow_id, fc, rate)?;
        if self.stats.total_completed == u64::MAX {
            return Err(ContractError::ArithmeticError);
        }
        self.set_state(escrow_id, EscrowState::Completed, now);
        self.stats.total_completed = self.stats.total_completed + 1;
        self.publish(Event::AutoReleased(emit_auto_released(escrow_id, first, amount, fee_bps, prev, EscrowState::Completed, now)));
        Ok(ts)
    }

    /// The error `cancel_escrow` reports, if any.
    pub open spec fn cancel_error(self, caller: Address, id: u64, now: u64) -> Option<ContractError> {
        let d = self.rec(id).data;
        if self.paused {
            Some(ContractError::ContractPaused)
        } else if self.expired_error(id, now) is Some {
            self.expired_error(id, now)
        } else if !payees_contain(d.payees@, caller) && d.buyer != Some(caller) {
            Some(ContractError::NotAuthorized)
        } else if d.state == EscrowState::Pending {
            None
        } else if d.state == EscrowState::Funded && d.buyer == Some(caller) {
            if self.stats.total_refunded == u64::MAX {
                Some(ContractError::ArithmeticError)
            } else {
                None
            }
        } else {
            Some(ContractError::InvalidState)
        }
    }

    /// A payee or the buyer cancels an escrow: a pending one is canceled; a
    /// funded one, cancelled by its buyer, is refunded in full.
    pub fn cancel_escrow(&mut self, caller: Address, escrow_id: u64, now: u64) -> (r: Result<
        Vec<Transfer>,
        ContractError,
    >)
        requires
            old(self).wf(),
        ensures
            final(self).wf(),
            match r {
                Err(e) => old(self).cancel_error(caller, escrow_id, now) == Some(e) && *final(self)
                    == *old(self),
                Ok(ts) => published(old(self).events@, final(self).events@, old(self).cancelled_event(escrow_id, caller, final(self).rec(escrow_id).data.state, now)) && old(self).cancel_error(caller, escrow_id, now) is None && if old(self).rec(
                    escrow_id,
                ).data.state == EscrowState::Pending {
                    old(self).closed(final(self).without_new_events(*old(self)), escrow_id, EscrowState::Canceled, now)
                        && final(self).stats == old(self).stats && ts@.len() == 0
                } else {
                    old(self).closed(final(self).without_new_events(*old(self)), escrow_id, EscrowState::Refunded, now)
                        && final(self).stats == (ContractStats {
                        total_refunded: (old(self).stats.total_refunded + 1) as u64,
                        ..old(self).stats
                    }) && ts@ == old(self).refund_payments(escrow_id, caller)
                },
            },
    {
        self.ensure_not_paused()?;
        self.ensure_not_expired(escrow_id, now)?;
        let i = self.locate(escrow_id)?;
        let buyer = self.escrows[i].data.buyer;
        let payee = is_payee(&self.escrows[i].data.payees, caller);
        if !payee && buyer != Some(caller) {
            return Err(ContractError::NotAuthorized);
        }
        let st = self.escrows[i].data.state;
        let seller = self.escrows[i].data.payees[0].address;
        if st == EscrowState::Pending {
            self.set_state(escrow_id, EscrowState::Canceled, now);
            self.publish(Event::EscrowCancelled(emit_escrow_cancelled(escrow_id, seller, caller, st, EscrowState::Canceled, now)));
            return Ok(Vec::new());
        }
        if st == EscrowState::Funded && buyer == Some(caller) {
            if self.stats.total_refunded == u64::MAX {
                return Err(ContractError::ArithmeticError);
            }
            let ts = self.refund_transfers(escrow_id, caller);
            self.set_state(escrow_id, EscrowState::Refunded, now);
            self.stats.total_refunded = self.stats.total_refunded + 1;
            self.publish(Event::EscrowCancelled(emit_escrow_cancelled(escrow_id, seller, caller, st, EscrowState::Refunded, now)));
            return Ok(ts);
        }
        Err(ContractError::InvalidState)
    }

    /// The error `mutual_cancel` reports, if any.
    pub open spec fn mutual_cancel_error(self, id: u64, now: u64) -> Option<ContractError> {
        let d = self.rec(id).data;
        if self.paused {
            Some(ContractError::ContractPaused)
        } else if self.expired_error(id, now) is Some {
            self.expired_error(id, now)
        } else if d.buyer is None {
            Some(ContractError::EscrowHasNoBuyer)
        } else if d.state != EscrowState::Funded {
            Some(ContractError::InvalidState)
        } else {
            None
        }
    }

    /// The first payee and the buyer (both authorizing) cancel a funded
    /// escrow; the buyer is refunded in full and the escrow is canceled.
    pub fn mutual_cancel(&mut self, escrow_id: u64, now: u64) -> (r: Result<Vec<Transfer>, ContractError>)
        requires
            old(self).wf(),
        ensures
            final(self).wf(),
            match r {
                Err(e) => old(self).mutual_cancel_error(escrow_id, now) == Some(e) && *final(self)
                    == *old(self),
                Ok(ts) => published(old(self).events@, final(self).events@, old(self).cancelled_event(escrow_id, old(self).rec(escrow_id).data.buyer->0, EscrowState::Canceled, now)) && old(self).mutual_cancel_error(escrow_id, now) is None && old(self).closed(
                    final(self).without_new_events(*old(self)),
                    escrow_id,
                    EscrowState::Canceled,
                    now,
                ) && final(self).stats == old(self).stats && ts@ == old(self).refund_payments(
                    escrow_id,
                    old(self).rec(escrow_id).data.buyer->0,
                ),
            },
    {
        self.ensure_not_paused()?;
        self.ensure_not_expired(escrow_id, now)?;
        let i = self.locate(escrow_id)?;
        let buyer = match self.escrows[i].data.buyer {
            Some(b) => b,
            None => return Err(ContractError::EscrowHasNoBuyer),
        };
        if self.escrows[i].data.state != EscrowState::Funded {
            return Err(ContractError::InvalidState);
        }
        let seller = self.escrows[i].data.payees[0].address;
        let prev = self.escrows[i].data.state;
        let ts = self.refund_transfers(escrow_id, buyer);
        self.set_state(escrow_id, EscrowState::Canceled, now);
        self.publish(Event::EscrowCancelled(emit_escrow_cancelled(escrow_id, seller, buyer, prev, EscrowState::Canceled, now)));
        Ok(ts)
    }

    /// The error `request_refund` reports, if any.
    pub open spec fn request_refund_error(self, caller: Address, id: u64, now: u64) -> Option<
        ContractError,
    > {
        let d = self.rec(id).data;
        if self.paused {
            Some(ContractError::ContractPaused)
        } else if self.expired_error(id, now) is Some {
            self.expired_error(id, now)
        } else if d.buyer is None {
            Some(ContractError::EscrowHasNoBuyer)
        } else if d.buyer != Some(caller) {
            Some(ContractError::NotAuthorized)
        } else if d.state != EscrowState::Funded {
            Some(ContractError::InvalidStateTransition)
        } else {
            None
        }
    }

    /// The buyer asks for a refund of a funded escrow, pending the payees'
    /// approval.
    pub fn request_refund(&mut self, caller: Address, escrow_id: u64, now: u64) -> (r: Result<
        (),
        ContractError,
    >)
        requires
            old(self).wf(),
        ensures
            final(self).wf(),
            match r {
                Err(e) => old(self).request_refund_error(caller, escrow_id, now) == Some(e)
                    && *final(self) == *old(self),
                Ok(_) => published(old(self).events@, final(self).events@, Event::RefundRequested(
                    RefundRequestedEvent {
                        schema_version: EVENT_SCHEMA_VERSION,
                        escrow_id,
                        buyer: caller,
                        timestamp: now,
                        prev_state: old(self).rec(escrow_id).data.state,
                        new_state: EscrowState::RefundRequested,
                    },
                )) && old(self).request_refund_error(caller, escrow_id, now) is None
                    && old(self).closed(final(self).without_new_events(*old(self)), escrow_id, EscrowState::RefundRequested, now)
                    && final(self).stats == old(self).stats,
            },
    {
        self.ensure_not_paused()?;
        self.ensure_not_expired(escrow_id, now)?;
        let i = self.locate(escrow_id)?;
        let buyer = match self.escrows[i].data.buyer {
            Some(b) => b,
            None => return Err(ContractError::EscrowHasNoBuyer),
        };
        if caller != buyer {
            return Err(ContractError::NotAuthorized);
        }
        if self.escrows[i].data.state != EscrowState::Funded {
            return Err(ContractError::InvalidStateTransition);
        }
        self.set_state(escrow_id, EscrowState::RefundRequested, now);
        self.publish(Event::RefundRequested(emit_refund_requested(escrow_id, caller, EscrowState::Funded, EscrowState::RefundRequested, now)));
        Ok(())
    }

    /// The error `approve_refund` reports, if any.
    pub open spec fn approve_refund_error(self, caller: Address, id: u64, now: u64) -> Option<
        ContractError,
    > {
        let d = self.rec(id).data;
        if self.paused {
            Some(ContractError::ContractPaused)
        } else if self.expired_error(id, now) is Some {
            self.expired_error(id, now)
        } else if !payees_contain(d.payees@, caller) {
            Some(ContractError::NotAuthorized)
        } else if d.state != EscrowState::RefundRequested {
            Some(ContractError::InvalidStateTransition)
        } else if d.buyer is None {
            Some(ContractError::EscrowHasNoBuyer)
        } else if self.stats.total_refunded == u64::MAX {
            Some(ContractError::ArithmeticError)
        } else {
            None
        }
    }

    /// A payee approves the buyer's refund request: the buyer is refunded in
    /// full and the escrow is refunded.
    pub fn approve_refund(&mut self, caller: Address, escrow_id: u64, now: u64) -> (r: Result<
        Vec<Transfer>,
        ContractError,
    >)
        requires
            old(self).wf(),
        ensures
            final(self).wf(),
            match r {
                Err(e) => old(self).approve_refund_error(caller, escrow_id, now) == Some(e)
                    && *final(self) == *old(self),
                Ok(ts) => published(old(self).events@, final(self).events@, Event::RefundApproved(
                    RefundApprovedEvent {
                        schema_version: EVENT_SCHEMA_VERSION,
                        escrow_id,
                        seller: caller,
                        timestamp: now,
                        prev_state: old(self).rec(escrow_id).data.state,
                        new_state: EscrowState::Refunded,
                    },
                )) && old(self).approve_refund_error(caller, escrow_id, now) is None
                    && old(self).closed(final(self).without_new_events(*old(self)), escrow_id, EscrowState::Refunded, now)
                    && final(self).stats == (ContractStats {
                    total_refunded: (old(self).stats.total_refunded + 1) as u64,
                    ..old(self).stats
                }) && ts@ == old(self).refund_payments(
                    escrow_id,
                    old(self).rec(escrow_id).data.buyer->0,
                ),
            },
    {
        self.ensure_not_paused()?;
        self.ensure_not_expired(escrow_id, now)?;
        let i = self.locate(escrow_id)?;
        if !is_payee(&self.escrows[i].data.payees, caller) {
            return Err(ContractError::NotAuthorized);
        }
        if self.escrows[i].data.state != EscrowState::RefundRequested {
            return Err(ContractError::InvalidStateTransition);
        }
        let buyer = match self.escrows[i].data.buyer {
            Some(b) => b,
            None => return Err(ContractError::EscrowHasNoBuyer),
        };
        if self.stats.total_refunded == u64::MAX {
            return Err(ContractError::ArithmeticError);
        }
        let ts = self.refund_transfers(escrow_id, buyer);
        self.set_state(escrow_id, EscrowState::Refunded, now);
        self.stats.total_refunded = self.stats.total_refunded + 1;
        self.publish(Event::RefundApproved(emit_refund_approved(escrow_id, caller, EscrowState::RefundRequested, EscrowState::Refunded, now)));
        Ok(ts)
    }

    /// The error `reclaim_expired` reports, if any.
    pub open spec fn reclaim_error(self, id: u64, now: u64) -> Option<ContractError> {
        let d = self.rec(id).data;
        let s = self.rec(id).expiry->0;
        if self.paused {
            Some(ContractError::ContractPaused)
        } else if !self.has(id) {
            Some(ContractError::EscrowNotFound)
        } else if d.state != EscrowState::Funded && d.state != EscrowState::Shipped {
            Some(ContractError::InvalidState)
        } else if self.rec(id).expiry is None {
            Some(ContractError::InvalidState)
        } else if now < s.expires_at {
            Some(ContractError::InvalidState)
        } else if s.expires_at + s.grace_period > u64::MAX {
            Some(ContractError::ArithmeticOverflow)
        } else if now < s.expires_at + s.grace_period {
            Some(ContractError::GracePeriodNotElapsed)
        } else if d.buyer is None {
            Some(ContractError::EscrowHasNoBuyer)
        } else {
            None
        }
    }

    /// The buyer reclaims a funded or shipped escrow once its expiry and
    /// grace period have passed: refunded in full, the escrow expires and its
    /// expiry schedule is dropped.
    pub fn reclaim_expired(&mut self, escrow_id: u64, now: u64) -> (r: Result<Vec<Transfer>, ContractError>)
        requires
            old(self).wf(),
        ensures
            final(self).wf(),
            match r {
                Err(e) => old(self).reclaim_error(escrow_id, now) == Some(e) && *final(self) == *old(
                    self,
                ),
                Ok(ts) => {
                    let old_r = old(self).rec(escrow_id);
                    let new_r = final(self).rec(escrow_id);
                    &&& old(self).reclaim_error(escrow_id, now) is None
                    &&& old(self).only_record_changed(*final(self), escrow_id)
                    &&& new_r.data == (EscrowData { state: EscrowState::Expired, ..old_r.data })
                    &&& new_r.history@ == history_after(
                        old_r.history@,
                        old_r.data.state,
                        EscrowState::Expired,
                        now,
                    )
                    &&& new_r.expiry is None
                    &&& new_r.dispute == old_r.dispute
                    &&& new_r.votes == old_r.votes
                    &&& new_r.basket == old_r.basket
                    &&& new_r.messages == old_r.messages
                    &&& new_r.delivery_proposal == old_r.delivery_proposal
                    &&& ts@ == old(self).refund_payments(escrow_id, old_r.data.buyer->0)
                },
            },
    {
        self.ensure_not_paused()?;
        let i = self.locate(escrow_id)?;
        let st = self.escrows[i].data.state;
        if st != EscrowState::Funded && st != EscrowState::Shipped {
            return Err(ContractError::InvalidState);
        }
        let s = match self.escrows[i].expiry {
            Some(s) => s,
            None => return Err(ContractError::InvalidState),
        };
        if now < s.expires_at {
            return Err(ContractError::InvalidState);
        }
        let reclaimable_at = match s.expires_at.checked_add(s.grace_period) {
            Some(t) => t,
            None => return Err(ContractError::ArithmeticOverflow),
        };
        if now < reclaimable_at {
            return Err(ContractError::GracePeriodNotElapsed);
        }
        let buyer = match self.escrows[i].data.buyer {
            Some(b) => b,
            None => return Err(ContractError::EscrowHasNoBuyer),
        };
        let ts = self.refund_transfers(escrow_id, buyer);
        self.set_state(escrow_id, EscrowState::Expired, now);
        self.escrows[i].expiry = None;
        proof {
            assert forall|j: int| 0 <= j < self.escrows@.len() implies crate::state::record_wf(
                #[trigger] self.escrows@[j],
            ) by {
                assert(crate::state::record_wf(old(self).escrows@[j]));
            }
        }
        Ok(ts)
    }

    /// The error `auto_cancel_pending` reports, if any.
    pub open spec fn auto_cancel_error(self, id: u64, now: u64) -> Option<ContractError> {
        let created = if self.rec(id).history@.len() > 0 { self.rec(id).history@[0].1 } else { 0 };
        if self.paused {
            Some(ContractError::ContractPaused)
        } else if self.expired_error(id, now) is Some {
            self.expired_error(id, now)
        } else if self.rec(id).data.state != EscrowState::Pending {
            Some(ContractError::InvalidState)
        } else if created + PENDING_EXPIRY_WINDOW > u64::MAX {
            Some(ContractError::ArithmeticOverflow)
        } else if now <= created + PENDING_EXPIRY_WINDOW {
            Some(ContractError::ShippingWindowNotElapsed)
        } else {
            None
        }
    }

    /// Anyone cancels a pending escrow left unfunded for longer than
    /// `PENDING_EXPIRY_WINDOW` after its creation.
    pub fn auto_cancel_pending(&mut self, escrow_id: u64, now: u64) -> (r: Result<(), ContractError>)
        requires
            old(self).wf(),
        ensures
            final(self).wf(),
            match r {
                Err(e) => old(self).auto_cancel_error(escrow_id, now) == Some(e) && *final(self)
                    == *old(self),
                Ok(_) => old(self).auto_cancel_error(escrow_id, now) is None && old(self).closed(
                    *final(self),
                    escrow_id,
                    EscrowState::Canceled,
                    now,
                ) && final(self).stats == old(self).stats,
            },
    {
        self.ensure_not_paused()?;
        self.ensure_not_expired(escrow_id, now)?;
        let i = self.locate(escrow_id)?;
        if self.escrows[i].data.state != EscrowState::Pending {
            return Err(ContractError::InvalidState);
        }
        let created_at = self.escrow_created_at(escrow_id);
        let deadline = match created_at.checked_add(PENDING_EXPIRY_WINDOW) {
            Some(d) => d,
            None => return Err(ContractError::ArithmeticOverflow),
        };
        if now <= deadline {
            return Err(ContractError::ShippingWindowNotElapsed);
        }
        self.set_state(escrow_id, EscrowState::Canceled, now);
        Ok(())
    }

    /// The error `rotate_resolver` reports, if any.
    pub open spec fn rotate_error(self, caller: Address, id: u64, new_resolver: Address) -> Option<
        ContractError,
    > {
        let d = self.rec(id).data;
        if self.paused {
            Some(ContractError::ContractPaused)
        } else if !self.has(id) {
            Some(ContractError::EscrowNotFound)
        } else if self.admin is None {
            Some(ContractError::NotAuthorized)
        } else if !payees_contain(d.payees@, caller) && Some(caller) != self.admin {
            Some(ContractError::NotAuthorized)
        } else if d.state == EscrowState::Completed || d.state == EscrowState::Refunded || d.state
            == EscrowState::Canceled || d.state == EscrowState::Expired {
            Some(ContractError::InvalidState)
        } else {
            match d.resolvers {
                ResolverSet::Single(cur) => if new_resolver == cur {
                    Some(ContractError::SameAddress)
                } else if payees_contain(d.payees@, new_resolver) || d.buyer == Some(new_resolver) {
                    Some(ContractError::InvalidAddress)
                } else {
                    None
                },
                _ => Some(ContractError::InvalidState),
            }
        }
    }

    /// A payee or the administrator replaces the resolver of a live
    /// single-resolver escrow.
    pub fn rotate_resolver(&mut self, caller: Address, escrow_id: u64, new_resolver: Address, now: u64) -> (r:
        Result<(), ContractError>)
        requires
            old(self).wf(),
        ensures
            final(self).wf(),
            match r {
                Err(e) => old(self).rotate_error(caller, escrow_id, new_resolver) == Some(e)
                    && *final(self) == *old(self),
                Ok(_) => published(old(self).events@, final(self).events@, Event::ResolverRotated(
                    ResolverRotated {
                        schema_version: EVENT_SCHEMA_VERSION,
                        escrow_id,
                        old_resolver: old(self).rec(escrow_id).data.resolvers->Single_0,
                        new_resolver,
                        rotated_at: now,
                    },
                )) && old(self).rotate_error(caller, escrow_id, new_resolver) is None
                    && old(self).only_record_changed(final(self).without_new_events(*old(self)), escrow_id) && final(self).rec(
                    escrow_id,
                ) == (EscrowRecord {
                    data: EscrowData {
                        resolvers: ResolverSet::Single(new_resolver),
                        ..old(self).rec(escrow_id).data
                    },
                    ..old(self).rec(escrow_id)
                }),
            },
    {
        self.ensure_not_paused()?;
        let i = self.locate(escrow_id)?;
        let admin = self.require_admin()?;
        if !is_payee(&self.escrows[i].data.payees, caller) && caller != admin {
            return Err(ContractError::NotAuthorized);
        }
        let st = self.escrows[i].data.state;
        if st == EscrowState::Completed || st == EscrowState::Refunded || st == EscrowState::Canceled
            || st == EscrowState::Expired {
            return Err(ContractError::InvalidState);
        }
        let old_resolver = match self.escrows[i].data.resolvers {
            ResolverSet::Single(cur) => {
                if new_resolver == cur {
                    return Err(ContractError::SameAddress);
                }
                cur
            },
            _ => return Err(ContractError::InvalidState),
        };
        if is_payee(&self.escrows[i].data.payees, new_resolver) {
            return Err(ContractError::InvalidAddress);
        }
        if self.escrows[i].data.buyer == Some(new_resolver) {
            return Err(ContractError::InvalidAddress);
        }
        self.escrows[i].data.resolvers = ResolverSet::Single(new_resolver);
        proof {
            assert forall|j: int| 0 <= j < self.escrows@.len() implies crate::state::record_wf(
                #[trigger] self.escrows@[j],
            ) by {
                assert(crate::state::record_wf(old(self).escrows@[j]));
            }
        }
        self.publish(Event::ResolverRotated(emit_resolver_rotated(escrow_id, old_resolver, new_resolver, now)));
        Ok(())
    }

    /// The error `post_message` reports, if any.
    pub open spec fn post_message_error(self, id: u64, sender: Address, content_len: nat) -> Option<
        ContractError,
    > {
        let d = self.rec(id).data;
        if self.paused {
            Some(ContractError::ContractPaused)
        } else if !self.has(id) {
            Some(ContractError::EscrowNotFound)
        } else if d.buyer != Some(sender) && !payees_contain(d.payees@, sender) {
            Some(ContractError::NotAuthorized)
        } else if content_len == 0 {
            Some(ContractError::InvalidAmount)
        } else if content_len > MAX_MESSAGE_LEN {
            Some(ContractError::InputTooLong)
        } else if self.rec(id).messages@.len() >= MAX_MESSAGES_PER_ESCROW {
            Some(ContractError::TooManyMessages)
        } else {
            None
        }
    }

    /// The buyer or a payee appends a message to the escrow's thread.
    pub fn post_message(&mut self, escrow_id: u64, sender: Address, content: Vec<u8>, now: u64) -> (r:
        Result<(), ContractError>)
        requires
            old(self).wf(),
        ensures
            final(self).wf(),
            match r {
                Err(e) => old(self).post_message_error(escrow_id, sender, content@.len()) == Some(e)
                    && *final(self) == *old(self),
                Ok(_) => published(old(self).events@, final(self).events@, Event::MessagePosted(
                    MessagePosted { schema_version: EVENT_SCHEMA_VERSION, escrow_id, sender, timestamp: now },
                )) && old(self).post_message_error(escrow_id, sender, content@.len()) is None
                    && old(self).only_record_changed(final(self).without_new_events(*old(self)), escrow_id) && final(self).rec(
                    escrow_id,
                ) == (EscrowRecord {
                    messages: final(self).rec(escrow_id).messages,
                    ..old(self).rec(escrow_id)
                }) && final(self).rec(escrow_id).messages@ == old(self).rec(
                    escrow_id,
                ).messages@.push(Message { sender, timestamp: now, content }),
            },
    {
        self.ensure_not_paused()?;
        let i = self.locate(escrow_id)?;
        if self.escrows[i].data.buyer != Some(sender) && !is_payee(
            &self.escrows[i].data.payees,
            sender,
        ) {
            return Err(ContractError::NotAuthorized);
        }
        if content.len() == 0 {
            return Err(ContractError::InvalidAmount);
        }
        if content.len() as u64 > MAX_MESSAGE_LEN {
            return Err(ContractError::InputTooLong);
        }
        if self.escrows[i].messages.len() as u64 >= MAX_MESSAGES_PER_ESCROW {
            return Err(ContractError::TooManyMessages);
        }
        self.escrows[i].messages.push(Message { sender, timestamp: now, content });
        proof {
            assert forall|j: int| 0 <= j < self.escrows@.len() implies crate::state::record_wf(
                #[trigger] self.escrows@[j],
            ) by {
                assert(crate::state::record_wf(old(self).escrows@[j]));
            }
        }
        self.publish(Event::MessagePosted(emit_message_posted(escrow_id, sender, now)));
        Ok(())
    }
}

} // verus!
