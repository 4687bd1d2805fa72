//! Disputes: raising one, resolver voting, the appeal window and
//! finalization.

use vstd::prelude::*;
use crate::errors::ContractError;
use crate::fees::{calculate_fee, fee_result};
use crate::payout::{basket_payments, basket_payouts, fee_split_payments, pay, payout,
    transfer_with_protocol_fee};
use crate::resolvers::{
    add_or_update_vote, set_can_resolve, set_threshold, tally_result, tally_votes, votes_after,
    votes_unique,
};
use crate::state::{amount_at, history_after, push_history, read_amount, record_wf, write_amount,
    Escrow, EscrowRecord};
use crate::types::{
    resolution_code, resolution_of_code, Address, ContractStats, DisputeData, DisputeStatus,
    EscrowData, EscrowState, ResolutionType, ResolverSet, ResolverVote, Transfer,
};
use crate::events::{
    emit_resolver_vote_recorded, ResolverVoteRecorded, emit_dispute_appealed, emit_dispute_pending_finalization, emit_dispute_raised,
    emit_dispute_resolved, published, DisputeAppealed, DisputePendingFinalization, DisputeRaised,
    DisputeResolved, Event, EVENT_SCHEMA_VERSION,
};
use crate::types::{copy_text, copy_values};
use crate::{APPEAL_WINDOW, MAX_APPEALS, MAX_DESCRIPTION_LEN};

verus! {

/// The bytes of an optional text field.
pub open spec fn opt_bytes(o: Option<Vec<u8>>) -> Option<Seq<u8>> {
    match o {
        Some(v) => Some(v@),
        None => None,
    }
}

pub(crate) fn copy_bytes(o: &Option<Vec<u8>>) -> (r: Option<Vec<u8>>)
    ensures
        opt_bytes(r) == opt_bytes(*o),
{
    match o {
        Some(v) => {
            let mut out: Vec<u8> = Vec::new();
            let mut i: usize = 0;
            while i < v.len()
                invariant
                    0 <= i <= v.len(),
                    out@ == v@.subrange(0, i as int),
                decreases v.len() - i,
            {
                out.push(v[i]);
                i = i + 1;
            }
            Some(out)
        },
        None => None,
    }
}

impl Escrow {
    /// The error `raise_dispute` reports, if any.
    pub open spec fn raise_error(self, caller: Address, id: u64, description_len: nat, now: u64) -> Option<
        ContractError,
    > {
        let d = self.rec(id).data;
        if self.paused {
            Some(ContractError::ContractPaused)
        } else if !self.has(id) {
            Some(ContractError::EscrowNotFound)
        } else if d.buyer is None {
            Some(ContractError::EscrowHasNoBuyer)
        } else if d.buyer != Some(caller) {
            Some(ContractError::NotAuthorized)
        } else if d.state != EscrowState::Funded && d.state != EscrowState::Shipped {
            Some(ContractError::InvalidState)
        } else if now >= d.dispute_deadline {
            Some(ContractError::DisputeWindowStillOpen)
        } else if description_len > MAX_DESCRIPTION_LEN {
            Some(ContractError::InputTooLong)
        } else if self.stats.total_disputed == u64::MAX {
            Some(ContractError::ArithmeticError)
        } else {
            None
        }
    }

    /// The buyer raises a dispute on a funded or shipped escrow while its
    /// dispute window is open; the escrow becomes `Disputed` and an active
    /// dispute record is stored.
    pub fn raise_dispute(
        &mut self,
        caller: Address,
        escrow_id: u64,
        reason: Vec<u8>,
        description: Vec<u8>,
        evidence_hash: [u8; 32],
        now: u64,
    ) -> (r: Result<(), ContractError>)
        requires
            old(self).wf(),
        ensures
            final(self).wf(),
            match r {
                Err(e) => old(self).raise_error(caller, escrow_id, description@.len(), now) == Some(e)
                    && *final(self) == *old(self),
                Ok(_) => {
                    let old_r = old(self).rec(escrow_id);
                    let new_r = final(self).rec(escrow_id);
                    &&& old(self).raise_error(caller, escrow_id, description@.len(), now) is None
                    &&& final(self).events@.len() == old(self).events@.len() + 1
                    &&& final(self).events@.drop_last() == old(self).events@
                    &&& final(self).events@.last() matches Event::DisputeRaised(ev) && {
                        &&& ev.schema_version == EVENT_SCHEMA_VERSION
                        &&& ev.escrow_id == escrow_id
                        &&& ev.buyer == caller
                        &&& ev.reason@ == reason@
                        &&& ev.description@ == description@
                        &&& ev.evidence_hash == evidence_hash
                        &&& ev.timestamp == now
                        &&& ev.prev_state == old_r.data.state
                        &&& ev.new_state == EscrowState::Disputed
                    }
                    &&& *final(self) == (Escrow {
                        escrows: final(self).escrows,
                        events: final(self).events,
                        stats: ContractStats {
                            total_disputed: (old(self).stats.total_disputed + 1) as u64,
                            ..old(self).stats
                        },
                        ..*old(self)
                    })
                    &&& old(self).others_same(*final(self), escrow_id)
                    &&& new_r.data == (EscrowData { state: EscrowState::Disputed, ..old_r.data })
                    &&& new_r.history@ == history_after(
                        old_r.history@,
                        old_r.data.state,
                        EscrowState::Disputed,
                        now,
                    )
                    &&& new_r.votes == old_r.votes
                    &&& new_r.basket == old_r.basket
                    &&& new_r.messages == old_r.messages
                    &&& new_r.expiry == old_r.expiry
                    &&& new_r.delivery_proposal == old_r.delivery_proposal
                    &&& new_r.dispute matches Some(dd) && {
                        &&& dd.escrow_id == escrow_id
                        &&& dd.reason == reason
                        &&& dd.description == description
                        &&& dd.evidence_hash == evidence_hash
                        &&& dd.status == DisputeStatus::Active
                        &&& dd.disputed_at == now
                        &&& opt_bytes(dd.tracking_id) == opt_bytes(old_r.data.tracking_id)
                        &&& dd.resolution == 0
                        &&& dd.resolved_by is None
                        &&& dd.appeal_count == 0
                        &&& dd.resolved_at == 0
                        &&& dd.arbitration_fee == 0
                        &&& dd.resolver_fee == 0
                        &&& !dd.fees_charged
                    }
                },
            },
    {
        self.ensure_not_paused()?;
        let i = self.locate(escrow_id)?;
        let buyer = match self.escrows[i].data.buyer {
            Some(b) => b,
            None => return Err(ContractError::EscrowHasNoBuyer),
        };
        if caller != buyer {
            return Err(ContractError::NotAuthorized);
        }
        let st = self.escrows[i].data.state;
        if st != EscrowState::Funded && st != EscrowState::Shipped {
            return Err(ContractError::InvalidState);
        }
        if now >= self.escrows[i].data.dispute_deadline {
            return Err(ContractError::DisputeWindowStillOpen);
        }
        if description.len() as u64 > MAX_DESCRIPTION_LEN {
            return Err(ContractError::InputTooLong);
        }
        if self.stats.total_disputed == u64::MAX {
            return Err(ContractError::ArithmeticError);
        }
        let tracking_id = copy_bytes(&self.escrows[i].data.tracking_id);
        let ev = emit_dispute_raised(
            escrow_id,
            caller,
            copy_text(&reason),
            copy_text(&description),
            evidence_hash,
            st,
            EscrowState::Disputed,
            now,
        );
        let dd = DisputeData {
            escrow_id,
            reason,
            description,
            evidence_hash,
            status: DisputeStatus::Active,
            disputed_at: now,
            tracking_id,
            resolution: 0,
            resolved_by: None,
            appeal_count: 0,
            resolved_at: 0,
            arbitration_fee: 0,
            resolver_fee: 0,
            fees_charged: false,
        };
        let r = &mut self.escrows[i];
        r.dispute = Some(dd);
        r.data.state = EscrowState::Disputed;
        push_history(&mut r.history, st, EscrowState::Disputed, now);
        self.stats.total_disputed = self.stats.total_disputed + 1;
        proof {
            assert forall|j: int| 0 <= j < self.escrows@.len() implies record_wf(
                #[trigger] self.escrows@[j],
            ) by {
                assert(record_wf(old(self).escrows@[j]));
            }
        }
        self.publish(Event::DisputeRaised(ev));
        Ok(())
    }

    /// The dispute record of escrow `escrow_id`, if one was raised.
    pub fn get_dispute(&self, escrow_id: u64) -> (r: Option<&DisputeData>)
        ensures
            r == (if self.has(escrow_id) {
                match self.rec(escrow_id).dispute {
                    Some(d) => Some(&d),
                    None => None,
                }
            } else {
                None
            }),
    {
        if escrow_id == 0 || escrow_id > self.escrows.len() as u64 {
            return None;
        }
        match &self.escrows[(escrow_id - 1) as usize].dispute {
            Some(d) => Some(d),
            None => None,
        }
    }

    /// The resolver votes recorded on escrow `escrow_id`; empty for an
    /// unknown escrow.
    pub fn get_resolver_votes(&self, escrow_id: u64) -> (r: Vec<ResolverVote>)
        ensures
            r@ == (if self.has(escrow_id) {
                self.rec(escrow_id).votes@
            } else {
                Seq::empty()
            }),
    {
        if escrow_id == 0 || escrow_id > self.escrows.len() as u64 {
            return Vec::new();
        }
        copy_values(&self.escrows[(escrow_id - 1) as usize].votes)
    }
}

impl Escrow {
    /// The arbitration and resolver fees a first decision on escrow `id`
    /// charges: the arbitration fee at the global rate and the resolver fee at
    /// the escrow's rate, refused when together they exceed the amount.
    pub open spec fn first_decision_fees(self, id: u64) -> Result<(i128, i128), ContractError> {
        let d = self.rec(id).data;
        match fee_result(d.amount, self.fees().arbitration_fee_bps) {
            Err(e) => Err(e),
            Ok(arb) => match fee_result(d.amount, d.resolver_fee_bps) {
                Err(e) => Err(e),
                Ok(rf) => if arb + rf > i128::MAX {
                    Err(ContractError::ArithmeticError)
                } else if arb + rf > d.amount {
                    Err(ContractError::FeeExceedsMax)
                } else {
                    Ok((arb, rf))
                },
            },
        }
    }

    /// The fees recorded by a decision on escrow `id`: those a previous round
    /// already charged, else those of a first decision.
    pub open spec fn decision_fees(self, id: u64) -> (i128, i128) {
        let dd = self.rec(id).dispute->0;
        if dd.fees_charged {
            (dd.arbitration_fee, dd.resolver_fee)
        } else {
            match self.first_decision_fees(id) {
                Ok(p) => p,
                Err(_) => (0, 0),
            }
        }
    }

    /// The error of moving escrow `id`'s decided dispute into the appeal
    /// window at `now`, if any.
    pub open spec fn decision_error(self, id: u64, now: u64) -> Option<ContractError> {
        match self.rec(id).dispute {
            None => Some(ContractError::DisputeNotFound),
            Some(dd) => if dd.fees_charged {
                if now + APPEAL_WINDOW > u64::MAX {
                    Some(ContractError::ArithmeticError)
                } else {
                    None
                }
            } else {
                match self.first_decision_fees(id) {
                    Err(e) => Some(e),
                    Ok((arb, _)) => if self.fee_collector is None {
                        Some(ContractError::NotInitialized)
                    } else if amount_at(self.arbitration_totals@, self.rec(id).data.token) + arb
                        > i128::MAX || amount_at(self.arbitration_totals@, self.rec(id).data.token)
                        + arb < i128::MIN {
                        Some(ContractError::ArithmeticError)
                    } else if now + APPEAL_WINDOW > u64::MAX {
                        Some(ContractError::ArithmeticError)
                    } else {
                        None
                    },
                }
            },
        }
    }

    /// The decision `caller`'s vote `res` at `now` brings about on escrow
    /// `id`, if it reaches the threshold.
    pub open spec fn vote_outcome(self, caller: Address, id: u64, res: ResolutionType, now: u64) -> Result<
        Option<ResolutionType>,
        ContractError,
    > {
        tally_result(
            votes_after(self.rec(id).votes@, caller, res, now),
            set_threshold(self.rec(id).data.resolvers),
        )
    }

    /// The error `resolve_dispute` and `vote` report, if any.
    pub open spec fn resolve_error(self, caller: Address, id: u64, res: ResolutionType, now: u64) -> Option<
        ContractError,
    > {
        let d = self.rec(id).data;
        if self.paused {
            Some(ContractError::ContractPaused)
        } else if !self.has(id) {
            Some(ContractError::EscrowNotFound)
        } else if d.state != EscrowState::Disputed {
            Some(ContractError::InvalidState)
        } else if !set_can_resolve(d.resolvers, caller, now) {
            Some(ContractError::NotAuthorized)
        } else {
            match self.vote_outcome(caller, id, res, now) {
                Err(e) => Some(e),
                Ok(None) => None,
                Ok(Some(_)) => self.decision_error(id, now),
            }
        }
    }

    /// Whether `new` is `self` after `caller` decided escrow `id`'s dispute as
    /// `fin` at `now` with the votes `votes`: the first decision deducts the
    /// arbitration and resolver fees from the escrowed amount and adds the
    /// arbitration fee to the token's total; the dispute records the decision
    /// and the escrow awaits finalization.
    pub open spec fn decided(
        self,
        new: Escrow,
        caller: Address,
        id: u64,
        fin: ResolutionType,
        votes: Seq<ResolverVote>,
        now: u64,
    ) -> bool {
        let old_r = self.rec(id);
        let new_r = new.rec(id);
        let dd = old_r.dispute->0;
        let (arb, rf) = self.decision_fees(id);
        let token = old_r.data.token;
        &&& new == (Escrow {
            escrows: new.escrows,
            arbitration_totals: new.arbitration_totals,
            ..self
        })
        &&& self.others_same(new, id)
        &&& new_r.data == (EscrowData {
            amount: if dd.fees_charged {
                old_r.data.amount
            } else {
                (old_r.data.amount - arb - rf) as i128
            },
            state: EscrowState::PendingFinalization,
            ..old_r.data
        })
        &&& new_r.history@ == history_after(
            old_r.history@,
            old_r.data.state,
            EscrowState::PendingFinalization,
            now,
        )
        &&& new_r.dispute == Some(
            DisputeData {
                resolution: resolution_code(fin),
                resolved_by: Some(caller),
                resolved_at: now,
                arbitration_fee: arb,
                resolver_fee: rf,
                fees_charged: true,
                ..dd
            },
        )
        &&& new_r.votes@ == votes
        &&& new_r.basket == old_r.basket
        &&& new_r.messages == old_r.messages
        &&& new_r.expiry == old_r.expiry
        &&& new_r.delivery_proposal == old_r.delivery_proposal
        &&& if dd.fees_charged {
            new.arbitration_totals == self.arbitration_totals
        } else {
            forall|t: Address| #[trigger]
                amount_at(new.arbitration_totals@, t) == (if t == token {
                    amount_at(self.arbitration_totals@, t) + arb
                } else {
                    amount_at(self.arbitration_totals@, t) as int
                })
        }
    }

    /// The event announcing `caller`'s vote `res` on escrow `id` at `now`,
    /// with the number of votes cast and the resolver set's threshold.
    pub open spec fn vote_event(self, caller: Address, id: u64, res: ResolutionType, now: u64) -> Event {
        Event::ResolverVoteRecorded(
            ResolverVoteRecorded {
                schema_version: EVENT_SCHEMA_VERSION,
                escrow_id: id,
                resolver: caller,
                resolution: res,
                vote_count: votes_after(self.rec(id).votes@, caller, res, now).len() as u32,
                threshold: set_threshold(self.rec(id).data.resolvers),
                voted_at: now,
            },
        )
    }

    /// Whether `new` and the transfers `ts` are the outcome of `caller`'s
    /// accepted vote `res` on escrow `id` at `now`: the vote is recorded and
    /// announced, and when it completes a decision the dispute is decided,
    /// announced, and the decision's fees are paid.
    pub open spec fn vote_done(
        self,
        new: Escrow,
        ts: Seq<Transfer>,
        caller: Address,
        id: u64,
        res: ResolutionType,
        now: u64,
    ) -> bool {
        let votes = votes_after(self.rec(id).votes@, caller, res, now);
        let cast = self.vote_event(caller, id, res, now);
        match self.vote_outcome(caller, id, res, now) {
            Ok(Some(fin)) => {
                &&& new.events@ == self.events@.push(cast).push(self.decision_event(caller, id, fin, now))
                &&& self.decided(new.without_new_events(self), caller, id, fin, votes, now)
                &&& ts == self.decision_payments(caller, id)
            },
            _ => {
                &&& new.events@ == self.events@.push(cast)
                &&& new.without_new_events(self) == (Escrow { escrows: new.escrows, ..self })
                &&& self.others_same(new, id)
                &&& new.rec(id) == (EscrowRecord { votes: new.rec(id).votes, ..self.rec(id) })
                &&& new.rec(id).votes@ == votes
                &&& ts.len() == 0
            },
        }
    }

    /// The event announcing that `caller` decided escrow `id`'s dispute as
    /// `fin` at `now`, with the amount left in escrow and the end of the
    /// appeal window.
    pub open spec fn decision_event(self, caller: Address, id: u64, fin: ResolutionType, now: u64) -> Event {
        let (arb, rf) = self.decision_fees(id);
        let amount = self.rec(id).data.amount;
        Event::DisputePendingFinalization(
            DisputePendingFinalization {
                schema_version: EVENT_SCHEMA_VERSION,
                escrow_id: id,
                resolver: caller,
                resolution: fin,
                amount: if self.rec(id).dispute->0.fees_charged {
                    amount
                } else {
                    (amount - arb - rf) as i128
                },
                appeal_deadline: (now + APPEAL_WINDOW) as u64,
                pending_at: now,
            },
        )
    }

    /// The payments of a decision on escrow `id` by `caller`: on the first
    /// decision the arbitration fee to the fee collector and the resolver fee
    /// to `caller`, each when positive; nothing on later rounds.
    pub open spec fn decision_payments(self, caller: Address, id: u64) -> Seq<Transfer> {
        let (arb, rf) = self.decision_fees(id);
        let token = self.rec(id).data.token;
        if self.rec(id).dispute->0.fees_charged {
            Seq::empty()
        } else {
            pay(token, self.contract, self.fee_collector->0, arb as int) + pay(
                token,
                self.contract,
                caller,
                rf as int,
            )
        }
    }

    /// A resolver's vote on a disputed escrow: records the vote, and once a
    /// resolution reaches the resolver set's threshold, decides the dispute
    /// and opens the appeal window.
    #[verifier::rlimit(40)]
    fn resolve_or_vote(&mut self, caller: Address, escrow_id: u64, resolution: ResolutionType, now: u64) -> (r:
        Result<Vec<Transfer>, ContractError>)
        requires
            old(self).wf(),
        ensures
            final(self).wf(),
            match r {
                Err(e) => old(self).resolve_error(caller, escrow_id, resolution, now) == Some(e)
                    && *final(self) == *old(self),
                Ok(ts) => old(self).resolve_error(caller, escrow_id, resolution, now) is None && old(
                    self,
                ).vote_done(*final(self), ts@, caller, escrow_id, resolution, now),
            },
    {
        self.ensure_not_paused()?;
        let i = self.locate(escrow_id)?;
        proof {
            assert(record_wf(self.escrows@[i as int]));
        }
        if self.escrows[i].data.state != EscrowState::Disputed {
            return Err(ContractError::InvalidState);
        }
        if !self.escrows[i].data.resolvers.can_resolve_now(caller, now) {
            return Err(ContractError::NotAuthorized);
        }
        let mut votes = copy_values(&self.escrows[i].votes);
        add_or_update_vote(&mut votes, caller, resolution, now);
        let threshold = self.escrows[i].data.resolvers.threshold();
        let decision = tally_votes(&votes, threshold)?;
        let cast = emit_resolver_vote_recorded(escrow_id, caller, resolution, votes.len() as u32, threshold, now);
        let fin = match decision {
            None => {
                self.escrows[i].votes = votes;
                proof {
                    assert forall|j: int| 0 <= j < self.escrows@.len() implies record_wf(
                        #[trigger] self.escrows@[j],
                    ) by {
                        assert(record_wf(old(self).escrows@[j]));
                    }
                }
                self.publish(Event::ResolverVoteRecorded(cast));
                return Ok(Vec::new());
            },
            Some(f) => f,
        };
        let ts = self.execute_resolution_transition(caller, escrow_id, fin, votes, now)?;
        let amount = self.escrows[i].data.amount;
        self.publish(Event::ResolverVoteRecorded(cast));
        self.publish(
            Event::DisputePendingFinalization(
                emit_dispute_pending_finalization(escrow_id, caller, fin, amount, now + APPEAL_WINDOW, now),
            ),
        );
        Ok(ts)
    }

    /// Moves escrow `escrow_id`'s dispute, decided by `caller` as `fin` with
    /// the votes `votes`, into its appeal window: on the first decision the
    /// arbitration fee (global rate) and the resolver fee (escrow rate) are
    /// deducted from the escrowed amount and paid out.
    #[verifier::rlimit(40)]
    fn execute_resolution_transition(
        &mut self,
        caller: Address,
        escrow_id: u64,
        fin: ResolutionType,
        votes: Vec<ResolverVote>,
        now: u64,
    ) -> (r: Result<Vec<Transfer>, ContractError>)
        requires
            old(self).wf(),
            old(self).has(escrow_id),
            votes_unique(votes@),
        ensures
            final(self).wf(),
            match r {
                Err(e) => old(self).decision_error(escrow_id, now) == Some(e) && *final(self) == *old(self),
                Ok(ts) => {
                    &&& old(self).decision_error(escrow_id, now) is None
                    &&& old(self).decided(*final(self), caller, escrow_id, fin, votes@, now)
                    &&& ts@ == old(self).decision_payments(caller, escrow_id)
                },
            },
    {
        let i = self.locate(escrow_id)?;
        proof {
            assert(record_wf(self.escrows@[i as int]));
        }
        let (charged, prior_arb, prior_rf) = match &self.escrows[i].dispute {
            Some(dd) => (dd.fees_charged, dd.arbitration_fee, dd.resolver_fee),
            None => return Err(ContractError::DisputeNotFound),
        };
        let token = self.escrows[i].data.token;
        let amount = self.escrows[i].data.amount;
        let mut ts: Vec<Transfer> = Vec::new();
        let mut new_amount = amount;
        let mut arb = prior_arb;
        let mut rf = prior_rf;
        let mut new_total: i128 = 0;
        if !charged {
            let arb_bps = self.read_fee_config().arbitration_fee_bps;
            arb = calculate_fee(amount, arb_bps)?;
            rf = calculate_fee(amount, self.escrows[i].data.resolver_fee_bps)?;
            let combined = match arb.checked_add(rf) {
                Some(c) => c,
                None => return Err(ContractError::ArithmeticError),
            };
            if combined > amount {
                return Err(ContractError::FeeExceedsMax);
            }
            let fc = match self.fee_collector {
                Some(f) => f,
                None => return Err(ContractError::NotInitialized),
            };
            let current = read_amount(&self.arbitration_totals, token);
            new_total = match current.checked_add(arb) {
                Some(t) => t,
                None => return Err(ContractError::ArithmeticError),
            };
            new_amount = amount - arb - rf;
            payout(&mut ts, token, self.contract, fc, arb);
            payout(&mut ts, token, self.contract, caller, rf);
        }
        if now.checked_add(APPEAL_WINDOW).is_none() {
            return Err(ContractError::ArithmeticError);
        }
        proof {
            assert(ts@ =~= old(self).decision_payments(caller, escrow_id));
        }
        if !charged {
            write_amount(&mut self.arbitration_totals, token, new_total);
        }
        let r = &mut self.escrows[i];
        let prev = r.data.state;
        r.data.amount = new_amount;
        r.data.state = EscrowState::PendingFinalization;
        push_history(&mut r.history, prev, EscrowState::PendingFinalization, now);
        r.votes = votes;
        let mut dd = match r.dispute.take() {
            Some(d) => d,
            None => return Err(ContractError::DisputeNotFound),
        };
        dd.resolution = match fin {
            ResolutionType::Release => 1,
            ResolutionType::Refund => 2,
        };
        dd.resolved_by = Some(caller);
        dd.resolved_at = now;
        dd.arbitration_fee = arb;
        dd.resolver_fee = rf;
        dd.fees_charged = true;
        r.dispute = Some(dd);
        proof {
            assert forall|j: int| 0 <= j < self.escrows@.len() implies record_wf(
                #[trigger] self.escrows@[j],
            ) by {
                assert(record_wf(old(self).escrows@[j]));
            }
        }
        Ok(ts)
    }

    /// A resolver (or, for a fallback set, the backup once its deadline has
    /// passed) settles or votes on a disputed escrow; see `vote`.
    pub fn resolve_dispute(&mut self, caller: Address, escrow_id: u64, resolution: ResolutionType, now: u64) -> (r:
        Result<Vec<Transfer>, ContractError>)
        requires
            old(self).wf(),
        ensures
            final(self).wf(),
            match r {
                Err(e) => old(self).resolve_error(caller, escrow_id, resolution, now) == Some(e)
                    && *final(self) == *old(self),
                Ok(ts) => old(self).resolve_error(caller, escrow_id, resolution, now) is None && old(
                    self,
                ).vote_done(*final(self), ts@, caller, escrow_id, resolution, now),
            },
    {
        self.resolve_or_vote(caller, escrow_id, resolution, now)
    }

    /// Casts or changes `caller`'s vote on a disputed escrow. Once one
    /// resolution has as many votes as the resolver set's threshold, the
    /// dispute is decided: on its first decision the arbitration fee (global
    /// rate) and the resolver fee (escrow rate) are deducted from the escrowed
    /// amount and paid out, and the escrow enters `PendingFinalization`.
    pub fn vote(&mut self, caller: Address, escrow_id: u64, resolution: ResolutionType, now: u64) -> (r:
        Result<Vec<Transfer>, ContractError>)
        requires
            old(self).wf(),
        ensures
            final(self).wf(),
            match r {
                Err(e) => old(self).resolve_error(caller, escrow_id, resolution, now) == Some(e)
                    && *final(self) == *old(self),
                Ok(ts) => old(self).resolve_error(caller, escrow_id, resolution, now) is None && old(
                    self,
                ).vote_done(*final(self), ts@, caller, escrow_id, resolution, now),
            },
    {
        self.resolve_or_vote(caller, escrow_id, resolution, now)
    }
}

impl Escrow {
    /// The platform fee withheld from escrow `id` when its dispute is
    /// finalized: nothing at a zero rate, else the fee at the platform rate.
    pub open spec fn platform_fee_result(self, id: u64) -> Result<i128, ContractError> {
        if self.platform_fee_bps > 0 {
            fee_result(self.rec(id).data.amount, self.platform_fee_bps)
        } else {
            Ok(0)
        }
    }

    /// Who receives escrow `id`'s funds under resolution `res`: the first
    /// payee on release, the buyer on refund.
    pub open spec fn recipient_for(self, id: u64, res: ResolutionType) -> Address {
        match res {
            ResolutionType::Release => self.rec(id).data.payees@[0].address,
            ResolutionType::Refund => self.rec(id).data.buyer->0,
        }
    }

    /// The error `finalize_dispute` reports, if any.
    pub open spec fn finalize_error(self, id: u64, now: u64) -> Option<ContractError> {
        let d = self.rec(id).data;
        let dd = self.rec(id).dispute->0;
        let res = resolution_of_code(dd.resolution)->0;
        let pf = self.platform_fee_result(id)->Ok_0;
        if self.paused {
            Some(ContractError::ContractPaused)
        } else if !self.has(id) {
            Some(ContractError::EscrowNotFound)
        } else if d.state != EscrowState::PendingFinalization {
            Some(ContractError::NotPendingFinalization)
        } else if self.rec(id).dispute is None {
            Some(ContractError::DisputeNotFound)
        } else if resolution_of_code(dd.resolution) is None || dd.resolved_by is None {
            Some(ContractError::InvalidState)
        } else if dd.resolved_at + APPEAL_WINDOW > u64::MAX {
            Some(ContractError::ArithmeticError)
        } else if now < dd.resolved_at + APPEAL_WINDOW {
            Some(ContractError::AppealWindowActive)
        } else if res == ResolutionType::Refund && d.buyer is None {
            Some(ContractError::EscrowHasNoBuyer)
        } else if self.fee_collector is None {
            Some(ContractError::NotAuthorized)
        } else if self.platform_fee_result(id) is Err {
            Some(self.platform_fee_result(id)->Err_0)
        } else if pf > 0 && self.treasury is None {
            Some(ContractError::NotInitialized)
        } else if d.amount - pf < i128::MIN || d.amount - pf > i128::MAX {
            Some(ContractError::ArithmeticError)
        } else if fee_result((d.amount - pf) as i128, d.fee_bps) is Err {
            Some(fee_result((d.amount - pf) as i128, d.fee_bps)->Err_0)
        } else if (res == ResolutionType::Release && self.stats.total_completed == u64::MAX) || (res
            == ResolutionType::Refund && self.stats.total_refunded == u64::MAX) {
            Some(ContractError::ArithmeticError)
        } else {
            None
        }
    }

    /// The payments finalizing escrow `id`'s dispute under `res`: the
    /// platform fee to the treasury, the rest less the escrow's protocol fee to
    /// the recipient with that fee to the fee collector, and every other basket
    /// token to the recipient.
    pub open spec fn finalize_payments(self, id: u64, res: ResolutionType) -> Seq<Transfer> {
        let d = self.rec(id).data;
        let pf = self.platform_fee_result(id)->Ok_0;
        let to = self.recipient_for(id, res);
        pay(d.token, self.contract, self.treasury->0, pf as int) + fee_split_payments(
            d.token,
            self.contract,
            to,
            self.fee_collector->0,
            (d.amount - pf) as i128,
            d.fee_bps,
        ) + basket_payments(self.contract, self.rec(id).basket@, d.token, to)
    }

    /// Once the appeal window after a decision has passed, anyone settles the
    /// dispute as decided: the recipient is paid (less the platform and
    /// protocol fees), the escrow becomes `Completed` on release or `Refunded`
    /// on refund, and the dispute is marked resolved.
    #[verifier::rlimit(40)]
    pub fn finalize_dispute(&mut self, caller: Address, escrow_id: u64, now: u64) -> (r: Result<
        Vec<Transfer>,
        ContractError,
    >)
        requires
            old(self).wf(),
        ensures
            final(self).wf(),
            match r {
                Err(e) => old(self).finalize_error(escrow_id, now) == Some(e) && *final(self) == *old(
                    self,
                ),
                Ok(ts) => {
                    let old_r = old(self).rec(escrow_id);
                    let new_r = final(self).rec(escrow_id);
                    let dd = old_r.dispute->0;
                    let res = resolution_of_code(dd.resolution)->0;
                    let st = if res == ResolutionType::Release {
                        EscrowState::Completed
                    } else {
                        EscrowState::Refunded
                    };
                    &&& old(self).finalize_error(escrow_id, now) is None
                    &&& published(
                        old(self).events@,
                        final(self).events@,
                        Event::DisputeResolved(
                            DisputeResolved {
                                schema_version: EVENT_SCHEMA_VERSION,
                                escrow_id,
                                resolver: dd.resolved_by->0,
                                resolution: res,
                                recipient: old(self).recipient_for(escrow_id, res),
                                amount: old_r.data.amount,
                                arbitration_fee: 0,
                                resolver_fee: 0,
                                timestamp: now,
                                prev_state: EscrowState::PendingFinalization,
                                new_state: st,
                            },
                        ),
                    )
                    &&& *final(self) == (Escrow {
                        escrows: final(self).escrows,
                        stats: final(self).stats,
                        events: final(self).events,
                        ..*old(self)
                    })
                    &&& final(self).stats == (if res == ResolutionType::Release {
                        ContractStats {
                            total_completed: (old(self).stats.total_completed + 1) as u64,
                            ..old(self).stats
                        }
                    } else {
                        ContractStats {
                            total_refunded: (old(self).stats.total_refunded + 1) as u64,
                            ..old(self).stats
                        }
                    })
                    &&& old(self).others_same(*final(self), escrow_id)
                    &&& new_r.data == (EscrowData { state: st, ..old_r.data })
                    &&& new_r.history@ == history_after(old_r.history@, old_r.data.state, st, now)
                    &&& new_r.dispute == Some(DisputeData { status: DisputeStatus::Resolved, ..dd })
                    &&& new_r.votes == old_r.votes
                    &&& new_r.basket == old_r.basket
                    &&& new_r.messages == old_r.messages
                    &&& new_r.expiry == old_r.expiry
                    &&& new_r.delivery_proposal == old_r.delivery_proposal
                    &&& ts@ == old(self).finalize_payments(escrow_id, res)
                },
            },
    {
        self.ensure_not_paused()?;
        let i = self.locate(escrow_id)?;
        proof {
            assert(record_wf(self.escrows@[i as int]));
        }
        if self.escrows[i].data.state != EscrowState::PendingFinalization {
            return Err(ContractError::NotPendingFinalization);
        }
        let (res, resolved_at, resolved_by) = match &self.escrows[i].dispute {
            Some(dd) => {
                let res = match dd.get_resolution() {
                    Some(x) => x,
                    None => return Err(ContractError::InvalidState),
                };
                let by = match dd.resolved_by {
                    Some(a) => a,
                    None => return Err(ContractError::InvalidState),
                };
                (res, dd.resolved_at, by)
            },
            None => return Err(ContractError::DisputeNotFound),
        };
        let appeal_deadline = match resolved_at.checked_add(APPEAL_WINDOW) {
            Some(t) => t,
            None => return Err(ContractError::ArithmeticError),
        };
        if now < appeal_deadline {
            return Err(ContractError::AppealWindowActive);
        }
        let recipient = match res {
            ResolutionType::Release => self.escrows[i].data.payees[0].address,
            ResolutionType::Refund => match self.escrows[i].data.buyer {
                Some(b) => b,
                None => return Err(ContractError::EscrowHasNoBuyer),
            },
        };
        let fc = match self.fee_collector {
            Some(f) => f,
            None => return Err(ContractError::NotAuthorized),
        };
        let amount = self.escrows[i].data.amount;
        let token = self.escrows[i].data.token;
        let platform_fee = if self.platform_fee_bps > 0 {
            calculate_fee(amount, self.platform_fee_bps)?
        } else {
            0
        };
        let mut ts: Vec<Transfer> = Vec::new();
        if platform_fee > 0 {
            match self.treasury {
                Some(t) => payout(&mut ts, token, self.contract, t, platform_fee),
                None => return Err(ContractError::NotInitialized),
            }
        } else {
            proof {
                assert(ts@ =~= pay(token, self.contract, self.treasury->0, platform_fee as int));
            }
        }
        let seller_amount = match amount.checked_sub(platform_fee) {
            Some(a) => a,
            None => return Err(ContractError::ArithmeticError),
        };
        transfer_with_protocol_fee(
            &mut ts,
            token,
            self.contract,
            recipient,
            fc,
            seller_amount,
            self.escrows[i].data.fee_bps,
        )?;
        basket_payouts(&mut ts, self.contract, &self.escrows[i].basket, token, recipient);
        match res {
            ResolutionType::Release => {
                if self.stats.total_completed == u64::MAX {
                    return Err(ContractError::ArithmeticError);
                }
            },
            ResolutionType::Refund => {
                if self.stats.total_refunded == u64::MAX {
                    return Err(ContractError::ArithmeticError);
                }
            },
        }
        proof {
            assert(ts@ =~= old(self).finalize_payments(escrow_id, res));
        }
        let st = match res {
            ResolutionType::Release => EscrowState::Completed,
            ResolutionType::Refund => EscrowState::Refunded,
        };
        let r = &mut self.escrows[i];
        r.data.state = st;
        push_history(&mut r.history, EscrowState::PendingFinalization, st, now);
        let mut dd = match r.dispute.take() {
            Some(d) => d,
            None => return Err(ContractError::DisputeNotFound),
        };
        dd.status = DisputeStatus::Resolved;
        r.dispute = Some(dd);
        match res {
            ResolutionType::Release => {
                self.stats.total_completed = self.stats.total_completed + 1;
            },
            ResolutionType::Refund => {
                self.stats.total_refunded = self.stats.total_refunded + 1;
            },
        }
        proof {
            assert forall|j: int| 0 <= j < self.escrows@.len() implies record_wf(
                #[trigger] self.escrows@[j],
            ) by {
                assert(record_wf(old(self).escrows@[j]));
            }
        }
        self.publish(
            Event::DisputeResolved(
                emit_dispute_resolved(
                    escrow_id,
                    resolved_by,
                    res,
                    recipient,
                    amount,
                    0,
                    0,
                    EscrowState::PendingFinalization,
                    st,
                    now,
                ),
            ),
        );
        Ok(ts)
    }

    /// The error `appeal_dispute` reports, if any.
    pub open spec fn appeal_error(self, caller: Address, id: u64, now: u64) -> Option<ContractError> {
        let d = self.rec(id).data;
        let dd = self.rec(id).dispute->0;
        if self.paused {
            Some(ContractError::ContractPaused)
        } else if !self.has(id) {
            Some(ContractError::EscrowNotFound)
        } else if d.state != EscrowState::PendingFinalization {
            Some(ContractError::NotPendingFinalization)
        } else if self.rec(id).dispute is None {
            Some(ContractError::DisputeNotFound)
        } else if dd.appeal_count >= MAX_APPEALS {
            Some(ContractError::MaxAppealsReached)
        } else if dd.resolved_at + APPEAL_WINDOW > u64::MAX {
            Some(ContractError::ArithmeticError)
        } else if now >= dd.resolved_at + APPEAL_WINDOW {
            Some(ContractError::DisputeWindowStillOpen)
        } else if d.buyer is None {
            Some(ContractError::EscrowHasNoBuyer)
        } else if Some(caller) != d.buyer && caller != d.payees@[0].address {
            Some(ContractError::NotAuthorized)
        } else {
            None
        }
    }

    /// Whether `new` is `self` after an appeal reopened escrow `id`'s
    /// dispute at `now`: the decision is cleared, one more appeal counted, the
    /// votes dropped, and the charged fees kept.
    pub open spec fn appealed(self, new: Escrow, id: u64, now: u64) -> bool {
        let old_r = self.rec(id);
        let new_r = new.rec(id);
        let dd = old_r.dispute->0;
        &&& new == (Escrow { escrows: new.escrows, ..self })
        &&& self.others_same(new, id)
        &&& new_r.data == (EscrowData { state: EscrowState::Disputed, ..old_r.data })
        &&& new_r.history@ == history_after(
            old_r.history@,
            old_r.data.state,
            EscrowState::Disputed,
            now,
        )
        &&& new_r.dispute == Some(
            DisputeData {
                status: DisputeStatus::Active,
                resolution: 0,
                resolved_by: None,
                resolved_at: 0,
                appeal_count: (dd.appeal_count + 1) as u32,
                ..dd
            },
        )
        &&& new_r.votes@.len() == 0
        &&& new_r.basket == old_r.basket
        &&& new_r.messages == old_r.messages
        &&& new_r.expiry == old_r.expiry
        &&& new_r.delivery_proposal == old_r.delivery_proposal
    }

    /// The buyer or the first payee appeals a decision within its appeal
    /// window: the dispute reopens with its decision cleared and one more
    /// appeal counted, and the resolvers vote afresh. Fees charged by the
    /// first decision stay recorded and are not charged again.
    pub fn appeal_dispute(&mut self, caller: Address, escrow_id: u64, now: u64) -> (r: Result<
        (),
        ContractError,
    >)
        requires
            old(self).wf(),
        ensures
            final(self).wf(),
            match r {
                Err(e) => old(self).appeal_error(caller, escrow_id, now) == Some(e) && *final(self)
                    == *old(self),
                Ok(_) => old(self).appeal_error(caller, escrow_id, now) is None && published(
                    old(self).events@,
                    final(self).events@,
                    Event::DisputeAppealed(
                        DisputeAppealed {
                            schema_version: EVENT_SCHEMA_VERSION,
                            escrow_id,
                            appellant: caller,
                            timestamp: now,
                        },
                    ),
                ) && old(self).appealed(final(self).without_new_events(*old(self)), escrow_id, now),
            },
    {
        self.ensure_not_paused()?;
        let i = self.locate(escrow_id)?;
        proof {
            assert(record_wf(self.escrows@[i as int]));
        }
        if self.escrows[i].data.state != EscrowState::PendingFinalization {
            return Err(ContractError::NotPendingFinalization);
        }
        let (count, resolved_at) = match &self.escrows[i].dispute {
            Some(dd) => (dd.appeal_count, dd.resolved_at),
            None => return Err(ContractError::DisputeNotFound),
        };
        if count >= MAX_APPEALS {
            return Err(ContractError::MaxAppealsReached);
        }
        let appeal_deadline = match resolved_at.checked_add(APPEAL_WINDOW) {
            Some(t) => t,
            None => return Err(ContractError::ArithmeticError),
        };
        if now >= appeal_deadline {
            return Err(ContractError::DisputeWindowStillOpen);
        }
        let buyer = match self.escrows[i].data.buyer {
            Some(b) => b,
            None => return Err(ContractError::EscrowHasNoBuyer),
        };
        let seller = self.escrows[i].data.payees[0].address;
        if caller != buyer && caller != seller {
            return Err(ContractError::NotAuthorized);
        }
        let r = &mut self.escrows[i];
        r.data.state = EscrowState::Disputed;
        push_history(&mut r.history, EscrowState::PendingFinalization, EscrowState::Disputed, now);
        let mut dd = match r.dispute.take() {
            Some(d) => d,
            None => return Err(ContractError::DisputeNotFound),
        };
        dd.status = DisputeStatus::Active;
        dd.resolution = 0;
        dd.resolved_by = None;
        dd.resolved_at = 0;
        dd.appeal_count = count + 1;
        r.dispute = Some(dd);
        r.votes = Vec::new();
        proof {
            assert forall|j: int| 0 <= j < self.escrows@.len() implies record_wf(
                #[trigger] self.escrows@[j],
            ) by {
                assert(record_wf(old(self).escrows@[j]));
            }
        }
        self.publish(Event::DisputeAppealed(emit_dispute_appealed(escrow_id, caller, now)));
        Ok(())
    }
}

} // verus!
