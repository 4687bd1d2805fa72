//! Properties the contract keeps across its operations.

use vstd::prelude::*;
use crate::errors::ContractError;
use crate::fees::{fee_of, fee_result, lemma_split_fee};
use crate::payout::{
    basket_payments, distribution, lemma_basket_primary, share_payments, shares_total, lemma_distribution_total,
    lemma_pay_total, lemma_single, lemma_total_concat, lemma_total_of_concat, lemma_total_to_concat, pay,
    total, total_of, total_to,
};
use crate::admin::{params_op, proposal_for, TimelockParams};
use crate::batch::{CallValue, ContractCall};
use crate::resolvers::{
    count_votes, set_can_resolve, set_contains, set_threshold, tally_result, votes_after,
};
use crate::state::{amount_at, payees_contain, record_wf, sum_bps, Escrow, EscrowRecord};
use crate::types::{
    resolution_code, resolution_of_code, Address, EscrowData, EscrowState, FallbackResolver, ResolutionType, ResolverSet,
    Payee, ResolverVote, TokenEntry, Transfer,
};
use crate::{ADMIN_TIMELOCK_DELAY_SECONDS, APPEAL_WINDOW, BASIS_POINTS, MAX_APPEALS};

verus! {

/// A fee at a rate within 100% is the floor of `amount * fee_bps / 10_000`,
/// lies between zero and the amount, and with the net it adds up to the
/// amount: no unit is lost or created.
pub proof fn law_fee_split(amount: i128, fee_bps: u32)
    requires
        0 <= amount,
        fee_bps <= BASIS_POINTS,
    ensures
        fee_result(amount, fee_bps) is Ok,
        fee_result(amount, fee_bps)->Ok_0 == fee_of(amount as int, fee_bps as int),
        0 <= fee_result(amount, fee_bps)->Ok_0 <= amount,
        fee_result(amount, fee_bps)->Ok_0 + (amount - fee_result(amount, fee_bps)->Ok_0) == amount,
{
    lemma_split_fee(amount as int, fee_bps as int);
}

/// Releasing an escrow to its payees, at any protocol rate within 100%
/// (the escrow's own rate on confirmation, the global rate on automatic
/// release), moves exactly the escrowed amount of its token out of the
/// contract: the protocol fee plus the payees' shares, rounding dust
/// included; other basket tokens never add to it.
pub proof fn law_release_conserves(s: Escrow, id: u64, fee_collector: Address, rate: u32)
    requires
        s.wf(),
        s.has(id),
        rate <= BASIS_POINTS,
        s.release_error(id, rate) is None,
    ensures
        total_of(s.release_payments(id, fee_collector, rate), s.rec(id).data.token) == s.rec(id).data.amount,
{
    let d = s.rec(id).data;
    assert(record_wf(s.escrows@[id - 1]));
    let fee = fee_result(d.amount, rate)->Ok_0;
    lemma_split_fee(d.amount as int, rate as int);
    let a = pay(d.token, s.contract, fee_collector, fee as int);
    let b = distribution(d.token, s.contract, d.payees@, d.amount - fee);
    let c = basket_payments(s.contract, s.rec(id).basket@, d.token, d.payees@[0].address);
    lemma_pay_total(d.token, s.contract, fee_collector, fee as int);
    lemma_distribution_total(d.token, s.contract, d.payees@, d.amount - fee);
    lemma_basket_primary(s.contract, s.rec(id).basket@, d.token, d.payees@[0].address);
    lemma_total_of_concat(a, b, d.token);
    lemma_total_of_concat(a + b, c, d.token);
}

/// Refunding an escrow returns exactly the escrowed amount of its token;
/// other basket tokens never add to it.
pub proof fn law_refund_conserves(s: Escrow, id: u64, to: Address)
    requires
        s.has(id),
    ensures
        total_of(s.refund_payments(id, to), s.rec(id).data.token) == s.rec(id).data.amount,
{
    let d = s.rec(id).data;
    let t = Transfer { token: d.token, from: s.contract, to, amount: d.amount };
    lemma_single(t);
    lemma_basket_primary(s.contract, s.rec(id).basket@, d.token, to);
    lemma_total_of_concat(seq![t], basket_payments(s.contract, s.rec(id).basket@, d.token, to), d.token);
}

/// Arbitration and resolver fees are charged once per dispute: a decision
/// marks them charged, an appeal keeps them, and the next decision pays no
/// fee again and records the same amounts.
pub proof fn law_dispute_fees_charged_once(
    s0: Escrow,
    s1: Escrow,
    s2: Escrow,
    first: Address,
    second: Address,
    id: u64,
    fin: ResolutionType,
    votes: Seq<ResolverVote>,
    decided_at: u64,
    appealed_at: u64,
)
    requires
        s0.has(id),
        s0.rec(id).dispute is Some,
        s0.decided(s1, first, id, fin, votes, decided_at),
        s1.appealed(s2, id, appealed_at),
    ensures
        s2.rec(id).dispute->0.fees_charged,
        s2.decision_payments(second, id).len() == 0,
        s2.decision_fees(id) == s0.decision_fees(id),
        s2.rec(id).data.amount == s1.rec(id).data.amount,
{
}

/// A decision on a dispute whose fees were already charged pays nothing and
/// leaves the escrowed amount and the arbitration totals as they were.
pub proof fn law_charged_decision_pays_nothing(
    s0: Escrow,
    s1: Escrow,
    caller: Address,
    id: u64,
    fin: ResolutionType,
    votes: Seq<ResolverVote>,
    now: u64,
)
    requires
        s0.has(id),
        s0.rec(id).dispute matches Some(dd) && dd.fees_charged,
        s0.decided(s1, caller, id, fin, votes, now),
    ensures
        s0.decision_payments(caller, id).len() == 0,
        s1.rec(id).data.amount == s0.rec(id).data.amount,
        s1.arbitration_totals == s0.arbitration_totals,
{
}

/// Across an appeal the dispute fees are charged once. A first decision
/// records the arbitration and resolver fees as charged, takes them out of
/// the escrowed amount and pays them; an appeal keeps them recorded; and
/// whatever the next resolver call does (a vote or a new decision), it pays
/// nothing, leaves the escrowed amount and the arbitration totals as they
/// were, and keeps the same fees recorded.
pub proof fn law_fees_charged_once_across_appeal(
    s0: Escrow,
    s1: Escrow,
    s2: Escrow,
    s3: Escrow,
    ts1: Seq<Transfer>,
    ts3: Seq<Transfer>,
    id: u64,
    first: Address,
    first_res: ResolutionType,
    decided_at: u64,
    appellant: Address,
    appealed_at: u64,
    second: Address,
    second_res: ResolutionType,
    revoted_at: u64,
)
    requires
        s0.resolve_error(first, id, first_res, decided_at) is None,
        s0.vote_outcome(first, id, first_res, decided_at) matches Ok(Some(_)),
        s0.vote_done(s1, ts1, first, id, first_res, decided_at),
        s1.appeal_error(appellant, id, appealed_at) is None,
        s1.appealed(s2.without_new_events(s1), id, appealed_at),
        s2.resolve_error(second, id, second_res, revoted_at) is None,
        s2.vote_done(s3, ts3, second, id, second_res, revoted_at),
    ensures
        ts1 == s0.decision_payments(first, id),
        s1.rec(id).dispute matches Some(d) && d.fees_charged && (d.arbitration_fee, d.resolver_fee)
            == s0.decision_fees(id),
        !s0.rec(id).dispute->0.fees_charged ==> s1.rec(id).data.amount == s0.rec(id).data.amount
            - s0.decision_fees(id).0 - s0.decision_fees(id).1 && amount_at(
            s1.arbitration_totals@,
            s0.rec(id).data.token,
        ) == amount_at(s0.arbitration_totals@, s0.rec(id).data.token) + s0.decision_fees(id).0,
        s2.rec(id).data.amount == s1.rec(id).data.amount,
        ts3.len() == 0,
        s3.rec(id).data.amount == s1.rec(id).data.amount,
        s3.arbitration_totals == s1.arbitration_totals,
        s3.rec(id).dispute matches Some(d) && d.fees_charged && (d.arbitration_fee, d.resolver_fee)
            == s0.decision_fees(id),
{
    let d = s0.rec(id).data;
    if 0 <= d.amount {
        if s0.fees().arbitration_fee_bps <= BASIS_POINTS {
            lemma_split_fee(d.amount as int, s0.fees().arbitration_fee_bps as int);
        }
        if d.resolver_fee_bps <= BASIS_POINTS {
            lemma_split_fee(d.amount as int, d.resolver_fee_bps as int);
        }
    }
}

/// A queued administrative change cannot be executed before
/// `ADMIN_TIMELOCK_DELAY_SECONDS` have passed since it was queued, and can be
/// from then on, with the parameters it was queued with.
pub proof fn law_timelock_delay(s0: Escrow, s1: Escrow, caller: Address, p: TimelockParams, now: u64, later: u64)
    requires
        now + ADMIN_TIMELOCK_DELAY_SECONDS <= u64::MAX,
        s0.queue_outcome(s1, Ok(()), caller, p, now),
    ensures
        later < now + ADMIN_TIMELOCK_DELAY_SECONDS ==> s1.ready_params(params_op(p), later) == Err::<
            TimelockParams,
            ContractError,
        >(ContractError::InvalidState),
        later >= now + ADMIN_TIMELOCK_DELAY_SECONDS ==> s1.ready_params(params_op(p), later) == Ok::<
            TimelockParams,
            ContractError,
        >(p),
{
    let code = crate::admin::op_code(params_op(p));
    assert(proposal_for(s1.timelocks@, code) is Some);
}

/// After a decision, the appeal window and the finalization window split
/// time at `resolved_at + APPEAL_WINDOW`: before it the buyer may appeal and
/// finalization waits; from it on finalization may proceed and no appeal is
/// accepted.
pub proof fn law_appeal_window_partitions_time(s: Escrow, id: u64, now: u64)
    requires
        !s.paused,
        s.has(id),
        s.rec(id).data.state == EscrowState::PendingFinalization,
        s.rec(id).data.buyer is Some,
        s.rec(id).dispute matches Some(dd) && {
            &&& resolution_of_code(dd.resolution) is Some
            &&& dd.resolved_by is Some
            &&& dd.appeal_count < MAX_APPEALS
            &&& dd.resolved_at + APPEAL_WINDOW <= u64::MAX
        },
    ensures
        ({
            let deadline = s.rec(id).dispute->0.resolved_at + APPEAL_WINDOW;
            let buyer = s.rec(id).data.buyer->0;
            &&& (s.appeal_error(buyer, id, now) is None) == (now < deadline)
            &&& (s.finalize_error(id, now) == Some(ContractError::AppealWindowActive)) == (now
                < deadline)
        }),
{
}

/// In a fallback resolver set the primary may always decide, and the
/// backup may decide exactly from the deadline on; the deadline never
/// withdraws anyone's authority.
pub proof fn law_fallback_authority(f: FallbackResolver, now: u64, later: u64)
    ensures
        set_can_resolve(ResolverSet::Fallback(f), f.primary, now),
        f.backup != f.primary ==> (set_can_resolve(ResolverSet::Fallback(f), f.backup, now) == (now
            >= f.dispute_deadline)),
        now <= later ==> forall|a: Address|
            set_can_resolve(ResolverSet::Fallback(f), a, now) ==> #[trigger] set_can_resolve(
                ResolverSet::Fallback(f),
                a,
                later,
            ),
{
}

/// No operation moves funds out of, or changes the course of, an escrow
/// that has been completed, refunded, canceled or expired.
pub proof fn law_closed_escrows_stay_closed(
    s: Escrow,
    id: u64,
    caller: Address,
    res: ResolutionType,
    new_resolver: Address,
    tracking_len: nat,
    description_len: nat,
    now: u64,
)
    requires
        s.has(id),
        s.rec(id).data.state == EscrowState::Completed || s.rec(id).data.state
            == EscrowState::Refunded || s.rec(id).data.state == EscrowState::Canceled
            || s.rec(id).data.state == EscrowState::Expired,
    ensures
        s.fund_error(id, caller, now) is Some,
        s.fund_basket_error(id, caller, now) is Some,
        s.ship_error(id, caller, tracking_len, now) is Some,
        s.confirm_error(caller, id, now) is Some,
        s.auto_release_error(id, now) is Some,
        s.co_signed_error(id) is Some,
        s.cancel_error(caller, id, now) is Some,
        s.mutual_cancel_error(id, now) is Some,
        s.request_refund_error(caller, id, now) is Some,
        s.approve_refund_error(caller, id, now) is Some,
        s.reclaim_error(id, now) is Some,
        s.auto_cancel_error(id, now) is Some,
        s.raise_error(caller, id, description_len, now) is Some,
        s.resolve_error(caller, id, res, now) is Some,
        s.finalize_error(id, now) is Some,
        s.appeal_error(caller, id, now) is Some,
        s.drain_error(id) is Some,
        s.rotate_error(caller, id, new_resolver) is Some,
{
}

/// No dispute is ever appealed more than `MAX_APPEALS` times.
pub proof fn law_appeals_bounded(s: Escrow, id: u64)
    requires
        s.wf(),
        s.has(id),
        s.rec(id).dispute is Some,
    ensures
        s.rec(id).dispute->0.appeal_count <= MAX_APPEALS,
{
    assert(record_wf(s.escrows@[id - 1]));
}

/// Finalizing a dispute moves exactly the escrowed amount (after any
/// decision fees) of its token out of the contract: platform fee, protocol
/// fee and the recipient's share together.
pub proof fn law_finalize_conserves(s: Escrow, id: u64, now: u64)
    requires
        s.wf(),
        s.finalize_error(id, now) is None,
    ensures
        total_of(
            s.finalize_payments(id, resolution_of_code(s.rec(id).dispute->0.resolution)->0),
            s.rec(id).data.token,
        ) == s.rec(id).data.amount,
{
    let d = s.rec(id).data;
    let res = resolution_of_code(s.rec(id).dispute->0.resolution)->0;
    let to = s.recipient_for(id, res);
    let pf = s.platform_fee_result(id)->Ok_0;
    if s.platform_fee_bps > 0 {
        lemma_split_fee(d.amount as int, s.platform_fee_bps as int);
    }
    let rest = (d.amount - pf) as i128;
    let fee = fee_result(rest, d.fee_bps)->Ok_0;
    lemma_split_fee(rest as int, d.fee_bps as int);
    let a = pay(d.token, s.contract, s.treasury->0, pf as int);
    let b1 = pay(d.token, s.contract, to, rest - fee);
    let b2 = pay(d.token, s.contract, s.fee_collector->0, fee as int);
    let c = basket_payments(s.contract, s.rec(id).basket@, d.token, to);
    lemma_pay_total(d.token, s.contract, s.treasury->0, pf as int);
    lemma_pay_total(d.token, s.contract, to, rest - fee);
    lemma_pay_total(d.token, s.contract, s.fee_collector->0, fee as int);
    lemma_basket_primary(s.contract, s.rec(id).basket@, d.token, to);
    lemma_total_of_concat(b1, b2, d.token);
    lemma_total_of_concat(a, b1 + b2, d.token);
    lemma_total_of_concat(a + (b1 + b2), c, d.token);
    assert(s.finalize_payments(id, res) =~= a + (b1 + b2) + c);
}

/// Whether escrow `id`'s buyer holds no other role in it: neither one of its
/// payees nor one of its resolvers.
pub open spec fn roles_apart(s: Escrow, id: u64) -> bool {
    &&& s.rec(id).data.buyer matches Some(b)
    &&& !payees_contain(s.rec(id).data.payees@, s.rec(id).data.buyer->0)
    &&& !set_contains(s.rec(id).data.resolvers, s.rec(id).data.buyer->0)
}

/// Funding, of a single-token or of a basket escrow, leaves the buyer
/// holding no other role in the escrow: the buyer is never one of its payees
/// nor one of its resolvers.
pub proof fn law_funding_keeps_roles_apart(s: Escrow, new: Escrow, id: u64, buyer: Address, now: u64)
    requires
        s.fund_error(id, buyer, now) is None || s.fund_basket_error(id, buyer, now) is None,
        s.funded(new, id, buyer, now),
    ensures
        roles_apart(new, id),
{
}

/// Replacing an escrow's resolver keeps its buyer out of every other role.
pub proof fn law_rotation_keeps_roles_apart(
    s: Escrow,
    new: Escrow,
    caller: Address,
    id: u64,
    new_resolver: Address,
)
    requires
        roles_apart(s, id),
        s.rotate_error(caller, id, new_resolver) is None,
        new.rec(id) == (EscrowRecord {
            data: EscrowData { resolvers: ResolverSet::Single(new_resolver), ..s.rec(id).data },
            ..s.rec(id)
        }),
    ensures
        roles_apart(new, id),
{
}

/// A batch of one call does what the call does on its own: the same state,
/// the same answer and the same transfers, and the same error when it fails.
pub proof fn law_single_call_batch(
    s: Escrow,
    c: ContractCall,
    now: u64,
    new: Escrow,
    out: CallValue,
    ts: Seq<Transfer>,
    e: ContractError,
)
    ensures
        s.batch_runs(seq![c], now, new, seq![out], ts) <==> s.call_done(c, now, new, out, ts),
        s.batch_fails(seq![c], now, e) <==> s.call_error(c, now) == Some(e),
{
    let calls = seq![c];
    if s.call_done(c, now, new, out, ts) {
        let states = seq![s, new];
        let parts = seq![ts];
        assert(parts.drop_last() =~= Seq::<Seq<Transfer>>::empty());
        assert(Seq::<Seq<Transfer>>::empty().flatten_alt() =~= Seq::<Transfer>::empty());
        assert(parts.flatten_alt() =~= ts);
        assert(s.batch_trace(calls, now, states, seq![out], parts, 1));
    }
    if s.batch_runs(calls, now, new, seq![out], ts) {
        let (states, parts) = choose|states: Seq<Escrow>, parts: Seq<Seq<Transfer>>|
            #[trigger] s.batch_trace(calls, now, states, seq![out], parts, calls.len() as int) && new
                == states.last() && ts == parts.flatten_alt();
        assert(states[0].call_done(calls[0], now, states[1], seq![out][0], parts[0]));
        assert(parts.drop_last() =~= Seq::<Seq<Transfer>>::empty());
        assert(Seq::<Seq<Transfer>>::empty().flatten_alt() =~= Seq::<Transfer>::empty());
        assert(parts.flatten_alt() =~= parts[0]);
    }
    if s.call_error(c, now) == Some(e) {
        assert(s.batch_trace(calls, now, seq![s], Seq::empty(), Seq::empty(), 0));
    }
    if s.batch_fails(calls, now, e) {
        let (states, outs, parts, m) = choose|states: Seq<Escrow>, outs: Seq<CallValue>, parts: Seq<
            Seq<Transfer>,
        >, m: int|
            #[trigger] s.batch_trace(calls, now, states, outs, parts, m) && m < calls.len()
                && states[m].call_error(calls[m], now) == Some(e);
        assert(m == 0);
    }
}

/// The number of votes in `v` for resolution `r`.
pub open spec fn votes_for(v: Seq<ResolverVote>, r: ResolutionType) -> nat {
    v.filter(|x: ResolverVote| x.resolution == r).len()
}

proof fn lemma_votes_for(v: Seq<ResolverVote>, r: ResolutionType)
    ensures
        count_votes(v, r) == votes_for(v, r),
        votes_for(v, r) <= v.len(),
    decreases v.len(),
{
    reveal(Seq::filter);
    if v.len() > 0 {
        lemma_votes_for(v.drop_last(), r);
    }
}

/// A tally decides a resolution only on that resolution's own votes: with
/// votes cast, release is decided exactly when its votes reach the
/// threshold, refund exactly when release's do not and refund's do, and
/// there is no decision when neither reaches it. Votes for the other
/// resolution never count toward a decision.
pub proof fn law_tally_counts_matching_votes(v: Seq<ResolverVote>, threshold: u32)
    ensures
        tally_result(v, threshold) is Err ==> v.len() > u32::MAX,
        v.len() <= u32::MAX ==> (tally_result(v, threshold) == Ok::<Option<ResolutionType>, ContractError>(
            Some(ResolutionType::Release),
        ) <==> (v.len() > 0 && votes_for(v, ResolutionType::Release) >= threshold)),
        v.len() <= u32::MAX ==> (tally_result(v, threshold) == Ok::<Option<ResolutionType>, ContractError>(
            Some(ResolutionType::Refund),
        ) <==> (v.len() > 0 && votes_for(v, ResolutionType::Release) < threshold && votes_for(
            v,
            ResolutionType::Refund,
        ) >= threshold)),
        v.len() <= u32::MAX ==> (tally_result(v, threshold) == Ok::<Option<ResolutionType>, ContractError>(
            None,
        ) <==> (v.len() == 0 || (votes_for(v, ResolutionType::Release) < threshold && votes_for(
            v,
            ResolutionType::Refund,
        ) < threshold))),
{
    lemma_votes_for(v, ResolutionType::Release);
    lemma_votes_for(v, ResolutionType::Refund);
}

proof fn lemma_votes_after_nonempty(v: Seq<ResolverVote>, who: Address, res: ResolutionType, now: u64)
    ensures
        votes_after(v, who, res, now).len() >= 1,
        votes_after(v, who, res, now).len() <= v.len() + 1,
{
}

/// A resolver's call decides the dispute exactly when, counting the votes
/// after it, one resolution's own votes reach the resolver set's threshold;
/// the escrow then awaits finalization with that resolution (release when
/// both reach it). Otherwise the vote is only recorded and the escrow stays
/// disputed.
pub proof fn law_vote_decides_on_matching_votes(
    s: Escrow,
    new: Escrow,
    ts: Seq<Transfer>,
    caller: Address,
    id: u64,
    res: ResolutionType,
    now: u64,
)
    requires
        s.resolve_error(caller, id, res, now) is None,
        s.vote_done(new, ts, caller, id, res, now),
    ensures
        new.rec(id).votes@ == votes_after(s.rec(id).votes@, caller, res, now),
        new.rec(id).data.state == EscrowState::PendingFinalization <==> (votes_for(
            new.rec(id).votes@,
            ResolutionType::Release,
        ) >= set_threshold(s.rec(id).data.resolvers) || votes_for(new.rec(id).votes@, ResolutionType::Refund)
            >= set_threshold(s.rec(id).data.resolvers)),
        new.rec(id).data.state != EscrowState::PendingFinalization ==> new.rec(id).data.state
            == EscrowState::Disputed && ts.len() == 0,
        votes_for(new.rec(id).votes@, ResolutionType::Release) >= set_threshold(s.rec(id).data.resolvers)
            ==> (new.rec(id).dispute matches Some(d) && d.resolution == resolution_code(ResolutionType::Release)),
        votes_for(new.rec(id).votes@, ResolutionType::Release) < set_threshold(s.rec(id).data.resolvers)
            && votes_for(new.rec(id).votes@, ResolutionType::Refund) >= set_threshold(s.rec(id).data.resolvers)
            ==> (new.rec(id).dispute matches Some(d) && d.resolution == resolution_code(ResolutionType::Refund)),
{
    let v = votes_after(s.rec(id).votes@, caller, res, now);
    lemma_votes_after_nonempty(s.rec(id).votes@, caller, res, now);
    lemma_votes_for(v, ResolutionType::Release);
    lemma_votes_for(v, ResolutionType::Refund);
    assert(new.without_new_events(s).rec(id) == new.rec(id));
}

/// On a first decision the deciding resolver is paid exactly the resolver
/// fee, `amount * resolver_fee_bps / 10_000` rounded down, and the fee
/// collector exactly the arbitration fee at the global rate; nothing else
/// is paid.
pub proof fn law_first_decision_pays_each_fee_to_its_party(
    s: Escrow,
    new: Escrow,
    ts: Seq<Transfer>,
    caller: Address,
    id: u64,
    res: ResolutionType,
    now: u64,
)
    requires
        s.resolve_error(caller, id, res, now) is None,
        s.vote_outcome(caller, id, res, now) matches Ok(Some(_)),
        s.vote_done(new, ts, caller, id, res, now),
        !s.rec(id).dispute->0.fees_charged,
        s.fee_collector != Some(caller),
    ensures
        s.fee_collector is Some,
        total_to(ts, caller) == s.rec(id).data.amount * s.rec(id).data.resolver_fee_bps / 10_000,
        total_to(ts, s.fee_collector->0) == s.rec(id).data.amount * s.fees().arbitration_fee_bps / 10_000,
        total(ts) == s.rec(id).data.amount * s.rec(id).data.resolver_fee_bps / 10_000 + s.rec(id).data.amount
            * s.fees().arbitration_fee_bps / 10_000,
{
    let d = s.rec(id).data;
    let fc = s.fee_collector->0;
    lemma_split_fee(d.amount as int, s.fees().arbitration_fee_bps as int);
    lemma_split_fee(d.amount as int, d.resolver_fee_bps as int);
    let (arb, rf) = s.decision_fees(id);
    let a = pay(d.token, s.contract, fc, arb as int);
    let b = pay(d.token, s.contract, caller, rf as int);
    lemma_pay_total(d.token, s.contract, fc, arb as int);
    lemma_pay_total(d.token, s.contract, caller, rf as int);
    lemma_total_to_concat(a, b, caller);
    lemma_total_to_concat(a, b, fc);
    lemma_total_concat(a, b);
    assert(ts == a + b);
}

/// The positive amounts of token `t` a basket holds.
pub open spec fn basket_held(basket: Seq<TokenEntry>, t: Address) -> int
    decreases basket.len(),
{
    if basket.len() == 0 {
        0
    } else {
        (if basket[0].token == t && basket[0].amount > 0 {
            basket[0].amount as int
        } else {
            0
        }) + basket_held(basket.drop_first(), t)
    }
}

proof fn lemma_pay_shape(token: Address, from: Address, to: Address, amount: int)
    ensures
        forall|k: int| 0 <= k < pay(token, from, to, amount).len() ==> (#[trigger] pay(token, from, to, amount)[k]).to
            == to && pay(token, from, to, amount)[k].token == token && pay(token, from, to, amount)[k].from == from,
{
}

proof fn lemma_basket_shape(from: Address, basket: Seq<TokenEntry>, primary: Address, to: Address)
    ensures
        forall|k: int| 0 <= k < basket_payments(from, basket, primary, to).len() ==> (#[trigger] basket_payments(
            from,
            basket,
            primary,
            to,
        )[k]).to == to && basket_payments(from, basket, primary, to)[k].token != primary && basket_payments(
            from,
            basket,
            primary,
            to,
        )[k].from == from,
        forall|t: Address| t != primary ==> #[trigger] total_of(basket_payments(from, basket, primary, to), t)
            == basket_held(basket, t),
    decreases basket.len(),
{
    if basket.len() > 0 {
        lemma_basket_shape(from, basket.drop_first(), primary, to);
        let e = basket[0];
        let h = if e.token == primary {
            Seq::<Transfer>::empty()
        } else {
            pay(e.token, from, to, e.amount as int)
        };
        let rest = basket_payments(from, basket.drop_first(), primary, to);
        assert(basket_payments(from, basket, primary, to) == h + rest);
        lemma_pay_shape(e.token, from, to, e.amount as int);
        lemma_pay_total(e.token, from, to, e.amount as int);
        assert forall|k: int| 0 <= k < (h + rest).len() implies (#[trigger] (h + rest)[k]).to == to && (h
            + rest)[k].token != primary && (h + rest)[k].from == from by {
            if k >= h.len() {
                assert((h + rest)[k] == rest[k - h.len()]);
            }
        }
        assert forall|t: Address| t != primary implies #[trigger] total_of(h + rest, t) == basket_held(
            basket,
            t,
        ) by {
            lemma_total_of_concat(h, rest, t);
            if e.token == primary {
                assert(total_of(Seq::<Transfer>::empty(), t) == 0);
            }
        }
    }
}

/// Finalizing a decided dispute pays the decided party: on a refund the
/// buyer, on a release the first payee. Every transfer comes from the
/// contract and goes to that party, except the platform fee to the treasury
/// and the protocol fee to the fee collector, both in the escrow's own
/// token; and of every other token the party receives exactly the positive
/// basket amounts of it.
pub proof fn law_finalize_pays_the_decided_party(s: Escrow, id: u64, now: u64)
    requires
        s.wf(),
        s.finalize_error(id, now) is None,
    ensures
        forall|k: int|
            0 <= k < s.finalize_payments(id, resolution_of_code(s.rec(id).dispute->0.resolution)->0).len()
                ==> {
                let tr = #[trigger] s.finalize_payments(
                    id,
                    resolution_of_code(s.rec(id).dispute->0.resolution)->0,
                )[k];
                let party = if s.rec(id).dispute->0.resolution == resolution_code(ResolutionType::Refund) {
                    s.rec(id).data.buyer->0
                } else {
                    s.rec(id).data.payees@[0].address
                };
                &&& tr.from == s.contract
                &&& tr.to == party || (tr.token == s.rec(id).data.token && (tr.to == s.treasury->0 || tr.to
                    == s.fee_collector->0))
            },
        forall|t: Address|
            t != s.rec(id).data.token ==> #[trigger] total_of(
                s.finalize_payments(id, resolution_of_code(s.rec(id).dispute->0.resolution)->0),
                t,
            ) == basket_held(s.rec(id).basket@, t),
{
    let d = s.rec(id).data;
    let res = resolution_of_code(s.rec(id).dispute->0.resolution)->0;
    let to = s.recipient_for(id, res);
    let pf = s.platform_fee_result(id)->Ok_0;
    if s.platform_fee_bps > 0 {
        lemma_split_fee(d.amount as int, s.platform_fee_bps as int);
    }
    let rest = (d.amount - pf) as i128;
    let fee = fee_result(rest, d.fee_bps)->Ok_0;
    lemma_split_fee(rest as int, d.fee_bps as int);
    let a = pay(d.token, s.contract, s.treasury->0, pf as int);
    let b1 = pay(d.token, s.contract, to, rest - fee);
    let b2 = pay(d.token, s.contract, s.fee_collector->0, fee as int);
    let c = basket_payments(s.contract, s.rec(id).basket@, d.token, to);
    let ts = a + (b1 + b2) + c;
    assert(s.finalize_payments(id, res) =~= ts);
    lemma_pay_shape(d.token, s.contract, s.treasury->0, pf as int);
    lemma_pay_shape(d.token, s.contract, to, rest - fee);
    lemma_pay_shape(d.token, s.contract, s.fee_collector->0, fee as int);
    lemma_basket_shape(s.contract, s.rec(id).basket@, d.token, to);
    lemma_pay_total(d.token, s.contract, s.treasury->0, pf as int);
    lemma_pay_total(d.token, s.contract, to, rest - fee);
    lemma_pay_total(d.token, s.contract, s.fee_collector->0, fee as int);
    assert forall|k: int| 0 <= k < ts.len() implies {
        let tr = #[trigger] ts[k];
        &&& tr.from == s.contract
        &&& tr.to == to || (tr.token == d.token && (tr.to == s.treasury->0 || tr.to == s.fee_collector->0))
    } by {
        if k < a.len() {
            assert(ts[k] == a[k]);
        } else if k < a.len() + b1.len() {
            assert(ts[k] == b1[k - a.len()]);
        } else if k < a.len() + b1.len() + b2.len() {
            assert(ts[k] == b2[k - a.len() - b1.len()]);
        } else {
            assert(ts[k] == c[k - a.len() - b1.len() - b2.len()]);
        }
    }
    assert forall|t: Address| t != d.token implies #[trigger] total_of(ts, t) == basket_held(
        s.rec(id).basket@,
        t,
    ) by {
        lemma_total_of_concat(b1, b2, t);
        lemma_total_of_concat(a, b1 + b2, t);
        lemma_total_of_concat(a + (b1 + b2), c, t);
    }
}

proof fn lemma_each_bps_within(p: Seq<Payee>)
    ensures
        sum_bps(p) >= 0,
        forall|k: int| 0 <= k < p.len() ==> (#[trigger] p[k]).bps <= sum_bps(p),
    decreases p.len(),
{
    if p.len() > 0 {
        lemma_each_bps_within(p.drop_first());
        assert forall|k: int| 0 <= k < p.len() implies (#[trigger] p[k]).bps <= sum_bps(p) by {
            if k > 0 {
                assert(p[k] == p.drop_first()[k - 1]);
            }
        }
    }
}

proof fn lemma_floor_share_bounds(amount: int, bps: int)
    requires
        0 <= amount,
        0 <= bps <= 10_000,
    ensures
        0 <= amount * bps / 10_000 <= amount,
{
    assert(0 <= amount * bps <= amount * 10_000) by (nonlinear_arith)
        requires
            0 <= amount,
            0 <= bps <= 10_000,
    ;
}

proof fn lemma_total_to_absent(ts: Seq<Transfer>, a: Address)
    requires
        forall|k: int| 0 <= k < ts.len() ==> (#[trigger] ts[k]).to != a,
    ensures
        total_to(ts, a) == 0,
    decreases ts.len(),
{
    if ts.len() > 0 {
        assert forall|k: int| 0 <= k < ts.drop_first().len() implies (#[trigger] ts.drop_first()[k]).to != a by {
            assert(ts.drop_first()[k] == ts[k + 1]);
        }
        lemma_total_to_absent(ts.drop_first(), a);
    }
}

/// The payments of `share_payments` to an address that exactly one payee of
/// `p`, the one at `j`, holds: that payee's floored share.
proof fn lemma_shares_to(token: Address, from: Address, p: Seq<Payee>, amount: int, j: int)
    requires
        0 <= amount <= i128::MAX,
        forall|k: int| 0 <= k < p.len() ==> (#[trigger] p[k]).bps <= 10_000,
        0 <= j < p.len() ==> forall|k: int| 0 <= k < p.len() && k != j ==> (#[trigger] p[k]).address
            != p[j].address,
    ensures
        0 <= j < p.len() ==> total_to(share_payments(token, from, p, amount), p[j].address) == amount
            * (p[j].bps as int) / 10_000,
        forall|a: Address|
            (forall|k: int| 0 <= k < p.len() ==> (#[trigger] p[k]).address != a) ==> #[trigger] total_to(
                share_payments(token, from, p, amount),
                a,
            ) == 0,
    decreases p.len(),
{
    if p.len() > 0 {
        let tail = p.drop_first();
        assert forall|k: int| 0 <= k < tail.len() implies (#[trigger] tail[k]).bps <= 10_000 by {
            assert(tail[k] == p[k + 1]);
        }
        if 1 <= j < p.len() {
            assert forall|k: int| 0 <= k < tail.len() && k != j - 1 implies (#[trigger] tail[k]).address
                != tail[j - 1].address by {
                assert(tail[k] == p[k + 1]);
                assert(tail[j - 1] == p[j]);
            }
        }
        lemma_shares_to(token, from, tail, amount, j - 1);
        let s0 = amount * (p[0].bps as int) / 10_000;
        lemma_floor_share_bounds(amount, p[0].bps as int);
        let h = pay(token, from, p[0].address, s0);
        lemma_pay_total(token, from, p[0].address, s0);
        assert(share_payments(token, from, p, amount) == h + share_payments(token, from, tail, amount));
        assert forall|a: Address|
            (forall|k: int| 0 <= k < p.len() ==> (#[trigger] p[k]).address != a) implies #[trigger] total_to(
            share_payments(token, from, p, amount),
            a,
        ) == 0 by {
            lemma_total_to_concat(h, share_payments(token, from, tail, amount), a);
            assert(p[0].address != a);
            assert forall|k: int| 0 <= k < tail.len() implies (#[trigger] tail[k]).address != a by {
                assert(tail[k] == p[k + 1]);
            }
        }
        if 0 <= j < p.len() {
            lemma_total_to_concat(h, share_payments(token, from, tail, amount), p[j].address);
            if j == 0 {
                assert forall|k: int| 0 <= k < tail.len() implies (#[trigger] tail[k]).address
                    != p[0].address by {
                    assert(tail[k] == p[k + 1]);
                }
            } else {
                assert(tail[j - 1] == p[j]);
            }
        }
    }
}

/// Splitting `amount` among payees whose shares sum to 10_000 basis points
/// pays every payee after the first whose address no other payee holds
/// exactly `amount * bps / 10_000`, rounded down.
pub proof fn law_payee_receives_its_share(token: Address, from: Address, p: Seq<Payee>, amount: int, i: int)
    requires
        p.len() >= 1,
        sum_bps(p) == BASIS_POINTS,
        0 <= amount <= i128::MAX,
        1 <= i < p.len(),
        forall|k: int| 0 <= k < p.len() && k != i ==> (#[trigger] p[k]).address != p[i].address,
    ensures
        total_to(distribution(token, from, p, amount), p[i].address) == amount * (p[i].bps as int) / 10_000,
{
    let tail = p.drop_first();
    lemma_each_bps_within(p);
    assert forall|k: int| 0 <= k < tail.len() implies (#[trigger] tail[k]).bps <= 10_000 by {
        assert(tail[k] == p[k + 1]);
    }
    assert forall|k: int| 0 <= k < tail.len() && k != i - 1 implies (#[trigger] tail[k]).address
        != tail[i - 1].address by {
        assert(tail[k] == p[k + 1]);
    }
    assert(tail[i - 1] == p[i]);
    lemma_shares_to(token, from, tail, amount, i - 1);
    lemma_distribution_total(token, from, p, amount);
    let rest = amount - shares_total(tail, amount);
    lemma_pay_total(token, from, p[0].address, rest);
    assert(p[0].address != p[i].address);
    lemma_total_to_concat(share_payments(token, from, tail, amount), pay(token, from, p[0].address, rest), p[i].address);
}

/// Releasing an escrow at protocol rate `rate` pays every payee after the
/// first, whose address neither another payee nor the fee collector holds,
/// exactly its floored share of the amount net of the protocol fee:
/// `net * bps / 10_000` with `net = amount - amount * rate / 10_000`.
pub proof fn law_release_pays_each_payee_its_share(s: Escrow, id: u64, fc: Address, rate: u32, i: int)
    requires
        s.wf(),
        s.has(id),
        rate <= BASIS_POINTS,
        s.release_error(id, rate) is None,
        1 <= i < s.rec(id).data.payees@.len(),
        forall|k: int|
            0 <= k < s.rec(id).data.payees@.len() && k != i ==> (#[trigger] s.rec(id).data.payees@[k]).address
                != s.rec(id).data.payees@[i].address,
        s.rec(id).data.payees@[i].address != fc,
    ensures
        total_to(s.release_payments(id, fc, rate), s.rec(id).data.payees@[i].address) == (s.rec(id).data.amount
            - s.rec(id).data.amount * (rate as int) / 10_000) * (s.rec(id).data.payees@[i].bps as int) / 10_000,
{
    let d = s.rec(id).data;
    let who = d.payees@[i].address;
    assert(record_wf(s.escrows@[id - 1]));
    lemma_split_fee(d.amount as int, rate as int);
    let fee = fee_result(d.amount, rate)->Ok_0;
    let a = pay(d.token, s.contract, fc, fee as int);
    let b = distribution(d.token, s.contract, d.payees@, d.amount - fee);
    let c = basket_payments(s.contract, s.rec(id).basket@, d.token, d.payees@[0].address);
    lemma_pay_total(d.token, s.contract, fc, fee as int);
    law_payee_receives_its_share(d.token, s.contract, d.payees@, d.amount - fee, i);
    lemma_basket_shape(s.contract, s.rec(id).basket@, d.token, d.payees@[0].address);
    assert(d.payees@[0].address != who);
    lemma_total_to_absent(c, who);
    lemma_total_to_concat(a, b, who);
    lemma_total_to_concat(a + b, c, who);
}

} // verus!
