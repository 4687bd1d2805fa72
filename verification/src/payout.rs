//! The token movements of settlements, refunds and fee payments.

use vstd::prelude::*;
use crate::errors::ContractError;
use crate::fees::{calculate_protocol_fee, fee_result};
use crate::state::sum_bps;
use crate::types::{Address, Payee, TokenEntry, Transfer};

verus! {

/// A payment of `amount` of `token` from `from` to `to`, omitted unless
/// positive.
pub open spec fn pay(token: Address, from: Address, to: Address, amount: int) -> Seq<Transfer> {
    if amount > 0 {
        seq![Transfer { token, from, to, amount: amount as i128 }]
    } else {
        Seq::empty()
    }
}

/// Total amount moved by `ts`.
pub open spec fn total(ts: Seq<Transfer>) -> int
    decreases ts.len(),
{
    if ts.len() == 0 {
        0
    } else {
        ts[0].amount + total(ts.drop_first())
    }
}

/// Total amount of `token` moved by `ts`.
pub open spec fn total_of(ts: Seq<Transfer>, token: Address) -> int
    decreases ts.len(),
{
    if ts.len() == 0 {
        0
    } else {
        (if ts[0].token == token {
            ts[0].amount as int
        } else {
            0
        }) + total_of(ts.drop_first(), token)
    }
}

/// Total amount `ts` pays to `to`.
pub open spec fn total_to(ts: Seq<Transfer>, to: Address) -> int
    decreases ts.len(),
{
    if ts.len() == 0 {
        0
    } else {
        (if ts[0].to == to {
            ts[0].amount as int
        } else {
            0
        }) + total_to(ts.drop_first(), to)
    }
}

pub proof fn lemma_total_concat(a: Seq<Transfer>, b: Seq<Transfer>)
    ensures
        total(a + b) == total(a) + total(b),
    decreases a.len(),
{
    if a.len() > 0 {
        assert((a + b).drop_first() =~= a.drop_first() + b);
        lemma_total_concat(a.drop_first(), b);
    } else {
        assert(a + b =~= b);
    }
}

pub proof fn lemma_total_of_concat(a: Seq<Transfer>, b: Seq<Transfer>, token: Address)
    ensures
        total_of(a + b, token) == total_of(a, token) + total_of(b, token),
    decreases a.len(),
{
    if a.len() > 0 {
        assert((a + b).drop_first() =~= a.drop_first() + b);
        lemma_total_of_concat(a.drop_first(), b, token);
    } else {
        assert(a + b =~= b);
    }
}

pub proof fn lemma_total_to_concat(a: Seq<Transfer>, b: Seq<Transfer>, to: Address)
    ensures
        total_to(a + b, to) == total_to(a, to) + total_to(b, to),
    decreases a.len(),
{
    if a.len() > 0 {
        assert((a + b).drop_first() =~= a.drop_first() + b);
        lemma_total_to_concat(a.drop_first(), b, to);
    } else {
        assert(a + b =~= b);
    }
}

/// A payee's floored share of `amount`.
pub open spec fn share(amount: int, bps: int) -> int {
    amount * bps / 10_000
}

/// Sum of the floored shares of the payees in `p`.
pub open spec fn shares_total(p: Seq<Payee>, amount: int) -> int
    decreases p.len(),
{
    if p.len() == 0 {
        0
    } else {
        share(amount, p[0].bps as int) + shares_total(p.drop_first(), amount)
    }
}

/// Payments of the floored shares of the payees in `p`.
pub open spec fn share_payments(token: Address, from: Address, p: Seq<Payee>, amount: int) -> Seq<Transfer>
    decreases p.len(),
{
    if p.len() == 0 {
        Seq::empty()
    } else {
        pay(token, from, p[0].address, share(amount, p[0].bps as int)) + share_payments(
            token,
            from,
            p.drop_first(),
            amount,
        )
    }
}

/// Whether some payee after the first makes its share overflow `i128`.
pub open spec fn share_overflows(p: Seq<Payee>, amount: int) -> bool {
    exists|i: int| 1 <= i < p.len() && amount * (p[i].bps as int) > i128::MAX
}

/// How `amount` is split among the payees: every payee after the first gets
/// its floored share, the first gets the rest, rounding dust included.
pub open spec fn distribution(token: Address, from: Address, p: Seq<Payee>, amount: int) -> Seq<Transfer> {
    let tail = p.drop_first();
    share_payments(token, from, tail, amount) + pay(
        token,
        from,
        p[0].address,
        amount - shares_total(tail, amount),
    )
}

/// Totals of a single payment.
pub proof fn lemma_single(t: Transfer)
    ensures
        total(seq![t]) == t.amount,
        forall|tk: Address| #[trigger] total_of(seq![t], tk) == (if t.token == tk { t.amount as int } else { 0 }),
        forall|to: Address| #[trigger] total_to(seq![t], to) == (if t.to == to { t.amount as int } else { 0 }),
{
    let s = seq![t];
    assert(s.drop_first() =~= Seq::<Transfer>::empty());
    assert(total(Seq::<Transfer>::empty()) == 0);
    assert forall|tk: Address| #[trigger] total_of(seq![t], tk) == (if t.token == tk { t.amount as int } else { 0 }) by {
        assert(total_of(Seq::<Transfer>::empty(), tk) == 0);
    }
    assert forall|to: Address| #[trigger] total_to(seq![t], to) == (if t.to == to { t.amount as int } else { 0 }) by {
        assert(total_to(Seq::<Transfer>::empty(), to) == 0);
    }
}

pub proof fn lemma_pay_total(token: Address, from: Address, to: Address, amount: int)
    requires
        amount <= i128::MAX,
    ensures
        total(pay(token, from, to, amount)) == (if amount > 0 { amount } else { 0 }),
        total_of(pay(token, from, to, amount), token) == (if amount > 0 { amount } else { 0 }),
        forall|tk: Address| tk != token ==> #[trigger] total_of(pay(token, from, to, amount), tk) == 0,
        total_to(pay(token, from, to, amount), to) == (if amount > 0 { amount } else { 0 }),
        forall|o: Address| o != to ==> #[trigger] total_to(pay(token, from, to, amount), o) == 0,
{
    if amount > 0 {
        lemma_single(Transfer { token, from, to, amount: amount as i128 });
    } else {
        assert(forall|tk: Address| #[trigger] total_of(Seq::<Transfer>::empty(), tk) == 0);
        assert(forall|o: Address| #[trigger] total_to(Seq::<Transfer>::empty(), o) == 0);
    }
}

proof fn lemma_share_bounds(amount: int, bps: int)
    requires
        amount >= 0,
        0 <= bps,
    ensures
        share(amount, bps) >= 0,
        share(amount, bps) * 10_000 <= amount * bps,
        bps <= 10_000 ==> share(amount, bps) <= amount,
{
    assert(amount * bps >= 0) by (nonlinear_arith)
        requires
            amount >= 0,
            bps >= 0,
    ;
    assert(share(amount, bps) * 10_000 <= amount * bps) by (nonlinear_arith)
        requires
            amount * bps >= 0,
    ;
    if bps <= 10_000 {
        assert(amount * bps <= amount * 10_000) by (nonlinear_arith)
            requires
                amount >= 0,
                bps <= 10_000,
        ;
    }
}

/// The shares of a tail of payees never add up to more than the tail's
/// basis points allow.
proof fn lemma_shares_total_bound(p: Seq<Payee>, amount: int)
    requires
        0 <= amount <= i128::MAX,
        sum_bps(p) <= 10_000,
    ensures
        0 <= shares_total(p, amount),
        shares_total(p, amount) * 10_000 <= amount * sum_bps(p),
        total(share_payments(Address(0), Address(0), p, amount)) == shares_total(p, amount),
    decreases p.len(),
{
    if p.len() > 0 {
        lemma_sum_bps_nonneg(p.drop_first());
        lemma_shares_total_bound(p.drop_first(), amount);
        lemma_share_bounds(amount, p[0].bps as int);
        assert(amount * sum_bps(p) == amount * (p[0].bps as int) + amount * sum_bps(p.drop_first()))
            by (nonlinear_arith)
            requires
                sum_bps(p) == p[0].bps + sum_bps(p.drop_first()),
        ;
        let s = share(amount, p[0].bps as int);
        lemma_pay_total(Address(0), Address(0), p[0].address, s);
        lemma_total_concat(
            pay(Address(0), Address(0), p[0].address, s),
            share_payments(Address(0), Address(0), p.drop_first(), amount),
        );
    }
}

proof fn lemma_sum_bps_nonneg(p: Seq<Payee>)
    ensures
        sum_bps(p) >= 0,
    decreases p.len(),
{
    if p.len() > 0 {
        lemma_sum_bps_nonneg(p.drop_first());
    }
}

/// `total` does not depend on the token or sender of the payments.
proof fn lemma_share_payments_total(token: Address, from: Address, p: Seq<Payee>, amount: int)
    requires
        0 <= amount <= i128::MAX,
        sum_bps(p) <= 10_000,
    ensures
        total(share_payments(token, from, p, amount)) == total(
            share_payments(Address(0), Address(0), p, amount),
        ),
        total_of(share_payments(token, from, p, amount), token) == total(
            share_payments(token, from, p, amount),
        ),
    decreases p.len(),
{
    if p.len() > 0 {
        lemma_sum_bps_nonneg(p.drop_first());
        lemma_share_bounds(amount, p[0].bps as int);
        lemma_share_payments_total(token, from, p.drop_first(), amount);
        let s = share(amount, p[0].bps as int);
        lemma_pay_total(token, from, p[0].address, s);
        lemma_pay_total(Address(0), Address(0), p[0].address, s);
        lemma_total_concat(
            pay(token, from, p[0].address, s),
            share_payments(token, from, p.drop_first(), amount),
        );
        lemma_total_of_concat(
            pay(token, from, p[0].address, s),
            share_payments(token, from, p.drop_first(), amount),
            token,
        );
        lemma_total_concat(
            pay(Address(0), Address(0), p[0].address, s),
            share_payments(Address(0), Address(0), p.drop_first(), amount),
        );
    }
}

/// Splitting `amount` among payees whose shares sum to the whole pays out
/// exactly `amount`, all of it in `token`.
pub proof fn lemma_distribution_total(token: Address, from: Address, p: Seq<Payee>, amount: int)
    requires
        0 <= amount <= i128::MAX,
        p.len() >= 1,
        sum_bps(p) == 10_000,
    ensures
        total(distribution(token, from, p, amount)) == amount,
        total_of(distribution(token, from, p, amount), token) == amount,
        0 <= shares_total(p.drop_first(), amount) <= amount,
{
    let tail = p.drop_first();
    lemma_sum_bps_nonneg(tail);
    assert(sum_bps(tail) <= 10_000) by {
        assert(sum_bps(p) == p[0].bps + sum_bps(tail));
    }
    lemma_shares_total_bound(tail, amount);
    lemma_share_payments_total(token, from, tail, amount);
    assert(amount * sum_bps(tail) <= amount * 10_000) by (nonlinear_arith)
        requires
            amount >= 0,
            sum_bps(tail) <= 10_000,
    ;
    let rest = amount - shares_total(tail, amount);
    lemma_pay_total(token, from, p[0].address, rest);
    lemma_total_concat(share_payments(token, from, tail, amount), pay(token, from, p[0].address, rest));
    lemma_total_of_concat(
        share_payments(token, from, tail, amount),
        pay(token, from, p[0].address, rest),
        token,
    );
}

/// Appends a payment of `amount` unless it is not positive.
pub fn payout(ts: &mut Vec<Transfer>, token: Address, from: Address, to: Address, amount: i128)
    ensures
        final(ts)@ == old(ts)@ + pay(token, from, to, amount as int),
{
    if amount > 0 {
        ts.push(Transfer { token, from, to, amount });
        proof {
            assert(final(ts)@ =~= old(ts)@ + pay(token, from, to, amount as int));
        }
    } else {
        proof {
            assert(final(ts)@ =~= old(ts)@ + pay(token, from, to, amount as int));
        }
    }
}

/// Appends the payments splitting `amount` among `payees`; refuses a
/// negative amount, and a share computation that overflows.
pub fn distribute_to_payees(
    ts: &mut Vec<Transfer>,
    token: Address,
    from: Address,
    payees: &Vec<Payee>,
    amount: i128,
) -> (r: Result<(), ContractError>)
    requires
        payees@.len() >= 1,
        sum_bps(payees@) == 10_000,
    ensures
        r == (if amount < 0 {
            Err(ContractError::InvalidAmount)
        } else if share_overflows(payees@, amount as int) {
            Err(ContractError::ArithmeticError)
        } else {
            Ok(())
        }),
        r is Ok ==> final(ts)@ == old(ts)@ + distribution(token, from, payees@, amount as int),
        r is Err ==> final(ts)@ == old(ts)@,
{
    if amount < 0 {
        return Err(ContractError::InvalidAmount);
    }
    let ghost p = payees@;
    let ghost tail = p.drop_first();
    proof {
        lemma_distribution_total(token, from, p, amount as int);
    }
    // Check every share first, so that a refusal appends nothing.
    let mut k: usize = 1;
    while k < payees.len()
        invariant
            1 <= k <= payees.len(),
            amount >= 0,
            forall|i: int| 1 <= i < k ==> amount * (payees@[i].bps as int) <= i128::MAX,
        decreases payees.len() - k,
    {
        let bps = payees[k].bps as i128;
        if amount.checked_mul(bps).is_none() {
            return Err(ContractError::ArithmeticError);
        }
        k = k + 1;
    }
    let ghost start = ts@;
    let mut remaining: i128 = amount;
    let mut i: usize = 1;
    proof {
        assert(tail.subrange(0, 0) =~= Seq::<Payee>::empty());
        assert(tail.subrange(0, tail.len() as int) =~= tail);
        assert(shares_total(Seq::<Payee>::empty(), amount as int) == 0);
        assert(share_payments(token, from, Seq::<Payee>::empty(), amount as int) == Seq::<Transfer>::empty());
        assert(ts@ =~= start + Seq::<Transfer>::empty());
    }
    while i < payees.len()
        invariant
            1 <= i <= payees.len(),
            p == payees@,
            tail == p.drop_first(),
            amount >= 0,
            forall|j: int| 1 <= j < p.len() ==> amount * (p[j].bps as int) <= i128::MAX,
            ts@ == start + share_payments(token, from, tail.subrange(0, i - 1), amount as int),
            remaining == amount - shares_total(tail.subrange(0, i - 1), amount as int),
            0 <= shares_total(tail, amount as int) <= amount,
            shares_total(tail, amount as int) == shares_total(tail.subrange(0, i - 1), amount as int)
                + shares_total(tail.subrange(i - 1, tail.len() as int), amount as int),
            shares_total(tail.subrange(i - 1, tail.len() as int), amount as int) >= 0,
        decreases payees.len() - i,
    {
        let payee = payees[i];
        let product = amount * (payee.bps as i128);
        let payee_amount = product / 10_000;
        proof {
            let pre = tail.subrange(0, i - 1);
            let post = tail.subrange(0, i as int);
            let suf = tail.subrange(i - 1, tail.len() as int);
            assert(tail[i - 1] == payee);
            lemma_append_share(token, from, pre, payee, amount as int);
            assert(post =~= pre.push(payee));
            assert(suf[0] == payee);
            assert(suf.drop_first() =~= tail.subrange(i as int, tail.len() as int));
            lemma_shares_total_nonneg(tail.subrange(i as int, tail.len() as int), amount as int);
            lemma_share_bounds(amount as int, payee.bps as int);
        }
        payout(ts, token, from, payee.address, payee_amount);
        remaining = remaining - payee_amount;
        i = i + 1;
    }
    proof {
        assert(tail.subrange(0, i - 1) =~= tail);
    }
    let first = payees[0].address;
    payout(ts, token, from, first, remaining);
    proof {
        assert(ts@ =~= start + distribution(token, from, p, amount as int));
    }
    Ok(())
}

proof fn lemma_shares_total_nonneg(p: Seq<Payee>, amount: int)
    requires
        amount >= 0,
    ensures
        shares_total(p, amount) >= 0,
    decreases p.len(),
{
    if p.len() > 0 {
        lemma_shares_total_nonneg(p.drop_first(), amount);
        lemma_share_bounds(amount, p[0].bps as int);
    }
}

/// Appending one payee to the front part of a tail adds its share.
proof fn lemma_append_share(token: Address, from: Address, pre: Seq<Payee>, x: Payee, amount: int)
    ensures
        shares_total(pre.push(x), amount) == shares_total(pre, amount) + share(amount, x.bps as int),
        share_payments(token, from, pre.push(x), amount) == share_payments(token, from, pre, amount)
            + pay(token, from, x.address, share(amount, x.bps as int)),
    decreases pre.len(),
{
    if pre.len() == 0 {
        assert(pre.push(x).drop_first() =~= Seq::<Payee>::empty());
        assert(shares_total(Seq::<Payee>::empty(), amount) == 0);
        assert(share_payments(token, from, Seq::<Payee>::empty(), amount) == Seq::<Transfer>::empty());
        assert(share_payments(token, from, pre.push(x), amount) =~= pay(
            token,
            from,
            x.address,
            share(amount, x.bps as int),
        ) + Seq::<Transfer>::empty());
        assert(share_payments(token, from, pre, amount) =~= Seq::<Transfer>::empty());
        assert(Seq::<Transfer>::empty() + pay(token, from, x.address, share(amount, x.bps as int))
            =~= pay(token, from, x.address, share(amount, x.bps as int)));
    } else {
        assert(pre.push(x).drop_first() =~= pre.drop_first().push(x));
        lemma_append_share(token, from, pre.drop_first(), x, amount);
        let h = pay(token, from, pre[0].address, share(amount, pre[0].bps as int));
        assert(h + (share_payments(token, from, pre.drop_first(), amount) + pay(
            token,
            from,
            x.address,
            share(amount, x.bps as int),
        )) =~= (h + share_payments(token, from, pre.drop_first(), amount)) + pay(
            token,
            from,
            x.address,
            share(amount, x.bps as int),
        ));
    }
}

/// Payments of every basket entry except those in the escrow's primary token.
pub open spec fn basket_payments(from: Address, basket: Seq<TokenEntry>, primary: Address, to: Address) -> Seq<
    Transfer,
>
    decreases basket.len(),
{
    if basket.len() == 0 {
        Seq::empty()
    } else {
        (if basket[0].token == primary {
            Seq::empty()
        } else {
            pay(basket[0].token, from, to, basket[0].amount as int)
        }) + basket_payments(from, basket.drop_first(), primary, to)
    }
}

/// Basket payments never move the primary token.
pub proof fn lemma_basket_primary(from: Address, basket: Seq<TokenEntry>, primary: Address, to: Address)
    ensures
        total_of(basket_payments(from, basket, primary, to), primary) == 0,
    decreases basket.len(),
{
    if basket.len() > 0 {
        lemma_basket_primary(from, basket.drop_first(), primary, to);
        let h = if basket[0].token == primary {
            Seq::<Transfer>::empty()
        } else {
            pay(basket[0].token, from, to, basket[0].amount as int)
        };
        lemma_total_of_concat(h, basket_payments(from, basket.drop_first(), primary, to), primary);
        if basket[0].token != primary {
            lemma_pay_total(basket[0].token, from, to, basket[0].amount as int);
        } else {
            assert(total_of(Seq::<Transfer>::empty(), primary) == 0);
        }
    }
}

/// Appends the payments of every non-primary basket entry to `to`.
pub fn basket_payouts(
    ts: &mut Vec<Transfer>,
    from: Address,
    basket: &Vec<TokenEntry>,
    primary: Address,
    to: Address,
)
    ensures
        final(ts)@ == old(ts)@ + basket_payments(from, basket@, primary, to),
{
    let ghost start = ts@;
    let mut i: usize = 0;
    while i < basket.len()
        invariant
            0 <= i <= basket.len(),
            ts@ == start + basket_payments(from, basket@.subrange(0, i as int), primary, to),
        decreases basket.len() - i,
    {
        let e = basket[i];
        proof {
            lemma_basket_append(from, basket@.subrange(0, i as int), e, primary, to);
            assert(basket@.subrange(0, i + 1) =~= basket@.subrange(0, i as int).push(e));
        }
        if e.token != primary {
            payout(ts, e.token, from, to, e.amount);
        } else {
            proof {
                assert(ts@ =~= ts@ + Seq::<Transfer>::empty());
            }
        }
        proof {
            assert(ts@ =~= start + basket_payments(from, basket@.subrange(0, i + 1), primary, to));
        }
        i = i + 1;
    }
    proof {
        assert(basket@.subrange(0, i as int) =~= basket@);
    }
}

proof fn lemma_basket_append(from: Address, pre: Seq<TokenEntry>, x: TokenEntry, primary: Address, to: Address)
    ensures
        basket_payments(from, pre.push(x), primary, to) == basket_payments(from, pre, primary, to) + (
        if x.token == primary {
            Seq::<Transfer>::empty()
        } else {
            pay(x.token, from, to, x.amount as int)
        }),
    decreases pre.len(),
{
    let t = if x.token == primary {
        Seq::<Transfer>::empty()
    } else {
        pay(x.token, from, to, x.amount as int)
    };
    if pre.len() == 0 {
        assert(pre.push(x).drop_first() =~= Seq::<TokenEntry>::empty());
        assert(basket_payments(from, Seq::<TokenEntry>::empty(), primary, to) == Seq::<Transfer>::empty());
        assert(basket_payments(from, pre.push(x), primary, to) =~= t + Seq::<Transfer>::empty());
        assert(basket_payments(from, pre, primary, to) =~= Seq::<Transfer>::empty());
        assert(Seq::<Transfer>::empty() + t =~= t);
    } else {
        assert(pre.push(x).drop_first() =~= pre.drop_first().push(x));
        lemma_basket_append(from, pre.drop_first(), x, primary, to);
        let h = if pre[0].token == primary {
            Seq::<Transfer>::empty()
        } else {
            pay(pre[0].token, from, to, pre[0].amount as int)
        };
        assert(h + (basket_payments(from, pre.drop_first(), primary, to) + t) =~= (h
            + basket_payments(from, pre.drop_first(), primary, to)) + t);
    }
}

/// Payments of every basket entry with a positive amount, in basket order.
pub open spec fn basket_deposits(from: Address, basket: Seq<TokenEntry>, to: Address) -> Seq<Transfer>
    decreases basket.len(),
{
    if basket.len() == 0 {
        Seq::empty()
    } else {
        pay(basket[0].token, from, to, basket[0].amount as int) + basket_deposits(from, basket.drop_first(), to)
    }
}

proof fn lemma_deposits_append(from: Address, pre: Seq<TokenEntry>, x: TokenEntry, to: Address)
    ensures
        basket_deposits(from, pre.push(x), to) == basket_deposits(from, pre, to) + pay(
            x.token,
            from,
            to,
            x.amount as int,
        ),
    decreases pre.len(),
{
    let t = pay(x.token, from, to, x.amount as int);
    if pre.len() == 0 {
        assert(pre.push(x).drop_first() =~= Seq::<TokenEntry>::empty());
        assert(basket_deposits(from, Seq::<TokenEntry>::empty(), to) == Seq::<Transfer>::empty());
        assert(basket_deposits(from, pre.push(x), to) =~= t + Seq::<Transfer>::empty());
        assert(basket_deposits(from, pre, to) =~= Seq::<Transfer>::empty());
        assert(Seq::<Transfer>::empty() + t =~= t);
    } else {
        assert(pre.push(x).drop_first() =~= pre.drop_first().push(x));
        lemma_deposits_append(from, pre.drop_first(), x, to);
        let h = pay(pre[0].token, from, to, pre[0].amount as int);
        assert(h + (basket_deposits(from, pre.drop_first(), to) + t) =~= (h + basket_deposits(
            from,
            pre.drop_first(),
            to,
        )) + t);
    }
}

/// Appends the payment of every basket entry with a positive amount to `to`.
pub fn basket_deposit_payouts(ts: &mut Vec<Transfer>, from: Address, basket: &Vec<TokenEntry>, to: Address)
    ensures
        final(ts)@ == old(ts)@ + basket_deposits(from, basket@, to),
{
    let ghost start = ts@;
    let mut i: usize = 0;
    while i < basket.len()
        invariant
            0 <= i <= basket.len(),
            ts@ == start + basket_deposits(from, basket@.subrange(0, i as int), to),
        decreases basket.len() - i,
    {
        let e = basket[i];
        proof {
            lemma_deposits_append(from, basket@.subrange(0, i as int), e, to);
            assert(basket@.subrange(0, i + 1) =~= basket@.subrange(0, i as int).push(e));
        }
        payout(ts, e.token, from, to, e.amount);
        proof {
            assert(ts@ =~= start + basket_deposits(from, basket@.subrange(0, i + 1), to));
        }
        i = i + 1;
    }
    proof {
        assert(basket@.subrange(0, i as int) =~= basket@);
    }
}

/// Payments of `amount` less the protocol fee: the net to `recipient`, then
/// the fee to `fee_collector`, each only when positive.
pub open spec fn fee_split_payments(
    token: Address,
    from: Address,
    recipient: Address,
    fee_collector: Address,
    amount: i128,
    fee_bps: u32,
) -> Seq<Transfer> {
    match fee_result(amount, fee_bps) {
        Ok(fee) => pay(token, from, recipient, amount - fee) + pay(token, from, fee_collector, fee as int),
        Err(_) => Seq::empty(),
    }
}

/// Pays `amount` to `recipient` after taking the protocol fee at `fee_bps`
/// to `fee_collector`; returns `(fee, net)`.
pub fn transfer_with_protocol_fee(
    ts: &mut Vec<Transfer>,
    token: Address,
    from: Address,
    recipient: Address,
    fee_collector: Address,
    amount: i128,
    fee_bps: u32,
) -> (r: Result<(i128, i128), ContractError>)
    ensures
        match fee_result(amount, fee_bps) {
            Ok(fee) => r == Ok::<(i128, i128), ContractError>((fee, (amount - fee) as i128)),
            Err(e) => r == Err::<(i128, i128), ContractError>(e),
        },
        final(ts)@ == old(ts)@ + fee_split_payments(
            token,
            from,
            recipient,
            fee_collector,
            amount,
            fee_bps,
        ),
{
    let (fee, net) = match calculate_protocol_fee(amount, fee_bps) {
        Ok(x) => x,
        Err(e) => {
            proof {
                assert(ts@ =~= old(ts)@ + Seq::<Transfer>::empty());
            }
            return Err(e);
        },
    };
    payout(ts, token, from, recipient, net);
    payout(ts, token, from, fee_collector, fee);
    proof {
        assert(ts@ =~= old(ts)@ + fee_split_payments(
            token,
            from,
            recipient,
            fee_collector,
            amount,
            fee_bps,
        ));
    }
    Ok((fee, net))
}

} // verus!
