//! Escrow creation.

use vstd::prelude::*;
use crate::errors::ContractError;
use crate::events::{
    emit_basket_escrow_created, emit_escrow_created, published, BasketEscrowCreated, Event,
    EscrowCreated, EVENT_SCHEMA_VERSION,
};
use crate::fees::{validate_escrow_fee_bps, validate_resolver_fee_bps};
use crate::resolvers::{contains, has_duplicate, no_duplicates, resolvers_error, validate_resolvers};
use crate::state::{
    append_index, has_owner, history_after, ids_of, payees_valid, record_wf, sum_bps, Escrow,
};
use crate::types::{
    Address, ContractStats, EscrowData, EscrowInput, EscrowState, ExpirySchedule, FallbackResolver,
    MultiResolver, Payee, ResolverSet, TokenEntry,
};
use crate::{
    BASIS_POINTS, DEFAULT_SHIPPING_WINDOW, MAX_ESCROW_AMOUNT, MAX_ESCROW_FEE_BPS, MAX_NOTES_LEN,
    MAX_SHIPPING_WINDOW, MIN_ESCROW_AMOUNT, MIN_SHIPPING_WINDOW,
};

verus! {

/// Maximum number of tokens in a basket escrow.
pub const MAX_BASKET_SIZE: u64 = 10;

/// The resolver a creation announces: the single resolver, the first of
/// several, or the primary of a fallback pair.
pub open spec fn lead_resolver(rs: ResolverSet) -> Address {
    match rs {
        ResolverSet::Single(r) => r,
        ResolverSet::Multi(m) => m.resolvers@[0],
        ResolverSet::Fallback(f) => f.primary,
    }
}

/// The event announcing that escrow `id` was created at `now` with data `d`.
pub open spec fn creation_event(id: u64, d: EscrowData, now: u64) -> Event {
    Event::EscrowCreated(
        EscrowCreated {
            schema_version: EVENT_SCHEMA_VERSION,
            escrow_id: id,
            seller: d.payees@[0].address,
            resolver: lead_resolver(d.resolvers),
            token: d.token,
            amount: d.amount,
            fee_bps: d.fee_bps,
            resolver_fee_bps: d.resolver_fee_bps,
            shipping_window: d.shipping_window,
            timestamp: now,
            new_state: EscrowState::Pending,
        },
    )
}

/// The event announcing batch entry `inp` of `seller`, created as escrow
/// `id` at `now`.
pub open spec fn batch_event(seller: Address, inp: EscrowInput, id: u64, now: u64) -> Event {
    Event::EscrowCreated(
        EscrowCreated {
            schema_version: EVENT_SCHEMA_VERSION,
            escrow_id: id,
            seller,
            resolver: inp.resolver,
            token: inp.token,
            amount: inp.amount,
            fee_bps: inp.fee_bps,
            resolver_fee_bps: 0,
            shipping_window: inp.shipping_window,
            timestamp: now,
            new_state: EscrowState::Pending,
        },
    )
}

/// The event announcing the creation of escrow `id` with data `d` at `now`.
fn creation_event_of(id: u64, d: &EscrowData, now: u64) -> (e: Event)
    requires
        d.payees@.len() > 0,
        d.resolvers matches ResolverSet::Multi(m) ==> m.resolvers@.len() > 0,
    ensures
        e == creation_event(id, *d, now),
{
    let resolver = match &d.resolvers {
        ResolverSet::Single(r) => *r,
        ResolverSet::Multi(m) => m.resolvers[0],
        ResolverSet::Fallback(f) => f.primary,
    };
    Event::EscrowCreated(
        emit_escrow_created(
            id,
            d.payees[0].address,
            resolver,
            d.token,
            d.amount,
            d.fee_bps,
            d.resolver_fee_bps,
            d.shipping_window,
            EscrowState::Pending,
            now,
        ),
    )
}

/// The first defect of a payee list scanned from the front with running
/// total `total`: an overflowing total, a zero address, or shares that do not
/// sum to `BASIS_POINTS`.
pub open spec fn payees_scan(p: Seq<Payee>, total: int) -> Option<ContractError>
    decreases p.len(),
{
    if p.len() == 0 {
        if total != BASIS_POINTS {
            Some(ContractError::PayeeBpsMismatch)
        } else {
            None
        }
    } else {
        let t = total + p[0].bps;
        if t > u32::MAX {
            Some(ContractError::ArithmeticError)
        } else if p[0].address == Address(0) {
            Some(ContractError::InvalidAddress)
        } else {
            payees_scan(p.drop_first(), t)
        }
    }
}

/// The error `validate_payees` reports, if any.
pub open spec fn payees_error(p: Seq<Payee>) -> Option<ContractError> {
    if p.len() == 0 {
        Some(ContractError::InvalidAddress)
    } else {
        payees_scan(p, 0)
    }
}

proof fn lemma_scan_sum(p: Seq<Payee>, total: int)
    requires
        payees_scan(p, total) is None,
    ensures
        total + sum_bps(p) == BASIS_POINTS,
    decreases p.len(),
{
    if p.len() > 0 {
        lemma_scan_sum(p.drop_first(), total + p[0].bps);
    }
}

/// A payee list that validates pays out exactly the whole amount.
pub proof fn lemma_payees_error_none(p: Seq<Payee>)
    requires
        payees_error(p) is None,
    ensures
        payees_valid(p),
{
    lemma_scan_sum(p, 0);
}

/// Checks a payee list: non-empty, no zero address, shares summing to
/// `BASIS_POINTS`.
pub fn validate_payees(payees: &Vec<Payee>) -> (r: Result<(), ContractError>)
    ensures
        r == (match payees_error(payees@) {
            Some(e) => Err(e),
            None => Ok(()),
        }),
{
    if payees.len() == 0 {
        return Err(ContractError::InvalidAddress);
    }
    let mut total: u32 = 0;
    let mut i: usize = 0;
    proof {
        assert(payees@.subrange(0, payees@.len() as int) =~= payees@);
    }
    while i < payees.len()
        invariant
            0 <= i <= payees.len(),
            payees_scan(payees@.subrange(i as int, payees@.len() as int), total as int)
                == payees_scan(payees@, 0),
        decreases payees.len() - i,
    {
        let p = payees[i];
        proof {
            let rest = payees@.subrange(i as int, payees@.len() as int);
            assert(rest[0] == p);
            assert(rest.drop_first() =~= payees@.subrange(i + 1, payees@.len() as int));
        }
        total = match total.checked_add(p.bps) {
            Some(t) => t,
            None => return Err(ContractError::ArithmeticError),
        };
        if p.address == Address::zero() {
            return Err(ContractError::InvalidAddress);
        }
        i = i + 1;
    }
    proof {
        assert(payees@.subrange(i as int, payees@.len() as int) =~= Seq::<Payee>::empty());
    }
    if total != BASIS_POINTS {
        return Err(ContractError::PayeeBpsMismatch);
    }
    Ok(())
}

/// Whether some payee is the resolver, or is the buyer.
pub open spec fn payee_role_conflict(p: Seq<Payee>, resolver: Address, buyer: Option<Address>) -> bool {
    exists|i: int|
        0 <= i < p.len() && (p[i].address == resolver || buyer == Some(p[i].address))
}

/// The single-payee list paying everything to `seller`.
pub open spec fn sole_payee(seller: Address) -> Seq<Payee> {
    seq![Payee { address: seller, bps: BASIS_POINTS }]
}

/// The payee list paying everything to `seller`.
pub fn seller_payees(seller: Address) -> (p: Vec<Payee>)
    ensures
        p@ == sole_payee(seller),
        payees_valid(p@),
{
    let mut p = Vec::new();
    p.push(Payee { address: seller, bps: BASIS_POINTS });
    proof {
        assert(p@ =~= sole_payee(seller));
        assert(sum_bps(p@.drop_first()) == 0);
    }
    p
}

/// The seller of an escrow as the caller supplies it: one address, or the
/// full payee list.
#[derive(Clone, Debug, PartialEq, Eq)]
pub enum SellerOrPayees {
    Seller(Address),
    Payees(Vec<Payee>),
}

/// The payee list a `SellerOrPayees` stands for.
pub open spec fn payees_of(sp: SellerOrPayees) -> Seq<Payee> {
    match sp {
        SellerOrPayees::Seller(s) => sole_payee(s),
        SellerOrPayees::Payees(v) => v@,
    }
}

impl Escrow {
    /// Whether `token` passes the allowlist, when it is enabled.
    pub open spec fn token_allowed(self, token: Address) -> bool {
        !self.allowlist_enabled || self.allowed_tokens@.contains(token)
    }

    /// Refuses a token outside the enabled allowlist.
    pub fn is_token_allowed(&self, token: Address) -> (r: Result<(), ContractError>)
        ensures
            r == (if self.token_allowed(token) {
                Ok(())
            } else {
                Err(ContractError::TokenNotAllowed)
            }),
    {
        if !self.allowlist_enabled {
            return Ok(());
        }
        if contains(&self.allowed_tokens, token) {
            return Ok(());
        }
        Err(ContractError::TokenNotAllowed)
    }

    /// The largest escrow amount in force.
    pub open spec fn max_amt(self) -> i128 {
        self.max_amount.unwrap_or(MAX_ESCROW_AMOUNT)
    }

    /// The smallest escrow amount in force.
    pub open spec fn min_amt(self) -> i128 {
        self.min_amount.unwrap_or(MIN_ESCROW_AMOUNT)
    }

    /// The error the shared creation path reports, if any.
    pub open spec fn create_error(
        self,
        payees: Seq<Payee>,
        buyer: Option<Address>,
        resolver: Address,
        token: Address,
        amount: i128,
        fee_bps: u32,
        resolver_fee_bps: u32,
        shipping_window: u64,
        notes_len: Option<nat>,
    ) -> Option<ContractError> {
        self.create_error_at(
            payees,
            buyer,
            resolver,
            token,
            amount,
            fee_bps,
            resolver_fee_bps,
            shipping_window,
            notes_len,
            self.next_id(),
        )
    }

    /// The error of creating an escrow under id `next`, if any.
    pub open spec fn create_error_at(
        self,
        payees: Seq<Payee>,
        buyer: Option<Address>,
        resolver: Address,
        token: Address,
        amount: i128,
        fee_bps: u32,
        resolver_fee_bps: u32,
        shipping_window: u64,
        notes_len: Option<nat>,
        next: u64,
    ) -> Option<ContractError> {
        if payees.len() == 0 {
            Some(ContractError::InvalidAddress)
        } else if self.paused {
            Some(ContractError::ContractPaused)
        } else if amount <= 0 {
            Some(ContractError::InvalidAmount)
        } else if amount > self.max_amt() {
            Some(ContractError::AmountExceedsMaximum)
        } else if amount < self.min_amt() {
            Some(ContractError::AmountBelowMinimum)
        } else if shipping_window < MIN_SHIPPING_WINDOW || shipping_window > MAX_SHIPPING_WINDOW {
            Some(ContractError::InvalidShippingWindow)
        } else if fee_bps > MAX_ESCROW_FEE_BPS || resolver_fee_bps > MAX_ESCROW_FEE_BPS {
            Some(ContractError::FeeExceedsMax)
        } else if payees_error(payees) is Some {
            payees_error(payees)
        } else if notes_len matches Some(n) && n > MAX_NOTES_LEN {
            Some(ContractError::InputTooLong)
        } else if payee_role_conflict(payees, resolver, buyer) || buyer == Some(resolver) {
            Some(ContractError::ConflictingRoles)
        } else if self.resolver_strict && !self.approved_resolvers@.contains(resolver) {
            Some(ContractError::UnauthorizedResolver)
        } else if !self.token_allowed(token) {
            Some(ContractError::TokenNotAllowed)
        } else if next == u64::MAX {
            Some(ContractError::ArithmeticError)
        } else {
            None
        }
    }

    /// Whether `new` is `self` with escrow `id` stored as a new pending escrow
    /// whose data is `d`, and `id` appended to `seller`'s index.
    pub open spec fn created(self, new: Escrow, id: u64, seller: Address, now: u64) -> bool {
        self.created_with(
            new,
            id,
            seller,
            now,
            if self.has(id) {
                self.rec(id).expiry
            } else {
                None
            },
            if self.has(id) {
                self.rec(id).basket@
            } else {
                Seq::empty()
            },
        )
    }

    /// Whether `new` is `self` with escrow `id` stored as a new pending escrow
    /// with expiry schedule `exp` and basket `bk`, and `id` appended to
    /// `seller`'s index.
    pub open spec fn created_with(
        self,
        new: Escrow,
        id: u64,
        seller: Address,
        now: u64,
        exp: Option<ExpirySchedule>,
        bk: Seq<TokenEntry>,
    ) -> bool {
        &&& id == self.next_id()
        &&& new.escrow_counter == Some((id + 1) as u64)
        &&& new.has(id)
        &&& new.rec(id).data.state == EscrowState::Pending
        &&& new.rec(id).data.funded_at == 0
        &&& new.rec(id).data.dispute_deadline == 0
        &&& new.rec(id).data.shipped_at == 0
        &&& new.rec(id).data.delivered_at is None
        &&& new.rec(id).data.tracking_id is None
        &&& new.rec(id).expiry == exp
        &&& new.rec(id).basket@ == bk
        &&& (self.has(id) ==> {
            &&& new.escrows@.len() == self.escrows@.len()
            &&& new.rec(id).dispute == self.rec(id).dispute
            &&& new.rec(id).votes == self.rec(id).votes
            &&& new.rec(id).messages == self.rec(id).messages
            &&& new.rec(id).delivery_proposal == self.rec(id).delivery_proposal
            &&& new.rec(id).history@ == history_after(
                self.rec(id).history@,
                self.rec(id).data.state,
                EscrowState::Pending,
                now,
            )
        })
        &&& (!self.has(id) ==> {
            &&& new.escrows@.len() == self.escrows@.len() + 1
            &&& new.rec(id).dispute is None
            &&& new.rec(id).votes@.len() == 0
            &&& new.rec(id).messages@.len() == 0
            &&& new.rec(id).history@ == seq![(EscrowState::Pending, now)]
            &&& new.rec(id).delivery_proposal is None
        })
        &&& forall|j: int|
            0 <= j < self.escrows@.len() && j != id - 1 ==> new.escrows@[j] == self.escrows@[j]
        &&& forall|o: Address| #[trigger]
            ids_of(new.vendor_index@, o) == (if o == seller {
                ids_of(self.vendor_index@, o).push(id)
            } else {
                ids_of(self.vendor_index@, o)
            })
        &&& forall|o: Address| #[trigger]
            has_owner(new.vendor_index@, o) == (has_owner(self.vendor_index@, o) || o == seller)
    }

    /// Stores a validated escrow and records it in its seller's index.
    fn store_new(&mut self, data: EscrowData, seller: Address, now: u64) -> (id: u64)
        requires
            old(self).wf(),
            old(self).next_id() < u64::MAX,
            payees_valid(data.payees@),
            data.state == EscrowState::Pending,
            data.funded_at == 0,
            data.dispute_deadline == 0,
            data.shipped_at == 0,
            data.delivered_at is None,
            data.tracking_id is None,
        ensures
            final(self).wf(),
            old(self).created(*final(self), id, seller, now),
            final(self).rec(id).data == data,
            *final(self) == (Escrow {
                escrows: final(self).escrows,
                escrow_counter: final(self).escrow_counter,
                vendor_index: final(self).vendor_index,
                ..*old(self)
            }),
    {
        let id = self.insert_escrow(data, now);
        append_index(&mut self.vendor_index, seller, id);
        proof {
            if !old(self).has(id) {
                assert(self.rec(id).basket@ =~= Seq::<TokenEntry>::empty());
            }
        }
        id
    }

    /// Validates the creation of a single-resolver escrow under id `next`.
    #[verifier::loop_isolation(false)]
    fn creation_check(
        &self,
        payees: &Vec<Payee>,
        buyer: Option<Address>,
        resolver: Address,
        token: Address,
        amount: i128,
        fee_bps: u32,
        resolver_fee_bps: u32,
        shipping_window: u64,
        notes: &Option<Vec<u8>>,
        next: u64,
    ) -> (r: Result<(), ContractError>)
        ensures
            r == (match self.create_error_at(
                payees@,
                buyer,
                resolver,
                token,
                amount,
                fee_bps,
                resolver_fee_bps,
                shipping_window,
                match *notes {
                    Some(n) => Some(n@.len()),
                    None => None,
                },
                next,
            ) {
                Some(e) => Err(e),
                None => Ok(()),
            }),
    {
        if payees.len() == 0 {
            return Err(ContractError::InvalidAddress);
        }
        self.ensure_not_paused()?;
        if amount <= 0 {
            return Err(ContractError::InvalidAmount);
        }
        let max_amount = match self.max_amount {
            Some(m) => m,
            None => MAX_ESCROW_AMOUNT,
        };
        if amount > max_amount {
            return Err(ContractError::AmountExceedsMaximum);
        }
        let min_amount = match self.min_amount {
            Some(m) => m,
            None => MIN_ESCROW_AMOUNT,
        };
        if amount < min_amount {
            return Err(ContractError::AmountBelowMinimum);
        }
        if shipping_window < MIN_SHIPPING_WINDOW || shipping_window > MAX_SHIPPING_WINDOW {
            return Err(ContractError::InvalidShippingWindow);
        }
        validate_escrow_fee_bps(fee_bps)?;
        validate_resolver_fee_bps(resolver_fee_bps)?;
        validate_payees(payees)?;
        if let Some(n) = notes {
            if n.len() as u64 > MAX_NOTES_LEN {
                return Err(ContractError::InputTooLong);
            }
        }
        let mut i: usize = 0;
        while i < payees.len()
            invariant
                0 <= i <= payees.len(),
                forall|k: int|
                    0 <= k < i ==> !(payees@[k].address == resolver || buyer == Some(
                        payees@[k].address,
                    )),
            decreases payees.len() - i,
        {
            let a = payees[i].address;
            if resolver == a {
                return Err(ContractError::ConflictingRoles);
            }
            if let Some(b) = buyer {
                if b == a {
                    return Err(ContractError::ConflictingRoles);
                }
            }
            i = i + 1;
        }
        if let Some(b) = buyer {
            if resolver == b {
                return Err(ContractError::ConflictingRoles);
            }
        }
        if self.resolver_strict && !contains(&self.approved_resolvers, resolver) {
            return Err(ContractError::UnauthorizedResolver);
        }
        self.is_token_allowed(token)?;
        if next == u64::MAX {
            return Err(ContractError::ArithmeticError);
        }
        Ok(())
    }

    /// The shared creation path: validates and stores a single-resolver
    /// pending escrow, returning its id.
    #[verifier::loop_isolation(false)]
    pub fn create_escrow_internal(
        &mut self,
        payees: Vec<Payee>,
        buyer: Option<Address>,
        resolver: Address,
        token: Address,
        amount: i128,
        fee_bps: u32,
        resolver_fee_bps: u32,
        shipping_window: u64,
        notes: Option<Vec<u8>>,
        now: u64,
    ) -> (r: Result<u64, ContractError>)
        requires
            old(self).wf(),
        ensures
            final(self).wf(),
            ({
                let err = old(self).create_error(
                    payees@,
                    buyer,
                    resolver,
                    token,
                    amount,
                    fee_bps,
                    resolver_fee_bps,
                    shipping_window,
                    match notes {
                        Some(n) => Some(n@.len()),
                        None => None,
                    },
                );
                match r {
                    Err(e) => err == Some(e) && *final(self) == *old(self),
                    Ok(id) => err is None && old(self).created(*final(self), id, payees@[0].address, now)
                        && published(
                        old(self).events@,
                        final(self).events@,
                        creation_event(id, final(self).rec(id).data, now),
                    ) && final(self).rec(id).data == (EscrowData {
                        payees,
                        buyer,
                        resolvers: ResolverSet::Single(resolver),
                        token,
                        amount,
                        fee_bps,
                        resolver_fee_bps,
                        shipping_window,
                        funded_at: 0,
                        dispute_deadline: 0,
                        state: EscrowState::Pending,
                        shipped_at: 0,
                        delivered_at: None,
                        tracking_id: None,
                        notes,
                    }) && *final(self) == (Escrow {
                        escrows: final(self).escrows,
                        escrow_counter: final(self).escrow_counter,
                        vendor_index: final(self).vendor_index,
                        events: final(self).events,
                        ..*old(self)
                    }),
                }
            }),
    {
        let next = match self.escrow_counter {
            Some(c) => c,
            None => 1,
        };
        self.creation_check(
            &payees,
            buyer,
            resolver,
            token,
            amount,
            fee_bps,
            resolver_fee_bps,
            shipping_window,
            &notes,
            next,
        )?;
        proof {
            lemma_payees_error_none(payees@);
        }
        let seller = payees[0].address;
        let data = EscrowData {
            payees,
            buyer,
            resolvers: ResolverSet::Single(resolver),
            token,
            amount,
            fee_bps,
            resolver_fee_bps,
            shipping_window,
            funded_at: 0,
            dispute_deadline: 0,
            state: EscrowState::Pending,
            shipped_at: 0,
            delivered_at: None,
            tracking_id: None,
            notes,
        };
        let ev = creation_event_of(next, &data, now);
        let id = self.store_new(data, seller, now);
        let ghost stored = *self;
        self.publish(ev);
        proof {
            assert(self.rec(id) == stored.rec(id));
        }
        Ok(id)
    }

    /// Whether `r` and `new` are the outcome of creating a single-resolver
    /// escrow paying `p`: refused while paused, then validated as by
    /// `create_escrow_internal`.
    pub open spec fn create_outcome(
        self,
        new: Escrow,
        r: Result<u64, ContractError>,
        p: Seq<Payee>,
        buyer: Option<Address>,
        resolver: Address,
        token: Address,
        amount: i128,
        fee_bps: u32,
        resolver_fee_bps: u32,
        shipping_window: u64,
        notes: Option<Vec<u8>>,
        now: u64,
    ) -> bool {
        let err = if self.paused {
            Some(ContractError::ContractPaused)
        } else {
            self.create_error(
                p,
                buyer,
                resolver,
                token,
                amount,
                fee_bps,
                resolver_fee_bps,
                shipping_window,
                match notes {
                    Some(n) => Some(n@.len()),
                    None => None,
                },
            )
        };
        match r {
            Err(e) => err == Some(e) && new == self,
            Ok(id) => err is None && self.created(new, id, p[0].address, now)
                && published(self.events@, new.events@, creation_event(id, new.rec(id).data, now))
                && new.rec(id).data.payees@ == p && new.rec(id).data.buyer == buyer
                && new.rec(id).data.resolvers == ResolverSet::Single(resolver)
                && new.rec(id).data.token == token && new.rec(id).data.amount == amount
                && new.rec(id).data.fee_bps == fee_bps
                && new.rec(id).data.resolver_fee_bps == resolver_fee_bps
                && new.rec(id).data.shipping_window == shipping_window
                && new.rec(id).data.notes == notes && new == (Escrow {
                escrows: new.escrows,
                escrow_counter: new.escrow_counter,
                vendor_index: new.vendor_index,
                events: new.events,
                ..self
            }),
        }
    }

    /// Creates a single-resolver escrow paying `seller_or_payees`; refused
    /// while the contract is paused, then validated as by
    /// `create_escrow_internal`.
    pub fn create_escrow(
        &mut self,
        seller_or_payees: SellerOrPayees,
        buyer: Option<Address>,
        resolver: Address,
        token: Address,
        amount: i128,
        fee_bps: u32,
        resolver_fee_bps: u32,
        shipping_window: u64,
        notes: Option<Vec<u8>>,
        now: u64,
    ) -> (r: Result<u64, ContractError>)
        requires
            old(self).wf(),
        ensures
            final(self).wf(),
            old(self).create_outcome(
                *final(self),
                r,
                payees_of(seller_or_payees),
                buyer,
                resolver,
                token,
                amount,
                fee_bps,
                resolver_fee_bps,
                shipping_window,
                notes,
                now,
            ),
    {
        let payees = match seller_or_payees {
            SellerOrPayees::Seller(s) => seller_payees(s),
            SellerOrPayees::Payees(v) => v,
        };
        self.ensure_not_paused()?;
        self.create_escrow_internal(
            payees,
            buyer,
            resolver,
            token,
            amount,
            fee_bps,
            resolver_fee_bps,
            shipping_window,
            notes,
            now,
        )
    }

    /// `create_escrow` with no resolver fee and no notes.
    pub fn create_escrow_8(
        &mut self,
        seller_or_payees: SellerOrPayees,
        buyer: Option<Address>,
        resolver: Address,
        token: Address,
        amount: i128,
        fee_bps: u32,
        shipping_window: u64,
        now: u64,
    ) -> (r: Result<u64, ContractError>)
        requires
            old(self).wf(),
        ensures
            final(self).wf(),
            old(self).create_outcome(
                *final(self),
                r,
                payees_of(seller_or_payees),
                buyer,
                resolver,
                token,
                amount,
                fee_bps,
                0,
                shipping_window,
                None,
                now,
            ),
    {
        self.create_escrow(
            seller_or_payees,
            buyer,
            resolver,
            token,
            amount,
            fee_bps,
            0,
            shipping_window,
            None,
            now,
        )
    }

    /// `create_escrow` with no resolver fee, no notes and the default
    /// shipping window.
    pub fn create_escrow_7(
        &mut self,
        seller_or_payees: SellerOrPayees,
        buyer: Option<Address>,
        resolver: Address,
        token: Address,
        amount: i128,
        fee_bps: u32,
        now: u64,
    ) -> (r: Result<u64, ContractError>)
        requires
            old(self).wf(),
        ensures
            final(self).wf(),
            old(self).create_outcome(
                *final(self),
                r,
                payees_of(seller_or_payees),
                buyer,
                resolver,
                token,
                amount,
                fee_bps,
                0,
                DEFAULT_SHIPPING_WINDOW,
                None,
                now,
            ),
    {
        self.create_escrow(
            seller_or_payees,
            buyer,
            resolver,
            token,
            amount,
            fee_bps,
            0,
            DEFAULT_SHIPPING_WINDOW,
            None,
            now,
        )
    }
}

/// The basket entries pairing each token with its amount.
pub open spec fn basket_of(tokens: Seq<Address>, amounts: Seq<i128>) -> Seq<TokenEntry> {
    Seq::new(tokens.len(), |k: int| TokenEntry { token: tokens[k], amount: amounts[k] })
}

/// The first defect among basket amounts: not positive, above `max`, or
/// below `min`.
pub open spec fn amounts_error(a: Seq<i128>, min: i128, max: i128) -> Option<ContractError>
    decreases a.len(),
{
    if a.len() == 0 {
        None
    } else if a[0] <= 0 {
        Some(ContractError::InvalidAmount)
    } else if a[0] > max {
        Some(ContractError::AmountExceedsMaximum)
    } else if a[0] < min {
        Some(ContractError::AmountBelowMinimum)
    } else {
        amounts_error(a.drop_first(), min, max)
    }
}

/// The error of a fixed-limit amount check: not positive or below the
/// default minimum is `InvalidAmount`, above the default maximum
/// `AmountExceedsMaximum`.
pub open spec fn fixed_amount_error(amount: i128) -> Option<ContractError> {
    if amount <= 0 {
        Some(ContractError::InvalidAmount)
    } else if amount > MAX_ESCROW_AMOUNT {
        Some(ContractError::AmountExceedsMaximum)
    } else if amount < MIN_ESCROW_AMOUNT {
        Some(ContractError::InvalidAmount)
    } else {
        None
    }
}

fn check_fixed_amount(amount: i128) -> (r: Result<(), ContractError>)
    ensures
        r == (match fixed_amount_error(amount) {
            Some(e) => Err(e),
            None => Ok(()),
        }),
{
    if amount <= 0 {
        return Err(ContractError::InvalidAmount);
    }
    if amount > MAX_ESCROW_AMOUNT {
        return Err(ContractError::AmountExceedsMaximum);
    }
    if amount < MIN_ESCROW_AMOUNT {
        return Err(ContractError::InvalidAmount);
    }
    Ok(())
}

impl Escrow {
    /// The error of `create_escrow_with_expiration`'s schedule at `now`, if
    /// any.
    pub open spec fn expiration_error(expires_at: Option<u64>, grace_period: u64, now: u64) -> Option<
        ContractError,
    > {
        match expires_at {
            None => None,
            Some(e) => if e <= now {
                Some(ContractError::InvalidExpiration)
            } else if e + grace_period > u64::MAX {
                Some(ContractError::ArithmeticOverflow)
            } else {
                None
            },
        }
    }

    /// Creates an escrow paying `seller` that, when `expires_at` is given,
    /// must be funded before `expires_at` and may be reclaimed by its buyer
    /// after `expires_at + grace_period`.
    pub fn create_escrow_with_expiration(
        &mut self,
        seller: Address,
        buyer: Option<Address>,
        resolver: Address,
        token: Address,
        amount: i128,
        fee_bps: u32,
        shipping_window: u64,
        expires_at: Option<u64>,
        grace_period: u64,
        now: u64,
    ) -> (r: Result<u64, ContractError>)
        requires
            old(self).wf(),
        ensures
            final(self).wf(),
            ({
                let err = match old(self).create_error(
                    sole_payee(seller),
                    buyer,
                    resolver,
                    token,
                    amount,
                    fee_bps,
                    0,
                    shipping_window,
                    None,
                ) {
                    Some(e) => Some(e),
                    None => Escrow::expiration_error(expires_at, grace_period, now),
                };
                match r {
                    Err(e) => err == Some(e) && *final(self) == *old(self),
                    Ok(id) => {
                        let d = final(self).rec(id).data;
                        &&& err is None
                        &&& old(self).created_with(
                            *final(self),
                            id,
                            seller,
                            now,
                            match expires_at {
                                Some(e) => Some(ExpirySchedule { expires_at: e, grace_period }),
                                None => if old(self).has(id) {
                                    old(self).rec(id).expiry
                                } else {
                                    None
                                },
                            },
                            if old(self).has(id) {
                                old(self).rec(id).basket@
                            } else {
                                Seq::empty()
                            },
                        )
                        &&& d.payees@ == sole_payee(seller)
                        &&& d.buyer == buyer
                        &&& d.resolvers == ResolverSet::Single(resolver)
                        &&& d.token == token
                        &&& d.amount == amount
                        &&& d.fee_bps == fee_bps
                        &&& d.resolver_fee_bps == 0
                        &&& d.shipping_window == shipping_window
                        &&& d.notes is None
                        &&& published(old(self).events@, final(self).events@, creation_event(id, d, now))
                        &&& *final(self) == (Escrow {
                            escrows: final(self).escrows,
                            escrow_counter: final(self).escrow_counter,
                            vendor_index: final(self).vendor_index,
                            events: final(self).events,
                            ..*old(self)
                        })
                    },
                }
            }),
    {
        let payees = seller_payees(seller);
        let next = match self.escrow_counter {
            Some(c) => c,
            None => 1,
        };
        let notes: Option<Vec<u8>> = None;
        self.creation_check(
            &payees,
            buyer,
            resolver,
            token,
            amount,
            fee_bps,
            0,
            shipping_window,
            &notes,
            next,
        )?;
        if let Some(e) = expires_at {
            if e <= now {
                return Err(ContractError::InvalidExpiration);
            }
            if e.checked_add(grace_period).is_none() {
                return Err(ContractError::ArithmeticOverflow);
            }
        }
        proof {
            lemma_payees_error_none(payees@);
        }
        let data = EscrowData {
            payees,
            buyer,
            resolvers: ResolverSet::Single(resolver),
            token,
            amount,
            fee_bps,
            resolver_fee_bps: 0,
            shipping_window,
            funded_at: 0,
            dispute_deadline: 0,
            state: EscrowState::Pending,
            shipped_at: 0,
            delivered_at: None,
            tracking_id: None,
            notes,
        };
        let ev = creation_event_of(next, &data, now);
        let id = self.store_new(data, seller, now);
        if let Some(e) = expires_at {
            let _n = self.escrows.len();
            self.escrows[(id - 1) as usize].expiry = Some(ExpirySchedule { expires_at: e, grace_period });
            proof {
                assert forall|j: int| 0 <= j < self.escrows@.len() implies record_wf(
                    #[trigger] self.escrows@[j],
                ) by {
                    if j != id - 1 {
                        assert(self.escrows@[j] == old(self).escrows@[j]);
                    }
                }
            }
        }
        let ghost stored = *self;
        self.publish(ev);
        proof {
            assert(self.rec(id) == stored.rec(id));
        }
        Ok(id)
    }

    /// Whether `new` is `self` after a creation that also counts the escrow
    /// in `total_created`, storing `d` under id `id`.
    pub open spec fn counted_creation(self, new: Escrow, id: u64, seller: Address, d: EscrowData, now: u64) -> bool {
        &&& self.created(new, id, seller, now)
        &&& new.rec(id).data == d
        &&& published(self.events@, new.events@, creation_event(id, d, now))
        &&& new == (Escrow {
            escrows: new.escrows,
            escrow_counter: new.escrow_counter,
            vendor_index: new.vendor_index,
            events: new.events,
            stats: ContractStats { total_created: (self.stats.total_created + 1) as u64, ..self.stats },
            ..self
        })
    }

    /// The error `create_escrow_multi` reports, if any.
    pub open spec fn create_multi_error(
        self,
        seller: Address,
        buyer: Option<Address>,
        rs: ResolverSet,
        token: Address,
        amount: i128,
        fee_bps: u32,
        now: u64,
    ) -> Option<ContractError> {
        if self.paused {
            Some(ContractError::ContractPaused)
        } else if fixed_amount_error(amount) is Some {
            fixed_amount_error(amount)
        } else if fee_bps > MAX_ESCROW_FEE_BPS {
            Some(ContractError::FeeExceedsMax)
        } else if !self.token_allowed(token) {
            Some(ContractError::TokenNotAllowed)
        } else if resolvers_error(rs, seller, buyer) is Some {
            resolvers_error(rs, seller, buyer)
        } else if self.next_id() == u64::MAX || self.stats.total_created == u64::MAX {
            Some(ContractError::ArithmeticError)
        } else {
            None
        }
    }

    /// Creates an escrow paying `seller`, settled by `threshold` matching
    /// votes of `resolvers`.
    pub fn create_escrow_multi(
        &mut self,
        seller: Address,
        buyer: Option<Address>,
        resolvers: Vec<Address>,
        threshold: u32,
        token: Address,
        amount: i128,
        fee_bps: u32,
        shipping_window: u64,
        now: u64,
    ) -> (r: Result<u64, ContractError>)
        requires
            old(self).wf(),
        ensures
            final(self).wf(),
            ({
                let rs = ResolverSet::Multi(MultiResolver { resolvers, threshold });
                let err = old(self).create_multi_error(seller, buyer, rs, token, amount, fee_bps, now);
                match r {
                    Err(e) => err == Some(e) && *final(self) == *old(self),
                    Ok(id) => err is None && final(self).rec(id).data.payees@ == sole_payee(seller)
                        && old(self).counted_creation(
                        *final(self),
                        id,
                        seller,
                        EscrowData {
                            payees: final(self).rec(id).data.payees,
                            buyer,
                            resolvers: rs,
                            token,
                            amount,
                            fee_bps,
                            resolver_fee_bps: 0,
                            shipping_window,
                            funded_at: 0,
                            dispute_deadline: 0,
                            state: EscrowState::Pending,
                            shipped_at: 0,
                            delivered_at: None,
                            tracking_id: None,
                            notes: None,
                        },
                        now,
                    ),
                }
            }),
    {
        self.ensure_not_paused()?;
        check_fixed_amount(amount)?;
        validate_escrow_fee_bps(fee_bps)?;
        self.is_token_allowed(token)?;
        let rs = ResolverSet::Multi(MultiResolver { resolvers, threshold });
        validate_resolvers(&rs, seller, buyer)?;
        let next = match self.escrow_counter {
            Some(c) => c,
            None => 1,
        };
        if next == u64::MAX || self.stats.total_created == u64::MAX {
            return Err(ContractError::ArithmeticError);
        }
        let data = EscrowData {
            payees: seller_payees(seller),
            buyer,
            resolvers: rs,
            token,
            amount,
            fee_bps,
            resolver_fee_bps: 0,
            shipping_window,
            funded_at: 0,
            dispute_deadline: 0,
            state: EscrowState::Pending,
            shipped_at: 0,
            delivered_at: None,
            tracking_id: None,
            notes: None,
        };
        let ev = creation_event_of(next, &data, now);
        let id = self.store_new(data, seller, now);
        self.stats.total_created = self.stats.total_created + 1;
        let ghost stored = *self;
        self.publish(ev);
        proof {
            assert(self.rec(id) == stored.rec(id));
        }
        Ok(id)
    }

    /// The error `create_escrow_with_fallback` reports, if any.
    pub open spec fn create_fallback_error(
        self,
        seller: Address,
        buyer: Option<Address>,
        rs: ResolverSet,
        amount: i128,
        fee_bps: u32,
        now: u64,
    ) -> Option<ContractError> {
        if self.paused {
            Some(ContractError::ContractPaused)
        } else if fixed_amount_error(amount) is Some {
            fixed_amount_error(amount)
        } else if fee_bps > MAX_ESCROW_FEE_BPS {
            Some(ContractError::FeeExceedsMax)
        } else if resolvers_error(rs, seller, buyer) is Some {
            resolvers_error(rs, seller, buyer)
        } else if self.escrow_counter is None {
            Some(ContractError::NotInitialized)
        } else if self.next_id() == u64::MAX || self.stats.total_created == u64::MAX {
            Some(ContractError::ArithmeticError)
        } else {
            None
        }
    }

    /// Creates an escrow paying `seller` whose disputes `primary_resolver`
    /// settles at any time and `backup_resolver` from `dispute_deadline` on.
    pub fn create_escrow_with_fallback(
        &mut self,
        seller: Address,
        buyer: Option<Address>,
        primary_resolver: Address,
        backup_resolver: Address,
        dispute_deadline: u64,
        token: Address,
        amount: i128,
        fee_bps: u32,
        shipping_window: u64,
        now: u64,
    ) -> (r: Result<u64, ContractError>)
        requires
            old(self).wf(),
        ensures
            final(self).wf(),
            ({
                let rs = ResolverSet::Fallback(
                    FallbackResolver {
                        primary: primary_resolver,
                        backup: backup_resolver,
                        dispute_deadline,
                    },
                );
                let err = old(self).create_fallback_error(seller, buyer, rs, amount, fee_bps, now);
                match r {
                    Err(e) => err == Some(e) && *final(self) == *old(self),
                    Ok(id) => err is None && final(self).rec(id).data.payees@ == sole_payee(seller)
                        && old(self).counted_creation(
                        *final(self),
                        id,
                        seller,
                        EscrowData {
                            payees: final(self).rec(id).data.payees,
                            buyer,
                            resolvers: rs,
                            token,
                            amount,
                            fee_bps,
                            resolver_fee_bps: 0,
                            shipping_window,
                            funded_at: 0,
                            dispute_deadline: 0,
                            state: EscrowState::Pending,
                            shipped_at: 0,
                            delivered_at: None,
                            tracking_id: None,
                            notes: None,
                        },
                        now,
                    ),
                }
            }),
    {
        self.ensure_not_paused()?;
        check_fixed_amount(amount)?;
        validate_escrow_fee_bps(fee_bps)?;
        let rs = ResolverSet::Fallback(
            FallbackResolver { primary: primary_resolver, backup: backup_resolver, dispute_deadline },
        );
        validate_resolvers(&rs, seller, buyer)?;
        let next = match self.escrow_counter {
            Some(c) => c,
            None => return Err(ContractError::NotInitialized),
        };
        if next == u64::MAX || self.stats.total_created == u64::MAX {
            return Err(ContractError::ArithmeticError);
        }
        let data = EscrowData {
            payees: seller_payees(seller),
            buyer,
            resolvers: rs,
            token,
            amount,
            fee_bps,
            resolver_fee_bps: 0,
            shipping_window,
            funded_at: 0,
            dispute_deadline: 0,
            state: EscrowState::Pending,
            shipped_at: 0,
            delivered_at: None,
            tracking_id: None,
            notes: None,
        };
        let ev = creation_event_of(next, &data, now);
        let id = self.store_new(data, seller, now);
        self.stats.total_created = self.stats.total_created + 1;
        let ghost stored = *self;
        self.publish(ev);
        proof {
            assert(self.rec(id) == stored.rec(id));
        }
        Ok(id)
    }
}

impl Escrow {
    /// The error `create_basket_escrow` reports, if any.
    pub open spec fn create_basket_error(
        self,
        seller: Address,
        buyer: Option<Address>,
        resolver: Address,
        tokens: Seq<Address>,
        amounts: Seq<i128>,
        fee_bps: u32,
    ) -> Option<ContractError> {
        if self.paused {
            Some(ContractError::ContractPaused)
        } else if tokens.len() != amounts.len() || tokens.len() == 0 || tokens.len() > MAX_BASKET_SIZE {
            Some(ContractError::BasketTokenMismatch)
        } else if !no_duplicates(tokens) {
            Some(ContractError::BasketTokenMismatch)
        } else if amounts_error(amounts, self.min_amt(), self.max_amt()) is Some {
            amounts_error(amounts, self.min_amt(), self.max_amt())
        } else if fee_bps > MAX_ESCROW_FEE_BPS {
            Some(ContractError::FeeExceedsMax)
        } else if resolver == seller || buyer == Some(seller) || buyer == Some(resolver) {
            Some(ContractError::ConflictingRoles)
        } else if exists|k: int| 0 <= k < tokens.len() && !self.token_allowed(#[trigger] tokens[k]) {
            Some(ContractError::TokenNotAllowed)
        } else if self.next_id() == u64::MAX || self.stats.total_created == u64::MAX {
            Some(ContractError::ArithmeticError)
        } else {
            None
        }
    }

    /// Creates an escrow paying `seller` in several tokens: the first token
    /// and amount are the escrow's primary ones, and the whole basket is kept
    /// for funding and payout.
    #[verifier::loop_isolation(false)]
    pub fn create_basket_escrow(
        &mut self,
        seller: Address,
        buyer: Option<Address>,
        resolver: Address,
        tokens: Vec<Address>,
        amounts: Vec<i128>,
        fee_bps: u32,
        shipping_window: u64,
        now: u64,
    ) -> (r: Result<u64, ContractError>)
        requires
            old(self).wf(),
        ensures
            final(self).wf(),
            ({
                let err = old(self).create_basket_error(seller, buyer, resolver, tokens@, amounts@, fee_bps);
                match r {
                    Err(e) => err == Some(e) && *final(self) == *old(self),
                    Ok(id) => {
                        let d = final(self).rec(id).data;
                        &&& err is None
                        &&& old(self).created_with(
                            *final(self),
                            id,
                            seller,
                            now,
                            if old(self).has(id) {
                                old(self).rec(id).expiry
                            } else {
                                None
                            },
                            basket_of(tokens@, amounts@),
                        )
                        &&& d.payees@ == sole_payee(seller)
                        &&& d.buyer == buyer
                        &&& d.resolvers == ResolverSet::Single(resolver)
                        &&& d.token == tokens@[0]
                        &&& d.amount == amounts@[0]
                        &&& d.fee_bps == fee_bps
                        &&& d.resolver_fee_bps == 0
                        &&& d.shipping_window == shipping_window
                        &&& d.notes is None
                        &&& published(
                            old(self).events@,
                            final(self).events@,
                            Event::BasketEscrowCreated(
                                BasketEscrowCreated {
                                    schema_version: EVENT_SCHEMA_VERSION,
                                    escrow_id: id,
                                    seller,
                                    token_count: tokens@.len() as u32,
                                    timestamp: now,
                                },
                            ),
                        )
                        &&& *final(self) == (Escrow {
                            escrows: final(self).escrows,
                            escrow_counter: final(self).escrow_counter,
                            vendor_index: final(self).vendor_index,
                            events: final(self).events,
                            stats: ContractStats {
                                total_created: (old(self).stats.total_created + 1) as u64,
                                ..old(self).stats
                            },
                            ..*old(self)
                        })
                    },
                }
            }),
    {
        self.ensure_not_paused()?;
        let n = tokens.len();
        if n != amounts.len() || n == 0 || n as u64 > MAX_BASKET_SIZE {
            return Err(ContractError::BasketTokenMismatch);
        }
        if has_duplicate(&tokens) {
            return Err(ContractError::BasketTokenMismatch);
        }
        let max_amount = match self.max_amount {
            Some(m) => m,
            None => MAX_ESCROW_AMOUNT,
        };
        let min_amount = match self.min_amount {
            Some(m) => m,
            None => MIN_ESCROW_AMOUNT,
        };
        let mut k: usize = 0;
        proof {
            assert(amounts@.subrange(0, n as int) =~= amounts@);
        }
        while k < n
            invariant
                0 <= k <= n,
                n == amounts@.len(),
                amounts_error(amounts@.subrange(k as int, n as int), min_amount, max_amount)
                    == amounts_error(amounts@, min_amount, max_amount),
            decreases n - k,
        {
            proof {
                let rest = amounts@.subrange(k as int, n as int);
                assert(rest.drop_first() =~= amounts@.subrange(k + 1, n as int));
                if k == 0 {
                    assert(amounts@.subrange(0, n as int) =~= amounts@);
                }
            }
            let a = amounts[k];
            if a <= 0 {
                return Err(ContractError::InvalidAmount);
            }
            if a > max_amount {
                return Err(ContractError::AmountExceedsMaximum);
            }
            if a < min_amount {
                return Err(ContractError::AmountBelowMinimum);
            }
            k = k + 1;
        }
        proof {
            if n == 0 {
                assert(amounts@.subrange(0, 0) =~= amounts@);
            }
        }
        validate_escrow_fee_bps(fee_bps)?;
        if resolver == seller {
            return Err(ContractError::ConflictingRoles);
        }
        if let Some(b) = buyer {
            if b == seller || b == resolver {
                return Err(ContractError::ConflictingRoles);
            }
        }
        let mut k: usize = 0;
        while k < n
            invariant
                0 <= k <= n,
                n == tokens@.len(),
                forall|m: int| 0 <= m < k ==> self.token_allowed(#[trigger] tokens@[m]),
            decreases n - k,
        {
            if self.is_token_allowed(tokens[k]).is_err() {
                return Err(ContractError::TokenNotAllowed);
            }
            k = k + 1;
        }
        let next = match self.escrow_counter {
            Some(c) => c,
            None => 1,
        };
        if next == u64::MAX || self.stats.total_created == u64::MAX {
            return Err(ContractError::ArithmeticError);
        }
        let mut entries: Vec<TokenEntry> = Vec::new();
        let mut k: usize = 0;
        while k < n
            invariant
                0 <= k <= n,
                n == tokens@.len(),
                n == amounts@.len(),
                entries@ == basket_of(tokens@, amounts@).subrange(0, k as int),
            decreases n - k,
        {
            entries.push(TokenEntry { token: tokens[k], amount: amounts[k] });
            proof {
                assert(entries@ =~= basket_of(tokens@, amounts@).subrange(0, k + 1));
            }
            k = k + 1;
        }
        proof {
            assert(entries@ =~= basket_of(tokens@, amounts@));
        }
        let data = EscrowData {
            payees: seller_payees(seller),
            buyer,
            resolvers: ResolverSet::Single(resolver),
            token: tokens[0],
            amount: amounts[0],
            fee_bps,
            resolver_fee_bps: 0,
            shipping_window,
            funded_at: 0,
            dispute_deadline: 0,
            state: EscrowState::Pending,
            shipped_at: 0,
            delivered_at: None,
            tracking_id: None,
            notes: None,
        };
        let id = self.store_new(data, seller, now);
        let _len = self.escrows.len();
        self.escrows[(id - 1) as usize].basket = entries;
        self.stats.total_created = self.stats.total_created + 1;
        proof {
            assert forall|j: int| 0 <= j < self.escrows@.len() implies record_wf(
                #[trigger] self.escrows@[j],
            ) by {
                if j != id - 1 {
                    assert(self.escrows@[j] == old(self).escrows@[j]);
                }
            }
        }
        self.publish(Event::BasketEscrowCreated(emit_basket_escrow_created(id, seller, n as u32, now)));
        Ok(id)
    }
}

/// The notes length of an optional note.
pub open spec fn notes_len(n: Option<Vec<u8>>) -> Option<nat> {
    match n {
        Some(v) => Some(v@.len()),
        None => None,
    }
}

/// Whether `d` is the pending escrow a batch entry `inp` of `seller`
/// describes.
pub open spec fn batch_data(d: EscrowData, seller: Address, inp: EscrowInput) -> bool {
    &&& d.payees@ == sole_payee(seller)
    &&& d.buyer == inp.buyer
    &&& d.resolvers == ResolverSet::Single(inp.resolver)
    &&& d.token == inp.token
    &&& d.amount == inp.amount
    &&& d.fee_bps == inp.fee_bps
    &&& d.resolver_fee_bps == 0
    &&& d.shipping_window == inp.shipping_window
    &&& d.notes == inp.notes
    &&& d.state == EscrowState::Pending
    &&& d.funded_at == 0
    &&& d.dispute_deadline == 0
    &&& d.shipped_at == 0
    &&& d.delivered_at is None
    &&& d.tracking_id is None
}

impl Escrow {
    /// The error of batch entry `inp` of `seller` created under id `next`.
    pub open spec fn input_error(self, seller: Address, inp: EscrowInput, next: u64) -> Option<ContractError> {
        self.create_error_at(
            sole_payee(seller),
            inp.buyer,
            inp.resolver,
            inp.token,
            inp.amount,
            inp.fee_bps,
            0,
            inp.shipping_window,
            notes_len(inp.notes),
            next,
        )
    }

    /// The first error among batch entries `k` onwards, the entry at
    /// position `m` being created under id `next_id() + m`.
    pub open spec fn batch_scan(self, seller: Address, inputs: Seq<EscrowInput>, k: int) -> Option<
        ContractError,
    >
        decreases inputs.len() - k,
    {
        if k < 0 || k >= inputs.len() {
            None
        } else if self.input_error(seller, inputs[k], (self.next_id() + k) as u64) is Some {
            self.input_error(seller, inputs[k], (self.next_id() + k) as u64)
        } else {
            self.batch_scan(seller, inputs, k + 1)
        }
    }

    /// The error `batch_create_escrow` reports, if any.
    pub open spec fn batch_error(self, seller: Address, inputs: Seq<EscrowInput>) -> Option<ContractError> {
        if self.paused {
            Some(ContractError::ContractPaused)
        } else {
            self.batch_scan(seller, inputs, 0)
        }
    }

    /// Whether escrow `id` of `new` is batch entry `inp` of `seller` created
    /// over `self` at `now`.
    pub open spec fn batch_item(self, new: Escrow, seller: Address, inp: EscrowInput, id: u64, now: u64) -> bool {
        &&& new.has(id)
        &&& batch_data(new.rec(id).data, seller, inp)
        &&& (self.has(id) ==> {
            &&& new.rec(id).history@ == history_after(
                self.rec(id).history@,
                self.rec(id).data.state,
                EscrowState::Pending,
                now,
            )
            &&& new.rec(id).dispute == self.rec(id).dispute
            &&& new.rec(id).votes == self.rec(id).votes
            &&& new.rec(id).basket@ == self.rec(id).basket@
            &&& new.rec(id).messages == self.rec(id).messages
            &&& new.rec(id).expiry == self.rec(id).expiry
            &&& new.rec(id).delivery_proposal == self.rec(id).delivery_proposal
        })
        &&& (!self.has(id) ==> {
            &&& new.rec(id).history@ == seq![(EscrowState::Pending, now)]
            &&& new.rec(id).dispute is None
            &&& new.rec(id).votes@.len() == 0
            &&& new.rec(id).basket@.len() == 0
            &&& new.rec(id).messages@.len() == 0
            &&& new.rec(id).expiry is None
            &&& new.rec(id).delivery_proposal is None
        })
    }

    /// Whether `new` is `self` after the first `k` batch entries of `seller`
    /// were created with ids `ids`.
    pub open spec fn batch_done(
        self,
        new: Escrow,
        seller: Address,
        inputs: Seq<EscrowInput>,
        ids: Seq<u64>,
        k: int,
        now: u64,
    ) -> bool {
        let nx = self.next_id();
        &&& ids.len() == k
        &&& forall|m: int| 0 <= m < k ==> #[trigger] ids[m] == nx + m
        &&& new.next_id() == nx + k
        &&& k > 0 ==> new.escrow_counter == Some((nx + k) as u64)
        &&& new == (Escrow {
            escrows: new.escrows,
            escrow_counter: new.escrow_counter,
            vendor_index: new.vendor_index,
            events: new.events,
            ..self
        })
        &&& new.events@.len() == self.events@.len() + k
        &&& new.events@.subrange(0, self.events@.len() as int) == self.events@
        &&& forall|m: int|
            0 <= m < k ==> new.events@[self.events@.len() + m] == batch_event(
                seller,
                #[trigger] inputs[m],
                (nx + m) as u64,
                now,
            )
        &&& new.escrows@.len() == if self.escrows@.len() >= nx - 1 + k {
            self.escrows@.len() as int
        } else {
            nx - 1 + k
        }
        &&& forall|m: int| 0 <= m < k ==> self.batch_item(new, seller, #[trigger] inputs[m], (nx + m) as u64, now)
        &&& forall|j: int|
            0 <= j < self.escrows@.len() && !(nx - 1 <= j < nx - 1 + k) ==> new.escrows@[j]
                == self.escrows@[j]
        &&& forall|o: Address| #[trigger]
            ids_of(new.vendor_index@, o) == (if o == seller {
                ids_of(self.vendor_index@, o) + ids
            } else {
                ids_of(self.vendor_index@, o)
            })
        &&& forall|o: Address| #[trigger]
            has_owner(new.vendor_index@, o) == (has_owner(self.vendor_index@, o) || (o == seller && k
                > 0))
    }

    /// Creates one pending single-resolver escrow paying `seller` for each
    /// entry, in order, returning their ids; the batch is refused as a whole
    /// at its first invalid entry.
    #[verifier::rlimit(60)]
    pub fn batch_create_escrow(&mut self, seller: Address, escrows: Vec<EscrowInput>, now: u64) -> (r:
        Result<Vec<u64>, ContractError>)
        requires
            old(self).wf(),
        ensures
            final(self).wf(),
            match r {
                Err(e) => old(self).batch_error(seller, escrows@) == Some(e) && *final(self) == *old(
                    self,
                ),
                Ok(ids) => old(self).batch_error(seller, escrows@) is None && old(self).batch_done(
                    *final(self),
                    seller,
                    escrows@,
                    ids@,
                    escrows@.len() as int,
                    now,
                ),
            },
    {
        self.ensure_not_paused()?;
        let payees = seller_payees(seller);
        let nx = match self.escrow_counter {
            Some(c) => c,
            None => 1,
        };
        let n = escrows.len();
        let mut k: usize = 0;
        while k < n
            invariant
                0 <= k <= n,
                n == escrows@.len(),
                payees@ == sole_payee(seller),
                nx == self.next_id(),
                nx + k <= u64::MAX,
                *self == *old(self),
                old(self).wf(),
                !self.paused,
                self.batch_scan(seller, escrows@, k as int) == self.batch_scan(seller, escrows@, 0),
                forall|m: int|
                    0 <= m < k ==> self.input_error(seller, #[trigger] escrows@[m], (nx + m) as u64)
                        is None,
            decreases n - k,
        {
            let inp = &escrows[k];
            let next = nx + k as u64;
            self.creation_check(
                &payees,
                inp.buyer,
                inp.resolver,
                inp.token,
                inp.amount,
                inp.fee_bps,
                0,
                inp.shipping_window,
                &inp.notes,
                next,
            )?;
            k = k + 1;
        }
        let ghost inputs = escrows@;
        proof {
            assert(self.events@.subrange(0, self.events@.len() as int) =~= self.events@);
        }
        let mut rest = escrows;
        let mut ids: Vec<u64> = Vec::new();
        let mut k: usize = 0;
        while k < n
            invariant
                0 <= k <= n,
                n == inputs.len(),
                rest@ == inputs.subrange(k as int, n as int),
                nx == old(self).next_id(),
                forall|m: int|
                    0 <= m < n ==> old(self).input_error(seller, #[trigger] inputs[m], (nx + m) as u64)
                        is None,
                self.wf(),
                old(self).batch_done(*self, seller, inputs, ids@, k as int, now),
            decreases n - k,
        {
            let inp = rest.remove(0);
            proof {
                assert(inp == inputs[k as int]);
                assert(rest@ =~= inputs.subrange(k + 1, n as int));
                assert(old(self).input_error(seller, inputs[k as int], (nx + k) as u64) is None);
            }
            let ghost before = *self;
            let id = match self.create_escrow_internal(
                seller_payees(seller),
                inp.buyer,
                inp.resolver,
                inp.token,
                inp.amount,
                inp.fee_bps,
                0,
                inp.shipping_window,
                inp.notes,
                now,
            ) {
                Ok(id) => id,
                Err(e) => return Err(e),
            };
            ids.push(id);
            proof {
                assert(id == nx + k);
                let e0 = old(self).events@.len() as int;
                assert(self.events@.subrange(0, e0) =~= before.events@.subrange(0, e0));
                assert forall|m: int| 0 <= m < k + 1 implies self.events@[e0 + m] == batch_event(
                    seller,
                    #[trigger] inputs[m],
                    (nx + m) as u64,
                    now,
                ) by {
                    if m < k {
                        assert(self.events@[e0 + m] == before.events@[e0 + m]);
                    }
                }
                assert(before.has(id) == old(self).has(id));
                if old(self).has(id) {
                    assert(before.escrows@[id - 1] == old(self).escrows@[id - 1]);
                }
                assert(old(self).batch_item(*self, seller, inputs[k as int], id, now));
                assert forall|m: int| 0 <= m < k + 1 implies old(self).batch_item(
                    *self,
                    seller,
                    #[trigger] inputs[m],
                    (nx + m) as u64,
                    now,
                ) by {
                    if m < k {
                        assert(old(self).batch_item(before, seller, inputs[m], (nx + m) as u64, now));
                        assert(self.escrows@[nx + m - 1] == before.escrows@[nx + m - 1]);
                    }
                }
                assert forall|o: Address| #[trigger]
                    ids_of(self.vendor_index@, o) == (if o == seller {
                        ids_of(old(self).vendor_index@, o) + ids@
                    } else {
                        ids_of(old(self).vendor_index@, o)
                    }) by {
                    assert(ids_of(before.vendor_index@, o) == (if o == seller {
                        ids_of(old(self).vendor_index@, o) + ids@.drop_last()
                    } else {
                        ids_of(old(self).vendor_index@, o)
                    }));
                    if o == seller {
                        assert(ids_of(old(self).vendor_index@, o) + ids@ =~= (ids_of(
                            old(self).vendor_index@,
                            o,
                        ) + ids@.drop_last()).push(id));
                    }
                }
                assert forall|o: Address| #[trigger] has_owner(self.vendor_index@, o) == (has_owner(
                    old(self).vendor_index@,
                    o,
                ) || (o == seller && k + 1 > 0)) by {
                    assert(has_owner(before.vendor_index@, o) == (has_owner(old(self).vendor_index@, o)
                        || (o == seller && k > 0)));
                }
            }
            k = k + 1;
        }
        Ok(ids)
    }
}

} // verus!
