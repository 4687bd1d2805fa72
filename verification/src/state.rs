//! The contract state and the helpers every entry point shares.

use vstd::prelude::*;
use crate::errors::ContractError;
use crate::resolvers::votes_unique;
use crate::types::{
    Address, ContractStats, DisputeData, EscrowData, EscrowState, ExpirySchedule, FeeConfig,
    Message, OwnerIndex, Payee, ResolverVote, TokenEntry,
};
use crate::admin::TimelockProposal;
use crate::events::{published, Event};
use crate::{BASIS_POINTS, DEFAULT_TTL_EXTENSION, MAX_APPEALS, MAX_STATE_HISTORY_ENTRIES};

verus! {

/// Everything stored for one escrow id.
#[derive(Clone, Debug, PartialEq, Eq)]
pub struct EscrowRecord {
    pub data: EscrowData,
    pub dispute: Option<DisputeData>,
    pub votes: Vec<ResolverVote>,
    pub basket: Vec<TokenEntry>,
    pub messages: Vec<Message>,
    pub history: Vec<(EscrowState, u64)>,
    pub expiry: Option<ExpirySchedule>,
    pub delivery_proposal: Option<u64>,
}

/// The whole contract state. Escrow id `k` is stored at `escrows[k - 1]`.
#[derive(Clone, Debug, PartialEq, Eq)]
pub struct Escrow {
    /// The contract's own account, source of every payout.
    pub contract: Address,
    pub admin: Option<Address>,
    pub fee_collector: Option<Address>,
    pub fee_config: Option<FeeConfig>,
    /// The next escrow id; absent until initialization.
    pub escrow_counter: Option<u64>,
    pub paused: bool,
    pub storage_version: u32,
    pub ttl_extension: Option<u32>,
    pub min_amount: Option<i128>,
    pub max_amount: Option<i128>,
    pub platform_fee_bps: u32,
    pub treasury: Option<Address>,
    pub approved_resolvers: Vec<Address>,
    pub resolver_strict: bool,
    pub allowlist_enabled: bool,
    pub allowed_tokens: Vec<Address>,
    pub timelocks: Vec<TimelockProposal>,
    /// Arbitration fees collected so far, per token.
    pub arbitration_totals: Vec<(Address, i128)>,
    /// Fees accrued for withdrawal, per token.
    pub accumulated_fees: Vec<(Address, i128)>,
    pub stats: ContractStats,
    pub escrows: Vec<EscrowRecord>,
    pub vendor_index: Vec<OwnerIndex>,
    pub buyer_index: Vec<OwnerIndex>,
    /// Every event announced so far, oldest first.
    pub events: Vec<Event>,
}

/// Whether `a` is one of the payees.
pub open spec fn payees_contain(p: Seq<Payee>, a: Address) -> bool {
    exists|i: int| 0 <= i < p.len() && p[i].address == a
}

/// Whether `a` is one of the payees, by a loop over them.
pub fn is_payee(p: &Vec<Payee>, a: Address) -> (r: bool)
    ensures
        r == payees_contain(p@, a),
{
    let mut i: usize = 0;
    while i < p.len()
        invariant
            0 <= i <= p.len(),
            forall|k: int| 0 <= k < i ==> p@[k].address != a,
        decreases p.len() - i,
    {
        if p[i].address == a {
            return true;
        }
        i = i + 1;
    }
    false
}

/// Sum of the payees' basis points.
pub open spec fn sum_bps(p: Seq<Payee>) -> int
    decreases p.len(),
{
    if p.len() == 0 {
        0
    } else {
        p[0].bps + sum_bps(p.drop_first())
    }
}

/// A payee list that pays out the whole amount: non-empty, shares summing to
/// `BASIS_POINTS`.
pub open spec fn payees_valid(p: Seq<Payee>) -> bool {
    p.len() >= 1 && sum_bps(p) == BASIS_POINTS
}

/// Whether no two entries of an index belong to the same owner.
pub open spec fn owners_unique(ix: Seq<OwnerIndex>) -> bool {
    forall|i: int, j: int| 0 <= i < j < ix.len() ==> ix[i].owner != ix[j].owner
}

/// The ids recorded for `owner`, empty when there are none.
pub open spec fn ids_of(ix: Seq<OwnerIndex>, owner: Address) -> Seq<u64> {
    if exists|i: int| 0 <= i < ix.len() && ix[i].owner == owner {
        let i = choose|i: int| 0 <= i < ix.len() && ix[i].owner == owner;
        ix[i].ids@
    } else {
        Seq::empty()
    }
}

/// Whether `owner` has an entry in the index.
pub open spec fn has_owner(ix: Seq<OwnerIndex>, owner: Address) -> bool {
    exists|i: int| 0 <= i < ix.len() && ix[i].owner == owner
}

/// Whether no two entries of an amount table share a key.
pub open spec fn keys_unique(t: Seq<(Address, i128)>) -> bool {
    forall|i: int, j: int| 0 <= i < j < t.len() ==> t[i].0 != t[j].0
}

/// The amount recorded under `key`, zero when there is none.
pub open spec fn amount_at(t: Seq<(Address, i128)>, key: Address) -> i128 {
    if exists|i: int| 0 <= i < t.len() && t[i].0 == key {
        let i = choose|i: int| 0 <= i < t.len() && t[i].0 == key;
        t[i].1
    } else {
        0
    }
}

/// The amount recorded under `key`, by a scan of the table.
pub fn read_amount(t: &Vec<(Address, i128)>, key: Address) -> (r: i128)
    requires
        keys_unique(t@),
    ensures
        r == amount_at(t@, key),
{
    let mut i: usize = 0;
    while i < t.len()
        invariant
            0 <= i <= t@.len(),
            keys_unique(t@),
            forall|k: int| 0 <= k < i ==> t@[k].0 != key,
        decreases t@.len() - i,
    {
        if t[i].0 == key {
            assert(amount_at(t@, key) == t@[i as int].1) by {
                let j = choose|j: int| 0 <= j < t@.len() && t@[j].0 == key;
                assert(j == i);
            }
            return t[i].1;
        }
        i = i + 1;
    }
    0
}

/// Records `amount` under `key`, replacing any earlier amount.
pub fn write_amount(t: &mut Vec<(Address, i128)>, key: Address, amount: i128)
    requires
        keys_unique(old(t)@),
    ensures
        keys_unique(final(t)@),
        forall|o: Address| #[trigger]
            amount_at(final(t)@, o) == (if o == key {
                amount
            } else {
                amount_at(old(t)@, o)
            }),
{
    let mut i: usize = 0;
    while i < t.len()
        invariant
            0 <= i <= t@.len(),
            t@ == old(t)@,
            keys_unique(t@),
            forall|k: int| 0 <= k < i ==> t@[k].0 != key,
        decreases t@.len() - i,
    {
        if t[i].0 == key {
            t.set(i, (key, amount));
            proof {
                assert forall|o: Address| #[trigger]
                    amount_at(t@, o) == (if o == key {
                        amount
                    } else {
                        amount_at(old(t)@, o)
                    }) by {
                    if o == key {
                        let j = choose|j: int| 0 <= j < t@.len() && t@[j].0 == o;
                        assert(t@[i as int].0 == o);
                        assert(j == i);
                    } else if exists|j: int| 0 <= j < old(t)@.len() && old(t)@[j].0 == o {
                        let j = choose|j: int| 0 <= j < old(t)@.len() && old(t)@[j].0 == o;
                        assert(t@[j].0 == o);
                        let j2 = choose|j2: int| 0 <= j2 < t@.len() && t@[j2].0 == o;
                        assert(j2 == j);
                    } else {
                        assert forall|j: int| 0 <= j < t@.len() implies t@[j].0 != o by {
                            if j != i {
                                assert(old(t)@[j] == t@[j]);
                            }
                        }
                    }
                }
            }
            return;
        }
        i = i + 1;
    }
    t.push((key, amount));
    proof {
        let n = old(t)@.len() as int;
        assert forall|o: Address| #[trigger]
            amount_at(t@, o) == (if o == key {
                amount
            } else {
                amount_at(old(t)@, o)
            }) by {
            if o == key {
                assert(t@[n].0 == o);
                let j = choose|j: int| 0 <= j < t@.len() && t@[j].0 == o;
                assert(j == n);
            } else if exists|j: int| 0 <= j < old(t)@.len() && old(t)@[j].0 == o {
                let j = choose|j: int| 0 <= j < old(t)@.len() && old(t)@[j].0 == o;
                assert(t@[j].0 == o);
                let j2 = choose|j2: int| 0 <= j2 < t@.len() && t@[j2].0 == o;
                assert(j2 == j);
            } else {
                assert forall|j: int| 0 <= j < t@.len() implies t@[j].0 != o by {
                    if j < n {
                        assert(old(t)@[j] == t@[j]);
                    }
                }
            }
        }
    }
}

/// The state history after a save that moved the escrow into `st` at `now`:
/// unchanged if the state did not change, else `(st, now)` appended and the
/// oldest entry dropped beyond `MAX_STATE_HISTORY_ENTRIES`.
pub open spec fn history_after(h: Seq<(EscrowState, u64)>, prev: EscrowState, st: EscrowState, now: u64) -> Seq<
    (EscrowState, u64),
> {
    if prev == st {
        h
    } else {
        let h2 = h.push((st, now));
        if h2.len() > MAX_STATE_HISTORY_ENTRIES {
            h2.subrange(h2.len() - MAX_STATE_HISTORY_ENTRIES, h2.len() as int)
        } else {
            h2
        }
    }
}

/// Well-formedness of one record.
pub open spec fn record_wf(r: EscrowRecord) -> bool {
    &&& payees_valid(r.data.payees@)
    &&& r.history@.len() <= MAX_STATE_HISTORY_ENTRIES
    &&& votes_unique(r.votes@)
    &&& r.dispute matches Some(dd) ==> dd.appeal_count <= MAX_APPEALS
}

/// Appends `(st, now)` to a history when the state changed from `prev`,
/// keeping at most `MAX_STATE_HISTORY_ENTRIES` entries.
pub fn push_history(h: &mut Vec<(EscrowState, u64)>, prev: EscrowState, st: EscrowState, now: u64)
    requires
        old(h)@.len() <= MAX_STATE_HISTORY_ENTRIES,
    ensures
        final(h)@ == history_after(old(h)@, prev, st, now),
        final(h)@.len() <= MAX_STATE_HISTORY_ENTRIES,
{
    if prev != st {
        h.push((st, now));
        if h.len() > MAX_STATE_HISTORY_ENTRIES as usize {
            h.remove(0);
        }
        proof {
            let h2 = old(h)@.push((st, now));
            if h2.len() > MAX_STATE_HISTORY_ENTRIES {
                assert(h@ =~= h2.subrange(h2.len() - MAX_STATE_HISTORY_ENTRIES, h2.len() as int));
            }
        }
    }
}

/// Records `id` for `owner`, creating the owner's entry when it has none.
pub fn append_index(ix: &mut Vec<OwnerIndex>, owner: Address, id: u64)
    requires
        owners_unique(old(ix)@),
    ensures
        owners_unique(final(ix)@),
        has_owner(final(ix)@, owner),
        forall|o: Address| #[trigger]
            ids_of(final(ix)@, o) == (if o == owner {
                ids_of(old(ix)@, o).push(id)
            } else {
                ids_of(old(ix)@, o)
            }),
        forall|o: Address| #[trigger] has_owner(final(ix)@, o) == (has_owner(old(ix)@, o) || o == owner),
{
    let mut k: usize = 0;
    while k < ix.len()
        invariant
            0 <= k <= ix.len(),
            ix@ == old(ix)@,
            owners_unique(ix@),
            forall|j: int| 0 <= j < k ==> ix@[j].owner != owner,
        decreases ix.len() - k,
    {
        if ix[k].owner == owner {
            let entry = &mut ix[k];
            entry.ids.push(id);
            proof {
                assert forall|o: Address| #[trigger]
                    ids_of(ix@, o) == (if o == owner {
                        ids_of(old(ix)@, o).push(id)
                    } else {
                        ids_of(old(ix)@, o)
                    }) by {
                    if o == owner {
                        assert(ix@[k as int].owner == o);
                        assert(old(ix)@[k as int].owner == o);
                    } else if has_owner(old(ix)@, o) {
                        let j = choose|j: int| 0 <= j < old(ix)@.len() && old(ix)@[j].owner == o;
                        assert(ix@[j].owner == o);
                    } else {
                        assert(!has_owner(ix@, o));
                    }
                }
                assert forall|o: Address| #[trigger]
                    has_owner(ix@, o) == (has_owner(old(ix)@, o) || o == owner) by {
                    if has_owner(old(ix)@, o) {
                        let j = choose|j: int| 0 <= j < old(ix)@.len() && old(ix)@[j].owner == o;
                        assert(ix@[j].owner == o);
                    }
                    if has_owner(ix@, o) {
                        let j = choose|j: int| 0 <= j < ix@.len() && ix@[j].owner == o;
                        assert(old(ix)@[j].owner == o);
                    }
                    if o == owner {
                        assert(ix@[k as int].owner == o);
                    }
                }
            }
            return;
        }
        k = k + 1;
    }
    let mut ids = Vec::new();
    ids.push(id);
    ix.push(OwnerIndex { owner, ids });
    proof {
        let n = old(ix)@.len() as int;
        assert(!has_owner(old(ix)@, owner));
        assert forall|o: Address| #[trigger]
            ids_of(ix@, o) == (if o == owner {
                ids_of(old(ix)@, o).push(id)
            } else {
                ids_of(old(ix)@, o)
            }) by {
            if o == owner {
                assert(ix@[n].owner == o);
                assert(ix@[n].ids@ =~= Seq::<u64>::empty().push(id));
            } else if has_owner(old(ix)@, o) {
                let j = choose|j: int| 0 <= j < old(ix)@.len() && old(ix)@[j].owner == o;
                assert(ix@[j].owner == o);
            } else {
                assert(!has_owner(ix@, o));
            }
        }
        assert forall|o: Address| #[trigger]
            has_owner(ix@, o) == (has_owner(old(ix)@, o) || o == owner) by {
            if has_owner(old(ix)@, o) {
                let j = choose|j: int| 0 <= j < old(ix)@.len() && old(ix)@[j].owner == o;
                assert(ix@[j].owner == o);
            }
            if has_owner(ix@, o) {
                let j = choose|j: int| 0 <= j < ix@.len() && ix@[j].owner == o;
                if j < n {
                    assert(old(ix)@[j].owner == o);
                }
            }
            if o == owner {
                assert(ix@[n].owner == o);
            }
        }
    }
}

impl EscrowRecord {
    /// Whether the record holds nothing but `data` and one history entry.
    pub open spec fn fresh(self, st: EscrowState, now: u64) -> bool {
        &&& self.dispute is None
        &&& self.votes@.len() == 0
        &&& self.basket@.len() == 0
        &&& self.messages@.len() == 0
        &&& self.history@ == seq![(st, now)]
        &&& self.expiry is None
        &&& self.delivery_proposal is None
    }

    /// Whether everything but the data, history and delivery proposal is
    /// unchanged.
    pub open spec fn same_but_proposal(self, other: EscrowRecord) -> bool {
        &&& self.history == other.history
        &&& self.dispute == other.dispute
        &&& self.votes == other.votes
        &&& self.basket == other.basket
        &&& self.messages == other.messages
        &&& self.expiry == other.expiry
    }

    /// Whether everything but the escrow data and its history is unchanged.
    pub open spec fn same_extras(self, other: EscrowRecord) -> bool {
        &&& self.dispute == other.dispute
        &&& self.votes == other.votes
        &&& self.basket == other.basket
        &&& self.messages == other.messages
        &&& self.expiry == other.expiry
        &&& self.delivery_proposal == other.delivery_proposal
    }
}

impl Escrow {
    /// The state of a contract nobody has initialized yet.
    pub fn new(contract: Address) -> (s: Escrow)
        ensures
            s.wf(),
            s.contract == contract,
            s.admin is None,
            s.fee_collector is None,
            s.fee_config is None,
            s.escrow_counter is None,
            !s.paused,
            s.storage_version == 0,
            s.ttl_extension is None,
            s.min_amount is None,
            s.max_amount is None,
            s.platform_fee_bps == 0,
            s.treasury is None,
            s.approved_resolvers@.len() == 0,
            !s.resolver_strict,
            !s.allowlist_enabled,
            s.allowed_tokens@.len() == 0,
            s.timelocks@.len() == 0,
            s.arbitration_totals@.len() == 0,
            s.accumulated_fees@.len() == 0,
            s.stats == (ContractStats {
                total_created: 0,
                total_completed: 0,
                total_disputed: 0,
                total_refunded: 0,
            }),
            s.escrows@.len() == 0,
            s.vendor_index@.len() == 0,
            s.buyer_index@.len() == 0,
            s.events@.len() == 0,
    {
        Escrow {
            contract,
            admin: None,
            fee_collector: None,
            fee_config: None,
            escrow_counter: None,
            paused: false,
            storage_version: 0,
            ttl_extension: None,
            min_amount: None,
            max_amount: None,
            platform_fee_bps: 0,
            treasury: None,
            approved_resolvers: Vec::new(),
            resolver_strict: false,
            allowlist_enabled: false,
            allowed_tokens: Vec::new(),
            timelocks: Vec::new(),
            arbitration_totals: Vec::new(),
            accumulated_fees: Vec::new(),
            stats: ContractStats {
                total_created: 0,
                total_completed: 0,
                total_disputed: 0,
                total_refunded: 0,
            },
            escrows: Vec::new(),
            vendor_index: Vec::new(),
            buyer_index: Vec::new(),
            events: Vec::new(),
        }
    }

    /// Well-formedness of the whole state.
    pub open spec fn wf(self) -> bool {
        &&& self.escrow_counter.unwrap_or(1) >= 1
        &&& self.escrow_counter.unwrap_or(1) <= self.escrows@.len() + 1
        &&& forall|i: int| 0 <= i < self.escrows@.len() ==> record_wf(#[trigger] self.escrows@[i])
        &&& owners_unique(self.vendor_index@)
        &&& owners_unique(self.buyer_index@)
        &&& keys_unique(self.arbitration_totals@)
        &&& keys_unique(self.accumulated_fees@)
        &&& crate::admin::timelocks_unique(self.timelocks@)
    }

    /// Whether escrow `id` exists.
    pub open spec fn has(self, id: u64) -> bool {
        1 <= id <= self.escrows@.len()
    }

    /// The record of escrow `id`.
    pub open spec fn rec(self, id: u64) -> EscrowRecord {
        self.escrows@[id - 1]
    }

    /// The fee configuration in force.
    pub open spec fn fees(self) -> FeeConfig {
        self.fee_config.unwrap_or(FeeConfig { protocol_fee_bps: 0, arbitration_fee_bps: 0 })
    }

    /// The storage lifetime extension in force.
    pub open spec fn ttl(self) -> u32 {
        self.ttl_extension.unwrap_or(DEFAULT_TTL_EXTENSION)
    }

    /// The id the next escrow receives.
    pub open spec fn next_id(self) -> u64 {
        self.escrow_counter.unwrap_or(1)
    }

    /// `self` with the event log of `earlier`: everything an operation left
    /// apart from the events it announced.
    pub open spec fn without_new_events(self, earlier: Escrow) -> Escrow {
        Escrow { events: earlier.events, ..self }
    }

    /// Appends `e` to the event log.
    pub fn publish(&mut self, e: Event)
        ensures
            *final(self) == (Escrow { events: final(self).events, ..*old(self) }),
            final(self).events@ == old(self).events@.push(e),
            published(old(self).events@, final(self).events@, e),
    {
        self.events.push(e);
        proof {
            assert(self.events@.drop_last() =~= old(self).events@);
        }
    }

    /// Whether only escrow `id`'s record differs between `self` and `other`.
    pub open spec fn only_record_changed(self, other: Escrow, id: u64) -> bool {
        &&& other == (Escrow { escrows: other.escrows, ..self })
        &&& other.escrows@.len() == self.escrows@.len()
        &&& forall|j: int|
            0 <= j < self.escrows@.len() && j != id - 1 ==> other.escrows@[j] == self.escrows@[j]
    }

    /// Whether every escrow but `id` is unchanged, and none was added.
    pub open spec fn others_same(self, other: Escrow, id: u64) -> bool {
        &&& other.escrows@.len() == self.escrows@.len()
        &&& forall|j: int|
            0 <= j < self.escrows@.len() && j != id - 1 ==> other.escrows@[j] == self.escrows@[j]
    }

    /// Whether escrow `id` now holds `d`, its history records the move into
    /// `d.state`, and nothing else of the record changed.
    pub open spec fn moved(self, new: Escrow, id: u64, d: EscrowData, now: u64) -> bool {
        &&& new.rec(id).data == d
        &&& new.rec(id).history@ == history_after(
            self.rec(id).history@,
            self.rec(id).data.state,
            d.state,
            now,
        )
        &&& new.rec(id).same_extras(self.rec(id))
    }

    /// Returns the position of escrow `id`, or `EscrowNotFound`.
    pub fn locate(&self, id: u64) -> (r: Result<usize, ContractError>)
        ensures
            r == (if self.has(id) {
                Ok((id - 1) as usize)
            } else {
                Err(ContractError::EscrowNotFound)
            }),
            r matches Ok(i) ==> i == id - 1 && i < self.escrows@.len(),
    {
        let _n = self.escrows.len();
        if id == 0 || id > self.escrows.len() as u64 {
            return Err(ContractError::EscrowNotFound);
        }
        Ok((id - 1) as usize)
    }

    /// Refuses while the contract is paused.
    pub fn ensure_not_paused(&self) -> (r: Result<(), ContractError>)
        ensures
            r == (if self.paused {
                Err(ContractError::ContractPaused)
            } else {
                Ok(())
            }),
    {
        if self.paused {
            return Err(ContractError::ContractPaused);
        }
        Ok(())
    }

    /// The error `ensure_not_expired` reports for escrow `id` at `now`.
    pub open spec fn expired_error(self, id: u64, now: u64) -> Option<ContractError> {
        if !self.has(id) {
            Some(ContractError::EscrowNotFound)
        } else if self.rec(id).expiry matches Some(s) && now >= s.expires_at {
            Some(ContractError::EscrowExpired)
        } else {
            None
        }
    }

    /// Refuses a missing escrow, or one whose expiry schedule has passed.
    pub fn ensure_not_expired(&self, id: u64, now: u64) -> (r: Result<(), ContractError>)
        ensures
            r == (match self.expired_error(id, now) {
                Some(e) => Err(e),
                None => Ok(()),
            }),
    {
        let i = self.locate(id)?;
        let _n = self.escrows.len();
        if let Some(s) = self.escrows[i].expiry {
            if now >= s.expires_at {
                return Err(ContractError::EscrowExpired);
            }
        }
        Ok(())
    }

    /// The configured administrator, or `NotAuthorized` before initialization.
    pub fn require_admin(&self) -> (r: Result<Address, ContractError>)
        ensures
            r == (match self.admin {
                Some(a) => Ok(a),
                None => Err(ContractError::NotAuthorized),
            }),
    {
        match self.admin {
            Some(a) => Ok(a),
            None => Err(ContractError::NotAuthorized),
        }
    }

    /// The fee configuration in force.
    pub fn read_fee_config(&self) -> (c: FeeConfig)
        ensures
            c == self.fees(),
    {
        match self.fee_config {
            Some(c) => c,
            None => crate::fees::default_fee_config(),
        }
    }

    /// Sets escrow `id`'s state, appending to its history when it changes.
    pub fn set_state(&mut self, id: u64, st: EscrowState, now: u64)
        requires
            old(self).wf(),
            old(self).has(id),
        ensures
            final(self).wf(),
            old(self).only_record_changed(*final(self), id),
            final(self).rec(id).data == (EscrowData { state: st, ..old(self).rec(id).data }),
            final(self).rec(id).history@ == history_after(
                old(self).rec(id).history@,
                old(self).rec(id).data.state,
                st,
                now,
            ),
            final(self).rec(id).same_extras(old(self).rec(id)),
    {
        let _n = self.escrows.len();
        let i = (id - 1) as usize;
        let prev = self.escrows[i].data.state;
        let r = &mut self.escrows[i];
        r.data.state = st;
        push_history(&mut r.history, prev, st, now);
        proof {
            assert(record_wf(self.escrows@[id - 1]));
            assert forall|j: int| 0 <= j < self.escrows@.len() implies record_wf(
                #[trigger] self.escrows@[j],
            ) by {
                if j != id - 1 {
                    assert(self.escrows@[j] == old(self).escrows@[j]);
                }
            }
        }
    }

    /// Stores `data` under the next escrow id and advances the counter. An id
    /// that already exists (the counter was reset) has only its data replaced.
    pub fn insert_escrow(&mut self, data: EscrowData, now: u64) -> (id: u64)
        requires
            old(self).wf(),
            old(self).next_id() < u64::MAX,
            payees_valid(data.payees@),
        ensures
            final(self).wf(),
            id == old(self).next_id(),
            *final(self) == (Escrow {
                escrows: final(self).escrows,
                escrow_counter: Some((id + 1) as u64),
                ..*old(self)
            }),
            final(self).has(id),
            final(self).rec(id).data == data,
            old(self).has(id) ==> {
                &&& final(self).escrows@.len() == old(self).escrows@.len()
                &&& final(self).rec(id).same_extras(old(self).rec(id))
                &&& final(self).rec(id).history@ == history_after(
                    old(self).rec(id).history@,
                    old(self).rec(id).data.state,
                    data.state,
                    now,
                )
            },
            !old(self).has(id) ==> {
                &&& final(self).escrows@.len() == old(self).escrows@.len() + 1
                &&& final(self).rec(id).fresh(data.state, now)
            },
            forall|j: int|
                0 <= j < old(self).escrows@.len() && j != id - 1 ==> final(self).escrows@[j]
                    == old(self).escrows@[j],
    {
        let id = match self.escrow_counter {
            Some(c) => c,
            None => 1,
        };
        self.escrow_counter = Some(id + 1);
        let n = self.escrows.len();
        let st = data.state;
        if id - 1 < n as u64 {
            let i = (id - 1) as usize;
            let prev = self.escrows[i].data.state;
            let r = &mut self.escrows[i];
            r.data = data;
            push_history(&mut r.history, prev, st, now);
        } else {
            let mut history = Vec::new();
            history.push((st, now));
            self.escrows.push(
                EscrowRecord {
                    data,
                    dispute: None,
                    votes: Vec::new(),
                    basket: Vec::new(),
                    messages: Vec::new(),
                    history,
                    expiry: None,
                    delivery_proposal: None,
                },
            );
        }
        proof {
            assert forall|j: int| 0 <= j < self.escrows@.len() implies record_wf(
                #[trigger] self.escrows@[j],
            ) by {
                if j != id - 1 {
                    assert(self.escrows@[j] == old(self).escrows@[j]);
                }
            }
        }
        id
    }

    /// The timestamp of an escrow's first history entry, or `0`.
    pub fn escrow_created_at(&self, id: u64) -> (t: u64)
        requires
            self.has(id),
        ensures
            t == (if self.rec(id).history@.len() > 0 {
                self.rec(id).history@[0].1
            } else {
                0
            }),
    {
        let _n = self.escrows.len();
        let r = &self.escrows[(id - 1) as usize];
        if r.history.len() > 0 {
            r.history[0].1
        } else {
            0
        }
    }
}

} // verus!
