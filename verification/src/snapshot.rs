//! Copies of the contract state: every field equal to the original, and
//! every vector equal by its contents.

use vstd::prelude::*;
use crate::batch::{copy_data, copy_dispute, same_data, same_dispute};
use crate::events::{same_event, ContractUpgradedEvent, DisputeRaised, EscrowShipped, Event};
use crate::queries::{copy_message, same_message};
use crate::state::{record_wf, Escrow, EscrowRecord};
use crate::types::{copy_text, copy_values, Message, OwnerIndex};

verus! {

/// Whether the two message threads hold the same messages, in order.
pub open spec fn same_messages(a: Seq<Message>, b: Seq<Message>) -> bool {
    &&& a.len() == b.len()
    &&& forall|i: int| 0 <= i < a.len() ==> same_message(#[trigger] a[i], b[i])
}

/// Whether record `a` holds what record `b` holds.
pub open spec fn same_record(a: EscrowRecord, b: EscrowRecord) -> bool {
    &&& same_data(a.data, b.data)
    &&& if a.dispute is Some {
        b.dispute is Some && same_dispute(a.dispute->0, b.dispute->0)
    } else {
        b.dispute is None
    }
    &&& a.votes@ == b.votes@
    &&& a.basket@ == b.basket@
    &&& same_messages(a.messages@, b.messages@)
    &&& a.history@ == b.history@
    &&& a.expiry == b.expiry
    &&& a.delivery_proposal == b.delivery_proposal
}

/// Whether the two record lists hold the same records, in order.
pub open spec fn same_records(a: Seq<EscrowRecord>, b: Seq<EscrowRecord>) -> bool {
    &&& a.len() == b.len()
    &&& forall|i: int| 0 <= i < a.len() ==> same_record(#[trigger] a[i], b[i])
}

/// Whether the two owner indexes list the same owners with the same ids.
pub open spec fn same_index(a: Seq<OwnerIndex>, b: Seq<OwnerIndex>) -> bool {
    &&& a.len() == b.len()
    &&& forall|i: int| 0 <= i < a.len() ==> (#[trigger] a[i]).owner == b[i].owner && a[i].ids@ == b[i].ids@
}

/// Whether the two event logs announce the same events, in order.
pub open spec fn same_events(a: Seq<Event>, b: Seq<Event>) -> bool {
    &&& a.len() == b.len()
    &&& forall|i: int| 0 <= i < a.len() ==> same_event(#[trigger] a[i], b[i])
}

impl Escrow {
    /// Whether `self` holds what `other` holds: every field equal, and every
    /// vector, nested ones too, equal by its contents.
    pub open spec fn same_contents(self, other: Escrow) -> bool {
        &&& self.contract == other.contract
        &&& self.admin == other.admin
        &&& self.fee_collector == other.fee_collector
        &&& self.fee_config == other.fee_config
        &&& self.escrow_counter == other.escrow_counter
        &&& self.paused == other.paused
        &&& self.storage_version == other.storage_version
        &&& self.ttl_extension == other.ttl_extension
        &&& self.min_amount == other.min_amount
        &&& self.max_amount == other.max_amount
        &&& self.platform_fee_bps == other.platform_fee_bps
        &&& self.treasury == other.treasury
        &&& self.approved_resolvers@ == other.approved_resolvers@
        &&& self.resolver_strict == other.resolver_strict
        &&& self.allowlist_enabled == other.allowlist_enabled
        &&& self.allowed_tokens@ == other.allowed_tokens@
        &&& self.timelocks@ == other.timelocks@
        &&& self.arbitration_totals@ == other.arbitration_totals@
        &&& self.accumulated_fees@ == other.accumulated_fees@
        &&& self.stats == other.stats
        &&& same_records(self.escrows@, other.escrows@)
        &&& same_index(self.vendor_index@, other.vendor_index@)
        &&& same_index(self.buyer_index@, other.buyer_index@)
        &&& same_events(self.events@, other.events@)
    }
}

/// A state with the contents of a well-formed state is well-formed.
pub proof fn lemma_same_contents_wf(a: Escrow, b: Escrow)
    requires
        a.same_contents(b),
        b.wf(),
    ensures
        a.wf(),
{
    assert forall|i: int| 0 <= i < a.escrows@.len() implies record_wf(#[trigger] a.escrows@[i]) by {
        assert(same_record(a.escrows@[i], b.escrows@[i]));
        assert(record_wf(b.escrows@[i]));
    }
    assert forall|i: int, j: int| 0 <= i < j < a.vendor_index@.len() implies a.vendor_index@[i].owner
        != a.vendor_index@[j].owner by {
        assert(a.vendor_index@[i].owner == b.vendor_index@[i].owner);
        assert(a.vendor_index@[j].owner == b.vendor_index@[j].owner);
    }
    assert forall|i: int, j: int| 0 <= i < j < a.buyer_index@.len() implies a.buyer_index@[i].owner
        != a.buyer_index@[j].owner by {
        assert(a.buyer_index@[i].owner == b.buyer_index@[i].owner);
        assert(a.buyer_index@[j].owner == b.buyer_index@[j].owner);
    }
}

fn copy_messages(v: &Vec<Message>) -> (r: Vec<Message>)
    ensures
        same_messages(r@, v@),
{
    let mut out: Vec<Message> = Vec::new();
    let mut i: usize = 0;
    while i < v.len()
        invariant
            0 <= i <= v.len(),
            out@.len() == i,
            forall|k: int| 0 <= k < i ==> same_message(#[trigger] out@[k], v@[k]),
        decreases v.len() - i,
    {
        out.push(copy_message(&v[i]));
        i = i + 1;
    }
    out
}

/// A copy of the record `r`.
pub fn copy_record(r: &EscrowRecord) -> (c: EscrowRecord)
    ensures
        same_record(c, *r),
{
    let dispute = match &r.dispute {
        Some(d) => Some(copy_dispute(d)),
        None => None,
    };
    EscrowRecord {
        data: copy_data(&r.data),
        dispute,
        votes: copy_values(&r.votes),
        basket: copy_values(&r.basket),
        messages: copy_messages(&r.messages),
        history: copy_values(&r.history),
        expiry: r.expiry,
        delivery_proposal: r.delivery_proposal,
    }
}

fn copy_records(v: &Vec<EscrowRecord>) -> (r: Vec<EscrowRecord>)
    ensures
        same_records(r@, v@),
{
    let mut out: Vec<EscrowRecord> = Vec::new();
    let mut i: usize = 0;
    while i < v.len()
        invariant
            0 <= i <= v.len(),
            out@.len() == i,
            forall|k: int| 0 <= k < i ==> same_record(#[trigger] out@[k], v@[k]),
        decreases v.len() - i,
    {
        out.push(copy_record(&v[i]));
        i = i + 1;
    }
    out
}

fn copy_index(v: &Vec<OwnerIndex>) -> (r: Vec<OwnerIndex>)
    ensures
        same_index(r@, v@),
{
    let mut out: Vec<OwnerIndex> = Vec::new();
    let mut i: usize = 0;
    while i < v.len()
        invariant
            0 <= i <= v.len(),
            out@.len() == i,
            forall|k: int| 0 <= k < i ==> (#[trigger] out@[k]).owner == v@[k].owner && out@[k].ids@ == v@[k].ids@,
        decreases v.len() - i,
    {
        out.push(OwnerIndex { owner: v[i].owner, ids: copy_values(&v[i].ids) });
        i = i + 1;
    }
    out
}

/// A copy of the event `e`.
pub fn copy_event(e: &Event) -> (c: Event)
    ensures
        same_event(c, *e),
{
    match e {
        Event::EscrowShipped(x) => Event::EscrowShipped(
            EscrowShipped {
                schema_version: x.schema_version,
                escrow_id: x.escrow_id,
                seller: x.seller,
                tracking_id: copy_text(&x.tracking_id),
                timestamp: x.timestamp,
                prev_state: x.prev_state,
                new_state: x.new_state,
            },
        ),
        Event::DisputeRaised(x) => Event::DisputeRaised(
            DisputeRaised {
                schema_version: x.schema_version,
                escrow_id: x.escrow_id,
                buyer: x.buyer,
                reason: copy_text(&x.reason),
                description: copy_text(&x.description),
                evidence_hash: x.evidence_hash,
                timestamp: x.timestamp,
                prev_state: x.prev_state,
                new_state: x.new_state,
            },
        ),
        Event::ContractUpgraded(x) => Event::ContractUpgraded(
            ContractUpgradedEvent {
                schema_version: x.schema_version,
                admin: x.admin,
                new_wasm_hash: x.new_wasm_hash,
                timestamp: x.timestamp,
            },
        ),
        Event::FeeUpdated(x) => Event::FeeUpdated(*x),
        Event::ProtocolFeeUpdated(x) => Event::ProtocolFeeUpdated(*x),
        Event::ArbitrationFeeUpdated(x) => Event::ArbitrationFeeUpdated(*x),
        Event::AdminRotated(x) => Event::AdminRotated(*x),
        Event::ContractPaused(x) => Event::ContractPaused(*x),
        Event::ContractUnpaused(x) => Event::ContractUnpaused(*x),
        Event::EscrowCreated(x) => Event::EscrowCreated(*x),
        Event::EscrowFunded(x) => Event::EscrowFunded(*x),
        Event::DeliveryRecorded(x) => Event::DeliveryRecorded(*x),
        Event::EscrowCompleted(x) => Event::EscrowCompleted(*x),
        Event::DisputeResolved(x) => Event::DisputeResolved(*x),
        Event::AutoReleased(x) => Event::AutoReleased(*x),
        Event::EscrowCancelled(x) => Event::EscrowCancelled(*x),
        Event::ContractInitialized(x) => Event::ContractInitialized(*x),
        Event::ResolverRotated(x) => Event::ResolverRotated(*x),
        Event::TokenAllowlistUpdated(x) => Event::TokenAllowlistUpdated(*x),
        Event::AllowlistToggled(x) => Event::AllowlistToggled(*x),
        Event::DisputePendingFinalization(x) => Event::DisputePendingFinalization(*x),
        Event::DisputeAppealed(x) => Event::DisputeAppealed(*x),
        Event::PlatformFeeUpdated(x) => Event::PlatformFeeUpdated(*x),
        Event::TreasuryUpdated(x) => Event::TreasuryUpdated(*x),
        Event::BasketEscrowCreated(x) => Event::BasketEscrowCreated(*x),
        Event::MessagePosted(x) => Event::MessagePosted(*x),
        Event::RefundRequested(x) => Event::RefundRequested(*x),
        Event::RefundApproved(x) => Event::RefundApproved(*x),
        Event::StorageMigrated(x) => Event::StorageMigrated(*x),
        Event::TtlExtensionUpdated(x) => Event::TtlExtensionUpdated(*x),
        Event::AmountLimitsUpdated(x) => Event::AmountLimitsUpdated(*x),
        Event::ResolverApproved(x) => Event::ResolverApproved(*x),
        Event::ResolverRemoved(x) => Event::ResolverRemoved(*x),
        Event::ResolverStrictUpdated(x) => Event::ResolverStrictUpdated(*x),
        Event::FeeCollectorUpdated(x) => Event::FeeCollectorUpdated(*x),
        Event::EmergencyDrain(x) => Event::EmergencyDrain(*x),
        Event::ResolverVoteRecorded(x) => Event::ResolverVoteRecorded(*x),
        Event::FeeCollectorReplaced(a, b) => Event::FeeCollectorReplaced(*a, *b),
    }
}

fn copy_events(v: &Vec<Event>) -> (r: Vec<Event>)
    ensures
        same_events(r@, v@),
{
    let mut out: Vec<Event> = Vec::new();
    let mut i: usize = 0;
    while i < v.len()
        invariant
            0 <= i <= v.len(),
            out@.len() == i,
            forall|k: int| 0 <= k < i ==> same_event(#[trigger] out@[k], v@[k]),
        decreases v.len() - i,
    {
        out.push(copy_event(&v[i]));
        i = i + 1;
    }
    out
}

impl Escrow {
    /// A copy of the whole state.
    pub fn snapshot(&self) -> (c: Escrow)
        ensures
            c.same_contents(*self),
    {
        Escrow {
            contract: self.contract,
            admin: self.admin,
            fee_collector: self.fee_collector,
            fee_config: self.fee_config,
            escrow_counter: self.escrow_counter,
            paused: self.paused,
            storage_version: self.storage_version,
            ttl_extension: self.ttl_extension,
            min_amount: self.min_amount,
            max_amount: self.max_amount,
            platform_fee_bps: self.platform_fee_bps,
            treasury: self.treasury,
            approved_resolvers: copy_values(&self.approved_resolvers),
            resolver_strict: self.resolver_strict,
            allowlist_enabled: self.allowlist_enabled,
            allowed_tokens: copy_values(&self.allowed_tokens),
            timelocks: copy_values(&self.timelocks),
            arbitration_totals: copy_values(&self.arbitration_totals),
            accumulated_fees: copy_values(&self.accumulated_fees),
            stats: self.stats,
            escrows: copy_records(&self.escrows),
            vendor_index: copy_index(&self.vendor_index),
            buyer_index: copy_index(&self.buyer_index),
            events: copy_events(&self.events),
        }
    }
}

} // verus!
