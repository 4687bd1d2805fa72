//! Event payloads: what each successful operation announces. Every payload
//! carries `EVENT_SCHEMA_VERSION`, so consumers can detect a change of shape.
//! Operations append their events to the contract's log, `Escrow::events`.

use vstd::prelude::*;
use crate::types::{Address, EscrowState, ResolutionType};

verus! {

/// Schema version stamped into every event payload.
pub const EVENT_SCHEMA_VERSION: u32 = 2;

/// The per-escrow fee default changed.
#[derive(Clone, Copy, Debug, PartialEq, Eq, Structural)]
pub struct FeeUpdated {
    pub schema_version: u32,
    pub old_fee_bps: u32,
    pub new_fee_bps: u32,
    pub timestamp: u64,
}

/// The payload of `FeeUpdated`.
pub fn emit_fee_updated(old_fee_bps: u32, new_fee_bps: u32, now: u64) -> (e: FeeUpdated)
    ensures
        e == (FeeUpdated { schema_version: EVENT_SCHEMA_VERSION, old_fee_bps, new_fee_bps, timestamp: now }),
{
    FeeUpdated { schema_version: EVENT_SCHEMA_VERSION, old_fee_bps, new_fee_bps, timestamp: now }
}

/// The protocol fee changed.
#[derive(Clone, Copy, Debug, PartialEq, Eq, Structural)]
pub struct ProtocolFeeUpdated {
    pub schema_version: u32,
    pub old_fee_bps: u32,
    pub new_fee_bps: u32,
    pub timestamp: u64,
}

/// The payload of `ProtocolFeeUpdated`.
pub fn emit_protocol_fee_updated(old_fee_bps: u32, new_fee_bps: u32, now: u64) -> (e: ProtocolFeeUpdated)
    ensures
        e == (ProtocolFeeUpdated { schema_version: EVENT_SCHEMA_VERSION, old_fee_bps, new_fee_bps, timestamp: now }),
{
    ProtocolFeeUpdated { schema_version: EVENT_SCHEMA_VERSION, old_fee_bps, new_fee_bps, timestamp: now }
}

/// The arbitration fee changed.
#[derive(Clone, Copy, Debug, PartialEq, Eq, Structural)]
pub struct ArbitrationFeeUpdated {
    pub schema_version: u32,
    pub old_fee_bps: u32,
    pub new_fee_bps: u32,
    pub timestamp: u64,
}

/// The payload of `ArbitrationFeeUpdated`.
pub fn emit_arbitration_fee_updated(old_fee_bps: u32, new_fee_bps: u32, now: u64) -> (e: ArbitrationFeeUpdated)
    ensures
        e == (ArbitrationFeeUpdated { schema_version: EVENT_SCHEMA_VERSION, old_fee_bps, new_fee_bps, timestamp: now }),
{
    ArbitrationFeeUpdated { schema_version: EVENT_SCHEMA_VERSION, old_fee_bps, new_fee_bps, timestamp: now }
}

/// The administrator role moved to another account.
#[derive(Clone, Copy, Debug, PartialEq, Eq, Structural)]
pub struct AdminRotated {
    pub schema_version: u32,
    pub old_admin: Address,
    pub new_admin: Address,
    pub timestamp: u64,
}

/// The payload of `AdminRotated`.
pub fn emit_admin_rotated(old_admin: Address, new_admin: Address, now: u64) -> (e: AdminRotated)
    ensures
        e == (AdminRotated { schema_version: EVENT_SCHEMA_VERSION, old_admin, new_admin, timestamp: now }),
{
    AdminRotated { schema_version: EVENT_SCHEMA_VERSION, old_admin, new_admin, timestamp: now }
}

/// The contract was paused.
#[derive(Clone, Copy, Debug, PartialEq, Eq, Structural)]
pub struct ContractPausedEvent {
    pub schema_version: u32,
    pub admin: Address,
    pub timestamp: u64,
}

/// The payload of `ContractPausedEvent`.
pub fn emit_contract_paused(admin: Address, now: u64) -> (e: ContractPausedEvent)
    ensures
        e == (ContractPausedEvent { schema_version: EVENT_SCHEMA_VERSION, admin, timestamp: now }),
{
    ContractPausedEvent { schema_version: EVENT_SCHEMA_VERSION, admin, timestamp: now }
}

/// The contract was unpaused.
#[derive(Clone, Copy, Debug, PartialEq, Eq, Structural)]
pub struct ContractUnpausedEvent {
    pub schema_version: u32,
    pub admin: Address,
    pub timestamp: u64,
}

/// The payload of `ContractUnpausedEvent`.
pub fn emit_contract_unpaused(admin: Address, now: u64) -> (e: ContractUnpausedEvent)
    ensures
        e == (ContractUnpausedEvent { schema_version: EVENT_SCHEMA_VERSION, admin, timestamp: now }),
{
    ContractUnpausedEvent { schema_version: EVENT_SCHEMA_VERSION, admin, timestamp: now }
}

/// An escrow was created.
#[derive(Clone, Copy, Debug, PartialEq, Eq, Structural)]
pub struct EscrowCreated {
    pub schema_version: u32,
    pub escrow_id: u64,
    pub seller: Address,
    pub resolver: Address,
    pub token: Address,
    pub amount: i128,
    pub fee_bps: u32,
    pub resolver_fee_bps: u32,
    pub shipping_window: u64,
    pub timestamp: u64,
    pub new_state: EscrowState,
}

/// The payload of `EscrowCreated`.
pub fn emit_escrow_created(escrow_id: u64, seller: Address, resolver: Address, token: Address, amount: i128, fee_bps: u32, resolver_fee_bps: u32, shipping_window: u64, new_state: EscrowState, now: u64) -> (e: EscrowCreated)
    ensures
        e == (EscrowCreated { schema_version: EVENT_SCHEMA_VERSION, escrow_id, seller, resolver, token, amount, fee_bps, resolver_fee_bps, shipping_window, timestamp: now, new_state }),
{
    EscrowCreated { schema_version: EVENT_SCHEMA_VERSION, escrow_id, seller, resolver, token, amount, fee_bps, resolver_fee_bps, shipping_window, timestamp: now, new_state }
}

/// An escrow was funded by its buyer.
#[derive(Clone, Copy, Debug, PartialEq, Eq, Structural)]
pub struct EscrowFunded {
    pub schema_version: u32,
    pub escrow_id: u64,
    pub buyer: Address,
    pub amount: i128,
    pub timestamp: u64,
    pub prev_state: EscrowState,
    pub new_state: EscrowState,
}

/// The payload of `EscrowFunded`.
pub fn emit_escrow_funded(escrow_id: u64, buyer: Address, amount: i128, prev_state: EscrowState, new_state: EscrowState, now: u64) -> (e: EscrowFunded)
    ensures
        e == (EscrowFunded { schema_version: EVENT_SCHEMA_VERSION, escrow_id, buyer, amount, timestamp: now, prev_state, new_state }),
{
    EscrowFunded { schema_version: EVENT_SCHEMA_VERSION, escrow_id, buyer, amount, timestamp: now, prev_state, new_state }
}

/// An escrow was marked shipped.
#[derive(Clone, Debug, PartialEq, Eq)]
pub struct EscrowShipped {
    pub schema_version: u32,
    pub escrow_id: u64,
    pub seller: Address,
    pub tracking_id: Vec<u8>,
    pub timestamp: u64,
    pub prev_state: EscrowState,
    pub new_state: EscrowState,
}

/// The payload of `EscrowShipped`.
pub fn emit_escrow_shipped(escrow_id: u64, seller: Address, tracking_id: Vec<u8>, prev_state: EscrowState, new_state: EscrowState, now: u64) -> (e: EscrowShipped)
    ensures
        e == (EscrowShipped { schema_version: EVENT_SCHEMA_VERSION, escrow_id, seller, tracking_id, timestamp: now, prev_state, new_state }),
{
    EscrowShipped { schema_version: EVENT_SCHEMA_VERSION, escrow_id, seller, tracking_id, timestamp: now, prev_state, new_state }
}

/// Delivery of an escrow was recorded.
#[derive(Clone, Copy, Debug, PartialEq, Eq, Structural)]
pub struct DeliveryRecorded {
    pub schema_version: u32,
    pub escrow_id: u64,
    pub delivered_at: u64,
}

/// The payload of `DeliveryRecorded`.
pub fn emit_delivery_recorded(escrow_id: u64, delivered_at: u64) -> (e: DeliveryRecorded)
    ensures
        e == (DeliveryRecorded { schema_version: EVENT_SCHEMA_VERSION, escrow_id, delivered_at }),
{
    DeliveryRecorded { schema_version: EVENT_SCHEMA_VERSION, escrow_id, delivered_at }
}

/// An escrow was released and completed.
#[derive(Clone, Copy, Debug, PartialEq, Eq, Structural)]
pub struct EscrowCompleted {
    pub schema_version: u32,
    pub escrow_id: u64,
    pub recipient: Address,
    pub amount: i128,
    pub fee_bps: u32,
    pub timestamp: u64,
    pub prev_state: EscrowState,
    pub new_state: EscrowState,
}

/// The payload of `EscrowCompleted`.
pub fn emit_escrow_completed(escrow_id: u64, recipient: Address, amount: i128, fee_bps: u32, prev_state: EscrowState, new_state: EscrowState, now: u64) -> (e: EscrowCompleted)
    ensures
        e == (EscrowCompleted { schema_version: EVENT_SCHEMA_VERSION, escrow_id, recipient, amount, fee_bps, timestamp: now, prev_state, new_state }),
{
    EscrowCompleted { schema_version: EVENT_SCHEMA_VERSION, escrow_id, recipient, amount, fee_bps, timestamp: now, prev_state, new_state }
}

/// The buyer raised a dispute.
#[derive(Clone, Debug, PartialEq, Eq)]
pub struct DisputeRaised {
    pub schema_version: u32,
    pub escrow_id: u64,
    pub buyer: Address,
    pub reason: Vec<u8>,
    pub description: Vec<u8>,
    pub evidence_hash: [u8; 32],
    pub timestamp: u64,
    pub prev_state: EscrowState,
    pub new_state: EscrowState,
}

/// The payload of `DisputeRaised`.
pub fn emit_dispute_raised(escrow_id: u64, buyer: Address, reason: Vec<u8>, description: Vec<u8>, evidence_hash: [u8; 32], prev_state: EscrowState, new_state: EscrowState, now: u64) -> (e: DisputeRaised)
    ensures
        e == (DisputeRaised { schema_version: EVENT_SCHEMA_VERSION, escrow_id, buyer, reason, description, evidence_hash, timestamp: now, prev_state, new_state }),
{
    DisputeRaised { schema_version: EVENT_SCHEMA_VERSION, escrow_id, buyer, reason, description, evidence_hash, timestamp: now, prev_state, new_state }
}

/// A decided dispute was finalized.
#[derive(Clone, Copy, Debug, PartialEq, Eq, Structural)]
pub struct DisputeResolved {
    pub schema_version: u32,
    pub escrow_id: u64,
    pub resolver: Address,
    pub resolution: ResolutionType,
    pub recipient: Address,
    pub amount: i128,
    pub arbitration_fee: i128,
    pub resolver_fee: i128,
    pub timestamp: u64,
    pub prev_state: EscrowState,
    pub new_state: EscrowState,
}

/// The payload of `DisputeResolved`.
pub fn emit_dispute_resolved(escrow_id: u64, resolver: Address, resolution: ResolutionType, recipient: Address, amount: i128, arbitration_fee: i128, resolver_fee: i128, prev_state: EscrowState, new_state: EscrowState, now: u64) -> (e: DisputeResolved)
    ensures
        e == (DisputeResolved { schema_version: EVENT_SCHEMA_VERSION, escrow_id, resolver, resolution, recipient, amount, arbitration_fee, resolver_fee, timestamp: now, prev_state, new_state }),
{
    DisputeResolved { schema_version: EVENT_SCHEMA_VERSION, escrow_id, resolver, resolution, recipient, amount, arbitration_fee, resolver_fee, timestamp: now, prev_state, new_state }
}

/// An escrow was released automatically.
#[derive(Clone, Copy, Debug, PartialEq, Eq, Structural)]
pub struct AutoReleased {
    pub schema_version: u32,
    pub escrow_id: u64,
    pub seller: Address,
    pub amount: i128,
    pub fee_bps: u32,
    pub timestamp: u64,
    pub prev_state: EscrowState,
    pub new_state: EscrowState,
}

/// The payload of `AutoReleased`.
pub fn emit_auto_released(escrow_id: u64, seller: Address, amount: i128, fee_bps: u32, prev_state: EscrowState, new_state: EscrowState, now: u64) -> (e: AutoReleased)
    ensures
        e == (AutoReleased { schema_version: EVENT_SCHEMA_VERSION, escrow_id, seller, amount, fee_bps, timestamp: now, prev_state, new_state }),
{
    AutoReleased { schema_version: EVENT_SCHEMA_VERSION, escrow_id, seller, amount, fee_bps, timestamp: now, prev_state, new_state }
}

/// An escrow was cancelled; `cancelled_by` is the account that asked.
#[derive(Clone, Copy, Debug, PartialEq, Eq, Structural)]
pub struct EscrowCancelled {
    pub schema_version: u32,
    pub escrow_id: u64,
    pub seller: Address,
    pub cancelled_by: Address,
    pub timestamp: u64,
    pub prev_state: EscrowState,
    pub new_state: EscrowState,
}

/// The payload of `EscrowCancelled`.
pub fn emit_escrow_cancelled(escrow_id: u64, seller: Address, cancelled_by: Address, prev_state: EscrowState, new_state: EscrowState, now: u64) -> (e: EscrowCancelled)
    ensures
        e == (EscrowCancelled { schema_version: EVENT_SCHEMA_VERSION, escrow_id, seller, cancelled_by, timestamp: now, prev_state, new_state }),
{
    EscrowCancelled { schema_version: EVENT_SCHEMA_VERSION, escrow_id, seller, cancelled_by, timestamp: now, prev_state, new_state }
}

/// The contract was initialized.
#[derive(Clone, Copy, Debug, PartialEq, Eq, Structural)]
pub struct ContractInitialized {
    pub schema_version: u32,
    pub admin: Address,
    pub fee_collector: Address,
    pub arbitration_fee_bps: u32,
    pub timestamp: u64,
}

/// The payload of `ContractInitialized`.
pub fn emit_contract_initialized(admin: Address, fee_collector: Address, arbitration_fee_bps: u32, now: u64) -> (e: ContractInitialized)
    ensures
        e == (ContractInitialized { schema_version: EVENT_SCHEMA_VERSION, admin, fee_collector, arbitration_fee_bps, timestamp: now }),
{
    ContractInitialized { schema_version: EVENT_SCHEMA_VERSION, admin, fee_collector, arbitration_fee_bps, timestamp: now }
}

/// An escrow's resolver was replaced.
#[derive(Clone, Copy, Debug, PartialEq, Eq, Structural)]
pub struct ResolverRotated {
    pub schema_version: u32,
    pub escrow_id: u64,
    pub old_resolver: Address,
    pub new_resolver: Address,
    pub rotated_at: u64,
}

/// The payload of `ResolverRotated`.
pub fn emit_resolver_rotated(escrow_id: u64, old_resolver: Address, new_resolver: Address, now: u64) -> (e: ResolverRotated)
    ensures
        e == (ResolverRotated { schema_version: EVENT_SCHEMA_VERSION, escrow_id, old_resolver, new_resolver, rotated_at: now }),
{
    ResolverRotated { schema_version: EVENT_SCHEMA_VERSION, escrow_id, old_resolver, new_resolver, rotated_at: now }
}

/// A token was added to or removed from the allowlist.
#[derive(Clone, Copy, Debug, PartialEq, Eq, Structural)]
pub struct TokenAllowlistUpdated {
    pub schema_version: u32,
    pub token: Address,
    pub added: bool,
    pub timestamp: u64,
}

/// The payload of `TokenAllowlistUpdated`.
pub fn emit_token_allowlist_updated(token: Address, added: bool, now: u64) -> (e: TokenAllowlistUpdated)
    ensures
        e == (TokenAllowlistUpdated { schema_version: EVENT_SCHEMA_VERSION, token, added, timestamp: now }),
{
    TokenAllowlistUpdated { schema_version: EVENT_SCHEMA_VERSION, token, added, timestamp: now }
}

/// The token allowlist was switched on or off.
#[derive(Clone, Copy, Debug, PartialEq, Eq, Structural)]
pub struct AllowlistToggled {
    pub schema_version: u32,
    pub enabled: bool,
    pub timestamp: u64,
}

/// The payload of `AllowlistToggled`.
pub fn emit_allowlist_toggled(enabled: bool, now: u64) -> (e: AllowlistToggled)
    ensures
        e == (AllowlistToggled { schema_version: EVENT_SCHEMA_VERSION, enabled, timestamp: now }),
{
    AllowlistToggled { schema_version: EVENT_SCHEMA_VERSION, enabled, timestamp: now }
}

/// A dispute was decided and awaits finalization.
#[derive(Clone, Copy, Debug, PartialEq, Eq, Structural)]
pub struct DisputePendingFinalization {
    pub schema_version: u32,
    pub escrow_id: u64,
    pub resolver: Address,
    pub resolution: ResolutionType,
    pub amount: i128,
    pub appeal_deadline: u64,
    pub pending_at: u64,
}

/// The payload of `DisputePendingFinalization`.
pub fn emit_dispute_pending_finalization(escrow_id: u64, resolver: Address, resolution: ResolutionType, amount: i128, appeal_deadline: u64, now: u64) -> (e: DisputePendingFinalization)
    ensures
        e == (DisputePendingFinalization { schema_version: EVENT_SCHEMA_VERSION, escrow_id, resolver, resolution, amount, appeal_deadline, pending_at: now }),
{
    DisputePendingFinalization { schema_version: EVENT_SCHEMA_VERSION, escrow_id, resolver, resolution, amount, appeal_deadline, pending_at: now }
}

/// A decided dispute was appealed.
#[derive(Clone, Copy, Debug, PartialEq, Eq, Structural)]
pub struct DisputeAppealed {
    pub schema_version: u32,
    pub escrow_id: u64,
    pub appellant: Address,
    pub timestamp: u64,
}

/// The payload of `DisputeAppealed`.
pub fn emit_dispute_appealed(escrow_id: u64, appellant: Address, now: u64) -> (e: DisputeAppealed)
    ensures
        e == (DisputeAppealed { schema_version: EVENT_SCHEMA_VERSION, escrow_id, appellant, timestamp: now }),
{
    DisputeAppealed { schema_version: EVENT_SCHEMA_VERSION, escrow_id, appellant, timestamp: now }
}

/// The platform fee changed.
#[derive(Clone, Copy, Debug, PartialEq, Eq, Structural)]
pub struct PlatformFeeUpdated {
    pub schema_version: u32,
    pub old_fee_bps: u32,
    pub new_fee_bps: u32,
    pub timestamp: u64,
}

/// The payload of `PlatformFeeUpdated`.
pub fn emit_platform_fee_updated(old_fee_bps: u32, new_fee_bps: u32, now: u64) -> (e: PlatformFeeUpdated)
    ensures
        e == (PlatformFeeUpdated { schema_version: EVENT_SCHEMA_VERSION, old_fee_bps, new_fee_bps, timestamp: now }),
{
    PlatformFeeUpdated { schema_version: EVENT_SCHEMA_VERSION, old_fee_bps, new_fee_bps, timestamp: now }
}

/// The treasury changed.
#[derive(Clone, Copy, Debug, PartialEq, Eq, Structural)]
pub struct TreasuryUpdated {
    pub schema_version: u32,
    pub old_treasury: Address,
    pub new_treasury: Address,
    pub timestamp: u64,
}

/// The payload of `TreasuryUpdated`.
pub fn emit_treasury_updated(old_treasury: Address, new_treasury: Address, now: u64) -> (e: TreasuryUpdated)
    ensures
        e == (TreasuryUpdated { schema_version: EVENT_SCHEMA_VERSION, old_treasury, new_treasury, timestamp: now }),
{
    TreasuryUpdated { schema_version: EVENT_SCHEMA_VERSION, old_treasury, new_treasury, timestamp: now }
}

/// A basket escrow was created.
#[derive(Clone, Copy, Debug, PartialEq, Eq, Structural)]
pub struct BasketEscrowCreated {
    pub schema_version: u32,
    pub escrow_id: u64,
    pub seller: Address,
    pub token_count: u32,
    pub timestamp: u64,
}

/// The payload of `BasketEscrowCreated`.
pub fn emit_basket_escrow_created(escrow_id: u64, seller: Address, token_count: u32, now: u64) -> (e: BasketEscrowCreated)
    ensures
        e == (BasketEscrowCreated { schema_version: EVENT_SCHEMA_VERSION, escrow_id, seller, token_count, timestamp: now }),
{
    BasketEscrowCreated { schema_version: EVENT_SCHEMA_VERSION, escrow_id, seller, token_count, timestamp: now }
}

/// A message was posted to an escrow's thread.
#[derive(Clone, Copy, Debug, PartialEq, Eq, Structural)]
pub struct MessagePosted {
    pub schema_version: u32,
    pub escrow_id: u64,
    pub sender: Address,
    pub timestamp: u64,
}

/// The payload of `MessagePosted`.
pub fn emit_message_posted(escrow_id: u64, sender: Address, now: u64) -> (e: MessagePosted)
    ensures
        e == (MessagePosted { schema_version: EVENT_SCHEMA_VERSION, escrow_id, sender, timestamp: now }),
{
    MessagePosted { schema_version: EVENT_SCHEMA_VERSION, escrow_id, sender, timestamp: now }
}

/// The buyer asked for a refund.
#[derive(Clone, Copy, Debug, PartialEq, Eq, Structural)]
pub struct RefundRequestedEvent {
    pub schema_version: u32,
    pub escrow_id: u64,
    pub buyer: Address,
    pub timestamp: u64,
    pub prev_state: EscrowState,
    pub new_state: EscrowState,
}

/// The payload of `RefundRequestedEvent`.
pub fn emit_refund_requested(escrow_id: u64, buyer: Address, prev_state: EscrowState, new_state: EscrowState, now: u64) -> (e: RefundRequestedEvent)
    ensures
        e == (RefundRequestedEvent { schema_version: EVENT_SCHEMA_VERSION, escrow_id, buyer, timestamp: now, prev_state, new_state }),
{
    RefundRequestedEvent { schema_version: EVENT_SCHEMA_VERSION, escrow_id, buyer, timestamp: now, prev_state, new_state }
}

/// A payee approved the refund.
#[derive(Clone, Copy, Debug, PartialEq, Eq, Structural)]
pub struct RefundApprovedEvent {
    pub schema_version: u32,
    pub escrow_id: u64,
    pub seller: Address,
    pub timestamp: u64,
    pub prev_state: EscrowState,
    pub new_state: EscrowState,
}

/// The payload of `RefundApprovedEvent`.
pub fn emit_refund_approved(escrow_id: u64, seller: Address, prev_state: EscrowState, new_state: EscrowState, now: u64) -> (e: RefundApprovedEvent)
    ensures
        e == (RefundApprovedEvent { schema_version: EVENT_SCHEMA_VERSION, escrow_id, seller, timestamp: now, prev_state, new_state }),
{
    RefundApprovedEvent { schema_version: EVENT_SCHEMA_VERSION, escrow_id, seller, timestamp: now, prev_state, new_state }
}

/// A code upgrade was approved.
#[derive(Clone, Debug, PartialEq, Eq)]
pub struct ContractUpgradedEvent {
    pub schema_version: u32,
    pub admin: Address,
    pub new_wasm_hash: [u8; 32],
    pub timestamp: u64,
}

/// The payload of `ContractUpgradedEvent`.
pub fn emit_contract_upgraded(admin: Address, new_wasm_hash: [u8; 32], now: u64) -> (e: ContractUpgradedEvent)
    ensures
        e == (ContractUpgradedEvent { schema_version: EVENT_SCHEMA_VERSION, admin, new_wasm_hash, timestamp: now }),
{
    ContractUpgradedEvent { schema_version: EVENT_SCHEMA_VERSION, admin, new_wasm_hash, timestamp: now }
}

/// The storage version was brought up to date.
#[derive(Clone, Copy, Debug, PartialEq, Eq, Structural)]
pub struct StorageMigratedEvent {
    pub schema_version: u32,
    pub admin: Address,
    pub from_version: u32,
    pub to_version: u32,
    pub timestamp: u64,
}

/// The payload of `StorageMigratedEvent`.
pub fn emit_storage_migrated(admin: Address, from_version: u32, to_version: u32, now: u64) -> (e: StorageMigratedEvent)
    ensures
        e == (StorageMigratedEvent { schema_version: EVENT_SCHEMA_VERSION, admin, from_version, to_version, timestamp: now }),
{
    StorageMigratedEvent { schema_version: EVENT_SCHEMA_VERSION, admin, from_version, to_version, timestamp: now }
}

/// The storage lifetime extension changed.
#[derive(Clone, Copy, Debug, PartialEq, Eq, Structural)]
pub struct TtlExtensionUpdated {
    pub schema_version: u32,
    pub old_ledgers: u32,
    pub new_ledgers: u32,
    pub caller: Address,
    pub timestamp: u64,
}

/// The payload of `TtlExtensionUpdated`.
pub fn emit_ttl_extension_updated(old_ledgers: u32, new_ledgers: u32, caller: Address, now: u64) -> (e: TtlExtensionUpdated)
    ensures
        e == (TtlExtensionUpdated { schema_version: EVENT_SCHEMA_VERSION, old_ledgers, new_ledgers, caller, timestamp: now }),
{
    TtlExtensionUpdated { schema_version: EVENT_SCHEMA_VERSION, old_ledgers, new_ledgers, caller, timestamp: now }
}

/// The escrow amount limits changed.
#[derive(Clone, Copy, Debug, PartialEq, Eq, Structural)]
pub struct AmountLimitsUpdated {
    pub schema_version: u32,
    pub old_min_amount: i128,
    pub new_min_amount: i128,
    pub old_max_amount: i128,
    pub new_max_amount: i128,
    pub caller: Address,
    pub timestamp: u64,
}

/// The payload of `AmountLimitsUpdated`.
pub fn emit_amount_limits_updated(old_min_amount: i128, new_min_amount: i128, old_max_amount: i128, new_max_amount: i128, caller: Address, now: u64) -> (e: AmountLimitsUpdated)
    ensures
        e == (AmountLimitsUpdated { schema_version: EVENT_SCHEMA_VERSION, old_min_amount, new_min_amount, old_max_amount, new_max_amount, caller, timestamp: now }),
{
    AmountLimitsUpdated { schema_version: EVENT_SCHEMA_VERSION, old_min_amount, new_min_amount, old_max_amount, new_max_amount, caller, timestamp: now }
}

/// A resolver was approved.
#[derive(Clone, Copy, Debug, PartialEq, Eq, Structural)]
pub struct ResolverApproved {
    pub schema_version: u32,
    pub resolver: Address,
    pub caller: Address,
    pub timestamp: u64,
}

/// The payload of `ResolverApproved`.
pub fn emit_resolver_approved(resolver: Address, caller: Address, now: u64) -> (e: ResolverApproved)
    ensures
        e == (ResolverApproved { schema_version: EVENT_SCHEMA_VERSION, resolver, caller, timestamp: now }),
{
    ResolverApproved { schema_version: EVENT_SCHEMA_VERSION, resolver, caller, timestamp: now }
}

/// A resolver's approval was withdrawn.
#[derive(Clone, Copy, Debug, PartialEq, Eq, Structural)]
pub struct ResolverRemoved {
    pub schema_version: u32,
    pub resolver: Address,
    pub caller: Address,
    pub timestamp: u64,
}

/// The payload of `ResolverRemoved`.
pub fn emit_resolver_removed(resolver: Address, caller: Address, now: u64) -> (e: ResolverRemoved)
    ensures
        e == (ResolverRemoved { schema_version: EVENT_SCHEMA_VERSION, resolver, caller, timestamp: now }),
{
    ResolverRemoved { schema_version: EVENT_SCHEMA_VERSION, resolver, caller, timestamp: now }
}

/// Strict resolver approval was switched.
#[derive(Clone, Copy, Debug, PartialEq, Eq, Structural)]
pub struct ResolverStrictUpdated {
    pub schema_version: u32,
    pub old_strict: bool,
    pub new_strict: bool,
    pub caller: Address,
    pub timestamp: u64,
}

/// The payload of `ResolverStrictUpdated`.
pub fn emit_resolver_strict_updated(old_strict: bool, new_strict: bool, caller: Address, now: u64) -> (e: ResolverStrictUpdated)
    ensures
        e == (ResolverStrictUpdated { schema_version: EVENT_SCHEMA_VERSION, old_strict, new_strict, caller, timestamp: now }),
{
    ResolverStrictUpdated { schema_version: EVENT_SCHEMA_VERSION, old_strict, new_strict, caller, timestamp: now }
}

/// The fee collector changed.
#[derive(Clone, Copy, Debug, PartialEq, Eq, Structural)]
pub struct FeeCollectorUpdated {
    pub schema_version: u32,
    pub old_collector: Address,
    pub new_collector: Address,
    pub timestamp: u64,
}

/// The payload of `FeeCollectorUpdated`.
pub fn emit_fee_collector_updated(old_collector: Address, new_collector: Address, now: u64) -> (e: FeeCollectorUpdated)
    ensures
        e == (FeeCollectorUpdated { schema_version: EVENT_SCHEMA_VERSION, old_collector, new_collector, timestamp: now }),
{
    FeeCollectorUpdated { schema_version: EVENT_SCHEMA_VERSION, old_collector, new_collector, timestamp: now }
}

/// A resolver's vote on a disputed escrow was recorded.
#[derive(Clone, Copy, Debug, PartialEq, Eq, Structural)]
pub struct ResolverVoteRecorded {
    pub schema_version: u32,
    pub escrow_id: u64,
    pub resolver: Address,
    pub resolution: ResolutionType,
    pub vote_count: u32,
    pub threshold: u32,
    pub voted_at: u64,
}

/// The payload of `ResolverVoteRecorded`.
pub fn emit_resolver_vote_recorded(
    escrow_id: u64,
    resolver: Address,
    resolution: ResolutionType,
    vote_count: u32,
    threshold: u32,
    now: u64,
) -> (e: ResolverVoteRecorded)
    ensures
        e == (ResolverVoteRecorded {
            schema_version: EVENT_SCHEMA_VERSION,
            escrow_id,
            resolver,
            resolution,
            vote_count,
            threshold,
            voted_at: now,
        }),
{
    ResolverVoteRecorded {
        schema_version: EVENT_SCHEMA_VERSION,
        escrow_id,
        resolver,
        resolution,
        vote_count,
        threshold,
        voted_at: now,
    }
}

/// A paused contract returned an escrow's funds to its buyer.
#[derive(Clone, Copy, Debug, PartialEq, Eq, Structural)]
pub struct EmergencyDrain {
    pub schema_version: u32,
    pub escrow_id: u64,
    pub buyer: Address,
    pub seller: Address,
    pub timestamp: u64,
}

/// The payload of `EmergencyDrain`.
pub fn emit_emergency_drain(escrow_id: u64, buyer: Address, seller: Address, now: u64) -> (e: EmergencyDrain)
    ensures
        e == (EmergencyDrain { schema_version: EVENT_SCHEMA_VERSION, escrow_id, buyer, seller, timestamp: now }),
{
    EmergencyDrain { schema_version: EVENT_SCHEMA_VERSION, escrow_id, buyer, seller, timestamp: now }
}

/// One announced event.
#[derive(Clone, Debug, PartialEq, Eq)]
pub enum Event {
    FeeUpdated(FeeUpdated),
    ProtocolFeeUpdated(ProtocolFeeUpdated),
    ArbitrationFeeUpdated(ArbitrationFeeUpdated),
    AdminRotated(AdminRotated),
    ContractPaused(ContractPausedEvent),
    ContractUnpaused(ContractUnpausedEvent),
    EscrowCreated(EscrowCreated),
    EscrowFunded(EscrowFunded),
    EscrowShipped(EscrowShipped),
    DeliveryRecorded(DeliveryRecorded),
    EscrowCompleted(EscrowCompleted),
    DisputeRaised(DisputeRaised),
    DisputeResolved(DisputeResolved),
    AutoReleased(AutoReleased),
    EscrowCancelled(EscrowCancelled),
    ContractInitialized(ContractInitialized),
    ResolverRotated(ResolverRotated),
    TokenAllowlistUpdated(TokenAllowlistUpdated),
    AllowlistToggled(AllowlistToggled),
    DisputePendingFinalization(DisputePendingFinalization),
    DisputeAppealed(DisputeAppealed),
    PlatformFeeUpdated(PlatformFeeUpdated),
    TreasuryUpdated(TreasuryUpdated),
    BasketEscrowCreated(BasketEscrowCreated),
    MessagePosted(MessagePosted),
    RefundRequested(RefundRequestedEvent),
    RefundApproved(RefundApprovedEvent),
    ContractUpgraded(ContractUpgradedEvent),
    StorageMigrated(StorageMigratedEvent),
    TtlExtensionUpdated(TtlExtensionUpdated),
    AmountLimitsUpdated(AmountLimitsUpdated),
    ResolverApproved(ResolverApproved),
    ResolverRemoved(ResolverRemoved),
    ResolverStrictUpdated(ResolverStrictUpdated),
    FeeCollectorUpdated(FeeCollectorUpdated),
    EmergencyDrain(EmergencyDrain),
    ResolverVoteRecorded(ResolverVoteRecorded),
    /// The administrator replaced the fee collector directly: the old and
    /// the new collector.
    FeeCollectorReplaced(Address, Address),
}

/// Whether events `a` and `b` carry the same payload, texts compared by
/// their bytes.
pub open spec fn same_event(a: Event, b: Event) -> bool {
    match a {
        Event::EscrowShipped(x) => match b {
            Event::EscrowShipped(y) => x.tracking_id@ == y.tracking_id@ && (EscrowShipped {
                tracking_id: y.tracking_id,
                ..x
            }) == y,
            _ => false,
        },
        Event::DisputeRaised(x) => match b {
            Event::DisputeRaised(y) => x.reason@ == y.reason@ && x.description@ == y.description@
                && (DisputeRaised { reason: y.reason, description: y.description, ..x }) == y,
            _ => false,
        },
        _ => a == b,
    }
}

/// Whether log `after` is log `before` with event `e` announced.
pub open spec fn published(before: Seq<Event>, after: Seq<Event>, e: Event) -> bool {
    &&& after.len() == before.len() + 1
    &&& after.drop_last() == before
    &&& same_event(after.last(), e)
}

/// Whether log `after` is log `before` with `e` announced, if there is one.
pub open spec fn published_if(before: Seq<Event>, after: Seq<Event>, e: Option<Event>) -> bool {
    match e {
        Some(ev) => published(before, after, ev),
        None => after == before,
    }
}

} // verus!
