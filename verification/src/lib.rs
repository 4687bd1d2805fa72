//! A verified model of a three-party escrow contract: sellers (payees),
//! buyers and resolvers, with fee accounting, disputes, appeals, timelocked
//! administration and token-basket escrows.
//!
//! Every entry point is a method on [`Escrow`], the whole contract state held
//! as plain values. Token movements are not performed here: each operation
//! returns the [`types::Transfer`]s the hosting layer must execute, and what
//! it announces is appended to the state's event log for the host to
//! publish. A refused operation leaves the state untouched.

pub mod errors;
pub mod events;
pub mod fees;
pub mod payout;
pub mod reader;
pub mod token;
pub mod types;
pub mod resolvers;
pub mod state;
pub mod lifecycle;
pub mod flow;
pub mod disputes;
pub mod admin;
pub mod queries;
pub mod batch;
pub mod snapshot;
pub mod laws;

pub use crate::errors::ContractError;
pub use crate::fees::{calculate_fee, calculate_protocol_fee};
pub use crate::state::Escrow;

use vstd::prelude::*;

verus! {

/// Maximum per-escrow fee in basis points (3%).
pub const MAX_ESCROW_FEE_BPS: u32 = 300;

/// Maximum arbitration fee in basis points (5%).
pub const MAX_ARBITRATION_FEE_BPS: u32 = 500;

/// Maximum protocol plus arbitration fee in basis points (10%).
pub const MAX_COMBINED_FEE_BPS: u32 = 1_000;

/// Semantic version of the contract.
pub const CONTRACT_VERSION: u32 = 1;

/// Storage schema version this model expects.
pub const STORAGE_VERSION: u32 = 1;

/// Maximum platform fee in basis points (2%).
pub const MAX_PLATFORM_FEE_BPS: u32 = 200;

/// Appeal window after a resolution, in seconds (24 hours).
pub const APPEAL_WINDOW: u64 = 86_400;

/// Default minimum escrow amount.
pub const MIN_ESCROW_AMOUNT: i128 = 1;

/// Buyer's dispute window after funding, in seconds (48 hours).
pub const DISPUTE_WINDOW: u64 = 172_800;

/// Window after a recorded delivery before funds may be auto-released.
pub const DELIVERY_RELEASE_WINDOW: u64 = 172_800;

/// Smallest storage lifetime extension an administrator may configure.
pub const MIN_TTL_EXTENSION: u32 = 1_000;

/// Storage lifetime extension used when none has been configured.
pub const DEFAULT_TTL_EXTENSION: u32 = 120_960;

/// How long a pending escrow waits for funding (7 days).
pub const PENDING_EXPIRY_WINDOW: u64 = 604_800;

/// Maximum number of entries kept in an escrow's state history.
pub const MAX_STATE_HISTORY_ENTRIES: u64 = 50;

/// Basis-points denominator (100%).
pub const BASIS_POINTS: u32 = 10_000;

/// Delay between proposing and recording a delivery.
pub const DELIVERY_TIMELOCK: u64 = 86_400;

/// Maximum tracking id length.
pub const MAX_TRACKING_ID_LEN: u64 = 64;

/// Maximum dispute description length.
pub const MAX_DESCRIPTION_LEN: u64 = 256;

/// Maximum escrow notes length.
pub const MAX_NOTES_LEN: u64 = 500;

/// Maximum message length.
pub const MAX_MESSAGE_LEN: u64 = 500;

/// Maximum number of messages per escrow.
pub const MAX_MESSAGES_PER_ESCROW: u64 = 100;

/// Smallest shipping window in seconds.
pub const MIN_SHIPPING_WINDOW: u64 = 1;

/// Largest shipping window in seconds (about two years).
pub const MAX_SHIPPING_WINDOW: u64 = 63_072_000;

/// Shipping window used by the seven-argument creation entry point.
pub const DEFAULT_SHIPPING_WINDOW: u64 = 3600;

/// Maximum page size of message and batch reads.
pub const MAX_MESSAGES_PER_PAGE: u64 = 50;

/// Default maximum escrow amount, `i128::MAX / 10_000`.
pub const MAX_ESCROW_AMOUNT: i128 = 17_014_118_346_046_923_173_168_730_371_588_410;

/// Maximum number of appeals per dispute.
pub const MAX_APPEALS: u32 = 3;

/// Delay of every timelocked administrative operation (24 hours).
pub const ADMIN_TIMELOCK_DELAY_SECONDS: u64 = 86_400;

/// Thirty days in seconds, a customary distance for a fallback resolver's
/// deadline; the deadline itself is not checked against it.
pub const MAX_FALLBACK_DEADLINE_OFFSET: u64 = 2_592_000;

/// Number of escrow ids per page of a paged owner index.
pub const ESCROW_INDEX_PAGE_SIZE: u32 = 50;

} // verus!
