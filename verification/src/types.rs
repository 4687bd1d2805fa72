//! Data types of the escrow contract, held as plain values.

use vstd::prelude::*;

verus! {

/// An account or token identifier. The hosting layer assigns each distinct
/// host address one identifier; `Address(0)` stands for the all-zero account.
#[derive(Clone, Copy, Debug, PartialEq, Eq, Structural, Hash, PartialOrd, Ord)]
pub struct Address(pub u64);

impl Address {
    /// The all-zero account, never valid for an administrative role or payee.
    pub fn zero() -> (a: Address)
        ensures
            a == Address(0),
    {
        Address(0)
    }
}

/// Lifecycle states of an escrow.
#[derive(Clone, Copy, Debug, PartialEq, Eq, Structural, Hash)]
pub enum EscrowState {
    Pending,
    Funded,
    Shipped,
    Disputed,
    PendingFinalization,
    Completed,
    Refunded,
    Canceled,
    Expired,
    RefundRequested,
}

/// How a dispute is settled: pay the payees, or refund the buyer.
#[derive(Clone, Copy, Debug, PartialEq, Eq, Structural, Hash)]
pub enum ResolutionType {
    Release,
    Refund,
}

/// Whether a dispute is open or settled.
#[derive(Clone, Copy, Debug, PartialEq, Eq, Structural, Hash)]
pub enum DisputeStatus {
    Active,
    Resolved,
}

/// A recipient of a share of the payout, in basis points.
#[derive(Clone, Copy, Debug, PartialEq, Eq, Structural, Hash)]
pub struct Payee {
    pub address: Address,
    pub bps: u32,
}

/// Several resolvers voting, with `threshold` matching votes deciding.
#[derive(Clone, Debug, PartialEq, Eq)]
pub struct MultiResolver {
    pub resolvers: Vec<Address>,
    pub threshold: u32,
}

/// A primary resolver and a backup who may act from `dispute_deadline` on.
#[derive(Clone, Copy, Debug, PartialEq, Eq, Structural)]
pub struct FallbackResolver {
    pub primary: Address,
    pub backup: Address,
    pub dispute_deadline: u64,
}

/// Who may settle an escrow's dispute.
#[derive(Clone, Debug, PartialEq, Eq)]
pub enum ResolverSet {
    Single(Address),
    Multi(MultiResolver),
    Fallback(FallbackResolver),
}

/// The stored record of one escrow.
#[derive(Clone, Debug, PartialEq, Eq)]
pub struct EscrowData {
    pub payees: Vec<Payee>,
    pub buyer: Option<Address>,
    pub resolvers: ResolverSet,
    pub token: Address,
    pub amount: i128,
    pub fee_bps: u32,
    pub resolver_fee_bps: u32,
    pub shipping_window: u64,
    pub funded_at: u64,
    pub dispute_deadline: u64,
    pub state: EscrowState,
    pub shipped_at: u64,
    pub delivered_at: Option<u64>,
    pub tracking_id: Option<Vec<u8>>,
    pub notes: Option<Vec<u8>>,
}

/// The stored record of an escrow's dispute.
///
/// `resolution` is `0` while undecided, `1` for release and `2` for refund.
#[derive(Clone, Debug, PartialEq, Eq)]
pub struct DisputeData {
    pub escrow_id: u64,
    pub reason: Vec<u8>,
    pub description: Vec<u8>,
    pub evidence_hash: [u8; 32],
    pub status: DisputeStatus,
    pub disputed_at: u64,
    pub tracking_id: Option<Vec<u8>>,
    pub resolution: u32,
    pub resolved_by: Option<Address>,
    pub appeal_count: u32,
    pub resolved_at: u64,
    pub arbitration_fee: i128,
    pub resolver_fee: i128,
    pub fees_charged: bool,
}

/// The code a decided resolution is stored under.
pub open spec fn resolution_code(r: ResolutionType) -> u32 {
    match r {
        ResolutionType::Release => 1,
        ResolutionType::Refund => 2,
    }
}

/// The resolution a stored code stands for, if any.
pub open spec fn resolution_of_code(c: u32) -> Option<ResolutionType> {
    if c == 1 {
        Some(ResolutionType::Release)
    } else if c == 2 {
        Some(ResolutionType::Refund)
    } else {
        None
    }
}

impl DisputeData {
    /// The decided resolution, if one is recorded.
    pub fn get_resolution(&self) -> (r: Option<ResolutionType>)
        ensures
            r == resolution_of_code(self.resolution),
    {
        if self.resolution == 1 {
            Some(ResolutionType::Release)
        } else if self.resolution == 2 {
            Some(ResolutionType::Refund)
        } else {
            None
        }
    }
}

/// A resolver's vote on a dispute.
#[derive(Clone, Copy, Debug, PartialEq, Eq, Structural)]
pub struct ResolverVote {
    pub resolver: Address,
    pub resolution: ResolutionType,
    pub voted_at: u64,
}

/// One token of a basket escrow and the amount of it held.
#[derive(Clone, Copy, Debug, PartialEq, Eq, Structural)]
pub struct TokenEntry {
    pub token: Address,
    pub amount: i128,
}

/// When an unfunded escrow expires, and the grace period before reclaim.
#[derive(Clone, Copy, Debug, PartialEq, Eq, Structural)]
pub struct ExpirySchedule {
    pub expires_at: u64,
    pub grace_period: u64,
}

/// A message posted on an escrow's thread.
#[derive(Clone, Debug, PartialEq, Eq)]
pub struct Message {
    pub sender: Address,
    pub timestamp: u64,
    pub content: Vec<u8>,
}

/// Protocol and arbitration fee rates in basis points.
#[derive(Clone, Copy, Debug, PartialEq, Eq, Structural)]
pub struct FeeConfig {
    pub protocol_fee_bps: u32,
    pub arbitration_fee_bps: u32,
}

/// Lifecycle counters.
#[derive(Clone, Copy, Debug, PartialEq, Eq, Structural)]
pub struct ContractStats {
    pub total_created: u64,
    pub total_completed: u64,
    pub total_disputed: u64,
    pub total_refunded: u64,
}

/// Configuration readable by anyone.
#[derive(Clone, Copy, Debug, PartialEq, Eq, Structural)]
pub struct PublicContractConfig {
    pub fee_bps: u32,
    pub arbitration_fee_bps: u32,
    pub paused: bool,
    pub escrow_count: u64,
}

/// Configuration readable by the administrator.
#[derive(Clone, Copy, Debug, PartialEq, Eq, Structural)]
pub struct ContractConfig {
    pub admin: Address,
    pub fee_bps: u32,
    pub arbitration_fee_bps: u32,
    pub fee_collector: Address,
    pub escrow_count: u64,
}

/// One escrow of a batch creation.
#[derive(Clone, Debug, PartialEq, Eq)]
pub struct EscrowInput {
    pub buyer: Option<Address>,
    pub resolver: Address,
    pub token: Address,
    pub amount: i128,
    pub fee_bps: u32,
    pub shipping_window: u64,
    pub notes: Option<Vec<u8>>,
}

/// A token movement the hosting layer must perform for an operation.
#[derive(Clone, Copy, Debug, PartialEq, Eq, Structural)]
pub struct Transfer {
    pub token: Address,
    pub from: Address,
    pub to: Address,
    pub amount: i128,
}

/// The escrow ids recorded for one seller or buyer, oldest first.
#[derive(Clone, Debug, PartialEq, Eq)]
pub struct OwnerIndex {
    pub owner: Address,
    pub ids: Vec<u64>,
}

/// A copy of a vector of plain values.
pub fn copy_values<T: Copy>(v: &Vec<T>) -> (r: Vec<T>)
    ensures
        r@ == v@,
{
    let mut out: Vec<T> = Vec::new();
    let mut i: usize = 0;
    while i < v.len()
        invariant
            0 <= i <= v.len(),
            out@ == v@.take(i as int),
        decreases v.len() - i,
    {
        out.push(v[i]);
        proof {
            assert(out@ =~= v@.take(i + 1));
        }
        i = i + 1;
    }
    proof {
        assert(v@.take(v@.len() as int) =~= v@);
    }
    out
}

/// A copy of the bytes `v`.
pub fn copy_text(v: &Vec<u8>) -> (r: Vec<u8>)
    ensures
        r@ == v@,
{
    let mut out: Vec<u8> = Vec::new();
    let mut i: usize = 0;
    while i < v.len()
        invariant
            0 <= i <= v.len(),
            out@ == v@.take(i as int),
        decreases v.len() - i,
    {
        out.push(v[i]);
        proof {
            assert(out@ =~= v@.take(i + 1));
        }
        i = i + 1;
    }
    proof {
        assert(v@.take(v@.len() as int) =~= v@);
    }
    out
}

} // verus!
