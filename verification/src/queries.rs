//! Read-only views over escrows, fees and contract-wide configuration.

use vstd::prelude::*;
use crate::errors::ContractError;
use crate::state::{ids_of, Escrow};
use crate::types::{
    copy_values,
    Address, ContractConfig, ContractStats, EscrowData, EscrowState, FeeConfig, Message,
    PublicContractConfig, TokenEntry,
};
use crate::{DEFAULT_TTL_EXTENSION, ESCROW_INDEX_PAGE_SIZE, MAX_MESSAGES_PER_PAGE};

verus! {

/// Most recent escrows the buyer look-up scans when a buyer has no index.
pub const BUYER_SCAN_LIMIT: u64 = 1000;

/// Number of index pages holding `total` ids.
pub fn page_count(total: u32) -> (n: u32)
    ensures
        n == (total + ESCROW_INDEX_PAGE_SIZE - 1) / (ESCROW_INDEX_PAGE_SIZE as int),
{
    let full = total / ESCROW_INDEX_PAGE_SIZE;
    if total % ESCROW_INDEX_PAGE_SIZE == 0 {
        full
    } else {
        full + 1
    }
}

/// Whether message `a` is a copy of message `b`.
pub open spec fn same_message(a: Message, b: Message) -> bool {
    a.sender == b.sender && a.timestamp == b.timestamp && a.content@ == b.content@
}

pub fn copy_message(m: &Message) -> (r: Message)
    ensures
        same_message(r, *m),
{
    let mut content: Vec<u8> = Vec::new();
    let mut i: usize = 0;
    while i < m.content.len()
        invariant
            0 <= i <= m.content@.len(),
            content@ == m.content@.take(i as int),
        decreases m.content@.len() - i,
    {
        content.push(m.content[i]);
        proof {
            assert(content@ =~= m.content@.take(i + 1));
        }
        i = i + 1;
    }
    proof {
        assert(m.content@.take(m.content@.len() as int) =~= m.content@);
    }
    Message { sender: m.sender, timestamp: m.timestamp, content }
}

impl Escrow {
    /// The messages of escrow `id` in positions `start..` up to `limit`
    /// of them (at most `MAX_MESSAGES_PER_PAGE`), oldest first.
    pub open spec fn message_page(self, id: u64, start: u64, limit: u64) -> (int, int) {
        let total = if self.has(id) {
            self.rec(id).messages@.len() as int
        } else {
            0
        };
        let lim = if limit > MAX_MESSAGES_PER_PAGE {
            MAX_MESSAGES_PER_PAGE as int
        } else {
            limit as int
        };
        if start >= total {
            (0, 0)
        } else if start + lim < total {
            (start as int, start + lim)
        } else {
            (start as int, total)
        }
    }

    /// A page of escrow `escrow_id`'s messages: from position `start`, at
    /// most `limit` (capped at `MAX_MESSAGES_PER_PAGE`) of them.
    pub fn get_messages(&self, escrow_id: u64, start: u64, limit: u64) -> (r: Vec<Message>)
        ensures
            ({
                let (lo, hi) = self.message_page(escrow_id, start, limit);
                &&& r@.len() == hi - lo
                &&& forall|k: int|
                    0 <= k < r@.len() ==> same_message(
                        #[trigger] r@[k],
                        self.rec(escrow_id).messages@[lo + k],
                    )
            }),
    {
        let mut out: Vec<Message> = Vec::new();
        if escrow_id == 0 || escrow_id > self.escrows.len() as u64 {
            return out;
        }
        let msgs = &self.escrows[(escrow_id - 1) as usize].messages;
        let max_limit = if limit > MAX_MESSAGES_PER_PAGE {
            MAX_MESSAGES_PER_PAGE
        } else {
            limit
        };
        let total = msgs.len() as u64;
        if start >= total {
            return out;
        }
        let end = if max_limit < total - start {
            start + max_limit
        } else {
            total
        };
        let lo = start as usize;
        let hi = end as usize;
        let mut i: usize = lo;
        while i < hi
            invariant
                lo <= i <= hi <= msgs@.len(),
                lo == start,
                hi == end,
                msgs == self.rec(escrow_id).messages,
                out@.len() == i - lo,
                forall|k: int|
                    0 <= k < out@.len() ==> same_message(#[trigger] out@[k], msgs@[lo + k]),
            decreases hi - i,
        {
            let m = copy_message(&msgs[i]);
            out.push(m);
            i = i + 1;
        }
        out
    }

    /// The basket of escrow `escrow_id`: its token entries in the order they
    /// were given, and nothing for a single-token or an unknown escrow.
    pub fn get_basket_tokens(&self, escrow_id: u64) -> (r: Vec<TokenEntry>)
        ensures
            r@ == (if self.has(escrow_id) {
                self.rec(escrow_id).basket@
            } else {
                Seq::<TokenEntry>::empty()
            }),
    {
        let mut out: Vec<TokenEntry> = Vec::new();
        if escrow_id == 0 || escrow_id > self.escrows.len() as u64 {
            return out;
        }
        let b = &self.escrows[(escrow_id - 1) as usize].basket;
        let mut i: usize = 0;
        while i < b.len()
            invariant
                0 <= i <= b@.len(),
                out@ == b@.take(i as int),
            decreases b@.len() - i,
        {
            out.push(b[i]);
            proof {
                assert(out@ =~= b@.take(i + 1));
            }
            i = i + 1;
        }
        proof {
            assert(b@.take(b@.len() as int) =~= b@);
        }
        out
    }

    /// The record of escrow `escrow_id`; `EscrowNotFound` for an unknown one.
    pub fn get_escrow(&self, escrow_id: u64) -> (r: Result<&EscrowData, ContractError>)
        ensures
            r == (if self.has(escrow_id) {
                Ok::<&EscrowData, ContractError>(&self.rec(escrow_id).data)
            } else {
                Err::<&EscrowData, ContractError>(ContractError::EscrowNotFound)
            }),
    {
        if escrow_id == 0 || escrow_id > self.escrows.len() as u64 {
            return Err(ContractError::EscrowNotFound);
        }
        Ok(&self.escrows[(escrow_id - 1) as usize].data)
    }

    /// The state changes of escrow `escrow_id`, oldest first;
    /// `EscrowNotFound` for an unknown one.
    pub fn get_state_history(&self, escrow_id: u64) -> (r: Result<Vec<(EscrowState, u64)>, ContractError>)
        ensures
            match r {
                Err(e) => !self.has(escrow_id) && e == ContractError::EscrowNotFound,
                Ok(h) => self.has(escrow_id) && h@ == self.rec(escrow_id).history@,
            },
    {
        if escrow_id == 0 || escrow_id > self.escrows.len() as u64 {
            return Err(ContractError::EscrowNotFound);
        }
        let h = &self.escrows[(escrow_id - 1) as usize].history;
        let mut out: Vec<(EscrowState, u64)> = Vec::new();
        let mut i: usize = 0;
        while i < h.len()
            invariant
                0 <= i <= h@.len(),
                out@ == h@.take(i as int),
            decreases h@.len() - i,
        {
            out.push(h[i]);
            proof {
                assert(out@ =~= h@.take(i + 1));
            }
            i = i + 1;
        }
        proof {
            assert(h@.take(h@.len() as int) =~= h@);
        }
        Ok(out)
    }

    /// The ids in `lo..hi` of existing escrows designated for `buyer`,
    /// ascending.
    pub open spec fn buyer_scan(self, buyer: Address, lo: int, hi: int) -> Seq<u64>
        decreases hi - lo,
    {
        if hi <= lo {
            Seq::empty()
        } else {
            let rest = self.buyer_scan(buyer, lo, hi - 1);
            let id = (hi - 1) as u64;
            if self.has(id) && self.rec(id).data.buyer == Some(buyer) {
                rest.push(id)
            } else {
                rest
            }
        }
    }

    /// The first id the buyer scan looks at: the scan covers at most the
    /// `BUYER_SCAN_LIMIT` most recent ids below the next id.
    pub open spec fn buyer_scan_start(self) -> int {
        if self.next_id() > BUYER_SCAN_LIMIT + 1 {
            self.next_id() - BUYER_SCAN_LIMIT
        } else {
            1
        }
    }

    /// The escrows of `buyer`: those recorded when the buyer funded them, or,
    /// for a buyer with no record, the recent escrows designated for them.
    pub fn get_escrows_by_buyer(&self, buyer: Address) -> (r: Vec<u64>)
        requires
            self.wf(),
        ensures
            r@ == (if crate::state::has_owner(self.buyer_index@, buyer) {
                ids_of(self.buyer_index@, buyer)
            } else {
                self.buyer_scan(buyer, self.buyer_scan_start(), self.next_id() as int)
            }),
    {
        let mut k: usize = 0;
        while k < self.buyer_index.len()
            invariant
                0 <= k <= self.buyer_index@.len(),
                crate::state::owners_unique(self.buyer_index@),
                forall|j: int| 0 <= j < k ==> self.buyer_index@[j].owner != buyer,
            decreases self.buyer_index@.len() - k,
        {
            if self.buyer_index[k].owner == buyer {
                proof {
                    let j = choose|j: int|
                        0 <= j < self.buyer_index@.len() && self.buyer_index@[j].owner == buyer;
                    assert(j == k);
                }
                return copy_values(&self.buyer_index[k].ids);
            }
            k = k + 1;
        }
        let next = match self.escrow_counter {
            Some(c) => c,
            None => 1,
        };
        let lo = if next > BUYER_SCAN_LIMIT + 1 {
            next - BUYER_SCAN_LIMIT
        } else {
            1
        };
        let mut out: Vec<u64> = Vec::new();
        let mut id = lo;
        while id < next
            invariant
                lo <= id <= next,
                lo == self.buyer_scan_start(),
                next == self.next_id(),
                out@ == self.buyer_scan(buyer, lo as int, id as int),
            decreases next - id,
        {
            if id <= self.escrows.len() as u64 {
                if self.escrows[(id - 1) as usize].data.buyer == Some(buyer) {
                    out.push(id);
                }
            }
            id = id + 1;
        }
        out
    }

    /// The escrows recorded for `vendor`, in creation order.
    pub fn get_escrows_by_vendor(&self, vendor: Address) -> (r: Vec<u64>)
        requires
            self.wf(),
        ensures
            r@ == ids_of(self.vendor_index@, vendor),
    {
        let mut k: usize = 0;
        while k < self.vendor_index.len()
            invariant
                0 <= k <= self.vendor_index@.len(),
                crate::state::owners_unique(self.vendor_index@),
                forall|j: int| 0 <= j < k ==> self.vendor_index@[j].owner != vendor,
            decreases self.vendor_index@.len() - k,
        {
            if self.vendor_index[k].owner == vendor {
                proof {
                    let j = choose|j: int|
                        0 <= j < self.vendor_index@.len() && self.vendor_index@[j].owner == vendor;
                    assert(j == k);
                }
                return copy_values(&self.vendor_index[k].ids);
            }
            k = k + 1;
        }
        Vec::new()
    }

    /// The escrows recorded for `seller`, as `get_escrows_by_vendor`.
    pub fn get_escrows_by_seller(&self, seller: Address) -> (r: Vec<u64>)
        requires
            self.wf(),
        ensures
            r@ == ids_of(self.vendor_index@, seller),
    {
        self.get_escrows_by_vendor(seller)
    }

    /// The records of the given escrows, in order, `None` for an unknown id;
    /// at most the first `MAX_MESSAGES_PER_PAGE` ids are looked up.
    pub fn get_escrows_by_ids<'a>(&'a self, ids: &Vec<u64>) -> (r: Vec<Option<&'a EscrowData>>)
        ensures
            r@.len() == (if ids@.len() > MAX_MESSAGES_PER_PAGE {
                MAX_MESSAGES_PER_PAGE as int
            } else {
                ids@.len() as int
            }),
            forall|k: int|
                0 <= k < r@.len() ==> #[trigger] r@[k] == (if self.has(ids@[k]) {
                    Some(&self.rec(ids@[k]).data)
                } else {
                    None
                }),
    {
        let limit = if ids.len() as u64 > MAX_MESSAGES_PER_PAGE {
            MAX_MESSAGES_PER_PAGE as usize
        } else {
            ids.len()
        };
        let mut out: Vec<Option<&'a EscrowData>> = Vec::new();
        let mut k: usize = 0;
        while k < limit
            invariant
                0 <= k <= limit <= ids@.len(),
                out@.len() == k,
                forall|m: int|
                    0 <= m < k ==> #[trigger] out@[m] == (if self.has(ids@[m]) {
                        Some(&self.rec(ids@[m]).data)
                    } else {
                        None
                    }),
            decreases limit - k,
        {
            let id = ids[k];
            if id == 0 || id > self.escrows.len() as u64 {
                out.push(None);
            } else {
                out.push(Some(&self.escrows[(id - 1) as usize].data));
            }
            k = k + 1;
        }
        out
    }

    /// The fee configuration in force.
    pub fn get_fee_config(&self) -> (c: FeeConfig)
        ensures
            c == self.fees(),
    {
        self.read_fee_config()
    }

    /// The number of ledgers the contract's storage is kept alive for: the
    /// administrator's setting, else the default.
    pub fn get_ttl_extension(&self) -> (l: u32)
        ensures
            l == self.ttl(),
    {
        match self.ttl_extension {
            Some(l) => l,
            None => DEFAULT_TTL_EXTENSION,
        }
    }

    /// The lifecycle counters.
    pub fn get_stats(&self) -> (s: ContractStats)
        ensures
            s == self.stats,
    {
        self.stats
    }

    /// The number of escrow ids handed out so far.
    pub open spec fn escrow_count(self) -> u64 {
        if self.next_id() >= 1 {
            (self.next_id() - 1) as u64
        } else {
            0
        }
    }

    /// Configuration anyone may read: fees, pause flag and escrow count.
    pub fn get_public_config(&self) -> (c: PublicContractConfig)
        ensures
            c == (PublicContractConfig {
                fee_bps: self.fees().protocol_fee_bps,
                arbitration_fee_bps: self.fees().arbitration_fee_bps,
                paused: self.paused,
                escrow_count: self.escrow_count(),
            }),
    {
        let config = self.read_fee_config();
        let counter = match self.escrow_counter {
            Some(c) => c,
            None => 1,
        };
        PublicContractConfig {
            fee_bps: config.protocol_fee_bps,
            arbitration_fee_bps: config.arbitration_fee_bps,
            paused: self.paused,
            escrow_count: counter.saturating_sub(1),
        }
    }

    /// Configuration for the administrator (who authorizes the call);
    /// `NotInitialized` before initialization.
    pub fn get_contract_config(&self) -> (r: Result<ContractConfig, ContractError>)
        ensures
            r == (match (self.admin, self.fee_collector) {
                (Some(a), Some(f)) => Ok(
                    ContractConfig {
                        admin: a,
                        fee_bps: self.fees().protocol_fee_bps,
                        arbitration_fee_bps: self.fees().arbitration_fee_bps,
                        fee_collector: f,
                        escrow_count: self.escrow_count(),
                    },
                ),
                _ => Err(ContractError::NotInitialized),
            }),
    {
        let admin = match self.admin {
            Some(a) => a,
            None => return Err(ContractError::NotInitialized),
        };
        let fee_collector = match self.fee_collector {
            Some(f) => f,
            None => return Err(ContractError::NotInitialized),
        };
        let config = self.read_fee_config();
        let counter = match self.escrow_counter {
            Some(c) => c,
            None => 1,
        };
        Ok(
            ContractConfig {
                admin,
                fee_bps: config.protocol_fee_bps,
                arbitration_fee_bps: config.arbitration_fee_bps,
                fee_collector,
                escrow_count: counter.saturating_sub(1),
            },
        )
    }
}

} // verus!
