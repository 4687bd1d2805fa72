//! Administration: initialization, pausing, fee parameters, the timelocked
//! two-step changes, the token allowlist, the resolver registry and the
//! emergency drain.

use vstd::prelude::*;
use crate::errors::ContractError;
use crate::events::{
    emit_admin_rotated, emit_emergency_drain, EmergencyDrain, emit_allowlist_toggled, emit_amount_limits_updated,
    emit_arbitration_fee_updated, emit_contract_initialized, emit_contract_paused,
    emit_contract_unpaused, emit_contract_upgraded, emit_fee_collector_updated, emit_fee_updated,
    emit_platform_fee_updated, emit_protocol_fee_updated, emit_resolver_approved,
    emit_resolver_removed, emit_resolver_strict_updated, emit_storage_migrated,
    emit_token_allowlist_updated, emit_treasury_updated, emit_ttl_extension_updated, published,
    published_if, AdminRotated, AllowlistToggled, AmountLimitsUpdated, ArbitrationFeeUpdated,
    ContractInitialized, ContractPausedEvent, ContractUnpausedEvent, ContractUpgradedEvent, Event,
    FeeCollectorUpdated, FeeUpdated, PlatformFeeUpdated, ProtocolFeeUpdated, ResolverApproved,
    ResolverRemoved, ResolverStrictUpdated, StorageMigratedEvent, TokenAllowlistUpdated,
    TreasuryUpdated, TtlExtensionUpdated, EVENT_SCHEMA_VERSION,
};
use crate::fees::{validate_arbitration_fee_bps, validate_combined_fees, validate_escrow_fee_bps};
use crate::payout::basket_payments;
use crate::resolvers::contains;
use crate::state::{amount_at, history_after, read_amount, record_wf, Escrow};
use crate::types::{copy_values, Address, ContractStats, EscrowData, EscrowState, FeeConfig, Transfer};
use crate::{
    ADMIN_TIMELOCK_DELAY_SECONDS, CONTRACT_VERSION, DEFAULT_TTL_EXTENSION, MAX_ARBITRATION_FEE_BPS,
    MAX_COMBINED_FEE_BPS, MAX_ESCROW_AMOUNT, MAX_ESCROW_FEE_BPS, MAX_PLATFORM_FEE_BPS,
    MIN_ESCROW_AMOUNT, STORAGE_VERSION,
};

verus! {

/// The administrative changes that go through the timelock.
#[derive(Clone, Copy, Debug, PartialEq, Eq, Structural)]
pub enum TimelockOperation {
    SetAdmin,
    Upgrade,
    SetProtocolFee,
    SetArbitrationFee,
    SetPlatformFee,
    SetTreasury,
    SetFeeCollector,
    SetTtlExtension,
    SetAmountLimits,
    AddApprovedResolver,
    RemoveApprovedResolver,
    SetResolverStrict,
    SetTokenAllowlistEnabled,
    AddAllowedToken,
    RemoveAllowedToken,
    PauseContract,
    UnpauseContract,
}

/// The code a timelocked operation is stored under.
pub open spec fn op_code(op: TimelockOperation) -> u32 {
    match op {
        TimelockOperation::SetAdmin => 1,
        TimelockOperation::Upgrade => 2,
        TimelockOperation::SetProtocolFee => 3,
        TimelockOperation::SetArbitrationFee => 4,
        TimelockOperation::SetPlatformFee => 5,
        TimelockOperation::SetTreasury => 6,
        TimelockOperation::SetFeeCollector => 7,
        TimelockOperation::SetTtlExtension => 8,
        TimelockOperation::SetAmountLimits => 9,
        TimelockOperation::AddApprovedResolver => 10,
        TimelockOperation::RemoveApprovedResolver => 11,
        TimelockOperation::SetResolverStrict => 12,
        TimelockOperation::SetTokenAllowlistEnabled => 13,
        TimelockOperation::AddAllowedToken => 14,
        TimelockOperation::RemoveAllowedToken => 15,
        TimelockOperation::PauseContract => 16,
        TimelockOperation::UnpauseContract => 17,
    }
}

impl TimelockOperation {
    /// The code the operation is stored under.
    pub fn code(&self) -> (c: u32)
        ensures
            c == op_code(*self),
    {
        match self {
            TimelockOperation::SetAdmin => 1,
            TimelockOperation::Upgrade => 2,
            TimelockOperation::SetProtocolFee => 3,
            TimelockOperation::SetArbitrationFee => 4,
            TimelockOperation::SetPlatformFee => 5,
            TimelockOperation::SetTreasury => 6,
            TimelockOperation::SetFeeCollector => 7,
            TimelockOperation::SetTtlExtension => 8,
            TimelockOperation::SetAmountLimits => 9,
            TimelockOperation::AddApprovedResolver => 10,
            TimelockOperation::RemoveApprovedResolver => 11,
            TimelockOperation::SetResolverStrict => 12,
            TimelockOperation::SetTokenAllowlistEnabled => 13,
            TimelockOperation::AddAllowedToken => 14,
            TimelockOperation::RemoveAllowedToken => 15,
            TimelockOperation::PauseContract => 16,
            TimelockOperation::UnpauseContract => 17,
        }
    }
}

/// The argument a queued operation will apply.
#[derive(Clone, Copy, Debug, PartialEq, Eq)]
pub enum TimelockParams {
    SetAdmin(Address),
    Upgrade([u8; 32]),
    SetProtocolFee(u32),
    SetArbitrationFee(u32),
    SetPlatformFee(u32),
    SetTreasury(Address),
    SetFeeCollector(Address),
    SetTtlExtension(u32),
    SetAmountLimits(i128, i128),
    AddApprovedResolver(Address),
    RemoveApprovedResolver(Address),
    SetResolverStrict(bool),
    SetTokenAllowlistEnabled(bool),
    AddAllowedToken(Address),
    RemoveAllowedToken(Address),
    PauseContract,
    UnpauseContract,
}

/// The operation a parameter set belongs to.
pub open spec fn params_op(p: TimelockParams) -> TimelockOperation {
    match p {
        TimelockParams::SetAdmin(_) => TimelockOperation::SetAdmin,
        TimelockParams::Upgrade(_) => TimelockOperation::Upgrade,
        TimelockParams::SetProtocolFee(_) => TimelockOperation::SetProtocolFee,
        TimelockParams::SetArbitrationFee(_) => TimelockOperation::SetArbitrationFee,
        TimelockParams::SetPlatformFee(_) => TimelockOperation::SetPlatformFee,
        TimelockParams::SetTreasury(_) => TimelockOperation::SetTreasury,
        TimelockParams::SetFeeCollector(_) => TimelockOperation::SetFeeCollector,
        TimelockParams::SetTtlExtension(_) => TimelockOperation::SetTtlExtension,
        TimelockParams::SetAmountLimits(_, _) => TimelockOperation::SetAmountLimits,
        TimelockParams::AddApprovedResolver(_) => TimelockOperation::AddApprovedResolver,
        TimelockParams::RemoveApprovedResolver(_) => TimelockOperation::RemoveApprovedResolver,
        TimelockParams::SetResolverStrict(_) => TimelockOperation::SetResolverStrict,
        TimelockParams::SetTokenAllowlistEnabled(_) => TimelockOperation::SetTokenAllowlistEnabled,
        TimelockParams::AddAllowedToken(_) => TimelockOperation::AddAllowedToken,
        TimelockParams::RemoveAllowedToken(_) => TimelockOperation::RemoveAllowedToken,
        TimelockParams::PauseContract => TimelockOperation::PauseContract,
        TimelockParams::UnpauseContract => TimelockOperation::UnpauseContract,
    }
}

/// A queued administrative change.
#[derive(Clone, Copy, Debug, PartialEq, Eq)]
pub struct TimelockProposal {
    pub operation: u32,
    pub proposer: Address,
    pub params: TimelockParams,
    pub queued_at: u64,
    pub ready_at: u64,
}

/// Whether every proposal is stored under its own operation's code, and no
/// code twice.
pub open spec fn timelocks_unique(t: Seq<TimelockProposal>) -> bool {
    &&& forall|i: int| 0 <= i < t.len() ==> (#[trigger] t[i]).operation == op_code(params_op(t[i].params))
    &&& forall|i: int, j: int| 0 <= i < j < t.len() ==> t[i].operation != t[j].operation
}

/// The proposal stored under `code`, if any.
pub open spec fn proposal_for(t: Seq<TimelockProposal>, code: u32) -> Option<TimelockProposal> {
    if exists|i: int| 0 <= i < t.len() && t[i].operation == code {
        Some(t[choose|i: int| 0 <= i < t.len() && t[i].operation == code])
    } else {
        None
    }
}

/// Distinct operations have distinct codes.
pub proof fn lemma_op_code_injective(a: TimelockOperation, b: TimelockOperation)
    requires
        op_code(a) == op_code(b),
    ensures
        a == b,
{
    match a {
        TimelockOperation::SetAdmin => {},
        TimelockOperation::Upgrade => {},
        TimelockOperation::SetProtocolFee => {},
        TimelockOperation::SetArbitrationFee => {},
        TimelockOperation::SetPlatformFee => {},
        TimelockOperation::SetTreasury => {},
        TimelockOperation::SetFeeCollector => {},
        TimelockOperation::SetTtlExtension => {},
        TimelockOperation::SetAmountLimits => {},
        TimelockOperation::AddApprovedResolver => {},
        TimelockOperation::RemoveApprovedResolver => {},
        TimelockOperation::SetResolverStrict => {},
        TimelockOperation::SetTokenAllowlistEnabled => {},
        TimelockOperation::AddAllowedToken => {},
        TimelockOperation::RemoveAllowedToken => {},
        TimelockOperation::PauseContract => {},
        TimelockOperation::UnpauseContract => {},
    }
}

/// The proposal stored under `code`, by a scan of the table.
pub fn find_proposal(t: &Vec<TimelockProposal>, code: u32) -> (r: Option<TimelockProposal>)
    requires
        timelocks_unique(t@),
    ensures
        r == proposal_for(t@, code),
{
    let mut i: usize = 0;
    while i < t.len()
        invariant
            0 <= i <= t@.len(),
            timelocks_unique(t@),
            forall|k: int| 0 <= k < i ==> t@[k].operation != code,
        decreases t@.len() - i,
    {
        if t[i].operation == code {
            proof {
                let j = choose|j: int| 0 <= j < t@.len() && t@[j].operation == code;
                assert(j == i);
            }
            return Some(t[i]);
        }
        i = i + 1;
    }
    None
}

/// Stores `p` under its operation's code, replacing an earlier proposal.
pub fn write_proposal(t: &mut Vec<TimelockProposal>, p: TimelockProposal)
    requires
        timelocks_unique(old(t)@),
        p.operation == op_code(params_op(p.params)),
    ensures
        timelocks_unique(final(t)@),
        forall|c: u32| #[trigger]
            proposal_for(final(t)@, c) == (if c == p.operation {
                Some(p)
            } else {
                proposal_for(old(t)@, c)
            }),
{
    let mut i: usize = 0;
    while i < t.len()
        invariant
            0 <= i <= t@.len(),
            t@ == old(t)@,
            timelocks_unique(t@),
            p.operation == op_code(params_op(p.params)),
            forall|k: int| 0 <= k < i ==> t@[k].operation != p.operation,
        decreases t@.len() - i,
    {
        if t[i].operation == p.operation {
            t.set(i, p);
            proof {
                assert forall|a: int| 0 <= a < t@.len() implies (#[trigger] t@[a]).operation
                    == op_code(params_op(t@[a].params)) by {
                    if a != i {
                        assert(old(t)@[a] == t@[a]);
                    }
                }
                assert forall|a: int, b: int| 0 <= a < b < t@.len() implies t@[a].operation
                    != t@[b].operation by {
                    assert(old(t)@[a].operation != old(t)@[b].operation);
                }
                assert forall|c: u32| #[trigger]
                    proposal_for(t@, c) == (if c == p.operation {
                        Some(p)
                    } else {
                        proposal_for(old(t)@, c)
                    }) by {
                    if c == p.operation {
                        assert(t@[i as int].operation == c);
                        let j = choose|j: int| 0 <= j < t@.len() && t@[j].operation == c;
                        assert(j == i);
                    } else if exists|j: int| 0 <= j < old(t)@.len() && old(t)@[j].operation == c {
                        let j = choose|j: int| 0 <= j < old(t)@.len() && old(t)@[j].operation == c;
                        assert(t@[j].operation == c);
                        let j2 = choose|j2: int| 0 <= j2 < t@.len() && t@[j2].operation == c;
                        assert(j2 == j);
                    } else {
                        assert forall|j: int| 0 <= j < t@.len() implies t@[j].operation != c by {
                            if j != i {
                                assert(old(t)@[j] == t@[j]);
                            }
                        }
                    }
                }
            }
            return;
        }
        i = i + 1;
    }
    t.push(p);
    proof {
        let n = old(t)@.len() as int;
        assert forall|c: u32| #[trigger]
            proposal_for(t@, c) == (if c == p.operation {
                Some(p)
            } else {
                proposal_for(old(t)@, c)
            }) by {
            if c == p.operation {
                assert(t@[n].operation == c);
                let j = choose|j: int| 0 <= j < t@.len() && t@[j].operation == c;
                assert(j == n);
            } else if exists|j: int| 0 <= j < old(t)@.len() && old(t)@[j].operation == c {
                let j = choose|j: int| 0 <= j < old(t)@.len() && old(t)@[j].operation == c;
                assert(t@[j].operation == c);
                let j2 = choose|j2: int| 0 <= j2 < t@.len() && t@[j2].operation == c;
                assert(j2 == j);
            } else {
                assert forall|j: int| 0 <= j < t@.len() implies t@[j].operation != c by {
                    if j < n {
                        assert(old(t)@[j] == t@[j]);
                    }
                }
            }
        }
    }
}

/// Drops the proposal stored under `code`, if any.
pub fn remove_proposal(t: &mut Vec<TimelockProposal>, code: u32)
    requires
        timelocks_unique(old(t)@),
    ensures
        timelocks_unique(final(t)@),
        forall|c: u32| #[trigger]
            proposal_for(final(t)@, c) == (if c == code {
                None
            } else {
                proposal_for(old(t)@, c)
            }),
{
    let mut i: usize = 0;
    while i < t.len()
        invariant
            0 <= i <= t@.len(),
            t@ == old(t)@,
            timelocks_unique(t@),
            forall|k: int| 0 <= k < i ==> t@[k].operation != code,
        decreases t@.len() - i,
    {
        if t[i].operation == code {
            t.remove(i);
            proof {
                let o = old(t)@;
                assert(t@ =~= o.subrange(0, i as int) + o.subrange(i + 1, o.len() as int));
                assert forall|a: int| 0 <= a < t@.len() implies (#[trigger] t@[a]) == (if a < i {
                    o[a]
                } else {
                    o[a + 1]
                }) by {}
                assert forall|c: u32| #[trigger]
                    proposal_for(t@, c) == (if c == code {
                        None
                    } else {
                        proposal_for(o, c)
                    }) by {
                    if c == code {
                        assert forall|j: int| 0 <= j < t@.len() implies t@[j].operation != c by {
                            if j >= i {
                                assert(o[j + 1].operation != o[i as int].operation);
                            }
                        }
                    } else if exists|j: int| 0 <= j < o.len() && o[j].operation == c {
                        let j = choose|j: int| 0 <= j < o.len() && o[j].operation == c;
                        let j3 = if j < i {
                            j
                        } else {
                            j - 1
                        };
                        assert(t@[j3] == o[j]);
                        let j2 = choose|j2: int| 0 <= j2 < t@.len() && t@[j2].operation == c;
                        let j2o = if j2 < i {
                            j2
                        } else {
                            j2 + 1
                        };
                        assert(o[j2o].operation == c);
                        assert(j2o == j);
                    } else {
                        assert forall|j: int| 0 <= j < t@.len() implies t@[j].operation != c by {
                            if j < i {
                                assert(o[j] == t@[j]);
                            } else {
                                assert(o[j + 1] == t@[j]);
                            }
                        }
                    }
                }
                assert forall|a: int, b: int| 0 <= a < b < t@.len() implies t@[a].operation
                    != t@[b].operation by {
                    let ao = if a < i {
                        a
                    } else {
                        a + 1
                    };
                    let bo = if b < i {
                        b
                    } else {
                        b + 1
                    };
                    assert(o[ao].operation != o[bo].operation);
                }
                assert forall|a: int| 0 <= a < t@.len() implies (#[trigger] t@[a]).operation
                    == op_code(params_op(t@[a].params)) by {
                    let ao = if a < i {
                        a
                    } else {
                        a + 1
                    };
                    assert(o[ao].operation == op_code(params_op(o[ao].params)));
                }
            }
            return;
        }
        i = i + 1;
    }
    proof {
        assert forall|c: u32| #[trigger]
            proposal_for(t@, c) == (if c == code {
                None
            } else {
                proposal_for(old(t)@, c)
            }) by {}
    }
}

/// The code the operation of `p` is stored under.
pub fn params_code(p: &TimelockParams) -> (c: u32)
    ensures
        c == op_code(params_op(*p)),
{
    match p {
        TimelockParams::SetAdmin(_) => 1,
        TimelockParams::Upgrade(_) => 2,
        TimelockParams::SetProtocolFee(_) => 3,
        TimelockParams::SetArbitrationFee(_) => 4,
        TimelockParams::SetPlatformFee(_) => 5,
        TimelockParams::SetTreasury(_) => 6,
        TimelockParams::SetFeeCollector(_) => 7,
        TimelockParams::SetTtlExtension(_) => 8,
        TimelockParams::SetAmountLimits(_, _) => 9,
        TimelockParams::AddApprovedResolver(_) => 10,
        TimelockParams::RemoveApprovedResolver(_) => 11,
        TimelockParams::SetResolverStrict(_) => 12,
        TimelockParams::SetTokenAllowlistEnabled(_) => 13,
        TimelockParams::AddAllowedToken(_) => 14,
        TimelockParams::RemoveAllowedToken(_) => 15,
        TimelockParams::PauseContract => 16,
        TimelockParams::UnpauseContract => 17,
    }
}

/// `s` with every occurrence of `a` removed, order kept.
pub open spec fn without(s: Seq<Address>, a: Address) -> Seq<Address>
    decreases s.len(),
{
    if s.len() == 0 {
        s
    } else if s.last() == a {
        without(s.drop_last(), a)
    } else {
        without(s.drop_last(), a).push(s.last())
    }
}

/// `v` with every occurrence of `a` removed, order kept.
pub fn remove_all(v: &Vec<Address>, a: Address) -> (r: Vec<Address>)
    ensures
        r@ == without(v@, a),
{
    let mut out: Vec<Address> = Vec::new();
    let mut i: usize = 0;
    while i < v.len()
        invariant
            0 <= i <= v.len(),
            out@ == without(v@.take(i as int), a),
        decreases v.len() - i,
    {
        proof {
            assert(v@.take(i + 1).drop_last() =~= v@.take(i as int));
        }
        if v[i] != a {
            out.push(v[i]);
        }
        i = i + 1;
    }
    proof {
        assert(v@.take(v@.len() as int) =~= v@);
    }
    out
}

impl Escrow {
    /// The parameters of the queued `op`, once its timelock has elapsed at
    /// `now`; `InvalidState` when nothing is queued or it is not ready.
    pub open spec fn ready_params(self, op: TimelockOperation, now: u64) -> Result<
        TimelockParams,
        ContractError,
    > {
        match proposal_for(self.timelocks@, op_code(op)) {
            None => Err(ContractError::InvalidState),
            Some(p) => if now < p.ready_at {
                Err(ContractError::InvalidState)
            } else {
                Ok(p.params)
            },
        }
    }

    /// Whether `new`'s queue is `self`'s without the proposal of `op`.
    pub open spec fn without_proposal(self, new: Escrow, op: TimelockOperation) -> bool {
        forall|c: u32| #[trigger]
            proposal_for(new.timelocks@, c) == (if c == op_code(op) {
                None
            } else {
                proposal_for(self.timelocks@, c)
            })
    }

    /// The error of a protocol fee change to `fee` by `caller`, if any.
    pub open spec fn protocol_fee_error(self, caller: Address, fee: u32) -> Option<ContractError> {
        let arb = self.fees().arbitration_fee_bps;
        if self.admin_caller_error(caller) is Some {
            self.admin_caller_error(caller)
        } else if fee > MAX_ESCROW_FEE_BPS {
            Some(ContractError::FeeExceedsMax)
        } else if fee + arb > u32::MAX {
            Some(ContractError::ArithmeticError)
        } else if fee + arb > MAX_COMBINED_FEE_BPS {
            Some(ContractError::FeeExceedsMax)
        } else {
            None
        }
    }

    /// The error of an arbitration fee change to `fee` by `caller`, if any.
    pub open spec fn arbitration_fee_error(self, caller: Address, fee: u32) -> Option<ContractError> {
        let prot = self.fees().protocol_fee_bps;
        if self.admin_caller_error(caller) is Some {
            self.admin_caller_error(caller)
        } else if fee > MAX_ARBITRATION_FEE_BPS {
            Some(ContractError::ArbitrationFeeExceedsMax)
        } else if prot + fee > u32::MAX {
            Some(ContractError::ArithmeticError)
        } else if prot + fee > MAX_COMBINED_FEE_BPS {
            Some(ContractError::FeeExceedsMax)
        } else {
            None
        }
    }

    /// The error of making `c` the fee collector, if any: not the zero
    /// account, not the administrator, and a change.
    pub open spec fn collector_change_error(self, c: Address) -> Option<ContractError> {
        if c == Address(0) {
            Some(ContractError::InvalidAddress)
        } else if self.admin is None {
            Some(ContractError::NotAuthorized)
        } else if Some(c) == self.admin {
            Some(ContractError::InvalidAddress)
        } else if self.fee_collector is None {
            Some(ContractError::NotAuthorized)
        } else if Some(c) == self.fee_collector {
            Some(ContractError::SameAddress)
        } else {
            None
        }
    }

    /// The error of applying queued parameters `p` on behalf of `caller`.
    pub open spec fn apply_error(self, caller: Address, p: TimelockParams) -> Option<ContractError> {
        match p {
            TimelockParams::SetAdmin(a) => if self.admin is None {
                Some(ContractError::NotAuthorized)
            } else if Some(a) == self.admin {
                Some(ContractError::SameAddress)
            } else {
                None
            },
            TimelockParams::Upgrade(_) => if self.admin is None {
                Some(ContractError::NotAuthorized)
            } else {
                None
            },
            TimelockParams::SetProtocolFee(f) => self.protocol_fee_error(caller, f),
            TimelockParams::SetArbitrationFee(f) => self.arbitration_fee_error(caller, f),
            TimelockParams::SetPlatformFee(f) => if f > MAX_PLATFORM_FEE_BPS {
                Some(ContractError::PlatformFeeExceedsMax)
            } else {
                None
            },
            TimelockParams::SetTreasury(t) => if t == Address(0) {
                Some(ContractError::InvalidAddress)
            } else {
                None
            },
            TimelockParams::SetFeeCollector(c) => self.collector_change_error(c),
            TimelockParams::SetTtlExtension(_) => None,
            TimelockParams::SetAmountLimits(mn, mx) => if mn <= 0 || mx < mn {
                Some(ContractError::InvalidAmount)
            } else {
                None
            },
            TimelockParams::AddApprovedResolver(_) => None,
            TimelockParams::RemoveApprovedResolver(a) => if !self.approved_resolvers@.contains(a) {
                Some(ContractError::InvalidAddress)
            } else {
                None
            },
            TimelockParams::SetResolverStrict(_) => None,
            TimelockParams::SetTokenAllowlistEnabled(_) => None,
            TimelockParams::AddAllowedToken(_) => None,
            TimelockParams::RemoveAllowedToken(a) => if !self.allowed_tokens@.contains(a) {
                Some(ContractError::TokenNotAllowed)
            } else {
                None
            },
            TimelockParams::PauseContract => if self.admin is None {
                Some(ContractError::NotAuthorized)
            } else {
                None
            },
            TimelockParams::UnpauseContract => if self.admin is None {
                Some(ContractError::NotAuthorized)
            } else {
                None
            },
        }
    }

    /// The error of executing the queued `op` at `now` on behalf of `caller`.
    pub open spec fn execute_error(self, caller: Address, op: TimelockOperation, now: u64) -> Option<
        ContractError,
    > {
        match self.ready_params(op, now) {
            Err(e) => Some(e),
            Ok(p) => self.apply_error(caller, p),
        }
    }

    /// Whether `new` is `self` with parameters `p` applied; the queue aside.
    pub open spec fn applied(self, new: Escrow, p: TimelockParams) -> bool {
        match p {
            TimelockParams::SetAdmin(a) => new == (Escrow {
                timelocks: new.timelocks,
                admin: Some(a),
                ..self
            }),
            TimelockParams::Upgrade(_) => new == (Escrow { timelocks: new.timelocks, ..self }),
            TimelockParams::SetProtocolFee(f) => new == (Escrow {
                timelocks: new.timelocks,
                fee_config: Some(FeeConfig { protocol_fee_bps: f, ..self.fees() }),
                ..self
            }),
            TimelockParams::SetArbitrationFee(f) => new == (Escrow {
                timelocks: new.timelocks,
                fee_config: Some(FeeConfig { arbitration_fee_bps: f, ..self.fees() }),
                ..self
            }),
            TimelockParams::SetPlatformFee(f) => new == (Escrow {
                timelocks: new.timelocks,
                platform_fee_bps: f,
                ..self
            }),
            TimelockParams::SetTreasury(t) => new == (Escrow {
                timelocks: new.timelocks,
                treasury: Some(t),
                ..self
            }),
            TimelockParams::SetFeeCollector(c) => new == (Escrow {
                timelocks: new.timelocks,
                fee_collector: Some(c),
                ..self
            }),
            TimelockParams::SetTtlExtension(l) => new == (Escrow {
                timelocks: new.timelocks,
                ttl_extension: Some(l),
                ..self
            }),
            TimelockParams::SetAmountLimits(mn, mx) => new == (Escrow {
                timelocks: new.timelocks,
                min_amount: Some(mn),
                max_amount: Some(mx),
                ..self
            }),
            TimelockParams::AddApprovedResolver(a) => new == (Escrow {
                timelocks: new.timelocks,
                approved_resolvers: new.approved_resolvers,
                ..self
            }) && new.approved_resolvers@ == (if self.approved_resolvers@.contains(a) {
                self.approved_resolvers@
            } else {
                self.approved_resolvers@.push(a)
            }),
            TimelockParams::RemoveApprovedResolver(a) => new == (Escrow {
                timelocks: new.timelocks,
                approved_resolvers: new.approved_resolvers,
                ..self
            }) && new.approved_resolvers@ == without(self.approved_resolvers@, a),
            TimelockParams::SetResolverStrict(b) => new == (Escrow {
                timelocks: new.timelocks,
                resolver_strict: b,
                ..self
            }),
            TimelockParams::SetTokenAllowlistEnabled(b) => new == (Escrow {
                timelocks: new.timelocks,
                allowlist_enabled: b,
                ..self
            }),
            TimelockParams::AddAllowedToken(a) => new == (Escrow {
                timelocks: new.timelocks,
                allowed_tokens: new.allowed_tokens,
                ..self
            }) && new.allowed_tokens@ == (if self.allowed_tokens@.contains(a) {
                self.allowed_tokens@
            } else {
                self.allowed_tokens@.push(a)
            }),
            TimelockParams::RemoveAllowedToken(a) => new == (Escrow {
                timelocks: new.timelocks,
                allowed_tokens: new.allowed_tokens,
                ..self
            }) && new.allowed_tokens@ == without(self.allowed_tokens@, a),
            TimelockParams::PauseContract => new == (Escrow {
                timelocks: new.timelocks,
                paused: true,
                ..self
            }),
            TimelockParams::UnpauseContract => new == (Escrow {
                timelocks: new.timelocks,
                paused: false,
                ..self
            }),
        }
    }

    /// The event executing the queued parameters `p` on behalf of `caller`
    /// at `now` announces; none when an addition finds its entry present.
    pub open spec fn exec_event(self, caller: Address, p: TimelockParams, now: u64) -> Option<Event> {
        let admin = self.admin.unwrap_or(Address(0));
        match p {
            TimelockParams::SetAdmin(a) => Some(
                Event::AdminRotated(
                    AdminRotated { schema_version: EVENT_SCHEMA_VERSION, old_admin: admin, new_admin: a, timestamp: now },
                ),
            ),
            TimelockParams::Upgrade(h) => Some(
                Event::ContractUpgraded(
                    ContractUpgradedEvent { schema_version: EVENT_SCHEMA_VERSION, admin, new_wasm_hash: h, timestamp: now },
                ),
            ),
            TimelockParams::SetProtocolFee(f) => Some(
                Event::ProtocolFeeUpdated(
                    ProtocolFeeUpdated {
                        schema_version: EVENT_SCHEMA_VERSION,
                        old_fee_bps: self.fees().protocol_fee_bps,
                        new_fee_bps: f,
                        timestamp: now,
                    },
                ),
            ),
            TimelockParams::SetArbitrationFee(f) => Some(
                Event::ArbitrationFeeUpdated(
                    ArbitrationFeeUpdated {
                        schema_version: EVENT_SCHEMA_VERSION,
                        old_fee_bps: self.fees().arbitration_fee_bps,
                        new_fee_bps: f,
                        timestamp: now,
                    },
                ),
            ),
            TimelockParams::SetPlatformFee(f) => Some(
                Event::PlatformFeeUpdated(
                    PlatformFeeUpdated {
                        schema_version: EVENT_SCHEMA_VERSION,
                        old_fee_bps: self.platform_fee_bps,
                        new_fee_bps: f,
                        timestamp: now,
                    },
                ),
            ),
            TimelockParams::SetTreasury(t) => Some(
                Event::TreasuryUpdated(
                    TreasuryUpdated {
                        schema_version: EVENT_SCHEMA_VERSION,
                        old_treasury: self.treasury.unwrap_or(Address(0)),
                        new_treasury: t,
                        timestamp: now,
                    },
                ),
            ),
            TimelockParams::SetFeeCollector(c) => Some(
                Event::FeeCollectorUpdated(
                    FeeCollectorUpdated {
                        schema_version: EVENT_SCHEMA_VERSION,
                        old_collector: self.fee_collector.unwrap_or(Address(0)),
                        new_collector: c,
                        timestamp: now,
                    },
                ),
            ),
            TimelockParams::SetTtlExtension(l) => Some(
                Event::TtlExtensionUpdated(
                    TtlExtensionUpdated {
                        schema_version: EVENT_SCHEMA_VERSION,
                        old_ledgers: self.ttl(),
                        new_ledgers: l,
                        caller,
                        timestamp: now,
                    },
                ),
            ),
            TimelockParams::SetAmountLimits(mn, mx) => Some(
                Event::AmountLimitsUpdated(
                    AmountLimitsUpdated {
                        schema_version: EVENT_SCHEMA_VERSION,
                        old_min_amount: self.min_amt(),
                        new_min_amount: mn,
                        old_max_amount: self.max_amt(),
                        new_max_amount: mx,
                        caller,
                        timestamp: now,
                    },
                ),
            ),
            TimelockParams::AddApprovedResolver(a) => if self.approved_resolvers@.contains(a) {
                None
            } else {
                Some(
                    Event::ResolverApproved(
                        ResolverApproved { schema_version: EVENT_SCHEMA_VERSION, resolver: a, caller, timestamp: now },
                    ),
                )
            },
            TimelockParams::RemoveApprovedResolver(a) => Some(
                Event::ResolverRemoved(
                    ResolverRemoved { schema_version: EVENT_SCHEMA_VERSION, resolver: a, caller, timestamp: now },
                ),
            ),
            TimelockParams::SetResolverStrict(b) => Some(
                Event::ResolverStrictUpdated(
                    ResolverStrictUpdated {
                        schema_version: EVENT_SCHEMA_VERSION,
                        old_strict: self.resolver_strict,
                        new_strict: b,
                        caller,
                        timestamp: now,
                    },
                ),
            ),
            TimelockParams::SetTokenAllowlistEnabled(b) => Some(
                Event::AllowlistToggled(
                    AllowlistToggled { schema_version: EVENT_SCHEMA_VERSION, enabled: b, timestamp: now },
                ),
            ),
            TimelockParams::AddAllowedToken(a) => if self.allowed_tokens@.contains(a) {
                None
            } else {
                Some(
                    Event::TokenAllowlistUpdated(
                        TokenAllowlistUpdated { schema_version: EVENT_SCHEMA_VERSION, token: a, added: true, timestamp: now },
                    ),
                )
            },
            TimelockParams::RemoveAllowedToken(a) => Some(
                Event::TokenAllowlistUpdated(
                    TokenAllowlistUpdated { schema_version: EVENT_SCHEMA_VERSION, token: a, added: false, timestamp: now },
                ),
            ),
            TimelockParams::PauseContract => Some(
                Event::ContractPaused(ContractPausedEvent { schema_version: EVENT_SCHEMA_VERSION, admin, timestamp: now }),
            ),
            TimelockParams::UnpauseContract => Some(
                Event::ContractUnpaused(ContractUnpausedEvent { schema_version: EVENT_SCHEMA_VERSION, admin, timestamp: now }),
            ),
        }
    }

    /// The event executing `p` announces, computed.
    fn exec_event_of(&self, caller: Address, p: TimelockParams, now: u64) -> (e: Option<Event>)
        ensures
            e == self.exec_event(caller, p, now),
    {
        let admin = match self.admin {
            Some(a) => a,
            None => Address::zero(),
        };
        match p {
            TimelockParams::SetAdmin(a) => Some(Event::AdminRotated(emit_admin_rotated(admin, a, now))),
            TimelockParams::Upgrade(h) => Some(Event::ContractUpgraded(emit_contract_upgraded(admin, h, now))),
            TimelockParams::SetProtocolFee(f) => Some(
                Event::ProtocolFeeUpdated(emit_protocol_fee_updated(self.read_fee_config().protocol_fee_bps, f, now)),
            ),
            TimelockParams::SetArbitrationFee(f) => Some(
                Event::ArbitrationFeeUpdated(
                    emit_arbitration_fee_updated(self.read_fee_config().arbitration_fee_bps, f, now),
                ),
            ),
            TimelockParams::SetPlatformFee(f) => Some(
                Event::PlatformFeeUpdated(emit_platform_fee_updated(self.platform_fee_bps, f, now)),
            ),
            TimelockParams::SetTreasury(t) => {
                let prev = match self.treasury {
                    Some(x) => x,
                    None => Address::zero(),
                };
                Some(Event::TreasuryUpdated(emit_treasury_updated(prev, t, now)))
            },
            TimelockParams::SetFeeCollector(c) => {
                let prev = match self.fee_collector {
                    Some(x) => x,
                    None => Address::zero(),
                };
                Some(Event::FeeCollectorUpdated(emit_fee_collector_updated(prev, c, now)))
            },
            TimelockParams::SetTtlExtension(l) => {
                let prev = match self.ttl_extension {
                    Some(x) => x,
                    None => DEFAULT_TTL_EXTENSION,
                };
                Some(Event::TtlExtensionUpdated(emit_ttl_extension_updated(prev, l, caller, now)))
            },
            TimelockParams::SetAmountLimits(mn, mx) => {
                let old_min = match self.min_amount {
                    Some(x) => x,
                    None => MIN_ESCROW_AMOUNT,
                };
                let old_max = match self.max_amount {
                    Some(x) => x,
                    None => MAX_ESCROW_AMOUNT,
                };
                Some(Event::AmountLimitsUpdated(emit_amount_limits_updated(old_min, mn, old_max, mx, caller, now)))
            },
            TimelockParams::AddApprovedResolver(a) => if contains(&self.approved_resolvers, a) {
                None
            } else {
                Some(Event::ResolverApproved(emit_resolver_approved(a, caller, now)))
            },
            TimelockParams::RemoveApprovedResolver(a) => Some(
                Event::ResolverRemoved(emit_resolver_removed(a, caller, now)),
            ),
            TimelockParams::SetResolverStrict(b) => Some(
                Event::ResolverStrictUpdated(emit_resolver_strict_updated(self.resolver_strict, b, caller, now)),
            ),
            TimelockParams::SetTokenAllowlistEnabled(b) => Some(Event::AllowlistToggled(emit_allowlist_toggled(b, now))),
            TimelockParams::AddAllowedToken(a) => if contains(&self.allowed_tokens, a) {
                None
            } else {
                Some(Event::TokenAllowlistUpdated(emit_token_allowlist_updated(a, true, now)))
            },
            TimelockParams::RemoveAllowedToken(a) => Some(
                Event::TokenAllowlistUpdated(emit_token_allowlist_updated(a, false, now)),
            ),
            TimelockParams::PauseContract => Some(Event::ContractPaused(emit_contract_paused(admin, now))),
            TimelockParams::UnpauseContract => Some(Event::ContractUnpaused(emit_contract_unpaused(admin, now))),
        }
    }

    /// Whether `r` and `new` are the outcome of `caller` queueing `p` at
    /// `now`.
    pub open spec fn queue_outcome(
        self,
        new: Escrow,
        r: Result<(), ContractError>,
        caller: Address,
        p: TimelockParams,
        now: u64,
    ) -> bool {
        match r {
            Err(e) => self.admin_caller_error(caller) == Some(e) && new == self,
            Ok(_) => {
                &&& self.admin_caller_error(caller) is None
                &&& new == (Escrow { timelocks: new.timelocks, ..self })
                &&& forall|c: u32| #[trigger]
                    proposal_for(new.timelocks@, c) == (if c == op_code(params_op(p)) {
                        Some(
                            TimelockProposal {
                                operation: op_code(params_op(p)),
                                proposer: caller,
                                params: p,
                                queued_at: now,
                                ready_at: (now + ADMIN_TIMELOCK_DELAY_SECONDS) as u64,
                            },
                        )
                    } else {
                        proposal_for(self.timelocks@, c)
                    })
            },
        }
    }

    /// The administrator queues `p`, ready `ADMIN_TIMELOCK_DELAY_SECONDS`
    /// after `now`, replacing an earlier proposal of the same operation.
    fn queue_timelock_op(&mut self, caller: Address, p: TimelockParams, now: u64) -> (r: Result<
        (),
        ContractError,
    >)
        requires
            old(self).wf(),
            now + ADMIN_TIMELOCK_DELAY_SECONDS <= u64::MAX,
        ensures
            final(self).wf(),
            old(self).queue_outcome(*final(self), r, caller, p, now),
    {
        let admin = self.require_admin()?;
        if caller != admin {
            return Err(ContractError::NotAuthorized);
        }
        let code = params_code(&p);
        let proposal = TimelockProposal {
            operation: code,
            proposer: caller,
            params: p,
            queued_at: now,
            ready_at: now + ADMIN_TIMELOCK_DELAY_SECONDS,
        };
        write_proposal(&mut self.timelocks, proposal);
        Ok(())
    }

    /// The parameters of the queued `op`, once ready at `now`.
    fn ready_proposal(&self, op: TimelockOperation, now: u64) -> (r: Result<TimelockParams, ContractError>)
        requires
            self.wf(),
        ensures
            r == self.ready_params(op, now),
            r matches Ok(p) ==> params_op(p) == op,
    {
        let code = op.code();
        match find_proposal(&self.timelocks, code) {
            None => Err(ContractError::InvalidState),
            Some(p) => {
                proof {
                    let t = self.timelocks@;
                    let i = choose|i: int| 0 <= i < t.len() && t[i].operation == code;
                    assert(t[i].operation == op_code(params_op(t[i].params)));
                    lemma_op_code_injective(params_op(p.params), op);
                }
                if now < p.ready_at {
                    Err(ContractError::InvalidState)
                } else {
                    Ok(p.params)
                }
            },
        }
    }

    /// Drops the queued proposal of `op`.
    fn drop_proposal(&mut self, op: TimelockOperation)
        requires
            old(self).wf(),
        ensures
            final(self).wf(),
            old(self).without_proposal(*final(self), op),
            *final(self) == (Escrow { timelocks: final(self).timelocks, ..*old(self) }),
    {
        let code = op.code();
        remove_proposal(&mut self.timelocks, code);
    }

    /// The administrator withdraws the queued proposal stored under
    /// `operation`.
    pub fn cancel_timelock_op(&mut self, caller: Address, operation: u32) -> (r: Result<(), ContractError>)
        requires
            old(self).wf(),
        ensures
            final(self).wf(),
            match r {
                Err(e) => (if old(self).admin_caller_error(caller) is Some {
                    old(self).admin_caller_error(caller)
                } else if proposal_for(old(self).timelocks@, operation) is None {
                    Some(ContractError::InvalidState)
                } else {
                    None
                }) == Some(e) && *final(self) == *old(self),
                Ok(_) => old(self).admin_caller_error(caller) is None && proposal_for(
                    old(self).timelocks@,
                    operation,
                ) is Some && *final(self) == (Escrow { timelocks: final(self).timelocks, ..*old(self) })
                    && forall|c: u32| #[trigger]
                    proposal_for(final(self).timelocks@, c) == (if c == operation {
                        None
                    } else {
                        proposal_for(old(self).timelocks@, c)
                    }),
            },
    {
        let admin = self.require_admin()?;
        if caller != admin {
            return Err(ContractError::NotAuthorized);
        }
        if find_proposal(&self.timelocks, operation).is_none() {
            return Err(ContractError::InvalidState);
        }
        remove_proposal(&mut self.timelocks, operation);
        Ok(())
    }

    /// The contract's semantic version.
    pub fn get_version(&self) -> (v: u32)
        ensures
            v == CONTRACT_VERSION,
    {
        CONTRACT_VERSION
    }

    /// The error `initialize` reports, if any.
    pub open spec fn initialize_error(self, admin: Address, fee_collector: Address, arbitration_fee_bps: u32) -> Option<
        ContractError,
    > {
        if self.admin is Some {
            Some(ContractError::AlreadyInitialized)
        } else if admin == fee_collector {
            Some(ContractError::InvalidAddress)
        } else if arbitration_fee_bps > MAX_ARBITRATION_FEE_BPS {
            Some(ContractError::ArbitrationFeeExceedsMax)
        } else if admin == Address(0) || fee_collector == Address(0) {
            Some(ContractError::InvalidAddress)
        } else {
            None
        }
    }

    /// Sets the administrator, fee collector and arbitration fee, once: the
    /// protocol fee starts at zero, escrow ids at one, and the contract
    /// unpaused.
    pub fn initialize(&mut self, admin: Address, fee_collector: Address, arbitration_fee_bps: u32, now: u64) -> (r:
        Result<(), ContractError>)
        requires
            old(self).wf(),
        ensures
            final(self).wf(),
            match r {
                Err(e) => old(self).initialize_error(admin, fee_collector, arbitration_fee_bps)
                    == Some(e) && *final(self) == *old(self),
                Ok(_) => old(self).initialize_error(admin, fee_collector, arbitration_fee_bps) is None
                    && published(
                    old(self).events@,
                    final(self).events@,
                    Event::ContractInitialized(
                        ContractInitialized {
                            schema_version: EVENT_SCHEMA_VERSION,
                            admin,
                            fee_collector,
                            arbitration_fee_bps,
                            timestamp: now,
                        },
                    ),
                ) && final(self).without_new_events(*old(self)) == (Escrow {
                    admin: Some(admin),
                    fee_collector: Some(fee_collector),
                    fee_config: Some(FeeConfig { protocol_fee_bps: 0, arbitration_fee_bps }),
                    escrow_counter: Some(1),
                    paused: false,
                    storage_version: STORAGE_VERSION,
                    ..*old(self)
                }),
            },
    {
        if self.admin.is_some() {
            return Err(ContractError::AlreadyInitialized);
        }
        if admin == fee_collector {
            return Err(ContractError::InvalidAddress);
        }
        validate_arbitration_fee_bps(arbitration_fee_bps)?;
        if admin == Address::zero() || fee_collector == Address::zero() {
            return Err(ContractError::InvalidAddress);
        }
        self.admin = Some(admin);
        self.fee_collector = Some(fee_collector);
        self.fee_config = Some(FeeConfig { protocol_fee_bps: 0, arbitration_fee_bps });
        self.escrow_counter = Some(1);
        self.paused = false;
        self.storage_version = STORAGE_VERSION;
        self.publish(Event::ContractInitialized(emit_contract_initialized(admin, fee_collector, arbitration_fee_bps, now)));
        Ok(())
    }

    /// The storage schema version recorded; `0` before initialization.
    pub fn get_storage_version(&self) -> (v: u32)
        ensures
            v == self.storage_version,
    {
        self.storage_version
    }

    /// The administrator brings the recorded storage version up to
    /// `STORAGE_VERSION`; refused when it is already there.
    pub fn migrate(&mut self, caller: Address, now: u64) -> (r: Result<(), ContractError>)
        requires
            old(self).wf(),
        ensures
            final(self).wf(),
            match r {
                Err(e) => (if old(self).admin_caller_error(caller) is Some {
                    old(self).admin_caller_error(caller)
                } else if old(self).storage_version >= STORAGE_VERSION {
                    Some(ContractError::AlreadyInitialized)
                } else {
                    None
                }) == Some(e) && *final(self) == *old(self),
                Ok(_) => old(self).admin_caller_error(caller) is None && old(self).storage_version
                    < STORAGE_VERSION && published(
                    old(self).events@,
                    final(self).events@,
                    Event::StorageMigrated(
                        StorageMigratedEvent {
                            schema_version: EVENT_SCHEMA_VERSION,
                            admin: caller,
                            from_version: old(self).storage_version,
                            to_version: STORAGE_VERSION,
                            timestamp: now,
                        },
                    ),
                ) && final(self).without_new_events(*old(self)) == (Escrow {
                    storage_version: STORAGE_VERSION,
                    ..*old(self)
                }),
            },
    {
        let admin = self.require_admin()?;
        if caller != admin {
            return Err(ContractError::NotAuthorized);
        }
        if self.storage_version >= STORAGE_VERSION {
            return Err(ContractError::AlreadyInitialized);
        }
        let from = self.storage_version;
        self.storage_version = STORAGE_VERSION;
        self.publish(Event::StorageMigrated(emit_storage_migrated(admin, from, STORAGE_VERSION, now)));
        Ok(())
    }

    /// Whether the contract is paused.
    pub fn is_paused(&self) -> (b: bool)
        ensures
            b == self.paused,
    {
        self.paused
    }

    /// Whether the single action named `action` is paused. No entry point
    /// pauses one action alone, so none ever is; the whole contract's pause
    /// is `is_paused`.
    pub fn is_action_paused(&self, action: &String) -> (b: bool)
        ensures
            !b,
    {
        false
    }

    /// The arbitration fee in force, in basis points.
    pub fn get_arbitration_fee(&self) -> (f: u32)
        ensures
            f == self.fees().arbitration_fee_bps,
    {
        self.read_fee_config().arbitration_fee_bps
    }

    /// The arbitration fees collected so far in `token`.
    pub fn get_total_arbitration_fees(&self, token: Address) -> (t: i128)
        requires
            self.wf(),
        ensures
            t == amount_at(self.arbitration_totals@, token),
    {
        read_amount(&self.arbitration_totals, token)
    }

    /// Whether only allowlisted tokens may be escrowed.
    pub fn is_token_allowlist_enabled(&self) -> (b: bool)
        ensures
            b == self.allowlist_enabled,
    {
        self.allowlist_enabled
    }

    /// The allowlisted tokens.
    pub fn get_allowed_tokens(&self) -> (v: Vec<Address>)
        ensures
            v@ == self.allowed_tokens@,
    {
        copy_values(&self.allowed_tokens)
    }

    /// The platform fee in basis points.
    pub fn get_platform_fee_bps(&self) -> (f: u32)
        ensures
            f == self.platform_fee_bps,
    {
        self.platform_fee_bps
    }

    /// The treasury receiving platform fees; `NotInitialized` when unset.
    pub fn get_treasury(&self) -> (r: Result<Address, ContractError>)
        ensures
            r == (match self.treasury {
                Some(t) => Ok(t),
                None => Err(ContractError::NotInitialized),
            }),
    {
        match self.treasury {
            Some(t) => Ok(t),
            None => Err(ContractError::NotInitialized),
        }
    }

    /// The approved resolvers.
    pub fn get_approved_resolvers(&self) -> (v: Vec<Address>)
        ensures
            v@ == self.approved_resolvers@,
    {
        copy_values(&self.approved_resolvers)
    }

    /// Whether only approved resolvers may be named.
    pub fn is_resolver_strict(&self) -> (b: bool)
        ensures
            b == self.resolver_strict,
    {
        self.resolver_strict
    }

    /// Refuses a protocol fee change to `fee` by `caller`.
    fn protocol_fee_check(&self, caller: Address, fee: u32) -> (r: Result<(), ContractError>)
        ensures
            r == (match self.protocol_fee_error(caller, fee) {
                Some(e) => Err(e),
                None => Ok(()),
            }),
    {
        let admin = self.require_admin()?;
        if caller != admin {
            return Err(ContractError::NotAuthorized);
        }
        validate_escrow_fee_bps(fee)?;
        validate_combined_fees(fee, self.read_fee_config().arbitration_fee_bps)
    }

    /// Refuses an arbitration fee change to `fee` by `caller`.
    fn arbitration_fee_check(&self, caller: Address, fee: u32) -> (r: Result<(), ContractError>)
        ensures
            r == (match self.arbitration_fee_error(caller, fee) {
                Some(e) => Err(e),
                None => Ok(()),
            }),
    {
        let admin = self.require_admin()?;
        if caller != admin {
            return Err(ContractError::NotAuthorized);
        }
        validate_arbitration_fee_bps(fee)?;
        validate_combined_fees(self.read_fee_config().protocol_fee_bps, fee)
    }

    /// Sets the protocol fee to `fee` on behalf of the administrator,
    /// returning the previous rate.
    pub fn update_protocol_fee(&mut self, caller: Address, fee: u32) -> (r: Result<u32, ContractError>)
        ensures
            match r {
                Err(e) => old(self).protocol_fee_error(caller, fee) == Some(e) && *final(self) == *old(
                    self,
                ),
                Ok(prev) => old(self).protocol_fee_error(caller, fee) is None && prev == old(
                    self,
                ).fees().protocol_fee_bps && *final(self) == (Escrow {
                    fee_config: Some(FeeConfig { protocol_fee_bps: fee, ..old(self).fees() }),
                    ..*old(self)
                }),
            },
    {
        self.protocol_fee_check(caller, fee)?;
        let config = self.read_fee_config();
        self.fee_config = Some(FeeConfig { protocol_fee_bps: fee, ..config });
        Ok(config.protocol_fee_bps)
    }

    /// Sets the arbitration fee to `fee` on behalf of the administrator,
    /// returning the previous rate.
    pub fn update_arbitration_fee(&mut self, caller: Address, fee: u32) -> (r: Result<u32, ContractError>)
        ensures
            match r {
                Err(e) => old(self).arbitration_fee_error(caller, fee) == Some(e) && *final(self)
                    == *old(self),
                Ok(prev) => old(self).arbitration_fee_error(caller, fee) is None && prev == old(
                    self,
                ).fees().arbitration_fee_bps && *final(self) == (Escrow {
                    fee_config: Some(FeeConfig { arbitration_fee_bps: fee, ..old(self).fees() }),
                    ..*old(self)
                }),
            },
    {
        self.arbitration_fee_check(caller, fee)?;
        let config = self.read_fee_config();
        self.fee_config = Some(FeeConfig { arbitration_fee_bps: fee, ..config });
        Ok(config.arbitration_fee_bps)
    }

    /// Checks a proposed fee collector and returns the current one.
    pub fn validate_fee_collector_change(&self, new_collector: Address) -> (r: Result<
        Address,
        ContractError,
    >)
        ensures
            match r {
                Err(e) => self.collector_change_error(new_collector) == Some(e),
                Ok(c) => self.collector_change_error(new_collector) is None && self.fee_collector
                    == Some(c),
            },
    {
        if new_collector == Address::zero() {
            return Err(ContractError::InvalidAddress);
        }
        let admin = self.require_admin()?;
        if new_collector == admin {
            return Err(ContractError::InvalidAddress);
        }
        let current = match self.fee_collector {
            Some(c) => c,
            None => return Err(ContractError::NotAuthorized),
        };
        if new_collector == current {
            return Err(ContractError::SameAddress);
        }
        Ok(current)
    }

    /// The administrator pauses the contract at once.
    pub fn pause_contract(&mut self, caller: Address, now: u64) -> (r: Result<(), ContractError>)
        requires
            old(self).wf(),
        ensures
            final(self).wf(),
            match r {
                Err(e) => old(self).admin_caller_error(caller) == Some(e) && *final(self) == *old(
                    self,
                ),
                Ok(_) => old(self).admin_caller_error(caller) is None && published(
                    old(self).events@,
                    final(self).events@,
                    Event::ContractPaused(ContractPausedEvent { schema_version: EVENT_SCHEMA_VERSION, admin: caller, timestamp: now }),
                ) && final(self).without_new_events(*old(self)) == (Escrow {
                    paused: true,
                    ..*old(self)
                }),
            },
    {
        let admin = self.require_admin()?;
        if caller != admin {
            return Err(ContractError::NotAuthorized);
        }
        self.paused = true;
        self.publish(Event::ContractPaused(emit_contract_paused(admin, now)));
        Ok(())
    }

    /// The administrator unpauses the contract at once.
    pub fn unpause_contract(&mut self, caller: Address, now: u64) -> (r: Result<(), ContractError>)
        requires
            old(self).wf(),
        ensures
            final(self).wf(),
            match r {
                Err(e) => old(self).admin_caller_error(caller) == Some(e) && *final(self) == *old(
                    self,
                ),
                Ok(_) => old(self).admin_caller_error(caller) is None && published(
                    old(self).events@,
                    final(self).events@,
                    Event::ContractUnpaused(ContractUnpausedEvent { schema_version: EVENT_SCHEMA_VERSION, admin: caller, timestamp: now }),
                ) && final(self).without_new_events(*old(self)) == (Escrow {
                    paused: false,
                    ..*old(self)
                }),
            },
    {
        let admin = self.require_admin()?;
        if caller != admin {
            return Err(ContractError::NotAuthorized);
        }
        self.paused = false;
        self.publish(Event::ContractUnpaused(emit_contract_unpaused(admin, now)));
        Ok(())
    }

    /// The current administrator (who authorizes the call) hands the role
    /// to `new_admin`.
    pub fn set_admin(&mut self, new_admin: Address, now: u64) -> (r: Result<(), ContractError>)
        requires
            old(self).wf(),
        ensures
            final(self).wf(),
            match r {
                Err(e) => (if old(self).admin is None {
                    Some(ContractError::NotAuthorized)
                } else if old(self).admin == Some(new_admin) {
                    Some(ContractError::SameAddress)
                } else {
                    None
                }) == Some(e) && *final(self) == *old(self),
                Ok(_) => old(self).admin is Some && old(self).admin != Some(new_admin) && published(
                    old(self).events@,
                    final(self).events@,
                    Event::AdminRotated(
                        AdminRotated {
                            schema_version: EVENT_SCHEMA_VERSION,
                            old_admin: old(self).admin->0,
                            new_admin,
                            timestamp: now,
                        },
                    ),
                ) && final(self).without_new_events(*old(self)) == (Escrow { admin: Some(new_admin), ..*old(self) }),
            },
    {
        let current = self.require_admin()?;
        if new_admin == current {
            return Err(ContractError::SameAddress);
        }
        self.admin = Some(new_admin);
        self.publish(Event::AdminRotated(emit_admin_rotated(current, new_admin, now)));
        Ok(())
    }

    /// The administrator sets the protocol fee at once.
    pub fn set_fee(&mut self, caller: Address, fee_bps: u32, now: u64) -> (r: Result<FeeUpdated, ContractError>)
        requires
            old(self).wf(),
        ensures
            final(self).wf(),
            match r {
                Err(e) => old(self).protocol_fee_error(caller, fee_bps) == Some(e) && *final(self)
                    == *old(self),
                Ok(ev) => old(self).protocol_fee_error(caller, fee_bps) is None && published(
                    old(self).events@,
                    final(self).events@,
                    Event::FeeUpdated(ev),
                ) && final(self).without_new_events(*old(self)) == (
                Escrow {
                    fee_config: Some(FeeConfig { protocol_fee_bps: fee_bps, ..old(self).fees() }),
                    ..*old(self)
                }) && ev.old_fee_bps == old(self).fees().protocol_fee_bps && ev.new_fee_bps == fee_bps
                    && ev.timestamp == now && ev.schema_version == crate::events::EVENT_SCHEMA_VERSION,
            },
    {
        let prev = self.update_protocol_fee(caller, fee_bps)?;
        let ev = emit_fee_updated(prev, fee_bps, now);
        self.publish(Event::FeeUpdated(ev));
        Ok(ev)
    }

    /// The administrator sets the protocol fee at once.
    pub fn set_protocol_fee(&mut self, caller: Address, fee_bps: u32, now: u64) -> (r: Result<
        ProtocolFeeUpdated,
        ContractError,
    >)
        requires
            old(self).wf(),
        ensures
            final(self).wf(),
            match r {
                Err(e) => old(self).protocol_fee_error(caller, fee_bps) == Some(e) && *final(self)
                    == *old(self),
                Ok(ev) => old(self).protocol_fee_error(caller, fee_bps) is None && published(
                    old(self).events@,
                    final(self).events@,
                    Event::ProtocolFeeUpdated(ev),
                ) && final(self).without_new_events(*old(self)) == (
                Escrow {
                    fee_config: Some(FeeConfig { protocol_fee_bps: fee_bps, ..old(self).fees() }),
                    ..*old(self)
                }) && ev.old_fee_bps == old(self).fees().protocol_fee_bps && ev.new_fee_bps
                    == fee_bps && ev.timestamp == now && ev.schema_version
                    == crate::events::EVENT_SCHEMA_VERSION,
            },
    {
        let prev = self.update_protocol_fee(caller, fee_bps)?;
        let ev = emit_protocol_fee_updated(prev, fee_bps, now);
        self.publish(Event::ProtocolFeeUpdated(ev));
        Ok(ev)
    }

    /// The administrator sets the arbitration fee at once.
    pub fn set_arbitration_fee(&mut self, caller: Address, fee_bps: u32, now: u64) -> (r: Result<
        ArbitrationFeeUpdated,
        ContractError,
    >)
        requires
            old(self).wf(),
        ensures
            final(self).wf(),
            match r {
                Err(e) => old(self).arbitration_fee_error(caller, fee_bps) == Some(e) && *final(self)
                    == *old(self),
                Ok(ev) => old(self).arbitration_fee_error(caller, fee_bps) is None && published(
                    old(self).events@,
                    final(self).events@,
                    Event::ArbitrationFeeUpdated(ev),
                ) && final(self).without_new_events(*old(self)) == (Escrow {
                    fee_config: Some(FeeConfig { arbitration_fee_bps: fee_bps, ..old(self).fees() }),
                    ..*old(self)
                }) && ev.old_fee_bps == old(self).fees().arbitration_fee_bps && ev.new_fee_bps
                    == fee_bps && ev.timestamp == now && ev.schema_version
                    == crate::events::EVENT_SCHEMA_VERSION,
            },
    {
        let prev = self.update_arbitration_fee(caller, fee_bps)?;
        let ev = emit_arbitration_fee_updated(prev, fee_bps, now);
        self.publish(Event::ArbitrationFeeUpdated(ev));
        Ok(ev)
    }

    /// The administrator sets the storage lifetime extension at once.
    pub fn set_ttl_extension(&mut self, caller: Address, ledgers: u32) -> (r: Result<(), ContractError>)
        requires
            old(self).wf(),
        ensures
            final(self).wf(),
            match r {
                Err(e) => old(self).admin_caller_error(caller) == Some(e) && *final(self) == *old(
                    self,
                ),
                Ok(_) => old(self).admin_caller_error(caller) is None && *final(self) == (Escrow {
                    ttl_extension: Some(ledgers),
                    ..*old(self)
                }),
            },
    {
        let admin = self.require_admin()?;
        if caller != admin {
            return Err(ContractError::NotAuthorized);
        }
        self.ttl_extension = Some(ledgers);
        Ok(())
    }

    /// The error `withdraw_fees` reports, if any.
    pub open spec fn withdraw_error(self, caller: Address, token: Address, amount: i128) -> Option<
        ContractError,
    > {
        if self.paused {
            Some(ContractError::ContractPaused)
        } else if self.admin_caller_error(caller) is Some {
            self.admin_caller_error(caller)
        } else if amount <= 0 {
            Some(ContractError::InvalidAmount)
        } else if amount > amount_at(self.accumulated_fees@, token) {
            Some(ContractError::InsufficientBalance)
        } else {
            None
        }
    }

    /// The administrator withdraws up to the fees accrued in `token` to `to`.
    pub fn withdraw_fees(&mut self, caller: Address, token: Address, to: Address, amount: i128) -> (r:
        Result<Vec<Transfer>, ContractError>)
        requires
            old(self).wf(),
        ensures
            final(self).wf(),
            match r {
                Err(e) => old(self).withdraw_error(caller, token, amount) == Some(e) && *final(self)
                    == *old(self),
                Ok(ts) => old(self).withdraw_error(caller, token, amount) is None && *final(self) == (
                Escrow { accumulated_fees: final(self).accumulated_fees, ..*old(self) })
                    && (forall|t: Address| #[trigger]
                    amount_at(final(self).accumulated_fees@, t) == (if t == token {
                        amount_at(old(self).accumulated_fees@, t) - amount
                    } else {
                        amount_at(old(self).accumulated_fees@, t) as int
                    })) && ts@ == seq![Transfer { token, from: old(self).contract, to, amount }],
            },
    {
        self.ensure_not_paused()?;
        let admin = self.require_admin()?;
        if caller != admin {
            return Err(ContractError::NotAuthorized);
        }
        if amount <= 0 {
            return Err(ContractError::InvalidAmount);
        }
        let accumulated = read_amount(&self.accumulated_fees, token);
        if amount > accumulated {
            return Err(ContractError::InsufficientBalance);
        }
        let mut ts: Vec<Transfer> = Vec::new();
        ts.push(Transfer { token, from: self.contract, to, amount });
        crate::state::write_amount(&mut self.accumulated_fees, token, accumulated - amount);
        Ok(ts)
    }

    /// The administrator replaces the fee collector at once.
    pub fn set_fee_collector(&mut self, new_collector: Address) -> (r: Result<(), ContractError>)
        requires
            old(self).wf(),
        ensures
            final(self).wf(),
            match r {
                Err(e) => (if old(self).admin is None {
                    Some(ContractError::NotAuthorized)
                } else {
                    old(self).collector_change_error(new_collector)
                }) == Some(e) && *final(self) == *old(self),
                Ok(_) => old(self).collector_change_error(new_collector) is None && published(
                    old(self).events@,
                    final(self).events@,
                    Event::FeeCollectorReplaced(old(self).fee_collector->0, new_collector),
                ) && final(self).without_new_events(*old(self)) == (Escrow {
                    fee_collector: Some(new_collector),
                    ..*old(self)
                }),
            },
    {
        self.require_admin()?;
        let current = self.validate_fee_collector_change(new_collector)?;
        self.fee_collector = Some(new_collector);
        self.publish(Event::FeeCollectorReplaced(current, new_collector));
        Ok(())
    }

    /// The error `emergency_drain` reports, if any.
    pub open spec fn drain_error(self, id: u64) -> Option<ContractError> {
        let d = self.rec(id).data;
        if !self.paused {
            Some(ContractError::ContractNotPaused)
        } else if !self.has(id) {
            Some(ContractError::EscrowNotFound)
        } else if d.state != EscrowState::Funded && d.state != EscrowState::Shipped && d.state
            != EscrowState::Disputed && d.state != EscrowState::PendingFinalization {
            Some(ContractError::InvalidState)
        } else if d.buyer is None {
            Some(ContractError::EscrowHasNoBuyer)
        } else if self.stats.total_refunded == u64::MAX {
            Some(ContractError::ArithmeticError)
        } else {
            None
        }
    }

    /// While the contract is paused, the buyer and the first payee (both
    /// authorizing) return a live escrow's funds to the buyer; the escrow is
    /// refunded.
    pub fn emergency_drain(&mut self, escrow_id: u64, now: u64) -> (r: Result<Vec<Transfer>, ContractError>)
        requires
            old(self).wf(),
        ensures
            final(self).wf(),
            match r {
                Err(e) => old(self).drain_error(escrow_id) == Some(e) && *final(self) == *old(self),
                Ok(ts) => old(self).drain_error(escrow_id) is None && published(
                    old(self).events@,
                    final(self).events@,
                    Event::EmergencyDrain(
                        EmergencyDrain {
                            schema_version: EVENT_SCHEMA_VERSION,
                            escrow_id,
                            buyer: old(self).rec(escrow_id).data.buyer->0,
                            seller: old(self).rec(escrow_id).data.payees@[0].address,
                            timestamp: now,
                        },
                    ),
                ) && old(self).closed(
                    final(self).without_new_events(*old(self)),
                    escrow_id,
                    EscrowState::Refunded,
                    now,
                ) && final(self).stats == (ContractStats {
                    total_refunded: (old(self).stats.total_refunded + 1) as u64,
                    ..old(self).stats
                }) && ts@ == old(self).refund_payments(
                    escrow_id,
                    old(self).rec(escrow_id).data.buyer->0,
                ),
            },
    {
        if !self.paused {
            return Err(ContractError::ContractNotPaused);
        }
        let i = self.locate(escrow_id)?;
        let st = self.escrows[i].data.state;
        if st != EscrowState::Funded && st != EscrowState::Shipped && st != EscrowState::Disputed
            && st != EscrowState::PendingFinalization {
            return Err(ContractError::InvalidState);
        }
        let buyer = match self.escrows[i].data.buyer {
            Some(b) => b,
            None => return Err(ContractError::EscrowHasNoBuyer),
        };
        if self.stats.total_refunded == u64::MAX {
            return Err(ContractError::ArithmeticError);
        }
        proof {
            assert(crate::state::record_wf(self.escrows@[i as int]));
        }
        let seller = self.escrows[i].data.payees[0].address;
        let ts = self.refund_transfers(escrow_id, buyer);
        self.set_state(escrow_id, EscrowState::Refunded, now);
        self.stats.total_refunded = self.stats.total_refunded + 1;
        self.publish(Event::EmergencyDrain(emit_emergency_drain(escrow_id, buyer, seller, now)));
        Ok(ts)
    }

    /// The administrator queues a handover of the administrator role to `new_admin`, executable after
    /// `ADMIN_TIMELOCK_DELAY_SECONDS`.
    pub fn queue_set_admin(&mut self, caller: Address, new_admin: Address, now: u64) -> (r: Result<(), ContractError>)
        requires
            old(self).wf(),
            now + ADMIN_TIMELOCK_DELAY_SECONDS <= u64::MAX,
        ensures
            final(self).wf(),
            old(self).queue_outcome(*final(self), r, caller, TimelockParams::SetAdmin(new_admin), now),
    {
        self.queue_timelock_op(caller, TimelockParams::SetAdmin(new_admin), now)
    }

    /// The administrator queues an upgrade of the contract code to `new_wasm_hash`, executable after
    /// `ADMIN_TIMELOCK_DELAY_SECONDS`.
    pub fn queue_upgrade(&mut self, caller: Address, new_wasm_hash: [u8; 32], now: u64) -> (r: Result<(), ContractError>)
        requires
            old(self).wf(),
            now + ADMIN_TIMELOCK_DELAY_SECONDS <= u64::MAX,
        ensures
            final(self).wf(),
            old(self).queue_outcome(*final(self), r, caller, TimelockParams::Upgrade(new_wasm_hash), now),
    {
        self.queue_timelock_op(caller, TimelockParams::Upgrade(new_wasm_hash), now)
    }

    /// The administrator queues a change of the protocol fee to `fee_bps`, executable after
    /// `ADMIN_TIMELOCK_DELAY_SECONDS`.
    pub fn queue_set_protocol_fee(&mut self, caller: Address, fee_bps: u32, now: u64) -> (r: Result<(), ContractError>)
        requires
            old(self).wf(),
            now + ADMIN_TIMELOCK_DELAY_SECONDS <= u64::MAX,
        ensures
            final(self).wf(),
            old(self).queue_outcome(*final(self), r, caller, TimelockParams::SetProtocolFee(fee_bps), now),
    {
        self.queue_timelock_op(caller, TimelockParams::SetProtocolFee(fee_bps), now)
    }

    /// The administrator queues a change of the arbitration fee to `fee_bps`, executable after
    /// `ADMIN_TIMELOCK_DELAY_SECONDS`.
    pub fn queue_set_arbitration_fee(&mut self, caller: Address, fee_bps: u32, now: u64) -> (r: Result<(), ContractError>)
        requires
            old(self).wf(),
            now + ADMIN_TIMELOCK_DELAY_SECONDS <= u64::MAX,
        ensures
            final(self).wf(),
            old(self).queue_outcome(*final(self), r, caller, TimelockParams::SetArbitrationFee(fee_bps), now),
    {
        self.queue_timelock_op(caller, TimelockParams::SetArbitrationFee(fee_bps), now)
    }

    /// The administrator queues a change of the platform fee to `fee_bps`, executable after
    /// `ADMIN_TIMELOCK_DELAY_SECONDS`.
    pub fn queue_set_platform_fee(&mut self, caller: Address, fee_bps: u32, now: u64) -> (r: Result<(), ContractError>)
        requires
            old(self).wf(),
            now + ADMIN_TIMELOCK_DELAY_SECONDS <= u64::MAX,
        ensures
            final(self).wf(),
            old(self).queue_outcome(*final(self), r, caller, TimelockParams::SetPlatformFee(fee_bps), now),
    {
        self.queue_timelock_op(caller, TimelockParams::SetPlatformFee(fee_bps), now)
    }

    /// The administrator queues a change of the treasury to `treasury`, executable after
    /// `ADMIN_TIMELOCK_DELAY_SECONDS`.
    pub fn queue_set_treasury(&mut self, caller: Address, treasury: Address, now: u64) -> (r: Result<(), ContractError>)
        requires
            old(self).wf(),
            now + ADMIN_TIMELOCK_DELAY_SECONDS <= u64::MAX,
        ensures
            final(self).wf(),
            old(self).queue_outcome(*final(self), r, caller, TimelockParams::SetTreasury(treasury), now),
    {
        self.queue_timelock_op(caller, TimelockParams::SetTreasury(treasury), now)
    }

    /// The administrator queues a change of the fee collector to `new_collector`, executable after
    /// `ADMIN_TIMELOCK_DELAY_SECONDS`.
    pub fn queue_set_fee_collector(&mut self, caller: Address, new_collector: Address, now: u64) -> (r: Result<(), ContractError>)
        requires
            old(self).wf(),
            now + ADMIN_TIMELOCK_DELAY_SECONDS <= u64::MAX,
        ensures
            final(self).wf(),
            old(self).queue_outcome(*final(self), r, caller, TimelockParams::SetFeeCollector(new_collector), now),
    {
        self.queue_timelock_op(caller, TimelockParams::SetFeeCollector(new_collector), now)
    }

    /// The administrator queues a change of the storage lifetime extension to `ledgers`, executable after
    /// `ADMIN_TIMELOCK_DELAY_SECONDS`.
    pub fn queue_set_ttl_extension(&mut self, caller: Address, ledgers: u32, now: u64) -> (r: Result<(), ContractError>)
        requires
            old(self).wf(),
            now + ADMIN_TIMELOCK_DELAY_SECONDS <= u64::MAX,
        ensures
            final(self).wf(),
            old(self).queue_outcome(*final(self), r, caller, TimelockParams::SetTtlExtension(ledgers), now),
    {
        self.queue_timelock_op(caller, TimelockParams::SetTtlExtension(ledgers), now)
    }

    /// The administrator queues new escrow amount limits, executable after
    /// `ADMIN_TIMELOCK_DELAY_SECONDS`.
    pub fn queue_set_amount_limits(&mut self, caller: Address, min_amount: i128, max_amount: i128, now: u64) -> (r: Result<(), ContractError>)
        requires
            old(self).wf(),
            now + ADMIN_TIMELOCK_DELAY_SECONDS <= u64::MAX,
        ensures
            final(self).wf(),
            old(self).queue_outcome(*final(self), r, caller, TimelockParams::SetAmountLimits(min_amount, max_amount), now),
    {
        self.queue_timelock_op(caller, TimelockParams::SetAmountLimits(min_amount, max_amount), now)
    }

    /// The administrator queues the approval of `resolver`, executable after
    /// `ADMIN_TIMELOCK_DELAY_SECONDS`.
    pub fn queue_add_approved_resolver(&mut self, caller: Address, resolver: Address, now: u64) -> (r: Result<(), ContractError>)
        requires
            old(self).wf(),
            now + ADMIN_TIMELOCK_DELAY_SECONDS <= u64::MAX,
        ensures
            final(self).wf(),
            old(self).queue_outcome(*final(self), r, caller, TimelockParams::AddApprovedResolver(resolver), now),
    {
        self.queue_timelock_op(caller, TimelockParams::AddApprovedResolver(resolver), now)
    }

    /// The administrator queues the withdrawal of `resolver`'s approval, executable after
    /// `ADMIN_TIMELOCK_DELAY_SECONDS`.
    pub fn queue_remove_approved_resolver(&mut self, caller: Address, resolver: Address, now: u64) -> (r: Result<(), ContractError>)
        requires
            old(self).wf(),
            now + ADMIN_TIMELOCK_DELAY_SECONDS <= u64::MAX,
        ensures
            final(self).wf(),
            old(self).queue_outcome(*final(self), r, caller, TimelockParams::RemoveApprovedResolver(resolver), now),
    {
        self.queue_timelock_op(caller, TimelockParams::RemoveApprovedResolver(resolver), now)
    }

    /// The administrator queues switching strict resolver approval to `strict`, executable after
    /// `ADMIN_TIMELOCK_DELAY_SECONDS`.
    pub fn queue_set_resolver_strict(&mut self, caller: Address, strict: bool, now: u64) -> (r: Result<(), ContractError>)
        requires
            old(self).wf(),
            now + ADMIN_TIMELOCK_DELAY_SECONDS <= u64::MAX,
        ensures
            final(self).wf(),
            old(self).queue_outcome(*final(self), r, caller, TimelockParams::SetResolverStrict(strict), now),
    {
        self.queue_timelock_op(caller, TimelockParams::SetResolverStrict(strict), now)
    }

    /// The administrator queues switching the token allowlist to `enabled`, executable after
    /// `ADMIN_TIMELOCK_DELAY_SECONDS`.
    pub fn queue_set_token_allowlist_enabled(&mut self, caller: Address, enabled: bool, now: u64) -> (r: Result<(), ContractError>)
        requires
            old(self).wf(),
            now + ADMIN_TIMELOCK_DELAY_SECONDS <= u64::MAX,
        ensures
            final(self).wf(),
            old(self).queue_outcome(*final(self), r, caller, TimelockParams::SetTokenAllowlistEnabled(enabled), now),
    {
        self.queue_timelock_op(caller, TimelockParams::SetTokenAllowlistEnabled(enabled), now)
    }

    /// The administrator queues allowing `token`, executable after
    /// `ADMIN_TIMELOCK_DELAY_SECONDS`.
    pub fn queue_add_allowed_token(&mut self, caller: Address, token: Address, now: u64) -> (r: Result<(), ContractError>)
        requires
            old(self).wf(),
            now + ADMIN_TIMELOCK_DELAY_SECONDS <= u64::MAX,
        ensures
            final(self).wf(),
            old(self).queue_outcome(*final(self), r, caller, TimelockParams::AddAllowedToken(token), now),
    {
        self.queue_timelock_op(caller, TimelockParams::AddAllowedToken(token), now)
    }

    /// The administrator queues disallowing `token`, executable after
    /// `ADMIN_TIMELOCK_DELAY_SECONDS`.
    pub fn queue_remove_allowed_token(&mut self, caller: Address, token: Address, now: u64) -> (r: Result<(), ContractError>)
        requires
            old(self).wf(),
            now + ADMIN_TIMELOCK_DELAY_SECONDS <= u64::MAX,
        ensures
            final(self).wf(),
            old(self).queue_outcome(*final(self), r, caller, TimelockParams::RemoveAllowedToken(token), now),
    {
        self.queue_timelock_op(caller, TimelockParams::RemoveAllowedToken(token), now)
    }

    /// The administrator queues pausing the contract, executable after
    /// `ADMIN_TIMELOCK_DELAY_SECONDS`.
    pub fn queue_pause_contract(&mut self, caller: Address, now: u64) -> (r: Result<(), ContractError>)
        requires
            old(self).wf(),
            now + ADMIN_TIMELOCK_DELAY_SECONDS <= u64::MAX,
        ensures
            final(self).wf(),
            old(self).queue_outcome(*final(self), r, caller, TimelockParams::PauseContract, now),
    {
        self.queue_timelock_op(caller, TimelockParams::PauseContract, now)
    }

    /// The administrator queues unpausing the contract, executable after
    /// `ADMIN_TIMELOCK_DELAY_SECONDS`.
    pub fn queue_unpause_contract(&mut self, caller: Address, now: u64) -> (r: Result<(), ContractError>)
        requires
            old(self).wf(),
            now + ADMIN_TIMELOCK_DELAY_SECONDS <= u64::MAX,
        ensures
            final(self).wf(),
            old(self).queue_outcome(*final(self), r, caller, TimelockParams::UnpauseContract, now),
    {
        self.queue_timelock_op(caller, TimelockParams::UnpauseContract, now)
    }

    /// Once its timelock has elapsed, anyone executes the queued change:
    /// hands the administrator role to the proposed address.
    pub fn execute_set_admin(&mut self, caller: Address, now: u64) -> (r: Result<(), ContractError>)
        requires
            old(self).wf(),
        ensures
            final(self).wf(),
            match r {
                Err(e) => old(self).execute_error(caller, TimelockOperation::SetAdmin, now) == Some(e)
                    && *final(self) == *old(self),
                Ok(_) => old(self).execute_error(caller, TimelockOperation::SetAdmin, now) is None
                    && old(self).without_proposal(final(self).without_new_events(*old(self)), TimelockOperation::SetAdmin)
                    && old(self).applied(
                    final(self).without_new_events(*old(self)),
                    old(self).ready_params(TimelockOperation::SetAdmin, now)->Ok_0,
                ) && published_if(
                    old(self).events@,
                    final(self).events@,
                    old(self).exec_event(caller, old(self).ready_params(TimelockOperation::SetAdmin, now)->Ok_0, now),
                ),
            },
            
    {
        let p = self.ready_proposal(TimelockOperation::SetAdmin, now)?;
        let ev = self.exec_event_of(caller, p, now);
        let a = match p {
            TimelockParams::SetAdmin(a) => a,
            _ => return Err(ContractError::InvalidState),
        };
        let old_admin = self.require_admin()?;
        if a == old_admin {
            return Err(ContractError::SameAddress);
        }
        self.drop_proposal(TimelockOperation::SetAdmin);
        self.admin = Some(a);
        if let Some(e) = ev {
            self.publish(e);
        }
        Ok(())
    }

    /// Once its timelock has elapsed, anyone executes the queued change:
    /// approves the proposed code upgrade, returning the code hash for the host to install.
    pub fn execute_upgrade(&mut self, caller: Address, now: u64) -> (r: Result<[u8; 32], ContractError>)
        requires
            old(self).wf(),
        ensures
            final(self).wf(),
            match r {
                Err(e) => old(self).execute_error(caller, TimelockOperation::Upgrade, now) == Some(e)
                    && *final(self) == *old(self),
                Ok(_) => old(self).execute_error(caller, TimelockOperation::Upgrade, now) is None
                    && old(self).without_proposal(final(self).without_new_events(*old(self)), TimelockOperation::Upgrade)
                    && old(self).applied(
                    final(self).without_new_events(*old(self)),
                    old(self).ready_params(TimelockOperation::Upgrade, now)->Ok_0,
                ) && published_if(
                    old(self).events@,
                    final(self).events@,
                    old(self).exec_event(caller, old(self).ready_params(TimelockOperation::Upgrade, now)->Ok_0, now),
                ),
            },
            r matches Ok(h) ==> old(self).ready_params(TimelockOperation::Upgrade, now) == Ok::<TimelockParams, ContractError>(TimelockParams::Upgrade(h)),
    {
        let p = self.ready_proposal(TimelockOperation::Upgrade, now)?;
        let ev = self.exec_event_of(caller, p, now);
        let h = match p {
            TimelockParams::Upgrade(h) => h,
            _ => return Err(ContractError::InvalidState),
        };
        self.require_admin()?;
        self.drop_proposal(TimelockOperation::Upgrade);
        if let Some(e) = ev {
            self.publish(e);
        }
        Ok(h)
    }

    /// Once its timelock has elapsed, anyone executes the queued change:
    /// sets the protocol fee as proposed (the caller must be the administrator).
    pub fn execute_set_protocol_fee(&mut self, caller: Address, now: u64) -> (r: Result<ProtocolFeeUpdated, ContractError>)
        requires
            old(self).wf(),
        ensures
            final(self).wf(),
            match r {
                Err(e) => old(self).execute_error(caller, TimelockOperation::SetProtocolFee, now) == Some(e)
                    && *final(self) == *old(self),
                Ok(_) => old(self).execute_error(caller, TimelockOperation::SetProtocolFee, now) is None
                    && old(self).without_proposal(final(self).without_new_events(*old(self)), TimelockOperation::SetProtocolFee)
                    && old(self).applied(
                    final(self).without_new_events(*old(self)),
                    old(self).ready_params(TimelockOperation::SetProtocolFee, now)->Ok_0,
                ) && published_if(
                    old(self).events@,
                    final(self).events@,
                    old(self).exec_event(caller, old(self).ready_params(TimelockOperation::SetProtocolFee, now)->Ok_0, now),
                ),
            },
            r matches Ok(ev) ==> ev.old_fee_bps == old(self).fees().protocol_fee_bps && ev.new_fee_bps == final(self).fees().protocol_fee_bps && ev.timestamp == now && ev.schema_version == crate::events::EVENT_SCHEMA_VERSION,
    {
        let p = self.ready_proposal(TimelockOperation::SetProtocolFee, now)?;
        let ev = self.exec_event_of(caller, p, now);
        let f = match p {
            TimelockParams::SetProtocolFee(f) => f,
            _ => return Err(ContractError::InvalidState),
        };
        self.protocol_fee_check(caller, f)?;
        self.drop_proposal(TimelockOperation::SetProtocolFee);
        let old_fee = self.update_protocol_fee(caller, f)?;
        if let Some(e) = ev {
            self.publish(e);
        }
        Ok(emit_protocol_fee_updated(old_fee, f, now))
    }

    /// Once its timelock has elapsed, anyone executes the queued change:
    /// sets the arbitration fee as proposed (the caller must be the administrator).
    pub fn execute_set_arbitration_fee(&mut self, caller: Address, now: u64) -> (r: Result<ArbitrationFeeUpdated, ContractError>)
        requires
            old(self).wf(),
        ensures
            final(self).wf(),
            match r {
                Err(e) => old(self).execute_error(caller, TimelockOperation::SetArbitrationFee, now) == Some(e)
                    && *final(self) == *old(self),
                Ok(_) => old(self).execute_error(caller, TimelockOperation::SetArbitrationFee, now) is None
                    && old(self).without_proposal(final(self).without_new_events(*old(self)), TimelockOperation::SetArbitrationFee)
                    && old(self).applied(
                    final(self).without_new_events(*old(self)),
                    old(self).ready_params(TimelockOperation::SetArbitrationFee, now)->Ok_0,
                ) && published_if(
                    old(self).events@,
                    final(self).events@,
                    old(self).exec_event(caller, old(self).ready_params(TimelockOperation::SetArbitrationFee, now)->Ok_0, now),
                ),
            },
            r matches Ok(ev) ==> ev.old_fee_bps == old(self).fees().arbitration_fee_bps && ev.new_fee_bps == final(self).fees().arbitration_fee_bps && ev.timestamp == now && ev.schema_version == crate::events::EVENT_SCHEMA_VERSION,
    {
        let p = self.ready_proposal(TimelockOperation::SetArbitrationFee, now)?;
        let ev = self.exec_event_of(caller, p, now);
        let f = match p {
            TimelockParams::SetArbitrationFee(f) => f,
            _ => return Err(ContractError::InvalidState),
        };
        self.arbitration_fee_check(caller, f)?;
        self.drop_proposal(TimelockOperation::SetArbitrationFee);
        let old_fee = self.update_arbitration_fee(caller, f)?;
        if let Some(e) = ev {
            self.publish(e);
        }
        Ok(emit_arbitration_fee_updated(old_fee, f, now))
    }

    /// Once its timelock has elapsed, anyone executes the queued change:
    /// sets the platform fee as proposed.
    pub fn execute_set_platform_fee(&mut self, caller: Address, now: u64) -> (r: Result<PlatformFeeUpdated, ContractError>)
        requires
            old(self).wf(),
        ensures
            final(self).wf(),
            match r {
                Err(e) => old(self).execute_error(caller, TimelockOperation::SetPlatformFee, now) == Some(e)
                    && *final(self) == *old(self),
                Ok(_) => old(self).execute_error(caller, TimelockOperation::SetPlatformFee, now) is None
                    && old(self).without_proposal(final(self).without_new_events(*old(self)), TimelockOperation::SetPlatformFee)
                    && old(self).applied(
                    final(self).without_new_events(*old(self)),
                    old(self).ready_params(TimelockOperation::SetPlatformFee, now)->Ok_0,
                ) && published_if(
                    old(self).events@,
                    final(self).events@,
                    old(self).exec_event(caller, old(self).ready_params(TimelockOperation::SetPlatformFee, now)->Ok_0, now),
                ),
            },
            r matches Ok(ev) ==> ev.old_fee_bps == old(self).platform_fee_bps && ev.new_fee_bps == final(self).platform_fee_bps && ev.timestamp == now && ev.schema_version == crate::events::EVENT_SCHEMA_VERSION,
    {
        let p = self.ready_proposal(TimelockOperation::SetPlatformFee, now)?;
        let ev = self.exec_event_of(caller, p, now);
        let f = match p {
            TimelockParams::SetPlatformFee(f) => f,
            _ => return Err(ContractError::InvalidState),
        };
        if f > MAX_PLATFORM_FEE_BPS {
            return Err(ContractError::PlatformFeeExceedsMax);
        }
        let old_fee = self.platform_fee_bps;
        self.drop_proposal(TimelockOperation::SetPlatformFee);
        self.platform_fee_bps = f;
        if let Some(e) = ev {
            self.publish(e);
        }
        Ok(emit_platform_fee_updated(old_fee, f, now))
    }

    /// Once its timelock has elapsed, anyone executes the queued change:
    /// sets the treasury as proposed.
    pub fn execute_set_treasury(&mut self, caller: Address, now: u64) -> (r: Result<(), ContractError>)
        requires
            old(self).wf(),
        ensures
            final(self).wf(),
            match r {
                Err(e) => old(self).execute_error(caller, TimelockOperation::SetTreasury, now) == Some(e)
                    && *final(self) == *old(self),
                Ok(_) => old(self).execute_error(caller, TimelockOperation::SetTreasury, now) is None
                    && old(self).without_proposal(final(self).without_new_events(*old(self)), TimelockOperation::SetTreasury)
                    && old(self).applied(
                    final(self).without_new_events(*old(self)),
                    old(self).ready_params(TimelockOperation::SetTreasury, now)->Ok_0,
                ) && published_if(
                    old(self).events@,
                    final(self).events@,
                    old(self).exec_event(caller, old(self).ready_params(TimelockOperation::SetTreasury, now)->Ok_0, now),
                ),
            },
            
    {
        let p = self.ready_proposal(TimelockOperation::SetTreasury, now)?;
        let ev = self.exec_event_of(caller, p, now);
        let t = match p {
            TimelockParams::SetTreasury(t) => t,
            _ => return Err(ContractError::InvalidState),
        };
        if t == Address::zero() {
            return Err(ContractError::InvalidAddress);
        }
        self.drop_proposal(TimelockOperation::SetTreasury);
        self.treasury = Some(t);
        if let Some(e) = ev {
            self.publish(e);
        }
        Ok(())
    }

    /// Once its timelock has elapsed, anyone executes the queued change:
    /// sets the fee collector as proposed.
    pub fn execute_set_fee_collector(&mut self, caller: Address, now: u64) -> (r: Result<(), ContractError>)
        requires
            old(self).wf(),
        ensures
            final(self).wf(),
            match r {
                Err(e) => old(self).execute_error(caller, TimelockOperation::SetFeeCollector, now) == Some(e)
                    && *final(self) == *old(self),
                Ok(_) => old(self).execute_error(caller, TimelockOperation::SetFeeCollector, now) is None
                    && old(self).without_proposal(final(self).without_new_events(*old(self)), TimelockOperation::SetFeeCollector)
                    && old(self).applied(
                    final(self).without_new_events(*old(self)),
                    old(self).ready_params(TimelockOperation::SetFeeCollector, now)->Ok_0,
                ) && published_if(
                    old(self).events@,
                    final(self).events@,
                    old(self).exec_event(caller, old(self).ready_params(TimelockOperation::SetFeeCollector, now)->Ok_0, now),
                ),
            },
            
    {
        let p = self.ready_proposal(TimelockOperation::SetFeeCollector, now)?;
        let ev = self.exec_event_of(caller, p, now);
        let c = match p {
            TimelockParams::SetFeeCollector(c) => c,
            _ => return Err(ContractError::InvalidState),
        };
        self.validate_fee_collector_change(c)?;
        self.drop_proposal(TimelockOperation::SetFeeCollector);
        self.fee_collector = Some(c);
        if let Some(e) = ev {
            self.publish(e);
        }
        Ok(())
    }

    /// Once its timelock has elapsed, anyone executes the queued change:
    /// sets the storage lifetime extension as proposed.
    pub fn execute_set_ttl_extension(&mut self, caller: Address, now: u64) -> (r: Result<(), ContractError>)
        requires
            old(self).wf(),
        ensures
            final(self).wf(),
            match r {
                Err(e) => old(self).execute_error(caller, TimelockOperation::SetTtlExtension, now) == Some(e)
                    && *final(self) == *old(self),
                Ok(_) => old(self).execute_error(caller, TimelockOperation::SetTtlExtension, now) is None
                    && old(self).without_proposal(final(self).without_new_events(*old(self)), TimelockOperation::SetTtlExtension)
                    && old(self).applied(
                    final(self).without_new_events(*old(self)),
                    old(self).ready_params(TimelockOperation::SetTtlExtension, now)->Ok_0,
                ) && published_if(
                    old(self).events@,
                    final(self).events@,
                    old(self).exec_event(caller, old(self).ready_params(TimelockOperation::SetTtlExtension, now)->Ok_0, now),
                ),
            },
            
    {
        let p = self.ready_proposal(TimelockOperation::SetTtlExtension, now)?;
        let ev = self.exec_event_of(caller, p, now);
        let l = match p {
            TimelockParams::SetTtlExtension(l) => l,
            _ => return Err(ContractError::InvalidState),
        };
        self.drop_proposal(TimelockOperation::SetTtlExtension);
        self.ttl_extension = Some(l);
        if let Some(e) = ev {
            self.publish(e);
        }
        Ok(())
    }

    /// Once its timelock has elapsed, anyone executes the queued change:
    /// sets the escrow amount limits as proposed.
    pub fn execute_set_amount_limits(&mut self, caller: Address, now: u64) -> (r: Result<(), ContractError>)
        requires
            old(self).wf(),
        ensures
            final(self).wf(),
            match r {
                Err(e) => old(self).execute_error(caller, TimelockOperation::SetAmountLimits, now) == Some(e)
                    && *final(self) == *old(self),
                Ok(_) => old(self).execute_error(caller, TimelockOperation::SetAmountLimits, now) is None
                    && old(self).without_proposal(final(self).without_new_events(*old(self)), TimelockOperation::SetAmountLimits)
                    && old(self).applied(
                    final(self).without_new_events(*old(self)),
                    old(self).ready_params(TimelockOperation::SetAmountLimits, now)->Ok_0,
                ) && published_if(
                    old(self).events@,
                    final(self).events@,
                    old(self).exec_event(caller, old(self).ready_params(TimelockOperation::SetAmountLimits, now)->Ok_0, now),
                ),
            },
            
    {
        let p = self.ready_proposal(TimelockOperation::SetAmountLimits, now)?;
        let ev = self.exec_event_of(caller, p, now);
        let (mn, mx) = match p {
            TimelockParams::SetAmountLimits(mn, mx) => (mn, mx),
            _ => return Err(ContractError::InvalidState),
        };
        if mn <= 0 || mx < mn {
            return Err(ContractError::InvalidAmount);
        }
        self.drop_proposal(TimelockOperation::SetAmountLimits);
        self.min_amount = Some(mn);
        self.max_amount = Some(mx);
        if let Some(e) = ev {
            self.publish(e);
        }
        Ok(())
    }

    /// Once its timelock has elapsed, anyone executes the queued change:
    /// approves the proposed resolver.
    pub fn execute_add_approved_resolver(&mut self, caller: Address, now: u64) -> (r: Result<(), ContractError>)
        requires
            old(self).wf(),
        ensures
            final(self).wf(),
            match r {
                Err(e) => old(self).execute_error(caller, TimelockOperation::AddApprovedResolver, now) == Some(e)
                    && *final(self) == *old(self),
                Ok(_) => old(self).execute_error(caller, TimelockOperation::AddApprovedResolver, now) is None
                    && old(self).without_proposal(final(self).without_new_events(*old(self)), TimelockOperation::AddApprovedResolver)
                    && old(self).applied(
                    final(self).without_new_events(*old(self)),
                    old(self).ready_params(TimelockOperation::AddApprovedResolver, now)->Ok_0,
                ) && published_if(
                    old(self).events@,
                    final(self).events@,
                    old(self).exec_event(caller, old(self).ready_params(TimelockOperation::AddApprovedResolver, now)->Ok_0, now),
                ),
            },
            
    {
        let p = self.ready_proposal(TimelockOperation::AddApprovedResolver, now)?;
        let ev = self.exec_event_of(caller, p, now);
        let a = match p {
            TimelockParams::AddApprovedResolver(a) => a,
            _ => return Err(ContractError::InvalidState),
        };
        self.drop_proposal(TimelockOperation::AddApprovedResolver);
        if !contains(&self.approved_resolvers, a) {
            self.approved_resolvers.push(a);
        }
        if let Some(e) = ev {
            self.publish(e);
        }
        Ok(())
    }

    /// Once its timelock has elapsed, anyone executes the queued change:
    /// withdraws the proposed resolver's approval.
    pub fn execute_remove_approved_resolver(&mut self, caller: Address, now: u64) -> (r: Result<(), ContractError>)
        requires
            old(self).wf(),
        ensures
            final(self).wf(),
            match r {
                Err(e) => old(self).execute_error(caller, TimelockOperation::RemoveApprovedResolver, now) == Some(e)
                    && *final(self) == *old(self),
                Ok(_) => old(self).execute_error(caller, TimelockOperation::RemoveApprovedResolver, now) is None
                    && old(self).without_proposal(final(self).without_new_events(*old(self)), TimelockOperation::RemoveApprovedResolver)
                    && old(self).applied(
                    final(self).without_new_events(*old(self)),
                    old(self).ready_params(TimelockOperation::RemoveApprovedResolver, now)->Ok_0,
                ) && published_if(
                    old(self).events@,
                    final(self).events@,
                    old(self).exec_event(caller, old(self).ready_params(TimelockOperation::RemoveApprovedResolver, now)->Ok_0, now),
                ),
            },
            
    {
        let p = self.ready_proposal(TimelockOperation::RemoveApprovedResolver, now)?;
        let ev = self.exec_event_of(caller, p, now);
        let a = match p {
            TimelockParams::RemoveApprovedResolver(a) => a,
            _ => return Err(ContractError::InvalidState),
        };
        if !contains(&self.approved_resolvers, a) {
            return Err(ContractError::InvalidAddress);
        }
        self.drop_proposal(TimelockOperation::RemoveApprovedResolver);
        let kept = remove_all(&self.approved_resolvers, a);
        self.approved_resolvers = kept;
        if let Some(e) = ev {
            self.publish(e);
        }
        Ok(())
    }

    /// Once its timelock has elapsed, anyone executes the queued change:
    /// switches strict resolver approval as proposed.
    pub fn execute_set_resolver_strict(&mut self, caller: Address, now: u64) -> (r: Result<(), ContractError>)
        requires
            old(self).wf(),
        ensures
            final(self).wf(),
            match r {
                Err(e) => old(self).execute_error(caller, TimelockOperation::SetResolverStrict, now) == Some(e)
                    && *final(self) == *old(self),
                Ok(_) => old(self).execute_error(caller, TimelockOperation::SetResolverStrict, now) is None
                    && old(self).without_proposal(final(self).without_new_events(*old(self)), TimelockOperation::SetResolverStrict)
                    && old(self).applied(
                    final(self).without_new_events(*old(self)),
                    old(self).ready_params(TimelockOperation::SetResolverStrict, now)->Ok_0,
                ) && published_if(
                    old(self).events@,
                    final(self).events@,
                    old(self).exec_event(caller, old(self).ready_params(TimelockOperation::SetResolverStrict, now)->Ok_0, now),
                ),
            },
            
    {
        let p = self.ready_proposal(TimelockOperation::SetResolverStrict, now)?;
        let ev = self.exec_event_of(caller, p, now);
        let b = match p {
            TimelockParams::SetResolverStrict(b) => b,
            _ => return Err(ContractError::InvalidState),
        };
        self.drop_proposal(TimelockOperation::SetResolverStrict);
        self.resolver_strict = b;
        if let Some(e) = ev {
            self.publish(e);
        }
        Ok(())
    }

    /// Once its timelock has elapsed, anyone executes the queued change:
    /// switches the token allowlist as proposed.
    pub fn execute_set_token_allowlist_enabled(&mut self, caller: Address, now: u64) -> (r: Result<AllowlistToggled, ContractError>)
        requires
            old(self).wf(),
        ensures
            final(self).wf(),
            match r {
                Err(e) => old(self).execute_error(caller, TimelockOperation::SetTokenAllowlistEnabled, now) == Some(e)
                    && *final(self) == *old(self),
                Ok(_) => old(self).execute_error(caller, TimelockOperation::SetTokenAllowlistEnabled, now) is None
                    && old(self).without_proposal(final(self).without_new_events(*old(self)), TimelockOperation::SetTokenAllowlistEnabled)
                    && old(self).applied(
                    final(self).without_new_events(*old(self)),
                    old(self).ready_params(TimelockOperation::SetTokenAllowlistEnabled, now)->Ok_0,
                ) && published_if(
                    old(self).events@,
                    final(self).events@,
                    old(self).exec_event(caller, old(self).ready_params(TimelockOperation::SetTokenAllowlistEnabled, now)->Ok_0, now),
                ),
            },
            r matches Ok(ev) ==> ev.enabled == final(self).allowlist_enabled && ev.timestamp == now && ev.schema_version == crate::events::EVENT_SCHEMA_VERSION,
    {
        let p = self.ready_proposal(TimelockOperation::SetTokenAllowlistEnabled, now)?;
        let ev = self.exec_event_of(caller, p, now);
        let b = match p {
            TimelockParams::SetTokenAllowlistEnabled(b) => b,
            _ => return Err(ContractError::InvalidState),
        };
        self.drop_proposal(TimelockOperation::SetTokenAllowlistEnabled);
        self.allowlist_enabled = b;
        if let Some(e) = ev {
            self.publish(e);
        }
        Ok(emit_allowlist_toggled(b, now))
    }

    /// Once its timelock has elapsed, anyone executes the queued change:
    /// allows the proposed token.
    pub fn execute_add_allowed_token(&mut self, caller: Address, now: u64) -> (r: Result<(), ContractError>)
        requires
            old(self).wf(),
        ensures
            final(self).wf(),
            match r {
                Err(e) => old(self).execute_error(caller, TimelockOperation::AddAllowedToken, now) == Some(e)
                    && *final(self) == *old(self),
                Ok(_) => old(self).execute_error(caller, TimelockOperation::AddAllowedToken, now) is None
                    && old(self).without_proposal(final(self).without_new_events(*old(self)), TimelockOperation::AddAllowedToken)
                    && old(self).applied(
                    final(self).without_new_events(*old(self)),
                    old(self).ready_params(TimelockOperation::AddAllowedToken, now)->Ok_0,
                ) && published_if(
                    old(self).events@,
                    final(self).events@,
                    old(self).exec_event(caller, old(self).ready_params(TimelockOperation::AddAllowedToken, now)->Ok_0, now),
                ),
            },
            
    {
        let p = self.ready_proposal(TimelockOperation::AddAllowedToken, now)?;
        let ev = self.exec_event_of(caller, p, now);
        let a = match p {
            TimelockParams::AddAllowedToken(a) => a,
            _ => return Err(ContractError::InvalidState),
        };
        self.drop_proposal(TimelockOperation::AddAllowedToken);
        if !contains(&self.allowed_tokens, a) {
            self.allowed_tokens.push(a);
        }
        if let Some(e) = ev {
            self.publish(e);
        }
        Ok(())
    }

    /// Once its timelock has elapsed, anyone executes the queued change:
    /// disallows the proposed token.
    pub fn execute_remove_allowed_token(&mut self, caller: Address, now: u64) -> (r: Result<(), ContractError>)
        requires
            old(self).wf(),
        ensures
            final(self).wf(),
            match r {
                Err(e) => old(self).execute_error(caller, TimelockOperation::RemoveAllowedToken, now) == Some(e)
                    && *final(self) == *old(self),
                Ok(_) => old(self).execute_error(caller, TimelockOperation::RemoveAllowedToken, now) is None
                    && old(self).without_proposal(final(self).without_new_events(*old(self)), TimelockOperation::RemoveAllowedToken)
                    && old(self).applied(
                    final(self).without_new_events(*old(self)),
                    old(self).ready_params(TimelockOperation::RemoveAllowedToken, now)->Ok_0,
                ) && published_if(
                    old(self).events@,
                    final(self).events@,
                    old(self).exec_event(caller, old(self).ready_params(TimelockOperation::RemoveAllowedToken, now)->Ok_0, now),
                ),
            },
            
    {
        let p = self.ready_proposal(TimelockOperation::RemoveAllowedToken, now)?;
        let ev = self.exec_event_of(caller, p, now);
        let a = match p {
            TimelockParams::RemoveAllowedToken(a) => a,
            _ => return Err(ContractError::InvalidState),
        };
        if !contains(&self.allowed_tokens, a) {
            return Err(ContractError::TokenNotAllowed);
        }
        self.drop_proposal(TimelockOperation::RemoveAllowedToken);
        let kept = remove_all(&self.allowed_tokens, a);
        self.allowed_tokens = kept;
        if let Some(e) = ev {
            self.publish(e);
        }
        Ok(())
    }

    /// Once its timelock has elapsed, anyone executes the queued change:
    /// pauses the contract.
    pub fn execute_pause_contract(&mut self, caller: Address, now: u64) -> (r: Result<(), ContractError>)
        requires
            old(self).wf(),
        ensures
            final(self).wf(),
            match r {
                Err(e) => old(self).execute_error(caller, TimelockOperation::PauseContract, now) == Some(e)
                    && *final(self) == *old(self),
                Ok(_) => old(self).execute_error(caller, TimelockOperation::PauseContract, now) is None
                    && old(self).without_proposal(final(self).without_new_events(*old(self)), TimelockOperation::PauseContract)
                    && old(self).applied(
                    final(self).without_new_events(*old(self)),
                    old(self).ready_params(TimelockOperation::PauseContract, now)->Ok_0,
                ) && published_if(
                    old(self).events@,
                    final(self).events@,
                    old(self).exec_event(caller, old(self).ready_params(TimelockOperation::PauseContract, now)->Ok_0, now),
                ),
            },
            
    {
        let p = self.ready_proposal(TimelockOperation::PauseContract, now)?;
        let ev = self.exec_event_of(caller, p, now);
        match p {
            TimelockParams::PauseContract => {},
            _ => return Err(ContractError::InvalidState),
        }
        self.require_admin()?;
        self.drop_proposal(TimelockOperation::PauseContract);
        self.paused = true;
        if let Some(e) = ev {
            self.publish(e);
        }
        Ok(())
    }

    /// Once its timelock has elapsed, anyone executes the queued change:
    /// unpauses the contract.
    pub fn execute_unpause_contract(&mut self, caller: Address, now: u64) -> (r: Result<(), ContractError>)
        requires
            old(self).wf(),
        ensures
            final(self).wf(),
            match r {
                Err(e) => old(self).execute_error(caller, TimelockOperation::UnpauseContract, now) == Some(e)
                    && *final(self) == *old(self),
                Ok(_) => old(self).execute_error(caller, TimelockOperation::UnpauseContract, now) is None
                    && old(self).without_proposal(final(self).without_new_events(*old(self)), TimelockOperation::UnpauseContract)
                    && old(self).applied(
                    final(self).without_new_events(*old(self)),
                    old(self).ready_params(TimelockOperation::UnpauseContract, now)->Ok_0,
                ) && published_if(
                    old(self).events@,
                    final(self).events@,
                    old(self).exec_event(caller, old(self).ready_params(TimelockOperation::UnpauseContract, now)->Ok_0, now),
                ),
            },
            
    {
        let p = self.ready_proposal(TimelockOperation::UnpauseContract, now)?;
        let ev = self.exec_event_of(caller, p, now);
        match p {
            TimelockParams::UnpauseContract => {},
            _ => return Err(ContractError::InvalidState),
        }
        self.require_admin()?;
        self.drop_proposal(TimelockOperation::UnpauseContract);
        self.paused = false;
        if let Some(e) = ev {
            self.publish(e);
        }
        Ok(())
    }
}

} // verus!
