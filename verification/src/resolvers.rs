//! Resolver sets, resolver votes and their tallies.

use vstd::prelude::*;
use crate::errors::ContractError;
use crate::types::{Address, ResolutionType, ResolverSet, ResolverVote};

verus! {

/// Whether `a` belongs to the resolver set.
pub open spec fn set_contains(rs: ResolverSet, a: Address) -> bool {
    match rs {
        ResolverSet::Single(r) => r == a,
        ResolverSet::Multi(m) => m.resolvers@.contains(a),
        ResolverSet::Fallback(f) => f.primary == a || f.backup == a,
    }
}

/// Number of matching votes that decide a dispute.
pub open spec fn set_threshold(rs: ResolverSet) -> u32 {
    match rs {
        ResolverSet::Single(_) => 1,
        ResolverSet::Multi(m) => m.threshold,
        ResolverSet::Fallback(_) => 1,
    }
}

/// Whether `caller` may settle the dispute at time `now`: any member of a
/// single or multi set; the fallback primary at any time, and the backup from
/// `dispute_deadline` on.
pub open spec fn set_can_resolve(rs: ResolverSet, caller: Address, now: u64) -> bool {
    match rs {
        ResolverSet::Single(r) => r == caller,
        ResolverSet::Multi(m) => m.resolvers@.contains(caller),
        ResolverSet::Fallback(f) => f.primary == caller || (f.backup == caller && now
            >= f.dispute_deadline),
    }
}

/// Whether the sequence holds no address twice.
pub open spec fn no_duplicates(s: Seq<Address>) -> bool {
    forall|i: int, j: int| 0 <= i < j < s.len() ==> s[i] != s[j]
}

/// Whether `s` contains `a`, by a loop over its elements.
pub fn contains(s: &Vec<Address>, a: Address) -> (r: bool)
    ensures
        r == s@.contains(a),
{
    let mut i: usize = 0;
    while i < s.len()
        invariant
            0 <= i <= s.len(),
            forall|k: int| 0 <= k < i ==> s@[k] != a,
        decreases s.len() - i,
    {
        if s[i] == a {
            return true;
        }
        i = i + 1;
    }
    false
}

impl ResolverSet {
    /// Whether `a` belongs to the set.
    pub fn contains(&self, a: Address) -> (r: bool)
        ensures
            r == set_contains(*self, a),
    {
        match self {
            ResolverSet::Single(r) => *r == a,
            ResolverSet::Multi(m) => contains(&m.resolvers, a),
            ResolverSet::Fallback(f) => f.primary == a || f.backup == a,
        }
    }

    /// Number of matching votes that decide a dispute.
    pub fn threshold(&self) -> (t: u32)
        ensures
            t == set_threshold(*self),
    {
        match self {
            ResolverSet::Single(_) => 1,
            ResolverSet::Multi(m) => m.threshold,
            ResolverSet::Fallback(_) => 1,
        }
    }

    /// Whether `caller` may settle the dispute at time `now`.
    pub fn can_resolve_now(&self, caller: Address, now: u64) -> (r: bool)
        ensures
            r == set_can_resolve(*self, caller, now),
    {
        match self {
            ResolverSet::Single(r) => *r == caller,
            ResolverSet::Multi(m) => contains(&m.resolvers, caller),
            ResolverSet::Fallback(f) => f.primary == caller || (f.backup == caller && now
                >= f.dispute_deadline),
        }
    }

    /// Whether this is a multi-resolver set.
    pub fn is_multi(&self) -> (r: bool)
        ensures
            r == (*self is Multi),
    {
        match self {
            ResolverSet::Multi(_) => true,
            _ => false,
        }
    }
}

/// The error `validate_resolvers` reports for a resolver set, if any.
pub open spec fn resolvers_error(rs: ResolverSet, seller: Address, buyer: Option<Address>) -> Option<
    ContractError,
> {
    if set_contains(rs, seller) {
        Some(ContractError::ConflictingRoles)
    } else if buyer matches Some(b) && set_contains(rs, b) {
        Some(ContractError::ConflictingRoles)
    } else {
        match rs {
            ResolverSet::Multi(m) => if m.resolvers@.len() == 0 || m.threshold == 0 || m.threshold
                > m.resolvers@.len() {
                Some(ContractError::InvalidResolverThreshold)
            } else if !no_duplicates(m.resolvers@) {
                Some(ContractError::ConflictingRoles)
            } else {
                None
            },
            ResolverSet::Fallback(f) => if f.primary == f.backup {
                Some(ContractError::ConflictingRoles)
            } else {
                None
            },
            ResolverSet::Single(_) => None,
        }
    }
}

/// Finds the first repeated address, scanning left to right.
pub fn has_duplicate(s: &Vec<Address>) -> (r: bool)
    ensures
        r == !no_duplicates(s@),
{
    let mut seen: Vec<Address> = Vec::new();
    let mut i: usize = 0;
    while i < s.len()
        invariant
            0 <= i <= s.len(),
            seen@ == s@.subrange(0, i as int),
            no_duplicates(seen@),
        decreases s.len() - i,
    {
        let a = s[i];
        if contains(&seen, a) {
            proof {
                let k = choose|k: int| 0 <= k < seen@.len() && seen@[k] == a;
                assert(s@[k] == s@[i as int]);
            }
            return true;
        }
        seen.push(a);
        proof {
            assert(seen@ =~= s@.subrange(0, i + 1));
        }
        i = i + 1;
    }
    proof {
        assert(seen@ =~= s@);
    }
    false
}

/// Validates a resolver set against the escrow's seller and buyer: no role
/// overlap, a sensible multi threshold with distinct resolvers, and a distinct
/// fallback backup. The fallback deadline is not range-checked: one already
/// past lets the backup act from the start.
pub fn validate_resolvers(rs: &ResolverSet, seller: Address, buyer: Option<Address>) -> (r:
    Result<(), ContractError>)
    ensures
        r == (match resolvers_error(*rs, seller, buyer) {
            Some(e) => Err(e),
            None => Ok(()),
        }),
{
    if rs.contains(seller) {
        return Err(ContractError::ConflictingRoles);
    }
    if let Some(b) = buyer {
        if rs.contains(b) {
            return Err(ContractError::ConflictingRoles);
        }
    }
    match rs {
        ResolverSet::Multi(m) => {
            let count = m.resolvers.len();
            if count == 0 || m.threshold == 0 || m.threshold as usize > count {
                return Err(ContractError::InvalidResolverThreshold);
            }
            if has_duplicate(&m.resolvers) {
                return Err(ContractError::ConflictingRoles);
            }
            Ok(())
        },
        ResolverSet::Fallback(f) => {
            if f.primary == f.backup {
                return Err(ContractError::ConflictingRoles);
            }
            Ok(())
        },
        ResolverSet::Single(_) => Ok(()),
    }
}

/// Number of votes in `v` for resolution `r`.
pub open spec fn count_votes(v: Seq<ResolverVote>, r: ResolutionType) -> nat
    decreases v.len(),
{
    if v.len() == 0 {
        0
    } else {
        count_votes(v.drop_last(), r) + if v.last().resolution == r {
            1nat
        } else {
            0nat
        }
    }
}

/// Whether no resolver has two votes in `v`.
pub open spec fn votes_unique(v: Seq<ResolverVote>) -> bool {
    forall|i: int, j: int| 0 <= i < j < v.len() ==> v[i].resolver != v[j].resolver
}

/// Whether `who` has a vote in `v`.
pub open spec fn has_voted(v: Seq<ResolverVote>, who: Address) -> bool {
    exists|i: int| 0 <= i < v.len() && v[i].resolver == who
}

/// The votes after `who` votes `res` at `now`: an existing vote of `who` is
/// changed in place, otherwise the vote is appended.
pub open spec fn votes_after(v: Seq<ResolverVote>, who: Address, res: ResolutionType, now: u64) -> Seq<
    ResolverVote,
> {
    let new_vote = ResolverVote { resolver: who, resolution: res, voted_at: now };
    if has_voted(v, who) {
        let i = choose|i: int| 0 <= i < v.len() && v[i].resolver == who;
        v.update(i, new_vote)
    } else {
        v.push(new_vote)
    }
}

/// Records `who`'s vote `res` at `now`: changes `who`'s earlier vote, or
/// appends a new one.
pub fn add_or_update_vote(votes: &mut Vec<ResolverVote>, who: Address, res: ResolutionType, now: u64)
    requires
        votes_unique(old(votes)@),
    ensures
        final(votes)@ == votes_after(old(votes)@, who, res, now),
        votes_unique(final(votes)@),
{
    let mut i: usize = 0;
    while i < votes.len()
        invariant
            0 <= i <= votes.len(),
            votes@ == old(votes)@,
            votes_unique(votes@),
            forall|k: int| 0 <= k < i ==> votes@[k].resolver != who,
        decreases votes.len() - i,
    {
        if votes[i].resolver == who {
            let new_vote = ResolverVote { resolver: who, resolution: res, voted_at: now };
            proof {
                assert(has_voted(old(votes)@, who));
                let j = choose|j: int| 0 <= j < old(votes)@.len() && old(votes)@[j].resolver == who;
                assert(j == i as int);
            }
            votes.set(i, new_vote);
            proof {
                assert forall|a: int, b: int| 0 <= a < b < votes@.len() implies votes@[a].resolver
                    != votes@[b].resolver by {
                    assert(old(votes)@[a].resolver != old(votes)@[b].resolver);
                }
            }
            return;
        }
        i = i + 1;
    }
    votes.push(ResolverVote { resolver: who, resolution: res, voted_at: now });
}

/// The outcome of `tally_votes`: no decision for no votes, an arithmetic
/// error if a count passes `u32::MAX`, then release if its votes reach the
/// threshold, else refund if its votes do, else no decision.
pub open spec fn tally_result(v: Seq<ResolverVote>, threshold: u32) -> Result<
    Option<ResolutionType>,
    ContractError,
> {
    let rel = count_votes(v, ResolutionType::Release);
    let refd = count_votes(v, ResolutionType::Refund);
    if v.len() == 0 {
        Ok(None)
    } else if rel > u32::MAX || refd > u32::MAX {
        Err(ContractError::ArithmeticError)
    } else if rel >= threshold {
        Ok(Some(ResolutionType::Release))
    } else if refd >= threshold {
        Ok(Some(ResolutionType::Refund))
    } else {
        Ok(None)
    }
}

proof fn lemma_count_monotone(v: Seq<ResolverVote>, i: int, r: ResolutionType)
    requires
        0 <= i <= v.len(),
    ensures
        count_votes(v.subrange(0, i), r) <= count_votes(v, r),
    decreases v.len() - i,
{
    if i < v.len() {
        lemma_count_monotone(v, i + 1, r);
        assert(v.subrange(0, i + 1).drop_last() =~= v.subrange(0, i));
    } else {
        assert(v.subrange(0, i) =~= v);
    }
}

proof fn lemma_count_le_len(v: Seq<ResolverVote>, r: ResolutionType)
    ensures
        count_votes(v, r) <= v.len(),
    decreases v.len(),
{
    if v.len() > 0 {
        lemma_count_le_len(v.drop_last(), r);
    }
}

/// Counts release and refund votes and decides whether a threshold is met.
pub fn tally_votes(votes: &Vec<ResolverVote>, threshold: u32) -> (r: Result<
    Option<ResolutionType>,
    ContractError,
>)
    ensures
        r == tally_result(votes@, threshold),
{
    if votes.len() == 0 {
        return Ok(None);
    }
    let mut release_count: u32 = 0;
    let mut refund_count: u32 = 0;
    let mut i: usize = 0;
    while i < votes.len()
        invariant
            0 <= i <= votes.len(),
            release_count == count_votes(votes@.subrange(0, i as int), ResolutionType::Release),
            refund_count == count_votes(votes@.subrange(0, i as int), ResolutionType::Refund),
        decreases votes.len() - i,
    {
        proof {
            assert(votes@.subrange(0, i + 1).drop_last() =~= votes@.subrange(0, i as int));
        }
        match votes[i].resolution {
            ResolutionType::Release => {
                if release_count == u32::MAX {
                    proof {
                        lemma_count_monotone(votes@, i + 1, ResolutionType::Release);
                    }
                    return Err(ContractError::ArithmeticError);
                }
                release_count = release_count + 1;
            },
            ResolutionType::Refund => {
                if refund_count == u32::MAX {
                    proof {
                        lemma_count_monotone(votes@, i + 1, ResolutionType::Refund);
                    }
                    return Err(ContractError::ArithmeticError);
                }
                refund_count = refund_count + 1;
            },
        }
        i = i + 1;
    }
    proof {
        assert(votes@.subrange(0, votes@.len() as int) =~= votes@);
    }
    if release_count >= threshold {
        Ok(Some(ResolutionType::Release))
    } else if refund_count >= threshold {
        Ok(Some(ResolutionType::Refund))
    } else {
        Ok(None)
    }
}

/// Simple-majority decision over `v` with counts saturating at `u32::MAX`:
/// release on strictly more release votes, otherwise refund.
pub open spec fn majority_result(v: Seq<ResolverVote>) -> ResolutionType {
    let rel = count_votes(v, ResolutionType::Release);
    let refd = count_votes(v, ResolutionType::Refund);
    let rel_sat = if rel > u32::MAX { u32::MAX as nat } else { rel };
    let ref_sat = if refd > u32::MAX { u32::MAX as nat } else { refd };
    if rel_sat > ref_sat {
        ResolutionType::Release
    } else {
        ResolutionType::Refund
    }
}

/// Simple-majority tally; a tie resolves to a refund.
pub fn tally_votes_majority(votes: &Vec<ResolverVote>) -> (r: ResolutionType)
    ensures
        r == majority_result(votes@),
{
    let mut release_count: u32 = 0;
    let mut refund_count: u32 = 0;
    let mut i: usize = 0;
    while i < votes.len()
        invariant
            0 <= i <= votes.len(),
            release_count == {
                let c = count_votes(votes@.subrange(0, i as int), ResolutionType::Release);
                if c > u32::MAX { u32::MAX as nat } else { c }
            },
            refund_count == {
                let c = count_votes(votes@.subrange(0, i as int), ResolutionType::Refund);
                if c > u32::MAX { u32::MAX as nat } else { c }
            },
        decreases votes.len() - i,
    {
        proof {
            assert(votes@.subrange(0, i + 1).drop_last() =~= votes@.subrange(0, i as int));
        }
        match votes[i].resolution {
            ResolutionType::Release => release_count = release_count.saturating_add(1),
            ResolutionType::Refund => refund_count = refund_count.saturating_add(1),
        }
        i = i + 1;
    }
    proof {
        assert(votes@.subrange(0, votes@.len() as int) =~= votes@);
    }
    if release_count > refund_count {
        ResolutionType::Release
    } else {
        ResolutionType::Refund
    }
}

} // verus!
