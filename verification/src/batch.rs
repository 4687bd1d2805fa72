//! Several entry points run as one call: each named call in turn, with its
//! arguments checked against the types the entry point takes.

use vstd::prelude::*;
use crate::admin::TimelockParams;
use crate::disputes::{copy_bytes, opt_bytes};
use crate::errors::ContractError;
use crate::events::{
    published, ArbitrationFeeUpdated, ContractInitialized, Event, ResolverRotated, EVENT_SCHEMA_VERSION,
};
use crate::lifecycle::SellerOrPayees;
use crate::payout::basket_payments;
use crate::snapshot::lemma_same_contents_wf;
use crate::state::{history_after, Escrow, EscrowRecord};
use crate::types::{
    copy_values,
    copy_text, Address, ContractStats, DisputeData, DisputeStatus, EscrowData, EscrowState, FeeConfig,
    MultiResolver, Payee, ResolutionType, ResolverSet, Transfer,
};
use crate::{ADMIN_TIMELOCK_DELAY_SECONDS, STORAGE_VERSION};

verus! {

/// One argument of a batched call, tagged with the type it carries.
#[derive(Clone, Debug, PartialEq, Eq)]
pub enum CallArg {
    U32(u32),
    U64(u64),
    I128(i128),
    Account(Address),
    MaybeAccount(Option<Address>),
    /// A free-form text value.
    Text(Vec<u8>),
    /// A short identifier, such as a dispute reason.
    Name(Vec<u8>),
    Hash([u8; 32]),
    Resolution(ResolutionType),
    Payees(Vec<Payee>),
}

/// One batched call: the entry point's name and its arguments in order.
#[derive(Clone, Debug, PartialEq, Eq)]
pub struct ContractCall {
    pub function: String,
    pub args: Vec<CallArg>,
}

/// What one batched call answers.
#[derive(Clone, Debug, PartialEq, Eq)]
pub enum CallValue {
    Unit,
    EscrowId(u64),
    Data(EscrowData),
    Dispute(Option<DisputeData>),
    Fees(FeeConfig),
    Bps(u32),
}

/// The entry points a batch may call.
#[derive(Clone, Copy, Debug, PartialEq, Eq, Structural)]
pub enum Entry {
    FundEscrow,
    GetEscrow,
    MarkShipped,
    ConfirmDelivery,
    RaiseDispute,
    ResolveDispute,
    AutoRelease,
    CancelEscrow,
    RotateResolver,
    Initialize,
    PauseContract,
    UnpauseContract,
    GetDispute,
    GetFeeConfig,
    SetArbitrationFee,
    GetArbitrationFee,
    CreateEscrow,
}

/// The entry point called `name`, if a batch may call it.
pub open spec fn entry_named(name: Seq<char>) -> Option<Entry> {
    if name == "fund_escrow"@ {
        Some(Entry::FundEscrow)
    } else if name == "get_escrow"@ {
        Some(Entry::GetEscrow)
    } else if name == "mark_shipped"@ {
        Some(Entry::MarkShipped)
    } else if name == "confirm_delivery"@ {
        Some(Entry::ConfirmDelivery)
    } else if name == "raise_dispute"@ {
        Some(Entry::RaiseDispute)
    } else if name == "resolve_dispute"@ {
        Some(Entry::ResolveDispute)
    } else if name == "auto_release"@ {
        Some(Entry::AutoRelease)
    } else if name == "cancel_escrow"@ {
        Some(Entry::CancelEscrow)
    } else if name == "rotate_resolver"@ {
        Some(Entry::RotateResolver)
    } else if name == "initialize"@ {
        Some(Entry::Initialize)
    } else if name == "pause_contract"@ {
        Some(Entry::PauseContract)
    } else if name == "unpause_contract"@ {
        Some(Entry::UnpauseContract)
    } else if name == "get_dispute"@ {
        Some(Entry::GetDispute)
    } else if name == "get_fee_config"@ {
        Some(Entry::GetFeeConfig)
    } else if name == "set_arbitration_fee"@ {
        Some(Entry::SetArbitrationFee)
    } else if name == "get_arbitration_fee"@ {
        Some(Entry::GetArbitrationFee)
    } else if name == "create_escrow"@ {
        Some(Entry::CreateEscrow)
    } else {
        None
    }
}

/// Whether `name` is the text `lit`.
fn is_named(name: &String, lit: &str) -> (r: bool)
    ensures
        r == (name@ == lit@),
{
    *name == lit.to_owned()
}

/// The entry point a call names.
pub fn entry_of(name: &String) -> (r: Option<Entry>)
    ensures
        r == entry_named(name@),
{
    if is_named(name, "fund_escrow") {
        Some(Entry::FundEscrow)
    } else if is_named(name, "get_escrow") {
        Some(Entry::GetEscrow)
    } else if is_named(name, "mark_shipped") {
        Some(Entry::MarkShipped)
    } else if is_named(name, "confirm_delivery") {
        Some(Entry::ConfirmDelivery)
    } else if is_named(name, "raise_dispute") {
        Some(Entry::RaiseDispute)
    } else if is_named(name, "resolve_dispute") {
        Some(Entry::ResolveDispute)
    } else if is_named(name, "auto_release") {
        Some(Entry::AutoRelease)
    } else if is_named(name, "cancel_escrow") {
        Some(Entry::CancelEscrow)
    } else if is_named(name, "rotate_resolver") {
        Some(Entry::RotateResolver)
    } else if is_named(name, "initialize") {
        Some(Entry::Initialize)
    } else if is_named(name, "pause_contract") {
        Some(Entry::PauseContract)
    } else if is_named(name, "unpause_contract") {
        Some(Entry::UnpauseContract)
    } else if is_named(name, "get_dispute") {
        Some(Entry::GetDispute)
    } else if is_named(name, "get_fee_config") {
        Some(Entry::GetFeeConfig)
    } else if is_named(name, "set_arbitration_fee") {
        Some(Entry::SetArbitrationFee)
    } else if is_named(name, "get_arbitration_fee") {
        Some(Entry::GetArbitrationFee)
    } else if is_named(name, "create_escrow") {
        Some(Entry::CreateEscrow)
    } else {
        None
    }
}

/// Argument `i`, if there is one.
pub open spec fn arg_at(args: Seq<CallArg>, i: int) -> Option<CallArg> {
    if 0 <= i < args.len() {
        Some(args[i])
    } else {
        None
    }
}

pub open spec fn u32_arg(args: Seq<CallArg>, i: int) -> Option<u32> {
    match arg_at(args, i) {
        Some(CallArg::U32(v)) => Some(v),
        _ => None,
    }
}

pub open spec fn u64_arg(args: Seq<CallArg>, i: int) -> Option<u64> {
    match arg_at(args, i) {
        Some(CallArg::U64(v)) => Some(v),
        _ => None,
    }
}

pub open spec fn i128_arg(args: Seq<CallArg>, i: int) -> Option<i128> {
    match arg_at(args, i) {
        Some(CallArg::I128(v)) => Some(v),
        _ => None,
    }
}

pub open spec fn account_arg(args: Seq<CallArg>, i: int) -> Option<Address> {
    match arg_at(args, i) {
        Some(CallArg::Account(v)) => Some(v),
        _ => None,
    }
}

pub open spec fn maybe_account_arg(args: Seq<CallArg>, i: int) -> Option<Option<Address>> {
    match arg_at(args, i) {
        Some(CallArg::MaybeAccount(v)) => Some(v),
        _ => None,
    }
}

pub open spec fn text_arg(args: Seq<CallArg>, i: int) -> Option<Seq<u8>> {
    match arg_at(args, i) {
        Some(CallArg::Text(v)) => Some(v@),
        _ => None,
    }
}

pub open spec fn name_arg(args: Seq<CallArg>, i: int) -> Option<Seq<u8>> {
    match arg_at(args, i) {
        Some(CallArg::Name(v)) => Some(v@),
        _ => None,
    }
}

pub open spec fn hash_arg(args: Seq<CallArg>, i: int) -> Option<[u8; 32]> {
    match arg_at(args, i) {
        Some(CallArg::Hash(v)) => Some(v),
        _ => None,
    }
}

pub open spec fn resolution_arg(args: Seq<CallArg>, i: int) -> Option<ResolutionType> {
    match arg_at(args, i) {
        Some(CallArg::Resolution(v)) => Some(v),
        _ => None,
    }
}

pub open spec fn payees_arg(args: Seq<CallArg>, i: int) -> Option<Seq<Payee>> {
    match arg_at(args, i) {
        Some(CallArg::Payees(v)) => Some(v@),
        _ => None,
    }
}

/// An argument's value, or `InvalidMulticallArg` when it is missing or of
/// another type.
pub open spec fn or_bad_arg<T>(o: Option<T>) -> Result<T, ContractError> {
    match o {
        Some(v) => Ok(v),
        None => Err(ContractError::InvalidMulticallArg),
    }
}

fn get_u32(args: &Vec<CallArg>, i: usize) -> (r: Result<u32, ContractError>)
    ensures
        r == or_bad_arg(u32_arg(args@, i as int)),
{
    if i < args.len() {
        match &args[i] {
            CallArg::U32(v) => Ok(*v),
            _ => Err(ContractError::InvalidMulticallArg),
        }
    } else {
        Err(ContractError::InvalidMulticallArg)
    }
}

fn get_u64(args: &Vec<CallArg>, i: usize) -> (r: Result<u64, ContractError>)
    ensures
        r == or_bad_arg(u64_arg(args@, i as int)),
{
    if i < args.len() {
        match &args[i] {
            CallArg::U64(v) => Ok(*v),
            _ => Err(ContractError::InvalidMulticallArg),
        }
    } else {
        Err(ContractError::InvalidMulticallArg)
    }
}

fn get_i128(args: &Vec<CallArg>, i: usize) -> (r: Result<i128, ContractError>)
    ensures
        r == or_bad_arg(i128_arg(args@, i as int)),
{
    if i < args.len() {
        match &args[i] {
            CallArg::I128(v) => Ok(*v),
            _ => Err(ContractError::InvalidMulticallArg),
        }
    } else {
        Err(ContractError::InvalidMulticallArg)
    }
}

fn get_account(args: &Vec<CallArg>, i: usize) -> (r: Result<Address, ContractError>)
    ensures
        r == or_bad_arg(account_arg(args@, i as int)),
{
    if i < args.len() {
        match &args[i] {
            CallArg::Account(v) => Ok(*v),
            _ => Err(ContractError::InvalidMulticallArg),
        }
    } else {
        Err(ContractError::InvalidMulticallArg)
    }
}

fn get_maybe_account(args: &Vec<CallArg>, i: usize) -> (r: Result<Option<Address>, ContractError>)
    ensures
        r == or_bad_arg(maybe_account_arg(args@, i as int)),
{
    if i < args.len() {
        match &args[i] {
            CallArg::MaybeAccount(v) => Ok(*v),
            _ => Err(ContractError::InvalidMulticallArg),
        }
    } else {
        Err(ContractError::InvalidMulticallArg)
    }
}

fn get_hash(args: &Vec<CallArg>, i: usize) -> (r: Result<[u8; 32], ContractError>)
    ensures
        r == or_bad_arg(hash_arg(args@, i as int)),
{
    if i < args.len() {
        match &args[i] {
            CallArg::Hash(v) => Ok(*v),
            _ => Err(ContractError::InvalidMulticallArg),
        }
    } else {
        Err(ContractError::InvalidMulticallArg)
    }
}

fn get_resolution(args: &Vec<CallArg>, i: usize) -> (r: Result<ResolutionType, ContractError>)
    ensures
        r == or_bad_arg(resolution_arg(args@, i as int)),
{
    if i < args.len() {
        match &args[i] {
            CallArg::Resolution(v) => Ok(*v),
            _ => Err(ContractError::InvalidMulticallArg),
        }
    } else {
        Err(ContractError::InvalidMulticallArg)
    }
}

fn get_text(args: &Vec<CallArg>, i: usize) -> (r: Result<Vec<u8>, ContractError>)
    ensures
        match r {
            Ok(v) => text_arg(args@, i as int) == Some(v@),
            Err(e) => text_arg(args@, i as int) is None && e == ContractError::InvalidMulticallArg,
        },
{
    if i < args.len() {
        match &args[i] {
            CallArg::Text(v) => Ok(copy_text(v)),
            _ => Err(ContractError::InvalidMulticallArg),
        }
    } else {
        Err(ContractError::InvalidMulticallArg)
    }
}

fn get_name(args: &Vec<CallArg>, i: usize) -> (r: Result<Vec<u8>, ContractError>)
    ensures
        match r {
            Ok(v) => name_arg(args@, i as int) == Some(v@),
            Err(e) => name_arg(args@, i as int) is None && e == ContractError::InvalidMulticallArg,
        },
{
    if i < args.len() {
        match &args[i] {
            CallArg::Name(v) => Ok(copy_text(v)),
            _ => Err(ContractError::InvalidMulticallArg),
        }
    } else {
        Err(ContractError::InvalidMulticallArg)
    }
}

fn get_payees(args: &Vec<CallArg>, i: usize) -> (r: Result<Vec<Payee>, ContractError>)
    ensures
        match r {
            Ok(v) => payees_arg(args@, i as int) == Some(v@),
            Err(e) => payees_arg(args@, i as int) is None && e == ContractError::InvalidMulticallArg,
        },
{
    if i < args.len() {
        match &args[i] {
            CallArg::Payees(v) => Ok(copy_values(v)),
            _ => Err(ContractError::InvalidMulticallArg),
        }
    } else {
        Err(ContractError::InvalidMulticallArg)
    }
}

/// Whether resolver sets `a` and `b` hold the same resolvers and rule.
pub open spec fn same_resolvers(a: ResolverSet, b: ResolverSet) -> bool {
    match a {
        ResolverSet::Single(x) => b == ResolverSet::Single(x),
        ResolverSet::Multi(x) => match b {
            ResolverSet::Multi(y) => x.resolvers@ == y.resolvers@ && x.threshold == y.threshold,
            _ => false,
        },
        ResolverSet::Fallback(x) => b == ResolverSet::Fallback(x),
    }
}

/// Whether escrow record `a` is a copy of `b`.
pub open spec fn same_data(a: EscrowData, b: EscrowData) -> bool {
    &&& a.payees@ == b.payees@
    &&& a.buyer == b.buyer
    &&& same_resolvers(a.resolvers, b.resolvers)
    &&& a.token == b.token
    &&& a.amount == b.amount
    &&& a.fee_bps == b.fee_bps
    &&& a.resolver_fee_bps == b.resolver_fee_bps
    &&& a.shipping_window == b.shipping_window
    &&& a.funded_at == b.funded_at
    &&& a.dispute_deadline == b.dispute_deadline
    &&& a.state == b.state
    &&& a.shipped_at == b.shipped_at
    &&& a.delivered_at == b.delivered_at
    &&& opt_bytes(a.tracking_id) == opt_bytes(b.tracking_id)
    &&& opt_bytes(a.notes) == opt_bytes(b.notes)
}

/// Whether dispute record `a` is a copy of `b`.
pub open spec fn same_dispute(a: DisputeData, b: DisputeData) -> bool {
    &&& a.escrow_id == b.escrow_id
    &&& a.reason@ == b.reason@
    &&& a.description@ == b.description@
    &&& a.evidence_hash == b.evidence_hash
    &&& a.status == b.status
    &&& a.disputed_at == b.disputed_at
    &&& opt_bytes(a.tracking_id) == opt_bytes(b.tracking_id)
    &&& a.resolution == b.resolution
    &&& a.resolved_by == b.resolved_by
    &&& a.appeal_count == b.appeal_count
    &&& a.resolved_at == b.resolved_at
    &&& a.arbitration_fee == b.arbitration_fee
    &&& a.resolver_fee == b.resolver_fee
    &&& a.fees_charged == b.fees_charged
}

fn copy_resolvers(r: &ResolverSet) -> (c: ResolverSet)
    ensures
        same_resolvers(c, *r),
{
    match r {
        ResolverSet::Single(x) => ResolverSet::Single(*x),
        ResolverSet::Multi(m) => ResolverSet::Multi(
            MultiResolver { resolvers: copy_values(&m.resolvers), threshold: m.threshold },
        ),
        ResolverSet::Fallback(f) => ResolverSet::Fallback(*f),
    }
}

/// A copy of escrow record `d`.
pub fn copy_data(d: &EscrowData) -> (c: EscrowData)
    ensures
        same_data(c, *d),
{
    EscrowData {
        payees: copy_values(&d.payees),
        buyer: d.buyer,
        resolvers: copy_resolvers(&d.resolvers),
        token: d.token,
        amount: d.amount,
        fee_bps: d.fee_bps,
        resolver_fee_bps: d.resolver_fee_bps,
        shipping_window: d.shipping_window,
        funded_at: d.funded_at,
        dispute_deadline: d.dispute_deadline,
        state: d.state,
        shipped_at: d.shipped_at,
        delivered_at: d.delivered_at,
        tracking_id: copy_bytes(&d.tracking_id),
        notes: copy_bytes(&d.notes),
    }
}

/// A copy of dispute record `d`.
pub fn copy_dispute(d: &DisputeData) -> (c: DisputeData)
    ensures
        same_dispute(c, *d),
{
    DisputeData {
        escrow_id: d.escrow_id,
        reason: copy_text(&d.reason),
        description: copy_text(&d.description),
        evidence_hash: d.evidence_hash,
        status: d.status,
        disputed_at: d.disputed_at,
        tracking_id: copy_bytes(&d.tracking_id),
        resolution: d.resolution,
        resolved_by: d.resolved_by,
        appeal_count: d.appeal_count,
        resolved_at: d.resolved_at,
        arbitration_fee: d.arbitration_fee,
        resolver_fee: d.resolver_fee,
        fees_charged: d.fees_charged,
    }
}

/// Whether `args` carry every argument entry point `e` takes, each of its type.
pub open spec fn args_fit(e: Entry, a: Seq<CallArg>) -> bool {
    match e {
        Entry::FundEscrow => u64_arg(a, 0) is Some && account_arg(a, 1) is Some,
        Entry::GetEscrow => u64_arg(a, 0) is Some,
        Entry::MarkShipped => account_arg(a, 0) is Some && u64_arg(a, 1) is Some && text_arg(a, 2) is Some,
        Entry::ConfirmDelivery => account_arg(a, 0) is Some && u64_arg(a, 1) is Some,
        Entry::RaiseDispute => account_arg(a, 0) is Some && u64_arg(a, 1) is Some && name_arg(a, 2) is Some
            && text_arg(a, 3) is Some && hash_arg(a, 4) is Some,
        Entry::ResolveDispute => account_arg(a, 0) is Some && u64_arg(a, 1) is Some && resolution_arg(a, 2) is Some,
        Entry::AutoRelease => u64_arg(a, 0) is Some,
        Entry::CancelEscrow => account_arg(a, 0) is Some && u64_arg(a, 1) is Some,
        Entry::RotateResolver => account_arg(a, 0) is Some && u64_arg(a, 1) is Some && account_arg(a, 2) is Some,
        Entry::Initialize => account_arg(a, 0) is Some && account_arg(a, 1) is Some && u32_arg(a, 2) is Some,
        Entry::PauseContract => account_arg(a, 0) is Some,
        Entry::UnpauseContract => account_arg(a, 0) is Some,
        Entry::GetDispute => u64_arg(a, 0) is Some,
        Entry::GetFeeConfig => true,
        Entry::SetArbitrationFee => account_arg(a, 0) is Some && u32_arg(a, 1) is Some,
        Entry::GetArbitrationFee => true,
        Entry::CreateEscrow => payees_arg(a, 0) is Some && maybe_account_arg(a, 1) is Some && account_arg(a, 2) is Some
            && account_arg(a, 3) is Some && i128_arg(a, 4) is Some && u32_arg(a, 5) is Some && u32_arg(a, 6) is Some
            && u64_arg(a, 7) is Some,
    }
}

impl Escrow {
    /// The error entry point `e` reports on arguments `a` that fit it.
    pub open spec fn entry_error(self, e: Entry, a: Seq<CallArg>, now: u64) -> Option<ContractError> {
        match e {
            Entry::FundEscrow => self.fund_error(u64_arg(a, 0)->0, account_arg(a, 1)->0, now),
            Entry::GetEscrow => if self.has(u64_arg(a, 0)->0) {
                None
            } else {
                Some(ContractError::EscrowNotFound)
            },
            Entry::MarkShipped => self.ship_error(u64_arg(a, 1)->0, account_arg(a, 0)->0, text_arg(a, 2)->0.len(), now),
            Entry::ConfirmDelivery => self.confirm_error(account_arg(a, 0)->0, u64_arg(a, 1)->0, now),
            Entry::RaiseDispute => self.raise_error(account_arg(a, 0)->0, u64_arg(a, 1)->0, text_arg(a, 3)->0.len(), now),
            Entry::ResolveDispute => self.resolve_error(
                account_arg(a, 0)->0,
                u64_arg(a, 1)->0,
                resolution_arg(a, 2)->0,
                now,
            ),
            Entry::AutoRelease => self.auto_release_error(u64_arg(a, 0)->0, now),
            Entry::CancelEscrow => self.cancel_error(account_arg(a, 0)->0, u64_arg(a, 1)->0, now),
            Entry::RotateResolver => self.rotate_error(account_arg(a, 0)->0, u64_arg(a, 1)->0, account_arg(a, 2)->0),
            Entry::Initialize => self.initialize_error(account_arg(a, 0)->0, account_arg(a, 1)->0, u32_arg(a, 2)->0),
            Entry::PauseContract => self.admin_caller_error(account_arg(a, 0)->0),
            Entry::UnpauseContract => self.admin_caller_error(account_arg(a, 0)->0),
            Entry::GetDispute => None,
            Entry::GetFeeConfig => None,
            Entry::SetArbitrationFee => self.arbitration_fee_error(account_arg(a, 0)->0, u32_arg(a, 1)->0),
            Entry::GetArbitrationFee => None,
            Entry::CreateEscrow => if self.paused {
                Some(ContractError::ContractPaused)
            } else {
                self.create_error(
                    payees_arg(a, 0)->0,
                    maybe_account_arg(a, 1)->0,
                    account_arg(a, 2)->0,
                    account_arg(a, 3)->0,
                    i128_arg(a, 4)->0,
                    u32_arg(a, 5)->0,
                    u32_arg(a, 6)->0,
                    u64_arg(a, 7)->0,
                    None,
                )
            },
        }
    }

    /// The error call `c` reports at `now`: `NotAuthorized` for an entry point
    /// a batch may not call, `InvalidMulticallArg` for a missing or mistyped
    /// argument, else the entry point's own error.
    pub open spec fn call_error(self, c: ContractCall, now: u64) -> Option<ContractError> {
        match entry_named(c.function@) {
            None => Some(ContractError::NotAuthorized),
            Some(e) => if !args_fit(e, c.args@) {
                Some(ContractError::InvalidMulticallArg)
            } else {
                self.entry_error(e, c.args@, now)
            },
        }
    }

    /// Whether a successful call of `e` on arguments `a` at `now` takes `self`
    /// to `new`, answering `out` and asking for transfers `ts`.
    pub open spec fn entry_done(
        self,
        e: Entry,
        a: Seq<CallArg>,
        now: u64,
        new: Escrow,
        out: CallValue,
        ts: Seq<Transfer>,
    ) -> bool {
        match e {
            Entry::FundEscrow => {
                let id = u64_arg(a, 0)->0;
                let buyer = account_arg(a, 1)->0;
                &&& self.funded(new.without_new_events(self), id, buyer, now)
                &&& published(self.events@, new.events@, self.funded_event(id, buyer, now))
                &&& ts == seq![
                    Transfer {
                        token: self.rec(id).data.token,
                        from: buyer,
                        to: self.contract,
                        amount: self.rec(id).data.amount,
                    },
                ] + basket_payments(buyer, self.rec(id).basket@, self.rec(id).data.token, self.contract)
                &&& out == CallValue::Unit
            },
            Entry::GetEscrow => {
                &&& new == self
                &&& ts.len() == 0
                &&& out matches CallValue::Data(d) && same_data(d, self.rec(u64_arg(a, 0)->0).data)
            },
            Entry::MarkShipped => {
                let id = u64_arg(a, 1)->0;
                &&& self.only_record_changed(new.without_new_events(self), id)
                &&& published(self.events@, new.events@, self.shipped_event(id, new.rec(id).data.tracking_id->0, now))
                &&& self.moved(
                    new,
                    id,
                    EscrowData {
                        state: EscrowState::Shipped,
                        shipped_at: now,
                        tracking_id: new.rec(id).data.tracking_id,
                        ..self.rec(id).data
                    },
                    now,
                )
                &&& opt_bytes(new.rec(id).data.tracking_id) == Some(text_arg(a, 2)->0)
                &&& ts.len() == 0
                &&& out == CallValue::Unit
            },
            Entry::ConfirmDelivery => {
                let id = u64_arg(a, 1)->0;
                self.completes(id, now, new, out, ts, self.rec(id).data.fee_bps, self.completed_event(id, self.rec(id).data.fee_bps, now))
            },
            Entry::RaiseDispute => {
                let id = u64_arg(a, 1)->0;
                let old_r = self.rec(id);
                let new_r = new.rec(id);
                &&& new == (Escrow {
                    escrows: new.escrows,
                    events: new.events,
                    stats: ContractStats { total_disputed: (self.stats.total_disputed + 1) as u64, ..self.stats },
                    ..self
                })
                &&& new.events@.len() == self.events@.len() + 1
                &&& new.events@.drop_last() == self.events@
                &&& new.events@.last() matches Event::DisputeRaised(ev) && {
                    &&& ev.schema_version == EVENT_SCHEMA_VERSION
                    &&& ev.escrow_id == id
                    &&& ev.buyer == account_arg(a, 0)->0
                    &&& ev.reason@ == name_arg(a, 2)->0
                    &&& ev.description@ == text_arg(a, 3)->0
                    &&& ev.evidence_hash == hash_arg(a, 4)->0
                    &&& ev.timestamp == now
                    &&& ev.prev_state == old_r.data.state
                    &&& ev.new_state == EscrowState::Disputed
                }
                &&& self.others_same(new, id)
                &&& new_r.data == (EscrowData { state: EscrowState::Disputed, ..old_r.data })
                &&& new_r.history@ == history_after(old_r.history@, old_r.data.state, EscrowState::Disputed, now)
                &&& new_r.votes == old_r.votes
                &&& new_r.basket == old_r.basket
                &&& new_r.messages == old_r.messages
                &&& new_r.expiry == old_r.expiry
                &&& new_r.delivery_proposal == old_r.delivery_proposal
                &&& new_r.dispute matches Some(dd) && {
                    &&& dd.escrow_id == id
                    &&& dd.reason@ == name_arg(a, 2)->0
                    &&& dd.description@ == text_arg(a, 3)->0
                    &&& dd.evidence_hash == hash_arg(a, 4)->0
                    &&& dd.status == DisputeStatus::Active
                    &&& dd.disputed_at == now
                    &&& opt_bytes(dd.tracking_id) == opt_bytes(old_r.data.tracking_id)
                    &&& dd.resolution == 0
                    &&& dd.resolved_by is None
                    &&& dd.appeal_count == 0
                    &&& dd.resolved_at == 0
                    &&& dd.arbitration_fee == 0
                    &&& dd.resolver_fee == 0
                    &&& !dd.fees_charged
                }
                &&& ts.len() == 0
                &&& out == CallValue::Unit
            },
            Entry::ResolveDispute => {
                &&& self.vote_done(
                    new,
                    ts,
                    account_arg(a, 0)->0,
                    u64_arg(a, 1)->0,
                    resolution_arg(a, 2)->0,
                    now,
                )
                &&& out == CallValue::Unit
            },
            Entry::AutoRelease => {
                let id = u64_arg(a, 0)->0;
                self.completes(id, now, new, out, ts, self.fees().protocol_fee_bps, self.auto_released_event(id, now))
            },
            Entry::CancelEscrow => {
                let caller = account_arg(a, 0)->0;
                let id = u64_arg(a, 1)->0;
                &&& published(
                    self.events@,
                    new.events@,
                    self.cancelled_event(id, caller, new.rec(id).data.state, now),
                )
                &&& if self.rec(id).data.state == EscrowState::Pending {
                    self.closed(new.without_new_events(self), id, EscrowState::Canceled, now) && new.stats
                        == self.stats && ts.len() == 0
                } else {
                    self.closed(new.without_new_events(self), id, EscrowState::Refunded, now) && new.stats == (ContractStats {
                        total_refunded: (self.stats.total_refunded + 1) as u64,
                        ..self.stats
                    }) && ts == self.refund_payments(id, caller)
                }
                &&& out == CallValue::Unit
            },
            Entry::RotateResolver => {
                let id = u64_arg(a, 1)->0;
                &&& self.only_record_changed(new.without_new_events(self), id)
                &&& published(
                    self.events@,
                    new.events@,
                    Event::ResolverRotated(
                        ResolverRotated {
                            schema_version: EVENT_SCHEMA_VERSION,
                            escrow_id: id,
                            old_resolver: self.rec(id).data.resolvers->Single_0,
                            new_resolver: account_arg(a, 2)->0,
                            rotated_at: now,
                        },
                    ),
                )
                &&& new.rec(id) == (EscrowRecord {
                    data: EscrowData { resolvers: ResolverSet::Single(account_arg(a, 2)->0), ..self.rec(id).data },
                    ..self.rec(id)
                })
                &&& ts.len() == 0
                &&& out == CallValue::Unit
            },
            Entry::Initialize => {
                &&& published(
                    self.events@,
                    new.events@,
                    Event::ContractInitialized(
                        ContractInitialized {
                            schema_version: EVENT_SCHEMA_VERSION,
                            admin: account_arg(a, 0)->0,
                            fee_collector: account_arg(a, 1)->0,
                            arbitration_fee_bps: u32_arg(a, 2)->0,
                            timestamp: now,
                        },
                    ),
                )
                &&& new.without_new_events(self) == (Escrow {
                    admin: Some(account_arg(a, 0)->0),
                    fee_collector: Some(account_arg(a, 1)->0),
                    fee_config: Some(FeeConfig { protocol_fee_bps: 0, arbitration_fee_bps: u32_arg(a, 2)->0 }),
                    escrow_counter: Some(1),
                    paused: false,
                    storage_version: STORAGE_VERSION,
                    ..self
                })
                &&& ts.len() == 0
                &&& out == CallValue::Unit
            },
            Entry::PauseContract => {
                &&& self.queue_outcome(new, Ok(()), account_arg(a, 0)->0, TimelockParams::PauseContract, now)
                &&& ts.len() == 0
                &&& out == CallValue::Unit
            },
            Entry::UnpauseContract => {
                &&& self.queue_outcome(new, Ok(()), account_arg(a, 0)->0, TimelockParams::UnpauseContract, now)
                &&& ts.len() == 0
                &&& out == CallValue::Unit
            },
            Entry::GetDispute => {
                let id = u64_arg(a, 0)->0;
                &&& new == self
                &&& ts.len() == 0
                &&& out matches CallValue::Dispute(o) && if self.has(id) && self.rec(id).dispute is Some {
                    o matches Some(d) && same_dispute(d, self.rec(id).dispute->0)
                } else {
                    o is None
                }
            },
            Entry::GetFeeConfig => new == self && ts.len() == 0 && out == CallValue::Fees(self.fees()),
            Entry::SetArbitrationFee => {
                &&& published(
                    self.events@,
                    new.events@,
                    Event::ArbitrationFeeUpdated(
                        ArbitrationFeeUpdated {
                            schema_version: EVENT_SCHEMA_VERSION,
                            old_fee_bps: self.fees().arbitration_fee_bps,
                            new_fee_bps: u32_arg(a, 1)->0,
                            timestamp: now,
                        },
                    ),
                )
                &&& new.without_new_events(self) == (Escrow {
                    fee_config: Some(FeeConfig { arbitration_fee_bps: u32_arg(a, 1)->0, ..self.fees() }),
                    ..self
                })
                &&& ts.len() == 0
                &&& out == CallValue::Unit
            },
            Entry::GetArbitrationFee => new == self && ts.len() == 0 && out == CallValue::Bps(
                self.fees().arbitration_fee_bps,
            ),
            Entry::CreateEscrow => {
                &&& ts.len() == 0
                &&& out matches CallValue::EscrowId(id) && self.create_outcome(
                    new,
                    Ok(id),
                    payees_arg(a, 0)->0,
                    maybe_account_arg(a, 1)->0,
                    account_arg(a, 2)->0,
                    account_arg(a, 3)->0,
                    i128_arg(a, 4)->0,
                    u32_arg(a, 5)->0,
                    u32_arg(a, 6)->0,
                    u64_arg(a, 7)->0,
                    None,
                    now,
                )
            },
        }
    }

    /// Whether escrow `id` was released to its payees and completed,
    /// announced by `ev`.
    pub open spec fn completes(
        self,
        id: u64,
        now: u64,
        new: Escrow,
        out: CallValue,
        ts: Seq<Transfer>,
        rate: u32,
        ev: Event,
    ) -> bool {
        &&& published(self.events@, new.events@, ev)
        &&& self.closed(new.without_new_events(self), id, EscrowState::Completed, now)
        &&& new.stats == (ContractStats { total_completed: (self.stats.total_completed + 1) as u64, ..self.stats })
        &&& ts == self.release_payments(id, self.fee_collector->0, rate)
        &&& out == CallValue::Unit
    }

    /// Whether call `c` succeeds at `now`, taking `self` to `new`, answering
    /// `out` and asking for transfers `ts`.
    pub open spec fn call_done(self, c: ContractCall, now: u64, new: Escrow, out: CallValue, ts: Seq<Transfer>) -> bool {
        &&& self.call_error(c, now) is None
        &&& self.entry_done(entry_named(c.function@)->0, c.args@, now, new, out, ts)
    }

    /// Whether `states` and `outs` trace the first `m` calls of `calls` from
    /// `self`, each call succeeding on the state its predecessor left and
    /// asking for the transfers in `parts`.
    pub open spec fn batch_trace(
        self,
        calls: Seq<ContractCall>,
        now: u64,
        states: Seq<Escrow>,
        outs: Seq<CallValue>,
        parts: Seq<Seq<Transfer>>,
        m: int,
    ) -> bool {
        &&& 0 <= m <= calls.len()
        &&& states.len() == m + 1
        &&& outs.len() == m
        &&& parts.len() == m
        &&& states[0] == self
        &&& forall|k: int|
            0 <= k < m ==> #[trigger] states[k].call_done(calls[k], now, states[k + 1], outs[k], parts[k])
    }

    /// Runs one batched call.
    fn run_call(&mut self, c: &ContractCall, now: u64) -> (r: Result<(CallValue, Vec<Transfer>), ContractError>)
        requires
            old(self).wf(),
            entry_named(c.function@) == Some(Entry::PauseContract) || entry_named(c.function@) == Some(
                Entry::UnpauseContract,
            ) ==> now + ADMIN_TIMELOCK_DELAY_SECONDS <= u64::MAX,
        ensures
            final(self).wf(),
            match r {
                Err(e) => old(self).call_error(*c, now) == Some(e) && *final(self) == *old(self),
                Ok((out, ts)) => old(self).call_done(*c, now, *final(self), out, ts@),
            },
    {
        let e = match entry_of(&c.function) {
            Some(e) => e,
            None => return Err(ContractError::NotAuthorized),
        };
        let a = &c.args;
        match e {
            Entry::FundEscrow => {
                let id = get_u64(a, 0)?;
                let buyer = get_account(a, 1)?;
                let ts = self.fund_escrow(id, buyer, now)?;
                Ok((CallValue::Unit, ts))
            },
            Entry::GetEscrow => {
                let id = get_u64(a, 0)?;
                let d = self.get_escrow(id)?;
                Ok((CallValue::Data(copy_data(d)), Vec::new()))
            },
            Entry::MarkShipped => {
                let caller = get_account(a, 0)?;
                let id = get_u64(a, 1)?;
                let tracking = get_text(a, 2)?;
                self.mark_shipped(caller, id, tracking, now)?;
                Ok((CallValue::Unit, Vec::new()))
            },
            Entry::ConfirmDelivery => {
                let caller = get_account(a, 0)?;
                let id = get_u64(a, 1)?;
                let ts = self.confirm_delivery(caller, id, now)?;
                Ok((CallValue::Unit, ts))
            },
            Entry::RaiseDispute => {
                let caller = get_account(a, 0)?;
                let id = get_u64(a, 1)?;
                let reason = get_name(a, 2)?;
                let description = get_text(a, 3)?;
                let evidence = get_hash(a, 4)?;
                self.raise_dispute(caller, id, reason, description, evidence, now)?;
                Ok((CallValue::Unit, Vec::new()))
            },
            Entry::ResolveDispute => {
                let caller = get_account(a, 0)?;
                let id = get_u64(a, 1)?;
                let res = get_resolution(a, 2)?;
                let ts = self.resolve_dispute(caller, id, res, now)?;
                Ok((CallValue::Unit, ts))
            },
            Entry::AutoRelease => {
                let id = get_u64(a, 0)?;
                let ts = self.auto_release(id, now)?;
                Ok((CallValue::Unit, ts))
            },
            Entry::CancelEscrow => {
                let caller = get_account(a, 0)?;
                let id = get_u64(a, 1)?;
                let ts = self.cancel_escrow(caller, id, now)?;
                Ok((CallValue::Unit, ts))
            },
            Entry::RotateResolver => {
                let caller = get_account(a, 0)?;
                let id = get_u64(a, 1)?;
                let next = get_account(a, 2)?;
                self.rotate_resolver(caller, id, next, now)?;
                Ok((CallValue::Unit, Vec::new()))
            },
            Entry::Initialize => {
                let admin = get_account(a, 0)?;
                let fee_collector = get_account(a, 1)?;
                let bps = get_u32(a, 2)?;
                self.initialize(admin, fee_collector, bps, now)?;
                Ok((CallValue::Unit, Vec::new()))
            },
            Entry::PauseContract => {
                let caller = get_account(a, 0)?;
                self.queue_pause_contract(caller, now)?;
                Ok((CallValue::Unit, Vec::new()))
            },
            Entry::UnpauseContract => {
                let caller = get_account(a, 0)?;
                self.queue_unpause_contract(caller, now)?;
                Ok((CallValue::Unit, Vec::new()))
            },
            Entry::GetDispute => {
                let id = get_u64(a, 0)?;
                let d = match self.get_dispute(id) {
                    Some(d) => Some(copy_dispute(d)),
                    None => None,
                };
                Ok((CallValue::Dispute(d), Vec::new()))
            },
            Entry::GetFeeConfig => Ok((CallValue::Fees(self.get_fee_config()), Vec::new())),
            Entry::SetArbitrationFee => {
                let caller = get_account(a, 0)?;
                let bps = get_u32(a, 1)?;
                self.set_arbitration_fee(caller, bps, now)?;
                Ok((CallValue::Unit, Vec::new()))
            },
            Entry::GetArbitrationFee => Ok((CallValue::Bps(self.get_arbitration_fee()), Vec::new())),
            Entry::CreateEscrow => {
                let payees = get_payees(a, 0)?;
                let buyer = get_maybe_account(a, 1)?;
                let resolver = get_account(a, 2)?;
                let token = get_account(a, 3)?;
                let amount = get_i128(a, 4)?;
                let fee_bps = get_u32(a, 5)?;
                let resolver_fee_bps = get_u32(a, 6)?;
                let shipping_window = get_u64(a, 7)?;
                let id = self.create_escrow(
                    SellerOrPayees::Payees(payees),
                    buyer,
                    resolver,
                    token,
                    amount,
                    fee_bps,
                    resolver_fee_bps,
                    shipping_window,
                    None,
                    now,
                )?;
                Ok((CallValue::EscrowId(id), Vec::new()))
            },
        }
    }
}

impl Escrow {
    /// Whether running all of `calls` at `now` takes `self` to `new`, with
    /// the calls answering `outs` and asking for the transfers `ts`, in order.
    pub open spec fn batch_runs(
        self,
        calls: Seq<ContractCall>,
        now: u64,
        new: Escrow,
        outs: Seq<CallValue>,
        ts: Seq<Transfer>,
    ) -> bool {
        exists|states: Seq<Escrow>, parts: Seq<Seq<Transfer>>|
            #[trigger] self.batch_trace(calls, now, states, outs, parts, calls.len() as int) && new
                == states.last() && ts == parts.flatten_alt()
    }

    /// Whether running `calls` at `now` stops with error `e` at some call,
    /// the calls before it having run in turn.
    pub open spec fn batch_fails(self, calls: Seq<ContractCall>, now: u64, e: ContractError) -> bool {
        exists|states: Seq<Escrow>, outs: Seq<CallValue>, parts: Seq<Seq<Transfer>>, m: int|
            #[trigger] self.batch_trace(calls, now, states, outs, parts, m) && m < calls.len()
                && states[m].call_error(calls[m], now) == Some(e)
    }
}

impl Escrow {
    /// Runs `calls` in order at `now`, stopping at the first that fails, and
    /// answers each call's value with every transfer asked for, in order.
    /// Refused outright while the contract is paused. A failing call reverts
    /// the whole batch: on an error the state holds again what it held
    /// before, every field equal and every vector equal by its contents.
    pub fn multicall(&mut self, calls: &Vec<ContractCall>, now: u64) -> (r: Result<
        (Vec<CallValue>, Vec<Transfer>),
        ContractError,
    >)
        requires
            old(self).wf(),
            forall|k: int|
                0 <= k < calls@.len() && (entry_named(#[trigger] calls@[k].function@) == Some(
                    Entry::PauseContract,
                ) || entry_named(calls@[k].function@) == Some(Entry::UnpauseContract))
                    ==> now + ADMIN_TIMELOCK_DELAY_SECONDS <= u64::MAX,
        ensures
            final(self).wf(),
            match r {
                Err(e) => if old(self).paused {
                    e == ContractError::ContractPaused && *final(self) == *old(self)
                } else {
                    old(self).batch_fails(calls@, now, e) && final(self).same_contents(*old(self))
                },
                Ok((outs, ts)) => !old(self).paused && old(self).batch_runs(calls@, now, *final(self), outs@, ts@),
            },
    {
        if self.paused {
            return Err(ContractError::ContractPaused);
        }
        let ghost start = *self;
        let saved = self.snapshot();
        let ghost mut states: Seq<Escrow> = seq![*self];
        let ghost mut parts: Seq<Seq<Transfer>> = Seq::empty();
        let mut outs: Vec<CallValue> = Vec::new();
        let mut all: Vec<Transfer> = Vec::new();
        let mut i: usize = 0;
        while i < calls.len()
            invariant
                0 <= i <= calls@.len(),
                self.wf(),
                !start.paused,
                start == *old(self),
                start.wf(),
                saved.same_contents(start),
                start.batch_trace(calls@, now, states, outs@, parts, i as int),
                *self == states.last(),
                all@ == parts.flatten_alt(),
                forall|k: int|
                    0 <= k < calls@.len() && (entry_named(#[trigger] calls@[k].function@) == Some(
                        Entry::PauseContract,
                    ) || entry_named(calls@[k].function@) == Some(Entry::UnpauseContract))
                        ==> now + ADMIN_TIMELOCK_DELAY_SECONDS <= u64::MAX,
            decreases calls@.len() - i,
        {
            let ghost before = *self;
            let c = &calls[i];
            match self.run_call(c, now) {
                Err(e) => {
                    proof {
                        assert(states[i as int] == before);
                        assert(start.batch_trace(calls@, now, states, outs@, parts, i as int));
                        assert(start.batch_fails(calls@, now, e));
                    }
                    *self = saved;
                    proof {
                        lemma_same_contents_wf(*self, start);
                    }
                    return Err(e);
                },
                Ok((out, mut ts)) => {
                    proof {
                        let ns = states.push(*self);
                        let np = parts.push(ts@);
                        assert(np.drop_last() =~= parts);
                        assert forall|k: int| 0 <= k < i + 1 implies #[trigger] ns[k].call_done(
                            calls@[k],
                            now,
                            ns[k + 1],
                            outs@.push(out)[k],
                            np[k],
                        ) by {
                            if k < i {
                                assert(states[k].call_done(calls@[k], now, states[k + 1], outs@[k], parts[k]));
                            }
                        }
                        states = ns;
                        parts = np;
                    }
                    outs.push(out);
                    all.append(&mut ts);
                    i = i + 1;
                },
            }
        }
        proof {
            assert(start.batch_trace(calls@, now, states, outs@, parts, calls@.len() as int));
            assert(start.batch_runs(calls@, now, *self, outs@, all@));
        }
        Ok((outs, all))
    }
}

} // verus!
