//! Fee arithmetic and fee-configuration validation.

use vstd::prelude::*;
use crate::errors::ContractError;
use crate::types::FeeConfig;
use crate::{
    BASIS_POINTS, MAX_ARBITRATION_FEE_BPS, MAX_COMBINED_FEE_BPS, MAX_ESCROW_FEE_BPS,
};

verus! {

/// The exact fee owed on `amount` at `fee_bps` basis points, rounded down.
pub open spec fn fee_of(amount: int, fee_bps: int) -> int {
    amount * fee_bps / 10_000
}

/// The outcome of `calculate_fee`: `InvalidAmount` for a negative amount,
/// `FeeExceedsMax` for a rate above 100%, otherwise the floored fee.
pub open spec fn fee_result(amount: i128, fee_bps: u32) -> Result<i128, ContractError> {
    if amount < 0 {
        Err(ContractError::InvalidAmount)
    } else if fee_bps > BASIS_POINTS {
        Err(ContractError::FeeExceedsMax)
    } else {
        Ok(fee_of(amount as int, fee_bps as int) as i128)
    }
}

/// Splitting `amount` as `q * 10_000 + r` computes the same floored fee as
/// the direct product, and the fee lies in `[0, amount]`.
pub proof fn lemma_split_fee(amount: int, fee_bps: int)
    requires
        0 <= amount,
        0 <= fee_bps <= 10_000,
    ensures
        (amount / 10_000) * fee_bps + (amount % 10_000) * fee_bps / 10_000 == fee_of(amount, fee_bps),
        0 <= fee_of(amount, fee_bps) <= amount,
        (amount % 10_000) * fee_bps / 10_000 < 10_000,
        (amount / 10_000) * fee_bps <= amount,
{
    let q = amount / 10_000;
    let r = amount % 10_000;
    assert(amount == q * 10_000 + r && 0 <= r < 10_000 && q >= 0) by (nonlinear_arith)
        requires
            0 <= amount,
            q == amount / 10_000,
            r == amount % 10_000,
    ;
    assert(amount * fee_bps == (q * fee_bps) * 10_000 + r * fee_bps) by (nonlinear_arith)
        requires
            amount == q * 10_000 + r,
    ;
    assert(0 <= r * fee_bps <= 9_999 * 10_000) by (nonlinear_arith)
        requires
            0 <= r < 10_000,
            0 <= fee_bps <= 10_000,
    ;
    assert(((q * fee_bps) * 10_000 + r * fee_bps) / 10_000 == q * fee_bps + (r * fee_bps) / 10_000)
        by (nonlinear_arith)
        requires
            0 <= r * fee_bps,
    ;
    assert(q * fee_bps <= q * 10_000) by (nonlinear_arith)
        requires
            q >= 0,
            fee_bps <= 10_000,
    ;
    assert(0 <= q * fee_bps) by (nonlinear_arith)
        requires
            q >= 0,
            fee_bps >= 0,
    ;
    assert((r * fee_bps) / 10_000 <= r) by (nonlinear_arith)
        requires
            0 <= r,
            0 <= fee_bps <= 10_000,
    ;
    assert((r * fee_bps) / 10_000 >= 0) by (nonlinear_arith)
        requires
            0 <= r * fee_bps,
    ;
}

/// Computes the fee on `amount` at `fee_bps` basis points, rounded down.
///
/// The fee is `floor(amount * fee_bps / 10_000)`; the product is never formed,
/// so no amount overflows. A negative amount is `InvalidAmount` and a rate
/// above 100% is `FeeExceedsMax`.
pub fn calculate_fee(amount: i128, fee_bps: u32) -> (r: Result<i128, ContractError>)
    ensures
        r == fee_result(amount, fee_bps),
        r matches Ok(fee) ==> 0 <= fee <= amount,
{
    if amount < 0 {
        return Err(ContractError::InvalidAmount);
    }
    if fee_bps > BASIS_POINTS {
        return Err(ContractError::FeeExceedsMax);
    }
    proof {
        lemma_split_fee(amount as int, fee_bps as int);
    }
    let bps = fee_bps as i128;
    let part1 = (amount / 10_000) * bps;
    let part2 = ((amount % 10_000) * bps) / 10_000;
    Ok(part1 + part2)
}

/// Splits `amount` into `(fee, net)` at `fee_bps` basis points, with
/// `fee + net == amount`; errors exactly as `calculate_fee`.
pub fn calculate_protocol_fee(amount: i128, fee_bps: u32) -> (r: Result<(i128, i128), ContractError>)
    ensures
        match fee_result(amount, fee_bps) {
            Ok(fee) => r == Ok::<(i128, i128), ContractError>((fee, (amount - fee) as i128)),
            Err(e) => r == Err::<(i128, i128), ContractError>(e),
        },
        r matches Ok((fee, net)) ==> fee + net == amount && 0 <= fee && 0 <= net,
{
    let fee = calculate_fee(amount, fee_bps)?;
    Ok((fee, amount - fee))
}

/// The per-escrow fee may not exceed `MAX_ESCROW_FEE_BPS`.
pub fn validate_escrow_fee_bps(fee_bps: u32) -> (r: Result<(), ContractError>)
    ensures
        r == (if fee_bps > MAX_ESCROW_FEE_BPS {
            Err(ContractError::FeeExceedsMax)
        } else {
            Ok(())
        }),
{
    if fee_bps > MAX_ESCROW_FEE_BPS {
        return Err(ContractError::FeeExceedsMax);
    }
    Ok(())
}

/// The resolver fee shares the per-escrow cap `MAX_ESCROW_FEE_BPS`.
pub fn validate_resolver_fee_bps(fee_bps: u32) -> (r: Result<(), ContractError>)
    ensures
        r == (if fee_bps > MAX_ESCROW_FEE_BPS {
            Err(ContractError::FeeExceedsMax)
        } else {
            Ok(())
        }),
{
    if fee_bps > MAX_ESCROW_FEE_BPS {
        return Err(ContractError::FeeExceedsMax);
    }
    Ok(())
}

/// The arbitration fee may not exceed `MAX_ARBITRATION_FEE_BPS`.
pub fn validate_arbitration_fee_bps(fee_bps: u32) -> (r: Result<(), ContractError>)
    ensures
        r == (if fee_bps > MAX_ARBITRATION_FEE_BPS {
            Err(ContractError::ArbitrationFeeExceedsMax)
        } else {
            Ok(())
        }),
{
    if fee_bps > MAX_ARBITRATION_FEE_BPS {
        return Err(ContractError::ArbitrationFeeExceedsMax);
    }
    Ok(())
}

/// Protocol plus arbitration fee may not exceed `MAX_COMBINED_FEE_BPS`.
pub fn validate_combined_fees(protocol_fee_bps: u32, arbitration_fee_bps: u32) -> (r: Result<
    (),
    ContractError,
>)
    ensures
        r == (if protocol_fee_bps + arbitration_fee_bps > u32::MAX {
            Err(ContractError::ArithmeticError)
        } else if protocol_fee_bps + arbitration_fee_bps > MAX_COMBINED_FEE_BPS {
            Err(ContractError::FeeExceedsMax)
        } else {
            Ok(())
        }),
{
    let combined = match protocol_fee_bps.checked_add(arbitration_fee_bps) {
        Some(c) => c,
        None => return Err(ContractError::ArithmeticError),
    };
    if combined > MAX_COMBINED_FEE_BPS {
        return Err(ContractError::FeeExceedsMax);
    }
    Ok(())
}

/// The fee configuration in force before any is stored: no fees.
pub fn default_fee_config() -> (c: FeeConfig)
    ensures
        c == (FeeConfig { protocol_fee_bps: 0, arbitration_fee_bps: 0 }),
{
    FeeConfig { protocol_fee_bps: 0, arbitration_fee_bps: 0 }
}

} // verus!
