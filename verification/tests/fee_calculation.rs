//! Fee arithmetic at the protocol rates 0 to 300 basis points: exact fees,
//! floor rounding, and no unit lost between fee and net.

use escrow::{calculate_protocol_fee, ContractError};

#[test]
fn test_fee_calculation_0_bps_minimum_amount() {
    // 0 bps = 0% fee
    let amount = 1_i128; // 1 stroop (minimum)
    let fee_bps = 0_u32;

    let result = calculate_protocol_fee(amount, fee_bps);
    assert!(result.is_ok());

    let (fee, net) = result.unwrap();

    // Verify fee is exactly 0
    assert_eq!(fee, 0);
    // Verify net + fee = the whole amount
    assert_eq!(net + fee, amount);
    // Verify net is the full amount
    assert_eq!(net, 1);
}

#[test]
fn test_fee_calculation_0_bps_large_amount() {
    // 0 bps = 0% fee
    let amount = 1_000_000_000_000_i128; // 1 trillion stroops
    let fee_bps = 0_u32;

    let result = calculate_protocol_fee(amount, fee_bps);
    assert!(result.is_ok());

    let (fee, net) = result.unwrap();

    // Verify fee is exactly 0
    assert_eq!(fee, 0);
    // Verify net + fee = the whole amount
    assert_eq!(net + fee, amount);
    // Verify net is the full amount
    assert_eq!(net, amount);
}

#[test]
fn test_fee_calculation_50_bps_minimum_amount() {
    // 50 bps = 0.5% fee
    let amount = 1_i128; // 1 stroop (minimum)
    let fee_bps = 50_u32;

    let result = calculate_protocol_fee(amount, fee_bps);
    assert!(result.is_ok());

    let (fee, net) = result.unwrap();

    // For 1 stroop: fee = 1 * 50 / 10000 = 0 (rounds down)
    assert_eq!(fee, 0);
    // Verify net + fee = the whole amount (no rounding loss)
    assert_eq!(net + fee, amount);
    assert_eq!(net, 1);
}

#[test]
fn test_fee_calculation_50_bps_large_amount() {
    // 50 bps = 0.5% fee
    let amount = 1_000_000_i128; // 1 million stroops
    let fee_bps = 50_u32;

    let result = calculate_protocol_fee(amount, fee_bps);
    assert!(result.is_ok());

    let (fee, net) = result.unwrap();

    // Expected fee: 1,000,000 * 0.005 = 5,000
    assert_eq!(fee, 5_000);
    // Verify net + fee = the whole amount (no rounding loss)
    assert_eq!(net + fee, amount);
    assert_eq!(net, 995_000);
}

#[test]
fn test_fee_calculation_100_bps_minimum_amount() {
    // 100 bps = 1% fee
    let amount = 1_i128; // 1 stroop (minimum)
    let fee_bps = 100_u32;

    let result = calculate_protocol_fee(amount, fee_bps);
    assert!(result.is_ok());

    let (fee, net) = result.unwrap();

    // For 1 stroop: fee = 1 * 100 / 10000 = 0 (rounds down)
    assert_eq!(fee, 0);
    // Verify net + fee = the whole amount (no rounding loss)
    assert_eq!(net + fee, amount);
    assert_eq!(net, 1);
}

#[test]
fn test_fee_calculation_100_bps_large_amount() {
    // 100 bps = 1% fee
    let amount = 1_000_000_i128; // 1 million stroops
    let fee_bps = 100_u32;

    let result = calculate_protocol_fee(amount, fee_bps);
    assert!(result.is_ok());

    let (fee, net) = result.unwrap();

    // Expected fee: 1,000,000 * 0.01 = 10,000
    assert_eq!(fee, 10_000);
    // Verify net + fee = the whole amount (no rounding loss)
    assert_eq!(net + fee, amount);
    assert_eq!(net, 990_000);
}

#[test]
fn test_fee_calculation_150_bps_minimum_amount() {
    // 150 bps = 1.5% fee
    let amount = 1_i128; // 1 stroop (minimum)
    let fee_bps = 150_u32;

    let result = calculate_protocol_fee(amount, fee_bps);
    assert!(result.is_ok());

    let (fee, net) = result.unwrap();

    // For 1 stroop: fee = 1 * 150 / 10000 = 0 (rounds down)
    assert_eq!(fee, 0);
    // Verify net + fee = the whole amount (no rounding loss)
    assert_eq!(net + fee, amount);
    assert_eq!(net, 1);
}

#[test]
fn test_fee_calculation_150_bps_large_amount() {
    // 150 bps = 1.5% fee
    let amount = 1_000_000_i128; // 1 million stroops
    let fee_bps = 150_u32;

    let result = calculate_protocol_fee(amount, fee_bps);
    assert!(result.is_ok());

    let (fee, net) = result.unwrap();

    // Expected fee: 1,000,000 * 0.015 = 15,000
    assert_eq!(fee, 15_000);
    // Verify net + fee = the whole amount (no rounding loss)
    assert_eq!(net + fee, amount);
    assert_eq!(net, 985_000);
}

#[test]
fn test_fee_calculation_200_bps_minimum_amount() {
    // 200 bps = 2% fee
    let amount = 1_i128; // 1 stroop (minimum)
    let fee_bps = 200_u32;

    let result = calculate_protocol_fee(amount, fee_bps);
    assert!(result.is_ok());

    let (fee, net) = result.unwrap();

    // For 1 stroop: fee = 1 * 200 / 10000 = 0 (rounds down)
    assert_eq!(fee, 0);
    // Verify net + fee = the whole amount (no rounding loss)
    assert_eq!(net + fee, amount);
    assert_eq!(net, 1);
}

#[test]
fn test_fee_calculation_200_bps_large_amount() {
    // 200 bps = 2% fee
    let amount = 1_000_000_i128; // 1 million stroops
    let fee_bps = 200_u32;

    let result = calculate_protocol_fee(amount, fee_bps);
    assert!(result.is_ok());

    let (fee, net) = result.unwrap();

    // Expected fee: 1,000,000 * 0.02 = 20,000
    assert_eq!(fee, 20_000);
    // Verify net + fee = the whole amount (no rounding loss)
    assert_eq!(net + fee, amount);
    assert_eq!(net, 980_000);
}

#[test]
fn test_fee_calculation_250_bps_minimum_amount() {
    // 250 bps = 2.5% fee
    let amount = 1_i128; // 1 stroop (minimum)
    let fee_bps = 250_u32;

    let result = calculate_protocol_fee(amount, fee_bps);
    assert!(result.is_ok());

    let (fee, net) = result.unwrap();

    // For 1 stroop: fee = 1 * 250 / 10000 = 0 (rounds down)
    assert_eq!(fee, 0);
    // Verify net + fee = the whole amount (no rounding loss)
    assert_eq!(net + fee, amount);
    assert_eq!(net, 1);
}

#[test]
fn test_fee_calculation_250_bps_large_amount() {
    // 250 bps = 2.5% fee
    let amount = 1_000_000_i128; // 1 million stroops
    let fee_bps = 250_u32;

    let result = calculate_protocol_fee(amount, fee_bps);
    assert!(result.is_ok());

    let (fee, net) = result.unwrap();

    // Expected fee: 1,000,000 * 0.025 = 25,000
    assert_eq!(fee, 25_000);
    // Verify net + fee = the whole amount (no rounding loss)
    assert_eq!(net + fee, amount);
    assert_eq!(net, 975_000);
}

#[test]
fn test_fee_calculation_300_bps_minimum_amount() {
    // 300 bps = 3% fee (maximum allowed)
    let amount = 1_i128; // 1 stroop (minimum)
    let fee_bps = 300_u32;

    let result = calculate_protocol_fee(amount, fee_bps);
    assert!(result.is_ok());

    let (fee, net) = result.unwrap();

    // For 1 stroop: fee = 1 * 300 / 10000 = 0 (rounds down)
    assert_eq!(fee, 0);
    // Verify net + fee = the whole amount (no rounding loss)
    assert_eq!(net + fee, amount);
    assert_eq!(net, 1);
}

#[test]
fn test_fee_calculation_300_bps_large_amount() {
    // 300 bps = 3% fee (maximum allowed)
    let amount = 1_000_000_i128; // 1 million stroops
    let fee_bps = 300_u32;

    let result = calculate_protocol_fee(amount, fee_bps);
    assert!(result.is_ok());

    let (fee, net) = result.unwrap();

    // Expected fee: 1,000,000 * 0.03 = 30,000 (exactly 3%)
    assert_eq!(fee, 30_000);
    // Verify net + fee = the whole amount (no rounding loss)
    assert_eq!(net + fee, amount);
    assert_eq!(net, 970_000);
}

#[test]
fn test_fee_calculation_300_bps_exact_percentage() {
    // Verify that 300 bps produces exactly 3% fee
    let amount = 10_000_000_i128; // 10 million stroops
    let fee_bps = 300_u32;

    let result = calculate_protocol_fee(amount, fee_bps);
    assert!(result.is_ok());

    let (fee, net) = result.unwrap();

    // Expected fee: 10,000,000 * 0.03 = 300,000 (exactly 3%)
    assert_eq!(fee, 300_000);
    // Verify net + fee = the whole amount (no rounding loss)
    assert_eq!(net + fee, amount);
    assert_eq!(net, 9_700_000);
}

#[test]
fn test_fee_calculation_no_rounding_loss_various_amounts() {
    // Test various amounts to ensure no rounding loss
    let test_cases = [
        (1_i128, 0_u32),
        (1_i128, 50_u32),
        (1_i128, 100_u32),
        (1_i128, 150_u32),
        (1_i128, 200_u32),
        (1_i128, 250_u32),
        (1_i128, 300_u32),
        (100_i128, 0_u32),
        (100_i128, 50_u32),
        (100_i128, 100_u32),
        (100_i128, 150_u32),
        (100_i128, 200_u32),
        (100_i128, 250_u32),
        (100_i128, 300_u32),
        (10_000_i128, 0_u32),
        (10_000_i128, 50_u32),
        (10_000_i128, 100_u32),
        (10_000_i128, 150_u32),
        (10_000_i128, 200_u32),
        (10_000_i128, 250_u32),
        (10_000_i128, 300_u32),
        (1_000_000_i128, 0_u32),
        (1_000_000_i128, 50_u32),
        (1_000_000_i128, 100_u32),
        (1_000_000_i128, 150_u32),
        (1_000_000_i128, 200_u32),
        (1_000_000_i128, 250_u32),
        (1_000_000_i128, 300_u32),
        (1_000_000_000_i128, 0_u32),
        (1_000_000_000_i128, 50_u32),
        (1_000_000_000_i128, 100_u32),
        (1_000_000_000_i128, 150_u32),
        (1_000_000_000_i128, 200_u32),
        (1_000_000_000_i128, 250_u32),
        (1_000_000_000_i128, 300_u32),
    ];

    for (amount, fee_bps) in test_cases {
        let result = calculate_protocol_fee(amount, fee_bps);
        assert!(
            result.is_ok(),
            "Failed for amount={}, fee_bps={}",
            amount,
            fee_bps
        );

        let (fee, net) = result.unwrap();

        // Critical: verify no rounding loss (net + fee must equal the whole amount)
        assert_eq!(
            net + fee,
            amount,
            "Rounding loss detected: amount={}, fee_bps={}, fee={}, net={}, sum={}",
            amount,
            fee_bps,
            fee,
            net,
            net + fee
        );

        // Verify fee is non-negative
        assert!(
            fee >= 0,
            "Fee cannot be negative: amount={}, fee_bps={}, fee={}",
            amount,
            fee_bps,
            fee
        );

        // Verify net is non-negative
        assert!(
            net >= 0,
            "Net cannot be negative: amount={}, fee_bps={}, net={}",
            amount,
            fee_bps,
            net
        );
    }
}

#[test]
fn test_fee_calculation_edge_case_amounts() {
    // Test edge cases with amounts that might cause rounding issues
    let edge_cases = [
        (9_999_i128, 300_u32),     // Just under 10,000
        (10_000_i128, 300_u32),    // Exactly 10,000
        (10_001_i128, 300_u32),    // Just over 10,000
        (99_999_i128, 300_u32),    // Just under 100,000
        (100_000_i128, 300_u32),   // Exactly 100,000
        (100_001_i128, 300_u32),   // Just over 100,000
        (999_999_i128, 300_u32),   // Just under 1,000,000
        (1_000_000_i128, 300_u32), // Exactly 1,000,000
        (1_000_001_i128, 300_u32), // Just over 1,000,000
    ];

    for (amount, fee_bps) in edge_cases {
        let result = calculate_protocol_fee(amount, fee_bps);
        assert!(
            result.is_ok(),
            "Failed for amount={}, fee_bps={}",
            amount,
            fee_bps
        );

        let (fee, net) = result.unwrap();

        // Verify no rounding loss
        assert_eq!(
            net + fee,
            amount,
            "Rounding loss at edge case: amount={}, fee_bps={}, fee={}, net={}",
            amount,
            fee_bps,
            fee,
            net
        );
    }
}

#[test]
fn test_fee_calculation_invalid_amount() {
    // Test that negative amounts return an error
    let amount = -1_i128;
    let fee_bps = 100_u32;

    let result = calculate_protocol_fee(amount, fee_bps);
    assert!(result.is_err());
    assert_eq!(result.unwrap_err(), ContractError::InvalidAmount);
}

/// Tests that `calculate_fee` correctly floors sub-stroop remainders when
/// `amount * fee_bps` is not evenly divisible by `BASIS_POINTS` (10_000).
///
/// The algorithm splits the computation to avoid i128 overflow:
///
/// ```text
/// part1 = (amount / 10_000) * fee_bps          -- whole multiple contribution
/// part2 = (amount % 10_000) * fee_bps / 10_000 -- remainder contribution (floored)
/// fee   = part1 + part2
/// net   = amount - fee
/// ```
///
/// Because integer division truncates, any fractional stroop is dropped from
/// `fee` and stays in `net`. The invariant `net + fee == amount` always holds,
/// so no stroop is ever stranded in the contract.
///
/// Cases chosen to expose the rounding boundary:
///
/// | amount | fee_bps | exact fee | floored fee | dropped remainder |
/// |--------|---------|-----------|-------------|-------------------|
/// | 1      | 3       | 0.0003    | 0           | 0.0003 stroop     |
/// | 3_333  | 3       | 0.9999    | 0           | 0.9999 stroop     | ← largest waived fee
/// | 3_334  | 3       | 1.0002    | 1           | 0.0002 stroop     | ← first amount yielding 1 stroop
/// | 9_999  | 3       | 2.9997    | 2           | 0.9997 stroop     | ← the canonical example
/// | 10_001 | 3       | 3.0003    | 3           | 0.0003 stroop     |
/// | 99_997 | 3       | 29.9991   | 29          | 0.9991 stroop     |
#[test]
fn test_fee_calculation_odd_amounts_sub_stroop_rounding_3bps() {
    // (amount, expected_fee, expected_net)
    // Derived via: fee = floor(amount * 3 / 10_000), net = amount - fee.
    let cases: &[(i128, i128, i128)] = &[
        // 1 * 3 / 10_000 = 0.0003 → fee = 0, all 1 stroop stays with recipient.
        (1, 0, 1),
        // 3_333 * 3 / 10_000 = 0.9999 → fee rounds down to 0 (largest waived fee at 3 bps).
        (3_333, 0, 3_333),
        // 3_334 * 3 / 10_000 = 1.0002 → fee = 1 (the first amount where 3 bps charges 1 stroop).
        (3_334, 1, 3_333),
        // 9_999 * 3 / 10_000 = 2.9997 → fee = 2, 0.9997 sub-stroop dropped.
        // The canonical example.
        (9_999, 2, 9_997),
        // 10_001 * 3 / 10_000 = 3.0003 → fee = 3, 0.0003 sub-stroop dropped.
        (10_001, 3, 9_998),
        // 99_997 * 3 / 10_000 = 29.9991 → fee = 29, 0.9991 sub-stroop dropped.
        (99_997, 29, 99_968),
    ];

    for &(amount, expected_fee, expected_net) in cases {
        let (fee, net) = calculate_protocol_fee(amount, 3)
            .unwrap_or_else(|e| panic!("calculate_protocol_fee({amount}, 3) failed: {e:?}"));

        assert_eq!(
            fee, expected_fee,
            "fee mismatch for amount={amount} @ 3 bps: \
             expected {expected_fee}, got {fee}"
        );
        assert_eq!(
            net, expected_net,
            "net mismatch for amount={amount} @ 3 bps: \
             expected {expected_net}, got {net}"
        );
        // The core invariant: no stroop is ever stranded in the contract.
        assert_eq!(
            net + fee,
            amount,
            "invariant net+fee==amount violated for amount={amount} @ 3 bps: \
             net={net}, fee={fee}, sum={}",
            net + fee
        );
        // Rounding is always floor: fee must never exceed the exact rational value.
        // Equivalently: fee * 10_000 <= amount * 3.
        assert!(
            fee * 10_000 <= amount * 3,
            "fee {fee} exceeds exact rational value for amount={amount} @ 3 bps"
        );
        // The truncated remainder is strictly less than 1 stroop:
        // fee * 10_000 + 10_000 > amount * 3  (i.e. fee+1 would over-charge)
        assert!(
            fee * 10_000 + 10_000 > amount * 3,
            "fee {fee} is not the correct floor for amount={amount} @ 3 bps"
        );
    }
}
