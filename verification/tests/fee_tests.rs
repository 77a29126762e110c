use hallswap::error::ContractError;
use hallswap::fee::calc_fee;

#[test]
fn fee_basic_floor() {
    // floor(1_000_000 * 100 / 10000) = 10_000
    assert_eq!(calc_fee(1_000_000, 100), Ok(10_000));
    // floor(12345 * 30 / 10000) = floor(37.035) = 37
    assert_eq!(calc_fee(12_345, 30), Ok(37));
    // truncation: floor(9999 * 1 / 10000) = 0
    assert_eq!(calc_fee(9_999, 1), Ok(0));
}

#[test]
fn fee_zero_rate_is_zero_for_all_amounts() {
    assert_eq!(calc_fee(0, 0), Ok(0));
    assert_eq!(calc_fee(1, 0), Ok(0));
    assert_eq!(calc_fee(u128::MAX, 0), Ok(0));
}

#[test]
fn fee_full_rate_is_identity() {
    assert_eq!(calc_fee(1_000_000, 10_000), Ok(1_000_000));
    assert_eq!(calc_fee(7, 10_000), Ok(7));
}

#[test]
fn fee_never_exceeds_amount_samples() {
    for &amount in &[0u128, 1, 9_999, 10_000, 123_456_789] {
        for &bps in &[0u16, 1, 50, 100, 9_999, 10_000] {
            let fee = calc_fee(amount, bps).unwrap();
            assert!(fee <= amount);
        }
    }
}

#[test]
fn fee_multiplication_overflow_faults() {
    assert_eq!(calc_fee(u128::MAX, 2), Err(ContractError::ArithmeticFault {}));
    // the largest amount whose product with 2 still fits succeeds
    assert_eq!(calc_fee(u128::MAX / 2, 2), Ok(u128::MAX / 2 / 5_000));
}
