use curve_launchpad::error::CurveLaunchpadError;
use curve_launchpad::fee::{calculate_fee, BASIS_POINTS};

#[test]
fn fee_is_the_floor_of_the_share() {
    assert_eq!(BASIS_POINTS, 10_000);
    assert_eq!(calculate_fee(27_959, 100), Ok(279));
    assert_eq!(calculate_fee(27_960, 100), Ok(279));
    assert_eq!(calculate_fee(10_000, 1), Ok(1));
    assert_eq!(calculate_fee(9_999, 1), Ok(0));
    assert_eq!(calculate_fee(19_999, 1), Ok(1));
    assert_eq!(calculate_fee(1_000_000_000, 100), Ok(10_000_000));
    assert_eq!(calculate_fee(3, 3_333), Ok(0));
    assert_eq!(calculate_fee(4, 2_500), Ok(1));
}

#[test]
fn fee_at_the_ends_of_the_rate() {
    assert_eq!(calculate_fee(0, 0), Ok(0));
    assert_eq!(calculate_fee(0, 10_000), Ok(0));
    assert_eq!(calculate_fee(123_456_789, 0), Ok(0));
    assert_eq!(calculate_fee(123_456_789, 10_000), Ok(123_456_789));
    assert_eq!(calculate_fee(u64::MAX, 10_000), Ok(u64::MAX));
    assert_eq!(calculate_fee(u64::MAX, 0), Ok(0));
    assert_eq!(calculate_fee(u64::MAX, 1), Ok(1_844_674_407_370_955));
}

#[test]
fn fee_never_exceeds_the_amount_at_a_valid_rate() {
    let amounts: [u64; 8] = [0, 1, 2, 99, 100, 9_999, 27_959, u64::MAX];
    let rates: [u64; 7] = [0, 1, 99, 100, 5_000, 9_999, 10_000];
    for amount in amounts {
        for rate in rates {
            let fee = calculate_fee(amount, rate).unwrap();
            assert!(fee <= amount);
            let exact = (amount as u128) * (rate as u128) / 10_000;
            assert_eq!(fee as u128, exact);
        }
    }
}

#[test]
fn fee_above_the_whole_can_overflow() {
    assert_eq!(calculate_fee(100, 20_000), Ok(200));
    assert_eq!(calculate_fee(u64::MAX, 10_001), Err(CurveLaunchpadError::ArithmeticOverflow));
    assert_eq!(calculate_fee(u64::MAX, u64::MAX), Err(CurveLaunchpadError::ArithmeticOverflow));
    assert_eq!(calculate_fee(u64::MAX / 2, 20_000), Ok(u64::MAX - 1));
}
