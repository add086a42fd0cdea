use insurance_pool::pricing::{
    apply_early_bird_discount, calculate_premium_with_coverage, checked_premium, integer_sqrt,
};
use insurance_pool::types::{CoverageLevel, MyError, PolicyType};

#[test]
fn integer_sqrt_of_small_numbers() {
    let expected: [u64; 17] = [0, 1, 1, 1, 2, 2, 2, 2, 2, 3, 3, 3, 3, 3, 3, 3, 4];
    for n in 0..17u64 {
        assert_eq!(integer_sqrt(n), expected[n as usize]);
    }
}

#[test]
fn integer_sqrt_around_perfect_squares() {
    assert_eq!(integer_sqrt(99), 9);
    assert_eq!(integer_sqrt(100), 10);
    assert_eq!(integer_sqrt(101), 10);
    assert_eq!(integer_sqrt(999_999), 999);
    assert_eq!(integer_sqrt(1_000_000), 1_000);
    assert_eq!(integer_sqrt(4_294_967_295u64 * 4_294_967_295u64 - 1), 4_294_967_294);
    assert_eq!(integer_sqrt(4_294_967_295u64 * 4_294_967_295u64), 4_294_967_295);
}

#[test]
fn integer_sqrt_of_the_largest_number() {
    assert_eq!(integer_sqrt(u64::MAX), 4_294_967_295);
}

#[test]
fn integer_sqrt_is_exact_where_floats_round() {
    // Squares this large have no exact double; a float square root rounds here.
    let root: u64 = 3_037_000_499;
    assert_eq!(integer_sqrt(root * root), root);
    assert_eq!(integer_sqrt(root * root - 1), root - 1);
    assert_eq!(integer_sqrt(root * root + 2 * root), root);
}

#[test]
fn integer_sqrt_brackets_its_argument() {
    let mut n: u64 = 1;
    for _ in 0..60 {
        let r = integer_sqrt(n) as u128;
        assert!(r * r <= n as u128);
        assert!((r + 1) * (r + 1) > n as u128);
        n = n * 2 + 1;
    }
}

#[test]
fn price_of_the_first_basic_policy() {
    assert_eq!(calculate_premium_with_coverage(0, 100, CoverageLevel::Basic), 100);
}

#[test]
fn price_of_a_premium_policy_after_ninety_nine() {
    assert_eq!(calculate_premium_with_coverage(99, 100, CoverageLevel::Premium), 2000);
}

#[test]
fn price_of_a_platinum_policy() {
    assert_eq!(calculate_premium_with_coverage(16, 10, CoverageLevel::Platinum), 150);
}

#[test]
fn price_grows_at_each_perfect_square() {
    assert_eq!(calculate_premium_with_coverage(3, 7, CoverageLevel::Basic), 14);
    assert_eq!(calculate_premium_with_coverage(4, 7, CoverageLevel::Basic), 21);
    assert_eq!(calculate_premium_with_coverage(8, 7, CoverageLevel::Basic), 21);
    assert_eq!(calculate_premium_with_coverage(9, 7, CoverageLevel::Basic), 28);
}

#[test]
fn price_at_a_base_rate_of_zero() {
    assert_eq!(calculate_premium_with_coverage(1_000_000, 0, CoverageLevel::Platinum), 0);
}

#[test]
fn price_is_the_same_on_every_call() {
    let first = calculate_premium_with_coverage(12_345, 678, CoverageLevel::Premium);
    let second = calculate_premium_with_coverage(12_345, 678, CoverageLevel::Premium);
    assert_eq!(first, second);
    assert_eq!(first, 678 * 2 * 112);
}

#[test]
fn checked_premium_agrees_where_the_premium_fits() {
    assert_eq!(checked_premium(0, 100, CoverageLevel::Basic), Some(100));
    assert_eq!(checked_premium(99, 100, CoverageLevel::Premium), Some(2000));
    assert_eq!(checked_premium(0, u64::MAX, CoverageLevel::Basic), Some(u64::MAX));
    assert_eq!(checked_premium(0, u64::MAX / 3, CoverageLevel::Platinum), Some(u64::MAX));
}

#[test]
fn checked_premium_is_none_where_the_premium_is_too_large() {
    assert_eq!(checked_premium(0, u64::MAX, CoverageLevel::Premium), None);
    assert_eq!(checked_premium(1, u64::MAX, CoverageLevel::Basic), None);
    assert_eq!(checked_premium(0, u64::MAX / 3 + 1, CoverageLevel::Platinum), None);
    assert_eq!(checked_premium(u64::MAX, 1 << 32, CoverageLevel::Basic), None);
    assert_eq!(checked_premium(u64::MAX, (1 << 32) - 1, CoverageLevel::Basic), Some(((1u64 << 32) - 1) << 32));
}

#[test]
fn discount_boundary() {
    assert_eq!(apply_early_bird_discount(1000, 99), 900);
    assert_eq!(apply_early_bird_discount(1000, 100), 1000);
}

#[test]
fn discount_rounds_in_the_pools_favour() {
    assert_eq!(apply_early_bird_discount(9, 0), 9);
    assert_eq!(apply_early_bird_discount(10, 0), 9);
    assert_eq!(apply_early_bird_discount(19, 0), 18);
    assert_eq!(apply_early_bird_discount(1005, 50), 905);
    assert_eq!(apply_early_bird_discount(0, 0), 0);
}

#[test]
fn discount_of_the_largest_premium() {
    assert_eq!(apply_early_bird_discount(u64::MAX, 0), u64::MAX - u64::MAX / 10);
    assert_eq!(apply_early_bird_discount(u64::MAX, u64::MAX), u64::MAX);
}

#[test]
fn coverage_multipliers() {
    assert_eq!(CoverageLevel::Basic.multiplier(), 1);
    assert_eq!(CoverageLevel::Premium.multiplier(), 2);
    assert_eq!(CoverageLevel::Platinum.multiplier(), 3);
}

#[test]
fn policy_kind_indices() {
    assert_eq!(PolicyType::FlightDelay.index(), 0);
    assert_eq!(PolicyType::CropFailure.index(), 1);
    assert_eq!(PolicyType::PropertyDamage.index(), 2);
}

#[test]
fn error_messages() {
    assert_eq!(MyError::InvalidEvent.message(), "Invalid event data from oracle");
    assert_eq!(MyError::InsufficientFunds.message(), "Insufficient funds in reserve pool");
    assert_eq!(MyError::Unauthorized.message(), "Unauthorized operation");
    assert_eq!(MyError::OperationPaused.message(), "Operation is currently paused");
    assert_eq!(MyError::PolicyNotRenewable.message(), "Policy not renewable at this time");
    assert_eq!(MyError::InvalidDuration.message(), "Policy duration must not be negative");
}
