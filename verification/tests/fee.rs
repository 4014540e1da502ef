use curve_launchpad::util::calculate_fee;

#[test]
fn test_calculate_fee() {
    assert_eq!(calculate_fee(100, 100), 1); //1% fee
    assert_eq!(calculate_fee(100, 1000), 10); //10% fee
    assert_eq!(calculate_fee(100, 5000), 50); //50% fee
    assert_eq!(calculate_fee(100, 50000), 500); //500% fee
    assert_eq!(calculate_fee(100, 50), 0); //0.5% fee
    assert_eq!(calculate_fee(1000, 50), 5); //0.5% fee
    assert_eq!(calculate_fee(100, 0), 0); //0% fee
}

#[test]
fn test_fee_zero_rate_charges_nothing() {
    assert_eq!(calculate_fee(0, 0), 0);
    assert_eq!(calculate_fee(u64::MAX, 0), 0);
}

#[test]
fn test_fee_full_rate_charges_everything() {
    assert_eq!(calculate_fee(1, 10_000), 1);
    assert_eq!(calculate_fee(12_345, 10_000), 12_345);
    assert_eq!(calculate_fee(u64::MAX, 10_000), u64::MAX);
}

#[test]
fn test_fee_monotonic_in_amount_and_rate() {
    // Non-decreasing in the amount at a fixed rate...
    assert!(calculate_fee(100, 250) <= calculate_fee(101, 250));
    assert!(calculate_fee(101, 250) <= calculate_fee(5_000, 250));
    // ...and in the rate at a fixed amount.
    assert!(calculate_fee(999, 0) <= calculate_fee(999, 1));
    assert!(calculate_fee(999, 1) <= calculate_fee(999, 9_999));
    assert!(calculate_fee(999, 9_999) <= calculate_fee(999, 10_000));
}

#[test]
fn test_fee_never_exceeds_amount_within_one_whole() {
    assert!(calculate_fee(777, 9_999) <= 777);
    assert!(calculate_fee(1, 9_999) <= 1);
    assert!(calculate_fee(u64::MAX, 10_000) <= u64::MAX);
}

#[test]
fn test_fee_rounds_down() {
    // 199 * 50 / 10000 = 0.995, floored to 0.
    assert_eq!(calculate_fee(199, 50), 0);
    // 201 * 50 / 10000 = 1.005, floored to 1.
    assert_eq!(calculate_fee(201, 50), 1);
}
