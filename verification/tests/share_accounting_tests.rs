use blonkfi_vaults::errors::VaultError;
use blonkfi_vaults::share_accounting::calculate_shares;
use blonkfi_vaults::share_accounting::calculate_withdrawal_amount;

#[test]
fn shares_bootstrap_one_to_one_on_empty_pool() {
    // First deposit (or a fully drained pool): one share per asset unit.
    assert_eq!(calculate_shares(1000, 0, 0), Ok(1000));
    assert_eq!(calculate_shares(1, 0, 0), Ok(1));
    assert_eq!(calculate_shares(u64::MAX, 0, 0), Ok(u64::MAX));
    // The bootstrap branch fires on a drained pool even with shares left.
    assert_eq!(calculate_shares(7, 5, 0), Ok(7));
}

#[test]
fn shares_round_down_at_current_price() {
    // floor(3 * 7 / 10) = 2.
    assert_eq!(calculate_shares(3, 7, 10), Ok(2));
    // An exact multiple loses nothing: floor(500 * 1000 / 1000) = 500.
    assert_eq!(calculate_shares(500, 1000, 1000), Ok(500));
    // A dust deposit can round to zero shares: floor(1 * 1 / 10) = 0.
    assert_eq!(calculate_shares(1, 1, 10), Ok(0));
}

#[test]
fn shares_overflowing_a_u64_are_rejected() {
    // floor(2 * u64::MAX / 1) does not fit a u64 share count.
    assert_eq!(
        calculate_shares(2, u64::MAX, 1),
        Err(VaultError::MathOverflow)
    );
    // The 128-bit intermediate keeps the largest in-range case exact.
    assert_eq!(calculate_shares(u64::MAX, 1, 1), Ok(u64::MAX));
}

#[test]
fn withdrawal_bootstrap_one_to_one_without_shares() {
    assert_eq!(calculate_withdrawal_amount(42, 100, 0), Ok(42));
}

#[test]
fn withdrawal_rounds_down_at_current_price() {
    // floor(300 * 1500 / 1500) = 300.
    assert_eq!(calculate_withdrawal_amount(300, 1500, 1500), Ok(300));
    // floor(2 * 13 / 9) = 2.
    assert_eq!(calculate_withdrawal_amount(2, 13, 9), Ok(2));
    // A dust burn can round to zero assets: floor(1 * 1 / 1000) = 0.
    assert_eq!(calculate_withdrawal_amount(1, 1, 1000), Ok(0));
}

#[test]
fn withdrawal_overflowing_a_u64_is_rejected() {
    // floor(3 * u64::MAX / 2) does not fit a u64 amount.
    assert_eq!(
        calculate_withdrawal_amount(3, u64::MAX, 2),
        Err(VaultError::MathOverflow)
    );
}

#[test]
fn round_trip_returns_at_most_the_deposit() {
    // Deposit, then immediately burn the issued shares: never a gain.
    let cases: [(u64, u64, u64); 6] = [
        (1000, 0, 0),
        (3, 7, 10),
        (500, 1000, 1000),
        (1, 1, 10),
        (999, 31, 17),
        (123456789, 987654321, 555555555),
    ];
    for (amount, total_shares, total_assets) in cases {
        let shares = calculate_shares(amount, total_shares, total_assets).unwrap();
        let back = calculate_withdrawal_amount(
            shares,
            total_assets + amount,
            total_shares + shares,
        )
        .unwrap();
        assert!(back <= amount);
    }
}
