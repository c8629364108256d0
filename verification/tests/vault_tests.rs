use blonkfi_vaults::errors::VaultError;
use blonkfi_vaults::identity::Identity;
use blonkfi_vaults::individual_vault::IndividualVault;
use blonkfi_vaults::lock::compute_unlock;
use blonkfi_vaults::lock::is_unlocked;

fn asset_mint() -> Identity {
    Identity::new(1, 2, 3, 4)
}

fn fresh_vault(lock_period: i64, now: i64) -> IndividualVault {
    let mut v = IndividualVault::new();
    v.initialize(
        asset_mint(),
        Identity::new(5, 6, 7, 8),
        Identity::new(9, 9, 9, 9),
        Identity::new(11, 12, 13, 14),
        lock_period,
        now,
    )
    .unwrap();
    v
}

#[test]
fn first_deposit_bootstraps_one_share_per_unit() {
    let mut v = fresh_vault(0, 100);
    assert_eq!(v.deposit_tokens(asset_mint(), 1000), Ok(1000));
    assert_eq!(v.get_total_assets(), 1000);
    assert_eq!(v.get_total_shares(), 1000);
}

#[test]
fn deposit_withdraw_scenario_keeps_exact_totals() {
    // Lock period 0: withdrawals are open immediately.
    let mut v = fresh_vault(0, 100);
    assert_eq!(v.deposit_tokens(asset_mint(), 1000), Ok(1000));
    // 500 * 1000 / 1000 = 500 shares.
    assert_eq!(v.deposit_tokens(asset_mint(), 500), Ok(500));
    assert_eq!(v.get_total_assets(), 1500);
    assert_eq!(v.get_total_shares(), 1500);
    // 300 * 1500 / 1500 = 300 units returned.
    assert_eq!(v.withdraw_tokens(300, 100), Ok(300));
    assert_eq!(v.get_total_assets(), 1200);
    assert_eq!(v.get_total_shares(), 1200);
}

#[test]
fn deposit_into_uneven_pool_rounds_down() {
    let mut v = fresh_vault(0, 0);
    v.total_assets = 10;
    v.total_shares = 7;
    // floor(3 * 7 / 10) = 2 shares.
    assert_eq!(v.deposit_tokens(asset_mint(), 3), Ok(2));
    assert_eq!(v.get_total_assets(), 13);
    assert_eq!(v.get_total_shares(), 9);
}

#[test]
fn deposit_rejects_zero_amount() {
    let mut v = fresh_vault(0, 0);
    assert_eq!(
        v.deposit_tokens(asset_mint(), 0),
        Err(VaultError::InvalidAmount)
    );
    assert_eq!(v.get_total_assets(), 0);
}

#[test]
fn deposit_rejects_wrong_mint() {
    let mut v = fresh_vault(0, 0);
    assert_eq!(
        v.deposit_tokens(Identity::new(4, 3, 2, 1), 100),
        Err(VaultError::InvalidTokenMint)
    );
    assert_eq!(v.get_total_assets(), 0);
}

#[test]
fn deposit_rejects_uninitialized_vault() {
    let mut v = IndividualVault::new();
    assert_eq!(
        v.deposit_tokens(asset_mint(), 100),
        Err(VaultError::VaultNotFound)
    );
}

#[test]
fn deposit_rejects_share_overflow_and_changes_nothing() {
    let mut v = fresh_vault(0, 0);
    v.total_assets = 1;
    v.total_shares = u64::MAX;
    // floor(2 * u64::MAX / 1) exceeds u64.
    assert_eq!(
        v.deposit_tokens(asset_mint(), 2),
        Err(VaultError::MathOverflow)
    );
    assert_eq!(v.get_total_assets(), 1);
    assert_eq!(v.get_total_shares(), u64::MAX);
}

#[test]
fn deposit_rejects_pool_total_overflow() {
    let mut v = fresh_vault(0, 0);
    v.total_assets = u64::MAX;
    v.total_shares = u64::MAX;
    // One more unit would overflow total_assets.
    assert_eq!(
        v.deposit_tokens(asset_mint(), 1),
        Err(VaultError::MathOverflow)
    );
}

#[test]
fn withdraw_before_unlock_is_refused_then_allowed() {
    // Created at 100 with a lock period of 50: locked until 150.
    let mut v = fresh_vault(50, 100);
    assert_eq!(v.deposit_tokens(asset_mint(), 1000), Ok(1000));
    assert_eq!(v.withdraw_tokens(100, 149), Err(VaultError::LockPeriodNotOver));
    assert_eq!(v.get_total_assets(), 1000);
    // The lock ends exactly at its timestamp.
    assert_eq!(v.withdraw_tokens(100, 150), Ok(100));
    assert_eq!(v.withdraw_tokens(100, 151), Ok(100));
    assert_eq!(v.get_total_assets(), 800);
    assert_eq!(v.get_total_shares(), 800);
}

#[test]
fn withdraw_rejects_zero_shares() {
    let mut v = fresh_vault(0, 0);
    v.deposit_tokens(asset_mint(), 10).unwrap();
    assert_eq!(v.withdraw_tokens(0, 0), Err(VaultError::InvalidAmount));
}

#[test]
fn withdraw_rejects_uninitialized_vault() {
    let mut v = IndividualVault::new();
    assert_eq!(v.withdraw_tokens(1, 0), Err(VaultError::VaultNotFound));
}

#[test]
fn withdraw_of_more_than_supply_is_ledger_corruption() {
    let mut v = fresh_vault(0, 0);
    v.deposit_tokens(asset_mint(), 5).unwrap();
    assert_eq!(v.withdraw_tokens(6, 0), Err(VaultError::LedgerCorruption));
    assert_eq!(v.get_total_assets(), 5);
    assert_eq!(v.get_total_shares(), 5);
}

#[test]
fn withdraw_rounding_to_zero_assets_is_refused() {
    let mut v = fresh_vault(0, 0);
    v.total_assets = 1;
    v.total_shares = 1000;
    // floor(1 * 1 / 1000) = 0: the burn would return nothing.
    assert_eq!(
        v.withdraw_tokens(1, 0),
        Err(VaultError::ZeroValueWithdrawal)
    );
    assert_eq!(v.get_total_shares(), 1000);
}

#[test]
fn withdrawing_every_share_drains_the_pool_to_zero() {
    let mut v = fresh_vault(0, 0);
    v.deposit_tokens(asset_mint(), 777).unwrap();
    assert_eq!(v.withdraw_tokens(777, 0), Ok(777));
    assert_eq!(v.get_total_assets(), 0);
    assert_eq!(v.get_total_shares(), 0);
    // The drained pool bootstraps again, one to one.
    assert_eq!(v.deposit_tokens(asset_mint(), 9), Ok(9));
    assert_eq!(v.get_total_shares(), 9);
}

#[test]
fn initialize_rejects_second_call() {
    let mut v = fresh_vault(0, 0);
    assert_eq!(
        v.initialize(
            asset_mint(),
            Identity::zero(),
            Identity::zero(),
            Identity::zero(),
            0,
            0,
        ),
        Err(VaultError::AlreadyInitialized)
    );
}

#[test]
fn initialize_rejects_negative_lock_period() {
    let mut v = IndividualVault::new();
    assert_eq!(
        v.initialize(
            asset_mint(),
            Identity::zero(),
            Identity::zero(),
            Identity::zero(),
            -1,
            0,
        ),
        Err(VaultError::InvalidLockPeriod)
    );
    assert!(!v.initialized);
}

#[test]
fn initialize_rejects_unrepresentable_unlock_time() {
    let mut v = IndividualVault::new();
    assert_eq!(
        v.initialize(
            asset_mint(),
            Identity::zero(),
            Identity::zero(),
            Identity::zero(),
            1,
            i64::MAX,
        ),
        Err(VaultError::MathOverflow)
    );
}

#[test]
fn initialize_records_unlock_timestamp() {
    let v = fresh_vault(50, 100);
    assert_eq!(v.locked_until, 150);
    assert_eq!(v.total_assets, 0);
    assert_eq!(v.total_shares, 0);
    assert!(v.initialized);
}

#[test]
fn compute_unlock_adds_period_to_now() {
    assert_eq!(compute_unlock(100, 50), Ok(150));
    assert_eq!(compute_unlock(0, 0), Ok(0));
    assert_eq!(compute_unlock(-30, 10), Ok(-20));
    assert_eq!(compute_unlock(100, -1), Err(VaultError::InvalidLockPeriod));
    assert_eq!(compute_unlock(i64::MAX, 1), Err(VaultError::MathOverflow));
    assert_eq!(compute_unlock(i64::MAX, 0), Ok(i64::MAX));
}

#[test]
fn is_unlocked_at_or_after_timestamp() {
    assert!(!is_unlocked(149, 150));
    assert!(is_unlocked(150, 150));
    assert!(is_unlocked(151, 150));
}
