//! Pure share accounting: deposit amounts to shares, shares to withdrawal
//! amounts.
//!
//! Both conversions multiply first and divide second, so the only rounding
//! is the final floor, and both run the multiplication at 128 bits so the
//! intermediate product of two 64-bit operands cannot overflow.

use crate::errors::VaultError;
use vstd::arithmetic::div_mod::lemma_div_is_ordered;
use vstd::arithmetic::div_mod::lemma_div_by_multiple;
use vstd::arithmetic::div_mod::lemma_div_pos_is_pos;
use vstd::arithmetic::div_mod::lemma_fundamental_div_mod;
use vstd::arithmetic::div_mod::lemma_mod_bound;
use vstd::arithmetic::mul::lemma_mul_is_commutative;
use vstd::prelude::*;

verus! {

/// Shares owed for depositing `amount` into a pool that currently backs
/// `total_shares` outstanding shares with `total_assets` pooled assets.
///
/// An empty (or fully drained) pool bootstraps one share per asset unit;
/// otherwise the depositor receives the current share price, rounded down.
pub open spec fn spec_shares_for_deposit(amount: int, total_shares: int, total_assets: int) -> int {
    if total_assets == 0 {
        amount
    } else {
        amount * total_shares / total_assets
    }
}

/// Assets owed for burning `shares_burned` shares against a pool of
/// `total_assets` assets and `total_shares` outstanding shares.
///
/// With no shares outstanding the conversion degenerates to one asset unit
/// per share, mirroring the deposit bootstrap; otherwise the burner receives
/// the proportional slice of the pool, rounded down.
pub open spec fn spec_assets_for_withdrawal(
    shares_burned: int,
    total_assets: int,
    total_shares: int,
) -> int {
    if total_shares == 0 {
        shares_burned
    } else {
        shares_burned * total_assets / total_shares
    }
}

/// The product of two 64-bit values fits in 128 bits.
proof fn lemma_u64_product_fits_u128(x: u64, y: u64)
    by (nonlinear_arith)
    ensures
        0 <= (x as int) * (y as int) <= u128::MAX as int,
{
}

/// Floor division stays at or below any bound whose multiple dominates the
/// dividend.
proof fn lemma_div_at_most(x: int, d: int, b: int)
    requires
        0 < d,
        0 <= b,
        x <= b * d,
    ensures
        x / d <= b,
{
    lemma_div_is_ordered(x, b * d, d);
    lemma_div_by_multiple(b, d);
}

/// A floor quotient, multiplied back by the divisor, recovers at most the
/// dividend; and a quotient of non-negative operands is non-negative.
pub(crate) proof fn lemma_quotient_times_divisor_le(x: int, d: int)
    requires
        0 <= x,
        0 < d,
    ensures
        (x / d) * d <= x,
        0 <= x / d,
{
    lemma_fundamental_div_mod(x, d);
    lemma_mod_bound(x, d);
    lemma_mul_is_commutative(x / d, d);
    lemma_div_pos_is_pos(x, d);
}

/// A withdrawal never draws more than the pool holds: burning no more than
/// the outstanding supply yields at most `total_assets`.
pub proof fn lemma_withdrawal_within_pool(shares_to_burn: int, total_assets: int, total_shares: int)
    requires
        0 <= shares_to_burn <= total_shares,
        0 < total_shares,
        0 <= total_assets,
    ensures
        0 <= spec_assets_for_withdrawal(shares_to_burn, total_assets, total_shares)
            <= total_assets,
{
    assert(shares_to_burn * total_assets <= total_assets * total_shares) by (nonlinear_arith)
        requires
            0 <= shares_to_burn <= total_shares,
            0 <= total_assets,
    ;
    lemma_div_at_most(shares_to_burn * total_assets, total_shares, total_assets);
    assert(0 <= shares_to_burn * total_assets) by (nonlinear_arith)
        requires
            0 <= shares_to_burn,
            0 <= total_assets,
    ;
    lemma_div_pos_is_pos(shares_to_burn * total_assets, total_shares);
}

/// Rounding never creates value: depositing `amount` and immediately
/// burning the shares the deposit issued returns at most `amount`.
pub proof fn lemma_withdraw_after_deposit_never_gains(
    amount: int,
    total_shares: int,
    total_assets: int,
)
    requires
        0 <= amount,
        0 <= total_shares,
        0 <= total_assets,
    ensures
        ({
            let s = spec_shares_for_deposit(amount, total_shares, total_assets);
            spec_assets_for_withdrawal(s, total_assets + amount, total_shares + s) <= amount
        }),
{
    let s = spec_shares_for_deposit(amount, total_shares, total_assets);
    let pooled = total_assets + amount;
    let outstanding = total_shares + s;
    if total_assets == 0 {
        if outstanding != 0 {
            assert(amount * pooled <= amount * outstanding) by (nonlinear_arith)
                requires
                    0 <= amount,
                    pooled == amount,
                    amount <= outstanding,
            ;
            lemma_div_at_most(s * pooled, outstanding, amount);
        }
    } else {
        lemma_quotient_times_divisor_le(amount * total_shares, total_assets);
        if outstanding != 0 {
            assert(s * pooled <= amount * outstanding) by (nonlinear_arith)
                requires
                    s * total_assets <= amount * total_shares,
                    0 <= s,
                    0 <= amount,
                    pooled == total_assets + amount,
                    outstanding == total_shares + s,
            ;
            lemma_div_at_most(s * pooled, outstanding, amount);
        }
    }
}

/// Executable form of [`spec_shares_for_deposit`]; rejects a result that no
/// `u64` share count can hold.
pub fn calculate_shares(deposit_amount: u64, total_shares: u64, total_assets: u64) -> (r: Result<
    u64,
    VaultError,
>)
    ensures
        ({
            let s = spec_shares_for_deposit(
                deposit_amount as int,
                total_shares as int,
                total_assets as int,
            );
            if s <= u64::MAX {
                r == Ok::<u64, VaultError>(s as u64)
            } else {
                r == Err::<u64, VaultError>(VaultError::MathOverflow)
            }
        }),
{
    if total_assets == 0 {
        Ok(deposit_amount)
    } else {
        proof {
            lemma_u64_product_fits_u128(deposit_amount, total_shares);
        }
        let numerator: u128 = (deposit_amount as u128) * (total_shares as u128);
        let quotient: u128 = numerator / (total_assets as u128);
        if quotient <= u64::MAX as u128 {
            Ok(quotient as u64)
        } else {
            Err(VaultError::MathOverflow)
        }
    }
}

/// Executable form of [`spec_assets_for_withdrawal`]; rejects a result that
/// no `u64` amount can hold.
pub fn calculate_withdrawal_amount(
    shares_to_burn: u64,
    total_assets: u64,
    total_shares: u64,
) -> (r: Result<u64, VaultError>)
    ensures
        ({
            let w = spec_assets_for_withdrawal(
                shares_to_burn as int,
                total_assets as int,
                total_shares as int,
            );
            if w <= u64::MAX {
                r == Ok::<u64, VaultError>(w as u64)
            } else {
                r == Err::<u64, VaultError>(VaultError::MathOverflow)
            }
        }),
{
    if total_shares == 0 {
        Ok(shares_to_burn)
    } else {
        proof {
            lemma_u64_product_fits_u128(shares_to_burn, total_assets);
        }
        let numerator: u128 = (shares_to_burn as u128) * (total_assets as u128);
        let quotient: u128 = numerator / (total_shares as u128);
        if quotient <= u64::MAX as u128 {
            Ok(quotient as u64)
        } else {
            Err(VaultError::MathOverflow)
        }
    }
}

} // verus!
