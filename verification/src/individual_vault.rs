//! One vault: a single pool accepting one asset type and issuing one share
//! type.
//!
//! The vault record is the unit of atomicity. Every operation either
//! returns `Ok` and applies its whole bookkeeping update, or returns `Err`
//! and leaves the record exactly as it was; the host performs the matching
//! token-ledger effects (transfer, mint, burn) exactly when the core returns
//! `Ok`, as one transaction with the bookkeeping.

use crate::errors::VaultError;
use crate::identity::Identity;
use crate::lock;
use crate::share_accounting::calculate_shares;
use crate::share_accounting::calculate_withdrawal_amount;
use crate::share_accounting::lemma_quotient_times_divisor_le;
use crate::share_accounting::lemma_withdrawal_within_pool;
use crate::share_accounting::spec_assets_for_withdrawal;
use crate::share_accounting::spec_shares_for_deposit;
use vstd::arithmetic::div_mod::lemma_div_multiples_vanish;
use vstd::prelude::*;

verus! {

/// The persisted state of one vault.
///
/// `total_assets` counts pool balance in asset units; `total_shares` counts
/// outstanding claim tokens. `locked_until` is the timestamp before which
/// withdrawals are refused. The identities record the deposit asset's mint,
/// the share mint this vault is sole issuer of, the custodian for privileged
/// administrative withdrawals, and the owning registry; all are fixed at
/// initialization. `initialized` is the explicit counterpart of the host's
/// fresh-record guarantee: operations on a record that was never set up fail
/// with `VaultNotFound`.
#[derive(Clone, Copy, Debug, PartialEq, Eq, Structural)]
pub struct IndividualVault {
    pub initialized: bool,
    pub asset_mint: Identity,
    pub total_assets: u64,
    pub total_shares: u64,
    pub locked_until: i64,
    pub multisig_address: Identity,
    pub receipt_mint: Identity,
    pub central_vault_address: Identity,
}

impl IndividualVault {
    /// Both totals zero: the state a vault starts in and returns to when the
    /// last share is burned.
    pub open spec fn is_empty(self) -> bool {
        self.total_assets == 0 && self.total_shares == 0
    }

    /// The steady state: shares are outstanding exactly when assets are
    /// pooled. Deposits and withdrawals preserve it (see
    /// [`lemma_deposit_preserves_balance`] and
    /// [`lemma_withdraw_preserves_balance`]).
    pub open spec fn balanced(self) -> bool {
        (self.total_shares == 0) <==> (self.total_assets == 0)
    }

    /// The zeroed, not-yet-initialized record.
    pub open spec fn spec_new() -> IndividualVault {
        IndividualVault {
            initialized: false,
            asset_mint: Identity::spec_zero(),
            total_assets: 0,
            total_shares: 0,
            locked_until: 0,
            multisig_address: Identity::spec_zero(),
            receipt_mint: Identity::spec_zero(),
            central_vault_address: Identity::spec_zero(),
        }
    }

    pub fn new() -> (v: IndividualVault)
        ensures
            v == IndividualVault::spec_new(),
    {
        IndividualVault {
            initialized: false,
            asset_mint: Identity::zero(),
            total_assets: 0,
            total_shares: 0,
            locked_until: 0,
            multisig_address: Identity::zero(),
            receipt_mint: Identity::zero(),
            central_vault_address: Identity::zero(),
        }
    }

    /// What `deposit_tokens` returns, as a function of the starting state
    /// and the request.
    pub open spec fn deposit_outcome(
        self,
        depositor_token_mint: Identity,
        amount: u64,
    ) -> Result<u64, VaultError> {
        if !self.initialized {
            Err(VaultError::VaultNotFound)
        } else if amount == 0 {
            Err(VaultError::InvalidAmount)
        } else if depositor_token_mint != self.asset_mint {
            Err(VaultError::InvalidTokenMint)
        } else {
            let s = spec_shares_for_deposit(
                amount as int,
                self.total_shares as int,
                self.total_assets as int,
            );
            if s > u64::MAX || self.total_assets + amount > u64::MAX || self.total_shares + s
                > u64::MAX {
                Err(VaultError::MathOverflow)
            } else {
                Ok(s as u64)
            }
        }
    }

    /// The state `deposit_tokens` leaves behind: totals grown by the amount
    /// and the shares issued on success, everything unchanged on failure.
    pub open spec fn deposit_next(
        self,
        depositor_token_mint: Identity,
        amount: u64,
    ) -> IndividualVault {
        if self.deposit_outcome(depositor_token_mint, amount) is Ok {
            let s = spec_shares_for_deposit(
                amount as int,
                self.total_shares as int,
                self.total_assets as int,
            );
            IndividualVault {
                total_assets: (self.total_assets + amount) as u64,
                total_shares: (self.total_shares + s) as u64,
                ..self
            }
        } else {
            self
        }
    }

    /// What `withdraw_tokens` returns, as a function of the starting state
    /// and the request.
    ///
    /// A burn larger than the outstanding supply can only mean the share
    /// ledger and this record have diverged, so it is refused as
    /// `LedgerCorruption`, never subtracted. A burn whose proportional slice
    /// rounds down to zero assets is refused as `ZeroValueWithdrawal` rather
    /// than burning shares for nothing.
    pub open spec fn withdraw_outcome(self, shares_to_burn: u64, now: i64) -> Result<
        u64,
        VaultError,
    > {
        if !self.initialized {
            Err(VaultError::VaultNotFound)
        } else if shares_to_burn == 0 {
            Err(VaultError::InvalidAmount)
        } else if now < self.locked_until {
            Err(VaultError::LockPeriodNotOver)
        } else if shares_to_burn > self.total_shares {
            Err(VaultError::LedgerCorruption)
        } else {
            let w = spec_assets_for_withdrawal(
                shares_to_burn as int,
                self.total_assets as int,
                self.total_shares as int,
            );
            if w == 0 {
                Err(VaultError::ZeroValueWithdrawal)
            } else {
                Ok(w as u64)
            }
        }
    }

    /// The state `withdraw_tokens` leaves behind: totals shrunk by the
    /// assets returned and the shares burned on success, everything
    /// unchanged on failure.
    pub open spec fn withdraw_next(self, shares_to_burn: u64, now: i64) -> IndividualVault {
        if self.withdraw_outcome(shares_to_burn, now) is Ok {
            let w = spec_assets_for_withdrawal(
                shares_to_burn as int,
                self.total_assets as int,
                self.total_shares as int,
            );
            IndividualVault {
                total_assets: (self.total_assets - w) as u64,
                total_shares: (self.total_shares - shares_to_burn) as u64,
                ..self
            }
        } else {
            self
        }
    }

    /// Sets the identities, zeroes the totals and computes the unlock
    /// timestamp. Rejected on a record that was already set up.
    pub fn initialize(
        &mut self,
        asset_mint: Identity,
        receipt_mint: Identity,
        multisig_address: Identity,
        central_vault_address: Identity,
        lock_period: i64,
        now: i64,
    ) -> (r: Result<(), VaultError>)
        ensures
            old(self).initialized ==> r == Err::<(), VaultError>(VaultError::AlreadyInitialized),
            !old(self).initialized && lock_period < 0 ==> r == Err::<(), VaultError>(
                VaultError::InvalidLockPeriod,
            ),
            !old(self).initialized && lock_period >= 0 && now + lock_period > i64::MAX ==> r
                == Err::<(), VaultError>(VaultError::MathOverflow),
            !old(self).initialized && lock_period >= 0 && now + lock_period <= i64::MAX ==> r
                == Ok::<(), VaultError>(()),
            r is Err ==> *final(self) == *old(self),
            r is Ok ==> !old(self).initialized && lock_period >= 0 && now + lock_period
                <= i64::MAX,
            r is Ok ==> *final(self) == (IndividualVault {
                initialized: true,
                asset_mint,
                total_assets: 0,
                total_shares: 0,
                locked_until: (now + lock_period) as i64,
                multisig_address,
                receipt_mint,
                central_vault_address,
            }),
    {
        if self.initialized {
            return Err(VaultError::AlreadyInitialized);
        }
        let locked_until = match lock::compute_unlock(now, lock_period) {
            Ok(t) => t,
            Err(e) => return Err(e),
        };
        *self = IndividualVault {
            initialized: true,
            asset_mint,
            total_assets: 0,
            total_shares: 0,
            locked_until,
            multisig_address,
            receipt_mint,
            central_vault_address,
        };
        Ok(())
    }

    /// Accepts a deposit: issues shares at the current share price and grows
    /// both totals. The host must move `amount` of the asset into custody
    /// and mint the returned share count to the depositor, atomically with
    /// this update.
    pub fn deposit_tokens(&mut self, depositor_token_mint: Identity, amount: u64) -> (r: Result<
        u64,
        VaultError,
    >)
        ensures
            r == old(self).deposit_outcome(depositor_token_mint, amount),
            *final(self) == old(self).deposit_next(depositor_token_mint, amount),
    {
        if !self.initialized {
            return Err(VaultError::VaultNotFound);
        }
        if amount == 0 {
            return Err(VaultError::InvalidAmount);
        }
        if depositor_token_mint != self.asset_mint {
            return Err(VaultError::InvalidTokenMint);
        }
        let shares_to_issue = match calculate_shares(amount, self.total_shares, self.total_assets) {
            Ok(s) => s,
            Err(e) => return Err(e),
        };
        if self.total_assets > u64::MAX - amount {
            return Err(VaultError::MathOverflow);
        }
        if self.total_shares > u64::MAX - shares_to_issue {
            return Err(VaultError::MathOverflow);
        }
        self.total_assets = self.total_assets + amount;
        self.total_shares = self.total_shares + shares_to_issue;
        Ok(shares_to_issue)
    }

    /// Redeems shares: burns `shares_to_burn` against the pool and shrinks
    /// both totals. The host must burn the shares and move the returned
    /// asset amount out of custody, atomically with this update.
    pub fn withdraw_tokens(&mut self, shares_to_burn: u64, now: i64) -> (r: Result<
        u64,
        VaultError,
    >)
        ensures
            r == old(self).withdraw_outcome(shares_to_burn, now),
            *final(self) == old(self).withdraw_next(shares_to_burn, now),
    {
        if !self.initialized {
            return Err(VaultError::VaultNotFound);
        }
        if shares_to_burn == 0 {
            return Err(VaultError::InvalidAmount);
        }
        if !lock::is_unlocked(now, self.locked_until) {
            return Err(VaultError::LockPeriodNotOver);
        }
        if shares_to_burn > self.total_shares {
            return Err(VaultError::LedgerCorruption);
        }
        proof {
            lemma_withdrawal_within_pool(
                shares_to_burn as int,
                self.total_assets as int,
                self.total_shares as int,
            );
        }
        let amount_to_withdraw = match calculate_withdrawal_amount(
            shares_to_burn,
            self.total_assets,
            self.total_shares,
        ) {
            Ok(w) => w,
            Err(e) => return Err(e),
        };
        if amount_to_withdraw == 0 {
            return Err(VaultError::ZeroValueWithdrawal);
        }
        if amount_to_withdraw > self.total_assets {
            return Err(VaultError::LedgerCorruption);
        }
        self.total_assets = self.total_assets - amount_to_withdraw;
        self.total_shares = self.total_shares - shares_to_burn;
        Ok(amount_to_withdraw)
    }

    pub fn get_total_assets(&self) -> (r: u64)
        ensures
            r == self.total_assets,
    {
        self.total_assets
    }

    pub fn get_total_shares(&self) -> (r: u64)
        ensures
            r == self.total_shares,
    {
        self.total_shares
    }
}

/// First deposit into an empty vault: exactly `amount` shares are issued,
/// and both pool totals become `amount`.
pub proof fn lemma_first_deposit(v: IndividualVault, mint: Identity, amount: u64)
    requires
        v.initialized,
        v.is_empty(),
        mint == v.asset_mint,
        amount > 0,
    ensures
        v.deposit_outcome(mint, amount) == Ok::<u64, VaultError>(amount),
        v.deposit_next(mint, amount).total_assets == amount,
        v.deposit_next(mint, amount).total_shares == amount,
{
}

/// A deposit keeps the steady state: shares stay outstanding exactly while
/// assets stay pooled.
pub proof fn lemma_deposit_preserves_balance(v: IndividualVault, mint: Identity, amount: u64)
    requires
        v.balanced(),
    ensures
        v.deposit_next(mint, amount).balanced(),
{
}

/// A withdrawal keeps the steady state: a partial burn leaves both totals
/// positive, and burning the whole supply drains the pool to exactly zero.
pub proof fn lemma_withdraw_preserves_balance(v: IndividualVault, shares_to_burn: u64, now: i64)
    requires
        v.balanced(),
    ensures
        v.withdraw_next(shares_to_burn, now).balanced(),
{
    if v.withdraw_outcome(shares_to_burn, now) is Ok {
        let s = shares_to_burn as int;
        let a = v.total_assets as int;
        let t = v.total_shares as int;
        let w = spec_assets_for_withdrawal(s, a, t);
        lemma_withdrawal_within_pool(s, a, t);
        if s == t {
            lemma_div_multiples_vanish(a, t);
            assert(w == a);
        } else {
            lemma_quotient_times_divisor_le(s * a, t);
            assert(w < a) by (nonlinear_arith)
                requires
                    w * t <= s * a,
                    s < t,
                    0 < a,
                    0 < t,
                    0 <= w,
            ;
        }
    }
}

} // verus!
