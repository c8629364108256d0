//! The failure taxonomy of the vault core.

use vstd::prelude::*;

verus! {

/// Every way an operation of the core can fail.
///
/// Validation errors (`InvalidAmount`, `InvalidTokenMint`,
/// `InvalidLockPeriod`) are rejected before any state change. Authorization
/// errors (`Unauthorized`) are rejected before mutation. Policy errors
/// (`LockPeriodNotOver`, `MaxVaultsReached`, `VaultAlreadyExists`,
/// `AlreadyInitialized`, `ZeroValueWithdrawal`) follow deterministically from
/// the current state. Integrity errors (`LedgerCorruption`, `MathOverflow`)
/// indicate a prior bug or an out-of-range request rather than routine bad
/// input. A failed operation always leaves every record unchanged.
#[derive(Clone, Copy, Debug, PartialEq, Eq, Structural)]
pub enum VaultError {
    /// The registry or vault record was already set up.
    AlreadyInitialized,
    /// The vault identity is already present in the registry.
    VaultAlreadyExists,
    /// The registry already holds `MAX_VAULTS` identities.
    MaxVaultsReached,
    /// The caller is not the registry's recorded authority.
    Unauthorized,
    /// A zero deposit amount or a zero share count to burn.
    InvalidAmount,
    /// The depositor presented tokens of a mint other than the vault's asset.
    InvalidTokenMint,
    /// A negative lock period.
    InvalidLockPeriod,
    /// Withdrawal attempted before the vault's unlock timestamp.
    LockPeriodNotOver,
    /// The vault record is not initialized.
    VaultNotFound,
    /// The requested share burn would round down to zero assets; rejecting it
    /// keeps dust from being burned for nothing.
    ZeroValueWithdrawal,
    /// A result or a running total does not fit its machine integer.
    MathOverflow,
    /// A withdrawal would drive a pool total below zero, which only a prior
    /// invariant breach can cause.
    LedgerCorruption,
}

} // verus!
