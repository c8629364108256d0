//! A multi-vault pooled-asset accounting core.
//!
//! A registry of independent vaults, each of which accepts one fungible
//! asset, issues proportional claim tokens ("shares") against a shared pool,
//! and lets holders redeem shares for a proportional slice of the pool after
//! a lock period.
//!
//! The crate is the decision core alone. Moving tokens (transfer, mint,
//! burn), reading the clock, and persisting records are the host's work: the
//! host reads the state, hands the core plain values (amounts, identities,
//! the current timestamp), and performs the token-ledger effects exactly when
//! the core returns `Ok`. Each operation here either completes its local
//! bookkeeping or leaves every record unchanged, so a host that applies the
//! effects atomically with the bookkeeping keeps the whole system consistent.

use vstd::prelude::*;

pub mod central_vault;
pub mod errors;
pub mod identity;
pub mod individual_vault;
pub mod lock;
pub mod share_accounting;

use crate::central_vault::CentralVault;
use crate::central_vault::MAX_VAULTS;
use crate::errors::VaultError;
use crate::identity::Identity;
use crate::individual_vault::IndividualVault;

verus! {

/// Sets up the registry under `authority`. Rejected with
/// `AlreadyInitialized` on a registry that was already set up.
pub fn init_central_vault(central_vault: &mut CentralVault, authority: Identity) -> (r: Result<
    (),
    VaultError,
>)
    ensures
        old(central_vault).spec_initialized() ==> r == Err::<(), VaultError>(
            VaultError::AlreadyInitialized,
        ) && *final(central_vault) == *old(central_vault),
        !old(central_vault).spec_initialized() ==> r == Ok::<(), VaultError>(())
            && final(central_vault).spec_initialized()
            && final(central_vault).spec_authority() == authority
            && final(central_vault).vault_ids() === Seq::<Identity>::empty(),
        final(central_vault).wf() || *final(central_vault) == *old(central_vault),
{
    central_vault.initialize(authority)
}

/// What `create_vault` returns, as a function of the starting states and
/// the request. Registry refusals come first; then the vault record itself
/// must be fresh and the lock period representable.
pub open spec fn create_vault_outcome(
    central: CentralVault,
    caller: Identity,
    vault: IndividualVault,
    vault_id: Identity,
    lock_period: i64,
    now: i64,
) -> Result<Identity, VaultError> {
    if central.add_vault_outcome(caller, vault_id) is Err {
        central.add_vault_outcome(caller, vault_id)
    } else if vault.initialized {
        Err(VaultError::AlreadyInitialized)
    } else if lock_period < 0 {
        Err(VaultError::InvalidLockPeriod)
    } else if now + lock_period > i64::MAX {
        Err(VaultError::MathOverflow)
    } else {
        Ok(vault_id)
    }
}

/// Registers `vault_id` and initializes its vault record as one atomic
/// step: on any failure both the registry and the record are left exactly
/// as they were. The registry's recorded authority becomes the new vault's
/// custodian, as the privileged withdrawal address.
pub fn create_vault(
    central_vault: &mut CentralVault,
    caller: Identity,
    central_vault_id: Identity,
    vault: &mut IndividualVault,
    vault_id: Identity,
    asset_mint: Identity,
    receipt_mint: Identity,
    lock_period: i64,
    now: i64,
) -> (r: Result<Identity, VaultError>)
    requires
        old(central_vault).wf(),
    ensures
        r == create_vault_outcome(
            *old(central_vault),
            caller,
            *old(vault),
            vault_id,
            lock_period,
            now,
        ),
        final(central_vault).wf(),
        r is Err ==> *final(central_vault) == *old(central_vault) && *final(vault) == *old(vault),
        r is Ok ==> final(central_vault).vault_ids() == old(central_vault).vault_ids().push(
            vault_id,
        ) && final(central_vault).spec_initialized() && final(central_vault).spec_authority()
            == old(central_vault).spec_authority(),
        r is Ok ==> *final(vault) == (IndividualVault {
            initialized: true,
            asset_mint,
            total_assets: 0,
            total_shares: 0,
            locked_until: (now + lock_period) as i64,
            multisig_address: old(central_vault).spec_authority(),
            receipt_mint,
            central_vault_address: central_vault_id,
        }),
{
    if !central_vault.is_initialized() {
        return Err(VaultError::Unauthorized);
    }
    let multisig_address = central_vault.get_authority();
    if !(caller == multisig_address) {
        return Err(VaultError::Unauthorized);
    }
    if central_vault.contains_vault(vault_id) {
        return Err(VaultError::VaultAlreadyExists);
    }
    if central_vault.get_vault_count() >= MAX_VAULTS as u32 {
        return Err(VaultError::MaxVaultsReached);
    }
    // The vault record is set up first; if that fails, the registry is
    // untouched. The insertion after it cannot fail: every registry check
    // has already passed.
    match vault.initialize(
        asset_mint,
        receipt_mint,
        multisig_address,
        central_vault_id,
        lock_period,
        now,
    ) {
        Ok(unit) => unit,
        Err(e) => return Err(e),
    }
    match central_vault.add_vault(caller, vault_id) {
        Ok(id) => Ok(id),
        Err(e) => Err(e),
    }
}

/// Accepts a deposit into `vault`; see
/// [`IndividualVault::deposit_tokens`]. The host moves `amount` of the
/// asset into custody and mints the returned share count, atomically with
/// this bookkeeping.
pub fn deposit_into_vault(
    vault: &mut IndividualVault,
    depositor_token_mint: Identity,
    amount: u64,
) -> (r: Result<u64, VaultError>)
    ensures
        r == old(vault).deposit_outcome(depositor_token_mint, amount),
        *final(vault) == old(vault).deposit_next(depositor_token_mint, amount),
{
    vault.deposit_tokens(depositor_token_mint, amount)
}

/// Redeems shares from `vault`; see [`IndividualVault::withdraw_tokens`].
/// The host burns the shares and pays out the returned amount, atomically
/// with this bookkeeping.
pub fn withdraw_from_vault(vault: &mut IndividualVault, shares_to_burn: u64, now: i64) -> (r:
    Result<u64, VaultError>)
    ensures
        r == old(vault).withdraw_outcome(shares_to_burn, now),
        *final(vault) == old(vault).withdraw_next(shares_to_burn, now),
{
    vault.withdraw_tokens(shares_to_burn, now)
}

/// A read-only snapshot of one vault's pool totals, `(total_assets,
/// total_shares)`.
pub fn get_vault_info(vault: &IndividualVault) -> (r: Result<(u64, u64), VaultError>)
    ensures
        vault.initialized ==> r == Ok::<(u64, u64), VaultError>(
            (vault.total_assets, vault.total_shares),
        ),
        !vault.initialized ==> r == Err::<(u64, u64), VaultError>(VaultError::VaultNotFound),
{
    if !vault.initialized {
        return Err(VaultError::VaultNotFound);
    }
    Ok((vault.get_total_assets(), vault.get_total_shares()))
}

} // verus!
