//! The registry of vault identities, under one administrative authority.
//!
//! The registry holds an explicit set of identities so that duplicates can
//! be detected; insertion order carries no meaning. Its invariant — no
//! duplicate identity, never more than [`MAX_VAULTS`] — is established by
//! the constructor and preserved by every operation.

use crate::errors::VaultError;
use crate::identity::Identity;
use crate::individual_vault::IndividualVault;
use vstd::prelude::*;

verus! {

/// The capacity of the registry: the number of vault identities it can
/// record.
pub const MAX_VAULTS: usize = 100;

/// The persisted state of the registry.
///
/// `initialized` is the explicit counterpart of the host's fresh-record
/// guarantee; until `initialize` has run, no caller is the recorded
/// authority and every mutation is refused.
pub struct CentralVault {
    initialized: bool,
    authority: Identity,
    vaults: Vec<Identity>,
}

impl CentralVault {
    /// Whether `initialize` has run.
    pub closed spec fn spec_initialized(self) -> bool {
        self.initialized
    }

    /// The identity permitted to register vaults.
    pub closed spec fn spec_authority(self) -> Identity {
        self.authority
    }

    /// The registered vault identities, in insertion order.
    pub closed spec fn vault_ids(self) -> Seq<Identity> {
        self.vaults@
    }

    /// The registry invariant: no duplicate vault identity, and never more
    /// than `MAX_VAULTS` of them.
    pub open spec fn wf(self) -> bool {
        self.vault_ids().no_duplicates() && self.vault_ids().len() <= MAX_VAULTS
    }

    /// What `add_vault` returns, as a function of the starting state and
    /// the request. The duplicate check comes before the capacity check, so
    /// re-registering an identity is always reported as
    /// `VaultAlreadyExists`, even at capacity.
    pub open spec fn add_vault_outcome(self, caller: Identity, vault_id: Identity) -> Result<
        Identity,
        VaultError,
    > {
        if !self.spec_initialized() || caller != self.spec_authority() {
            Err(VaultError::Unauthorized)
        } else if self.vault_ids().contains(vault_id) {
            Err(VaultError::VaultAlreadyExists)
        } else if self.vault_ids().len() >= MAX_VAULTS {
            Err(VaultError::MaxVaultsReached)
        } else {
            Ok(vault_id)
        }
    }

    /// The identity set `add_vault` leaves behind: grown by `vault_id` on
    /// success, unchanged on failure.
    pub open spec fn add_vault_next_ids(self, caller: Identity, vault_id: Identity) -> Seq<
        Identity,
    > {
        if self.add_vault_outcome(caller, vault_id) is Ok {
            self.vault_ids().push(vault_id)
        } else {
            self.vault_ids()
        }
    }

    /// A registry record that is not yet initialized and holds no vaults.
    pub fn new() -> (c: CentralVault)
        ensures
            !c.spec_initialized(),
            c.vault_ids() === Seq::<Identity>::empty(),
            c.wf(),
    {
        let c = CentralVault { initialized: false, authority: Identity::zero(), vaults: Vec::new() };
        proof {
            assert(c.vaults@ =~= Seq::<Identity>::empty());
        }
        c
    }

    /// Records the authority and empties the vault set. Callable once:
    /// re-invocation fails with `AlreadyInitialized` and resets nothing.
    pub fn initialize(&mut self, authority: Identity) -> (r: Result<(), VaultError>)
        ensures
            old(self).spec_initialized() ==> r == Err::<(), VaultError>(
                VaultError::AlreadyInitialized,
            ) && *final(self) == *old(self),
            !old(self).spec_initialized() ==> r == Ok::<(), VaultError>(())
                && final(self).spec_initialized()
                && final(self).spec_authority() == authority
                && final(self).vault_ids() === Seq::<Identity>::empty(),
            final(self).wf() || *final(self) == *old(self),
    {
        if self.initialized {
            return Err(VaultError::AlreadyInitialized);
        }
        self.initialized = true;
        self.authority = authority;
        self.vaults = Vec::new();
        proof {
            assert(self.vaults@ =~= Seq::<Identity>::empty());
        }
        Ok(())
    }

    /// Whether `initialize` has run on this record.
    pub fn is_initialized(&self) -> (r: bool)
        ensures
            r == self.spec_initialized(),
    {
        self.initialized
    }

    /// The recorded authority.
    pub fn get_authority(&self) -> (r: Identity)
        ensures
            r == self.spec_authority(),
    {
        self.authority
    }

    /// Whether `vault_id` is already registered.
    pub fn contains_vault(&self, vault_id: Identity) -> (r: bool)
        ensures
            r == self.vault_ids().contains(vault_id),
    {
        let mut i: usize = 0;
        while i < self.vaults.len()
            invariant
                i <= self.vaults.len(),
                forall|j: int| 0 <= j < i ==> self.vaults@[j] != vault_id,
            decreases self.vaults.len() - i,
        {
            if self.vaults[i] == vault_id {
                proof {
                    assert(self.vault_ids()[i as int] == vault_id);
                }
                return true;
            }
            i = i + 1;
        }
        false
    }

    /// Registers a vault identity. Only the recorded authority may call;
    /// a duplicate identity is rejected, and so is an insertion past
    /// `MAX_VAULTS`. On success the new identity is returned.
    pub fn add_vault(&mut self, caller: Identity, vault_id: Identity) -> (r: Result<
        Identity,
        VaultError,
    >)
        requires
            old(self).wf(),
        ensures
            r == old(self).add_vault_outcome(caller, vault_id),
            final(self).vault_ids() == old(self).add_vault_next_ids(caller, vault_id),
            final(self).spec_initialized() == old(self).spec_initialized(),
            final(self).spec_authority() == old(self).spec_authority(),
            final(self).wf(),
    {
        if !self.initialized {
            return Err(VaultError::Unauthorized);
        }
        if !(caller == self.authority) {
            return Err(VaultError::Unauthorized);
        }
        if self.contains_vault(vault_id) {
            return Err(VaultError::VaultAlreadyExists);
        }
        if self.vaults.len() >= MAX_VAULTS {
            return Err(VaultError::MaxVaultsReached);
        }
        proof {
            let ids = self.vault_ids();
            assert forall|i: int, j: int|
                (0 <= i < ids.push(vault_id).len() && 0 <= j < ids.push(vault_id).len() && i
                    != j) implies ids.push(vault_id)[i] != ids.push(vault_id)[j] by {
                if i < ids.len() && ids[i] == vault_id {
                    assert(ids.contains(vault_id));
                }
                if j < ids.len() && ids[j] == vault_id {
                    assert(ids.contains(vault_id));
                }
            }
        }
        self.vaults.push(vault_id);
        Ok(vault_id)
    }

    /// The number of registered vaults.
    pub fn get_vault_count(&self) -> (r: u32)
        requires
            self.wf(),
        ensures
            r == self.vault_ids().len(),
    {
        self.vaults.len() as u32
    }

    /// Sums `total_assets` over externally supplied point-in-time snapshots
    /// of vault records.
    ///
    /// Each snapshot is observed independently, so across vaults the sum is
    /// a best-effort estimate, not a serializable total. The 128-bit result
    /// makes the fold itself exact for any snapshot list.
    pub fn calculate_total_assets(&self, vault_infos: &Vec<IndividualVault>) -> (r: u128)
        ensures
            r == sum_of_assets(vault_infos@),
    {
        let mut total: u128 = 0;
        let mut i: usize = 0;
        while i < vault_infos.len()
            invariant
                i <= vault_infos.len(),
                total == sum_of_assets(vault_infos@.take(i as int)),
                total <= (i as int) * (u64::MAX as int),
            decreases vault_infos.len() - i,
        {
            proof {
                lemma_running_sum_fits(total, vault_infos@[i as int].total_assets, i as int);
                assert(vault_infos@.take(i as int + 1).drop_last() =~= vault_infos@.take(i as int));
            }
            total = total + (vault_infos[i].total_assets as u128);
            i = i + 1;
        }
        proof {
            assert(vault_infos@.take(vault_infos@.len() as int) =~= vault_infos@);
        }
        total
    }

    /// Sums `total_shares` over externally supplied point-in-time snapshots
    /// of vault records; the same best-effort caveat as
    /// [`Self::calculate_total_assets`] applies.
    pub fn calculate_total_shares(&self, vault_infos: &Vec<IndividualVault>) -> (r: u128)
        ensures
            r == sum_of_shares(vault_infos@),
    {
        let mut total: u128 = 0;
        let mut i: usize = 0;
        while i < vault_infos.len()
            invariant
                i <= vault_infos.len(),
                total == sum_of_shares(vault_infos@.take(i as int)),
                total <= (i as int) * (u64::MAX as int),
            decreases vault_infos.len() - i,
        {
            proof {
                lemma_running_sum_fits(total, vault_infos@[i as int].total_shares, i as int);
                assert(vault_infos@.take(i as int + 1).drop_last() =~= vault_infos@.take(i as int));
            }
            total = total + (vault_infos[i].total_shares as u128);
            i = i + 1;
        }
        proof {
            assert(vault_infos@.take(vault_infos@.len() as int) =~= vault_infos@);
        }
        total
    }
}

/// The sum of `total_assets` over a sequence of vault snapshots.
pub open spec fn sum_of_assets(vaults: Seq<IndividualVault>) -> int
    decreases vaults.len(),
{
    if vaults.len() == 0 {
        0
    } else {
        sum_of_assets(vaults.drop_last()) + vaults.last().total_assets
    }
}

/// The sum of `total_shares` over a sequence of vault snapshots.
pub open spec fn sum_of_shares(vaults: Seq<IndividualVault>) -> int
    decreases vaults.len(),
{
    if vaults.len() == 0 {
        0
    } else {
        sum_of_shares(vaults.drop_last()) + vaults.last().total_shares
    }
}

/// A running 128-bit sum of 64-bit terms cannot overflow before `u64::MAX`
/// terms have been added.
proof fn lemma_running_sum_fits(total: u128, next: u64, count: int)
    by (nonlinear_arith)
    requires
        total as int <= count * (u64::MAX as int),
        0 <= count <= u64::MAX as int,
    ensures
        total as int + next as int <= u128::MAX as int,
        total as int + next as int <= (count + 1) * (u64::MAX as int),
{
}

/// Registering the same identity twice: once the first call has succeeded,
/// the identical request on the resulting state is rejected with
/// `VaultAlreadyExists`.
pub proof fn lemma_add_vault_rejects_duplicate(
    pre: CentralVault,
    post: CentralVault,
    caller: Identity,
    vault_id: Identity,
)
    requires
        pre.add_vault_outcome(caller, vault_id) is Ok,
        post.spec_initialized() == pre.spec_initialized(),
        post.spec_authority() == pre.spec_authority(),
        post.vault_ids() == pre.add_vault_next_ids(caller, vault_id),
    ensures
        post.add_vault_outcome(caller, vault_id) == Err::<Identity, VaultError>(
            VaultError::VaultAlreadyExists,
        ),
{
    let grown = pre.vault_ids().push(vault_id);
    assert(grown[grown.len() - 1] == vault_id);
    assert(grown.contains(vault_id));
}

/// The capacity law: an authorized insertion of a fresh identity succeeds
/// exactly while the registry holds fewer than `MAX_VAULTS` identities, and
/// is rejected with `MaxVaultsReached` at capacity.
pub proof fn lemma_add_vault_capacity(c: CentralVault, caller: Identity, vault_id: Identity)
    requires
        c.spec_initialized(),
        caller == c.spec_authority(),
        !c.vault_ids().contains(vault_id),
    ensures
        c.vault_ids().len() < MAX_VAULTS ==> c.add_vault_outcome(caller, vault_id)
            == Ok::<Identity, VaultError>(vault_id),
        c.vault_ids().len() >= MAX_VAULTS ==> c.add_vault_outcome(caller, vault_id)
            == Err::<Identity, VaultError>(VaultError::MaxVaultsReached),
{
}

} // verus!
