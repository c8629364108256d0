//! The lock policy: a per-vault unlock timestamp, enforced at withdrawal.

use crate::errors::VaultError;
use vstd::prelude::*;

verus! {

/// The unlock timestamp for a vault created at `now` with `lock_period`.
///
/// A negative lock period is a caller error, not a duration; a sum past
/// `i64::MAX` cannot be represented as a timestamp. Both are rejected.
pub fn compute_unlock(now: i64, lock_period: i64) -> (r: Result<i64, VaultError>)
    ensures
        lock_period < 0 ==> r == Err::<i64, VaultError>(VaultError::InvalidLockPeriod),
        lock_period >= 0 && now + lock_period > i64::MAX ==> r == Err::<i64, VaultError>(
            VaultError::MathOverflow,
        ),
        lock_period >= 0 && now + lock_period <= i64::MAX ==> r == Ok::<i64, VaultError>(
            (now + lock_period) as i64,
        ),
{
    if lock_period < 0 {
        Err(VaultError::InvalidLockPeriod)
    } else if now <= i64::MAX - lock_period {
        Ok(now + lock_period)
    } else {
        Err(VaultError::MathOverflow)
    }
}

/// Whether a vault locked until `locked_until` is open at `now`: the lock
/// ends exactly at its timestamp, not after it.
pub fn is_unlocked(now: i64, locked_until: i64) -> (r: bool)
    ensures
        r == (now >= locked_until),
{
    now >= locked_until
}

} // verus!
