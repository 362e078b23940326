//! Help for tests that share one runtime.

use std::sync::{MutexGuard, PoisonError};
use vstd::prelude::*;

verus! {

/// The hold on a `Mutex` of std, which ends when the guard is dropped.
#[verifier::external_type_specification]
#[verifier::external_body]
#[verifier::reject_recursive_types(T)]
pub struct ExMutexGuard<'a, T: ?Sized + 'a>(MutexGuard<'a, T>);

/// What `Mutex::lock` of std gives where a thread failed while it held the lock.
#[verifier::external_type_specification]
#[verifier::external_body]
#[verifier::reject_recursive_types(T)]
pub struct ExPoisonError<T>(PoisonError<T>);

/// The guard that a poisoned lock still gives: what `PoisonError::into_inner` of std hands
/// out of `error`, which holds that guard whole.
pub uninterp spec fn poisoned_guard(error: PoisonError<MutexGuard<'_, ()>>) -> MutexGuard<'_, ()>
;

/// `PoisonError::into_inner` of std hands out the guard that the error holds, and nothing
/// else comes of the call: the result is named [`poisoned_guard`] of the error.
#[verifier::external_body]
fn into_guard<'a>(error: PoisonError<MutexGuard<'a, ()>>) -> (guard: MutexGuard<'a, ()>)
    ensures
        guard == poisoned_guard(error),
{
    error.into_inner()
}

/// The guard that an attempt to lock gave, whether or not the lock was poisoned.
pub open spec fn spec_runtime_lock<'a>(
    locked: Result<MutexGuard<'a, ()>, PoisonError<MutexGuard<'a, ()>>>,
) -> MutexGuard<'a, ()> {
    match locked {
        Ok(guard) => guard,
        Err(poisoned) => poisoned_guard(poisoned),
    }
}

/// Takes the hold on the lock of a runtime that several tests share out of what locking it
/// gave: the guard itself where the lock was sound, and the guard that the error still holds
/// where it was poisoned. The lock is held until the guard is dropped.
///
/// A test that failed while it held the lock leaves it poisoned: that is passed over, as the
/// lock is there to keep the tests apart, not to tell whether one of them failed. The caller
/// does the locking, on a lock that its thread does not hold already.
pub fn runtime_lock<'a>(locked: Result<MutexGuard<'a, ()>, PoisonError<MutexGuard<'a, ()>>>) -> (guard:
    MutexGuard<'a, ()>)
    ensures
        guard == spec_runtime_lock(locked),
{
    match locked {
        Ok(guard) => guard,
        Err(poisoned) => into_guard(poisoned),
    }
}

} // verus!
