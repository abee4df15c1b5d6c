//! Declarations that let verified code hold the standard library's mutex.
//!
//! Nothing is claimed about what a mutex holds: other threads may write
//! between any two operations, so every value read from one is arbitrary as
//! far as the proofs are concerned. Nothing here is proved; each item states
//! what is taken on trust from `std::sync`.

use vstd::prelude::*;
use std::sync::LockResult;
use std::sync::Mutex;
use std::sync::MutexGuard;
use std::sync::PoisonError;

verus! {

/// `std::sync::Mutex`, opaque: a value of it can be held and passed on,
/// nothing is known of its content.
#[verifier::external_type_specification]
#[verifier::external_body]
#[verifier::reject_recursive_types(T)]
pub struct ExMutex<T: ?Sized>(Mutex<T>);

/// `std::sync::MutexGuard`, opaque: the lock is held for as long as a value
/// of it lives.
#[verifier::external_type_specification]
#[verifier::external_body]
#[verifier::reject_recursive_types(T)]
pub struct ExMutexGuard<'a, T: ?Sized + 'a>(MutexGuard<'a, T>);

/// `std::sync::PoisonError`, opaque: the error of a lock whose earlier
/// holder panicked.
#[verifier::external_type_specification]
#[verifier::external_body]
#[verifier::reject_recursive_types(T)]
pub struct ExPoisonError<T>(PoisonError<T>);

/// `Mutex::new` returns a mutex; nothing is claimed of it.
pub assume_specification<T>[ Mutex::<T>::new ](t: T) -> (mutex: Mutex<T>)
;

/// `Mutex::lock` returns a guard, or the error of a poisoned lock; nothing is
/// claimed of either. A thread that already holds the lock must not call it
/// again: the callers in this crate take the lock once and release it before
/// they return.
pub assume_specification<'a, T: ?Sized>[ Mutex::<T>::lock ](mutex: &'a Mutex<T>) -> (guard:
    LockResult<MutexGuard<'a, T>>)
;

/// `MutexGuard::deref` gives the value behind the lock; nothing is claimed
/// of it.
pub assume_specification<'a, 'b, T: ?Sized>[ <MutexGuard<'a, T> as core::ops::Deref>::deref ](
    guard: &'b MutexGuard<'a, T>,
) -> (value: &'b T)
;

/// `MutexGuard::deref_mut` gives write access to the value behind the lock;
/// nothing is claimed of what was there or of what a later reader finds.
pub assume_specification<'a, 'b, T: ?Sized>[ <MutexGuard<'a, T> as core::ops::DerefMut>::deref_mut ](
    guard: &'b mut MutexGuard<'a, T>,
) -> (value: &'b mut T)
;

} // verus!
