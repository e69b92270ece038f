//! State that several threads share behind a lock.
//!
//! What a lock guards can be changed by any thread that holds the lock, so
//! nothing is known of it when the lock is taken: the functions that work on
//! shared state say what holds whatever the state was, and leave the exact
//! account to the functions that work on the state itself.

use std::sync::Arc;
use vstd::prelude::*;

verus! {

/// `parking_lot::RawMutex`, the lock inside a `parking_lot::Mutex`. Nothing
/// is claimed of it.
#[verifier::external_type_specification]
#[verifier::external_body]
pub struct ExRawMutex(parking_lot::RawMutex);

/// `lock_api::Mutex`, of which `parking_lot::Mutex<T>` is the instance with
/// `parking_lot::RawMutex`. Nothing is claimed of what it guards.
#[verifier::external_type_specification]
#[verifier::external_body]
#[verifier::reject_recursive_types(R)]
#[verifier::reject_recursive_types(T)]
pub struct ExMutex<R, T: ?Sized>(parking_lot::lock_api::Mutex<R, T>);

/// A held lock: wraps the `parking_lot::MutexGuard` that `Mutex::lock`
/// returns. The lock is given back when the guard goes out of scope.
///
/// Verus does not look into this struct. The guard type cannot be declared
/// to it as the lock is: its header is bound by `lock_api::RawMutex`, a
/// trait that Verus does not know.
#[verifier::external_body]
#[verifier::reject_recursive_types(T)]
pub struct SharedGuard<'a, T> {
    guard: parking_lot::MutexGuard<'a, T>,
}

/// A value behind a lock, with any number of owners.
#[verifier::reject_recursive_types(T)]
pub struct Shared<T> {
    inner: Arc<parking_lot::Mutex<T>>,
}

/// `parking_lot::Mutex::new`: a new, free lock around `what`. The contract
/// claims nothing.
#[verifier::external_body]
fn new_mutex<T>(what: T) -> (mutex: parking_lot::Mutex<T>) {
    parking_lot::Mutex::new(what)
}

/// `Arc::clone`: another owner of the same lock. The contract claims that
/// the result is the lock that `this` owns.
#[verifier::external_body]
fn share_mutex<T>(this: &Arc<parking_lot::Mutex<T>>) -> (other: Arc<parking_lot::Mutex<T>>)
    ensures
        other == *this,
{
    Arc::clone(this)
}

/// `parking_lot::Mutex::lock`: waits until the lock is free and takes it.
/// The contract claims nothing of the guarded value. The call would not
/// return if the calling thread itself held the lock. That cannot happen
/// here: a guard never leaves this crate, and every function of the crate
/// that takes a lock takes it once and gives it back before it returns or
/// calls another function that takes locks.
#[verifier::external_body]
fn lock_mutex<'a, T>(mutex: &'a parking_lot::Mutex<T>) -> (guard: SharedGuard<'a, T>) {
    SharedGuard { guard: mutex.lock() }
}

/// `DerefMut::deref_mut` of `parking_lot::MutexGuard`: the guarded value,
/// for as long as the guard is borrowed. The contract claims nothing of the
/// value.
#[verifier::external_body]
pub(crate) fn guarded<'a, 'b, T>(guard: &'a mut SharedGuard<'b, T>) -> (value: &'a mut T) {
    &mut *guard.guard
}

impl<T> Shared<T> {
    /// Puts `what` behind a new lock.
    pub fn adopt(what: T) -> (shared: Self) {
        Shared { inner: Arc::new(new_mutex(what)) }
    }

    /// Another owner of the same lock and value.
    pub fn share(&self) -> (other: Self)
        ensures
            other == *self,
    {
        Shared { inner: share_mutex(&self.inner) }
    }

    /// Takes the lock, waiting until it is free.
    pub(crate) fn lock(&self) -> (guard: SharedGuard<'_, T>) {
        lock_mutex(&self.inner)
    }
}

} // verus!
