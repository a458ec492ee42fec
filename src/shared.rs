//! The lock that guards a server slot shared between threads.
use vstd::prelude::*;

verus! {

#[verifier::external_type_specification]
#[verifier::external_body]
#[verifier::reject_recursive_types(R)]
#[verifier::reject_recursive_types(T)]
pub struct ExLockMutex<R, T: ?Sized>(parking_lot::lock_api::Mutex<R, T>);

#[verifier::external_type_specification]
#[verifier::external_body]
pub struct ExRawMutex(parking_lot::RawMutex);

/// Relies on parking_lot::Mutex::new: an unlocked mutex around `v`.
#[verifier::external_body]
pub(crate) fn new_mutex<T>(v: T) -> (r: parking_lot::Mutex<T>) {
    parking_lot::Mutex::new(v)
}

/// Relies on parking_lot::Mutex::lock: puts `v` in the mutex and returns what
/// was there, holding the lock for the exchange alone. What comes back depends
/// on what other threads stored, so nothing is promised of it.
#[verifier::external_body]
pub(crate) fn swap_locked<T>(m: &parking_lot::Mutex<T>, v: T) -> (r: T) {
    std::mem::replace(&mut *m.lock(), v)
}

} // verus!
