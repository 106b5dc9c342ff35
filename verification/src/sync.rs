//! Sharing between threads: the reader-writer lock of `parking_lot` and the
//! cloning of `Arc`, as far as the library uses them.
//!
//! Nothing in this file is proved. A lock hands out what another thread may
//! have stored a moment ago, so no contract here says what a guard gives access
//! to: callers know of the protected value what its type guarantees, and no
//! more.

use parking_lot::lock_api::{RwLock, RwLockReadGuard, RwLockWriteGuard};
use parking_lot::RawRwLock;
use std::sync::Arc;
use vstd::prelude::*;

verus! {

/// `parking_lot::RawRwLock`, the lock word behind `parking_lot::RwLock`.
#[verifier::external_type_specification]
#[verifier::external_body]
pub struct ExRawRwLock(RawRwLock);

/// `lock_api::RwLock`. With `RawRwLock` for `R` it is `parking_lot::RwLock<T>`.
#[verifier::external_type_specification]
#[verifier::external_body]
#[verifier::reject_recursive_types(R)]
#[verifier::reject_recursive_types(T)]
pub struct ExRwLock<R, T: ?Sized>(RwLock<R, T>);

/// Exclusive access to the value in a lock, for as long as the guard lives.
///
/// Holds a `parking_lot::RwLockWriteGuard`, which releases the lock when it is
/// dropped. The guard type is bounded by a trait of `lock_api` and cannot be
/// declared to Verus as it is, so it is kept behind this struct.
#[verifier::external_body]
#[verifier::reject_recursive_types(T)]
pub(crate) struct WriteGuard<'a, T> {
    guard: RwLockWriteGuard<'a, RawRwLock, T>,
}

/// Shared access to the value in a lock, for as long as the guard lives.
///
/// Holds a `parking_lot::RwLockReadGuard`, which releases the lock when it is
/// dropped; kept behind this struct for the same reason as the write guard.
#[verifier::external_body]
#[verifier::reject_recursive_types(T)]
pub(crate) struct ReadGuard<'a, T> {
    guard: RwLockReadGuard<'a, RawRwLock, T>,
}

/// `RwLock::new`: an unlocked lock that protects `value`. Nothing is claimed
/// of the lock.
#[verifier::external_body]
pub(crate) fn new_lock<T>(value: T) -> (lock: RwLock<RawRwLock, T>) {
    RwLock::new(value)
}

/// `RwLock::write`: blocks until no other guard of the lock is alive, then
/// gives exclusive access. Nothing is claimed of the guard.
///
/// A thread that still holds a guard of the same lock never gets past this
/// call. Callers take one guard at a time and let go of it before they return.
#[verifier::external_body]
pub(crate) fn write_access<'a, T>(lock: &'a RwLock<RawRwLock, T>) -> (guard: WriteGuard<'a, T>) {
    WriteGuard { guard: lock.write() }
}

/// `DerefMut::deref_mut` of the write guard: the protected value, to read and
/// to change. Nothing is claimed of the value.
#[verifier::external_body]
pub(crate) fn value_mut<'a, 'b, T>(guard: &'b mut WriteGuard<'a, T>) -> (value: &'b mut T) {
    &mut *guard.guard
}

/// `RwLock::read`: blocks until no writer holds the lock, then gives shared
/// access. Nothing is claimed of the guard.
///
/// The call panics when the number of read guards alive at once no longer fits
/// the lock word. Callers take one guard at a time and let go of it before
/// they return, so there are never more guards than threads.
#[verifier::external_body]
pub(crate) fn read_access<'a, T>(lock: &'a RwLock<RawRwLock, T>) -> (guard: ReadGuard<'a, T>) {
    ReadGuard { guard: lock.read() }
}

/// `Deref::deref` of the read guard: the protected value, to read. Nothing is
/// claimed of the value.
#[verifier::external_body]
pub(crate) fn value<'a, 'b, T>(guard: &'b ReadGuard<'a, T>) -> (value: &'b T) {
    &*guard.guard
}

/// `Arc::clone`: one more pointer to the same allocation. The allocation is not
/// copied, so as a value the new pointer is the one it was cloned from.
#[verifier::external_body]
pub(crate) fn share<T>(pointer: &Arc<T>) -> (other: Arc<T>)
    ensures
        other == *pointer,
{
    Arc::clone(pointer)
}

} // verus!
