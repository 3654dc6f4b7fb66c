//! The reader-writer lock that guards a shared participant.
//!
//! The participant lives in a `parking_lot::RwLock`. Nothing in this module
//! is verified: each function makes one call into `parking_lot` and states
//! nothing of what the lock holds, since another thread may have written to
//! it at any moment before the guard was taken. What is done with the
//! participant while a guard is held is verified where it is done.
//!
//! A guard releases the lock when it goes out of scope. The callers in this
//! crate take one guard at a time and never hand it out, so no thread asks
//! for the lock while it holds it.

use vstd::prelude::*;
use crate::participant::LocalParticipant;

verus! {

/// `parking_lot::RawRwLock`, the raw lock inside `parking_lot::RwLock`.
/// Opaque: nothing is known of its state.
#[verifier::external_type_specification]
#[verifier::external_body]
pub struct ExRawRwLock(parking_lot::RawRwLock);

/// `lock_api::RwLock`, of which `parking_lot::RwLock<T>` is the instance with
/// `parking_lot::RawRwLock`. Opaque: nothing is known of the value inside.
#[verifier::external_type_specification]
#[verifier::external_body]
#[verifier::reject_recursive_types(R)]
#[verifier::reject_recursive_types(T)]
pub struct ExRwLock<R, T: ?Sized>(parking_lot::lock_api::RwLock<R, T>);

/// Shared access to the participant: holds the
/// `parking_lot::RwLockReadGuard` that `RwLock::read` returned. While it
/// lives no writer holds the lock.
#[verifier::external_body]
pub(crate) struct ReadGuard<'a> {
    guard: parking_lot::RwLockReadGuard<'a, LocalParticipant>,
}

/// Exclusive access to the participant: holds the
/// `parking_lot::RwLockWriteGuard` that `RwLock::write` returned. While it
/// lives no other reader or writer holds the lock.
#[verifier::external_body]
pub(crate) struct WriteGuard<'a> {
    guard: parking_lot::RwLockWriteGuard<'a, LocalParticipant>,
}

/// `parking_lot::RwLock::new`: an unlocked lock around `participant`.
#[verifier::external_body]
pub(crate) fn new_lock(participant: LocalParticipant) -> (lock: parking_lot::RwLock<LocalParticipant>) {
    parking_lot::RwLock::new(participant)
}

/// `parking_lot::RwLock::read`: waits until no writer holds the lock and
/// takes shared access.
#[verifier::external_body]
pub(crate) fn read_lock<'a>(lock: &'a parking_lot::RwLock<LocalParticipant>) -> (guard: ReadGuard<'a>) {
    ReadGuard { guard: lock.read() }
}

/// `parking_lot::RwLock::write`: waits until nobody holds the lock and takes
/// exclusive access.
#[verifier::external_body]
pub(crate) fn write_lock<'a>(lock: &'a parking_lot::RwLock<LocalParticipant>) -> (guard: WriteGuard<'a>) {
    WriteGuard { guard: lock.write() }
}

/// `Deref` of `parking_lot::RwLockReadGuard`: the participant inside the
/// lock, whatever it is at this moment.
#[verifier::external_body]
pub(crate) fn guarded<'a, 'b>(guard: &'a ReadGuard<'b>) -> (participant: &'a LocalParticipant) {
    &*guard.guard
}

/// `DerefMut` of `parking_lot::RwLockWriteGuard`: the participant inside the
/// lock, whatever it is at this moment, open to change.
#[verifier::external_body]
pub(crate) fn guarded_mut<'a, 'b>(guard: &'a mut WriteGuard<'b>) -> (participant: &'a mut LocalParticipant) {
    &mut *guard.guard
}

} // verus!
