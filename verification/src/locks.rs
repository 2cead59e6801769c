//! Reader-writer locks of `parking_lot`, as far as the library uses them.
//!
//! Verus sees neither the locks nor what they guard: every value read from a
//! guard may have been written by another thread, so the contracts here
//! promise nothing about it. The guard types of `lock_api` are bound by its
//! own traits, which Verus cannot be told of; each guard is therefore held in
//! a struct of this module that Verus does not look into.
use parking_lot::lock_api::{RwLock, RwLockReadGuard, RwLockUpgradableReadGuard, RwLockWriteGuard};
use parking_lot::RawRwLock;
use vstd::prelude::*;

verus! {

/// `parking_lot::RawRwLock`: the lock word inside every `parking_lot::RwLock`.
#[verifier::external_type_specification]
#[verifier::external_body]
pub struct ExRawRwLock(RawRwLock);

/// `lock_api::RwLock`, of which `parking_lot::RwLock<T>` is the instance with
/// `RawRwLock`.
#[verifier::external_type_specification]
#[verifier::external_body]
#[verifier::reject_recursive_types(R)]
#[verifier::reject_recursive_types(T)]
pub struct ExRwLock<R, T: ?Sized>(RwLock<R, T>);

/// Holds a `parking_lot::RwLockReadGuard`: shared access until it is dropped.
#[verifier::external_body]
#[verifier::reject_recursive_types(T)]
pub struct ReadGuard<'a, T> {
    guard: RwLockReadGuard<'a, RawRwLock, T>,
}

/// Holds a `parking_lot::RwLockUpgradableReadGuard`: shared access that keeps
/// writers and other upgradable readers out until it is dropped or upgraded.
#[verifier::external_body]
#[verifier::reject_recursive_types(T)]
pub struct UpgradableGuard<'a, T> {
    guard: RwLockUpgradableReadGuard<'a, RawRwLock, T>,
}

/// Holds a `parking_lot::RwLockWriteGuard`: exclusive access until it is
/// dropped.
#[verifier::external_body]
#[verifier::reject_recursive_types(T)]
pub struct WriteGuard<'a, T> {
    guard: RwLockWriteGuard<'a, RawRwLock, T>,
}

/// Calls `parking_lot::RwLock::new`, which puts `value` behind a fresh,
/// unlocked lock.
#[verifier::external_body]
pub(crate) fn new_lock<T>(value: T) -> RwLock<RawRwLock, T> {
    RwLock::new(value)
}

/// Calls `parking_lot::RwLock::read`, which blocks until shared access is
/// granted. The caller holds no guard of the same lock.
#[verifier::external_body]
pub(crate) fn read<'a, T>(lock: &'a RwLock<RawRwLock, T>) -> ReadGuard<'a, T> {
    ReadGuard { guard: lock.read() }
}

/// Calls `Deref::deref` of `RwLockReadGuard`: the guarded value, as it is
/// while the guard lives.
#[verifier::external_body]
pub(crate) fn shared<'g, 'a, T>(guard: &'g ReadGuard<'a, T>) -> &'g T {
    &guard.guard
}

/// Calls `parking_lot::RwLock::upgradable_read`, which blocks until no writer
/// and no other upgradable reader holds the lock. The caller holds no guard
/// of the same lock.
#[verifier::external_body]
pub(crate) fn upgradable_read<'a, T>(lock: &'a RwLock<RawRwLock, T>) -> UpgradableGuard<'a, T> {
    UpgradableGuard { guard: lock.upgradable_read() }
}

/// Calls `Deref::deref` of `RwLockUpgradableReadGuard`: the guarded value,
/// which no other thread can change before the guard is dropped or upgraded.
#[verifier::external_body]
pub(crate) fn peek<'g, 'a, T>(guard: &'g UpgradableGuard<'a, T>) -> &'g T {
    &guard.guard
}

/// Calls `RwLockUpgradableReadGuard::upgrade`, which turns the guard into a
/// write guard without letting go of the lock in between.
#[verifier::external_body]
pub(crate) fn upgrade<'a, T>(guard: UpgradableGuard<'a, T>) -> WriteGuard<'a, T> {
    WriteGuard { guard: RwLockUpgradableReadGuard::upgrade(guard.guard) }
}

/// Calls `DerefMut::deref_mut` of `RwLockWriteGuard` and assigns through it:
/// `value` takes the place of the guarded value.
#[verifier::external_body]
pub(crate) fn replace<'a, T>(guard: &mut WriteGuard<'a, T>, value: T) {
    *guard.guard = value;
}

} // verus!
