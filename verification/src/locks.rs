//! Trackers behind a `Mutex` or an `RwLock`.
//!
//! With `&mut` access to the lock no one else can hold it, so the tracker
//! inside is reached with `get_mut`, which never waits. Where the lock is
//! poisoned, the tracker inside is used as it stands.
use std::sync::{Mutex, PoisonError, RwLock};
use vstd::prelude::*;

use crate::tracker::GetSizeTracker;

verus! {

#[verifier::external_type_specification]
#[verifier::external_body]
#[verifier::reject_recursive_types(T)]
pub struct ExMutex<T: ?Sized>(Mutex<T>);

#[verifier::external_type_specification]
#[verifier::external_body]
#[verifier::reject_recursive_types(T)]
pub struct ExRwLock<T: ?Sized>(RwLock<T>);

/// Calls `Mutex::get_mut`: the value inside a mutex that no one else can
/// reach. Where the mutex is poisoned, the value is taken as it stands. The
/// value's type is generic, so what the mutex holds cannot be named, and
/// nothing is stated of the result.
#[verifier::external_body]
fn mutex_get_mut<T>(m: &mut Mutex<T>) -> &mut T {
    m.get_mut().unwrap_or_else(PoisonError::into_inner)
}

/// Calls `RwLock::get_mut`: the value inside a lock that no one else can
/// reach. Where the lock is poisoned, the value is taken as it stands. As
/// for `mutex_get_mut`, nothing is stated of the result.
#[verifier::external_body]
fn rwlock_get_mut<T>(l: &mut RwLock<T>) -> &mut T {
    l.get_mut().unwrap_or_else(PoisonError::into_inner)
}

/// What tracking `addr` can answer through a lock: the answer that the
/// tracker inside gives for `addr` from the state it is in. The state inside
/// a lock is hidden from Verus, and its type is generic, so it cannot be
/// named; what is left of the answer is that it is one the inner tracker
/// gives for `addr`.
pub open spec fn locked_tracker_answers<T: GetSizeTracker>(addr: usize, answer: bool) -> bool {
    exists|inner: T, after: T| #[trigger] inner.tracks(addr, answer, &after)
}

impl<T: GetSizeTracker> GetSizeTracker for Mutex<T> {
    /// Answers as the tracker inside the lock does for `addr`.
    open spec fn tracks(&self, addr: usize, answer: bool, next: &Mutex<T>) -> bool {
        locked_tracker_answers::<T>(addr, answer)
    }

    fn track(&mut self, addr: usize) -> (r: bool) {
        let tracker = mutex_get_mut(self);
        tracker.track(addr)
    }
}

impl<T: GetSizeTracker> GetSizeTracker for RwLock<T> {
    /// Answers as the tracker inside the lock does for `addr`.
    open spec fn tracks(&self, addr: usize, answer: bool, next: &RwLock<T>) -> bool {
        locked_tracker_answers::<T>(addr, answer)
    }

    fn track(&mut self, addr: usize) -> (r: bool) {
        let tracker = rwlock_get_mut(self);
        tracker.track(addr)
    }
}

} // verus!
