//! The trust boundary: the scheduler's resume token and parking_lot's lock,
//! declared for the verifier, with one narrow item per outside call the
//! library makes. Nothing here decides anything: the items only take the
//! lock, apply whatever the verified caller hands them, and pass values
//! through unchanged.

use vstd::prelude::*;
use std::sync::Arc;
use std::task::Waker;
use crate::protocol::State;

verus! {

/// `std::task::Waker` is the scheduler-provided resume token. vstd gives it
/// no specification, so it is declared here and treated as an opaque value.
#[verifier::external_type_specification]
#[verifier::external_body]
pub struct ExWaker(Waker);

/// Relies on std::task::Waker::wake: consumes the token and asks the
/// scheduler to mark the suspended task runnable. When the task runs is the
/// scheduler's decision, so nothing is promised here.
pub assume_specification[ Waker::wake ](w: Waker);

/// `parking_lot::Mutex` is `lock_api::Mutex` over parking_lot's raw lock.
/// Declared so that the handles can hold the guarded record; the cell is
/// opaque to the verifier, as its contents change under the lock.
#[verifier::external_type_specification]
#[verifier::external_body]
#[verifier::reject_recursive_types(R)]
#[verifier::reject_recursive_types(T)]
pub struct ExMutex<R, T: ?Sized>(parking_lot::lock_api::Mutex<R, T>);

/// parking_lot's raw mutex, the lock half of `parking_lot::Mutex`.
#[verifier::external_type_specification]
#[verifier::external_body]
pub struct ExRawMutex(parking_lot::RawMutex);

/// Relies on lock_api::Mutex::new: wraps the given value in a fresh, unlocked
/// mutex. Nothing is stated of the cell afterwards: once shared, its contents
/// move only under the lock.
#[verifier::external_body]
pub(crate) fn mutex_new<T>(value: T) -> parking_lot::Mutex<T> {
    parking_lot::Mutex::new(value)
}

/// Relies on Arc::clone: the returned handle refers to the very same
/// allocation, so as a value it equals the one cloned.
#[verifier::external_body]
pub(crate) fn arc_clone<T>(a: &Arc<T>) -> (r: Arc<T>)
    ensures
        r == *a,
{
    a.clone()
}

/// Relies on lock_api::Mutex::lock: takes the lock, applies the caller's
/// closure to the guarded record while the lock is held, and hands back what
/// the closure returned. The record is shared, so nothing can be stated of
/// what the closure finds in it.
#[verifier::external_body]
pub(crate) fn with_state<T, R, F: FnOnce(&mut State<T>) -> R>(
    cell: &Arc<parking_lot::Mutex<State<T>>>,
    f: F,
) -> R {
    let mut guard = cell.lock();
    f(&mut *guard)
}

} // verus!
