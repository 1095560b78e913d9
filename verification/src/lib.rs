//! A single-use, externally resolvable synchronization point.
//!
//! One party holds a [`SignalFutureController`] and announces completion,
//! optionally carrying a value; the other holds the paired [`SignalFuture`]
//! and suspends, by reporting [`protocol::PollStatus::Pending`] to its
//! scheduler, until the announcement arrives. The shared record the two
//! handles guard, and the transition each operation applies to it, live in
//! [`protocol`]; the lock and the scheduler's resume token are the only
//! unverified parts, kept behind the narrow items of `sync`.

use vstd::prelude::*;

pub mod protocol;
mod sync;

use std::sync::Arc;
use std::task::Waker;
use crate::protocol::{poll_step, signal_step, PollStatus, State};
use crate::sync::{arc_clone, mutex_new, with_state};

verus! {

/// The handle that announces completion. Any number of clones may exist; all
/// govern the same shared record, and any one of them may signal.
#[verifier::reject_recursive_types(T)]
pub struct SignalFutureController<T = ()> {
    shared_state: Arc<parking_lot::Mutex<State<T>>>,
}

/// The handle a waiting party holds. Polling it either yields the value a
/// signal has stored, or registers the caller's resume token and reports
/// that the caller must suspend.
#[verifier::reject_recursive_types(T)]
pub struct SignalFuture<T = ()> {
    shared_state: Arc<parking_lot::Mutex<State<T>>>,
}

impl<T> SignalFutureController<T> {
    /// The shared record this handle governs: the paired future's cell and
    /// every clone's cell equal it.
    pub closed spec fn cell(self) -> Arc<parking_lot::Mutex<State<T>>> {
        self.shared_state
    }

    /// Records completion, carrying `value`, then wakes the continuation a
    /// pending poll had registered, if there is one: the signal transition
    /// takes the token out, so each signal wakes at most once, and a signal
    /// that finds no waiter just keeps the value for the next poll. A second
    /// signal overwrites the payload and wakes nobody.
    pub fn signal(&self, value: T) {
        let woken = with_state(
            &self.shared_state,
            (move |s: &mut State<T>| -> Option<Waker> { signal_step(s, value) }),
        );
        if let Some(waker) = woken {
            waker.wake();
        }
    }
}

impl<T> Clone for SignalFutureController<T> {
    /// Another handle over the same shared record: any clone may signal, and
    /// a signal from any clone reaches the one paired future.
    fn clone(&self) -> (c: Self)
        ensures
            c.cell() == self.cell(),
    {
        SignalFutureController { shared_state: arc_clone(&self.shared_state) }
    }
}

impl<T> SignalFuture<T> {
    /// The shared record this handle polls; equal to the paired controller's.
    pub closed spec fn cell(self) -> Arc<parking_lot::Mutex<State<T>>> {
        self.shared_state
    }

    /// Builds one shared record, initially unresolved, and the pair of
    /// handles over it: the future for whoever waits, the controller for
    /// whoever will announce completion.
    pub fn new() -> (pair: (SignalFuture<T>, SignalFutureController<T>))
        ensures
            pair.0.cell() == pair.1.cell(),
    {
        let cell = Arc::new(mutex_new(State { value: None, waker: None }));
        let ctl_cell = arc_clone(&cell);
        (
            SignalFuture { shared_state: cell },
            SignalFutureController { shared_state: ctl_cell },
        )
    }

    /// One poll attempt: yields `Ready` with the payload if a signal has
    /// arrived, consuming it, and otherwise registers `waker`, replacing any
    /// token an earlier poll had stored (last registration wins), and reports
    /// `Pending` without blocking the calling thread.
    pub fn poll(&self, waker: Waker) -> PollStatus<T> {
        with_state(
            &self.shared_state,
            (move |s: &mut State<T>| -> PollStatus<T> { poll_step(s, waker) }),
        )
    }
}

} // verus!
