//! The completion protocol itself: the shared record, the transition each of
//! the two operations applies to it, and the laws the transitions obey.
//!
//! The record is only ever read or written under the pair's lock, so each
//! transition sees it exclusively; the functions here take it through `&mut`
//! and are verified against the exact transition they promise.

use vstd::prelude::*;
use std::task::Waker;

verus! {

/// The record shared by the two handles: the completion payload, `None` until
/// signaled, and the continuation registered by the most recent pending poll,
/// `None` while nobody waits.
pub struct State<T> {
    pub value: Option<T>,
    pub waker: Option<Waker>,
}

/// The outcome one poll attempt reports to the caller: the completion value,
/// taken exactly once, or the instruction to suspend and wait for a wake.
#[derive(Debug, PartialEq, Eq)]
pub enum PollStatus<T> {
    Ready(T),
    Pending,
}

/// The state a freshly created pair starts in: no payload, no continuation.
pub open spec fn unresolved<T>() -> State<T> {
    State { value: None, waker: None }
}

/// The state after a signal: the payload is stored, overwriting any earlier
/// one, and the continuation slot is left empty.
pub open spec fn signaled<T>(s: State<T>, v: T) -> State<T> {
    State { value: Some(v), waker: None }
}

/// The continuation a signal wakes: whatever the slot held. The transition
/// also empties the slot, so no later signal can wake the same token again.
pub open spec fn taken_by_signal<T>(s: State<T>) -> Option<Waker> {
    s.waker
}

/// The state after a poll with token `w`: a present payload is consumed;
/// otherwise `w` replaces whatever token an earlier poll had registered
/// (last registration wins).
pub open spec fn polled<T>(s: State<T>, w: Waker) -> State<T> {
    if s.value is Some {
        State { value: None, waker: s.waker }
    } else {
        State { value: None, waker: Some(w) }
    }
}

/// What a poll of state `s` yields: `Some(v)` resolves immediately with `v`,
/// `None` suspends.
pub open spec fn poll_yield<T>(s: State<T>) -> Option<T> {
    s.value
}

/// One signal transition, applied while the state is held exclusively:
/// stores the payload and takes the registered continuation, which the caller
/// must wake.
pub fn signal_step<T>(s: &mut State<T>, v: T) -> (woken: Option<Waker>)
    ensures
        *final(s) == signaled(*old(s), v),
        woken == taken_by_signal(*old(s)),
{
    s.value = Some(v);
    s.waker.take()
}

/// One poll transition, applied while the state is held exclusively: consumes
/// the payload if a signal has already stored one, and otherwise registers
/// `w` so that the next signal wakes it.
pub fn poll_step<T>(s: &mut State<T>, w: Waker) -> (status: PollStatus<T>)
    ensures
        *final(s) == polled(*old(s), w),
        match poll_yield(*old(s)) {
            Some(v) => status == PollStatus::Ready(v),
            None => status == PollStatus::<T>::Pending,
        },
{
    match s.value.take() {
        Some(v) => PollStatus::Ready(v),
        None => {
            s.waker = Some(w);
            PollStatus::Pending
        },
    }
}

/// No state the transitions can reach holds both a payload and a registered
/// continuation: a signal empties the continuation slot as it stores the
/// payload, and a poll registers a token only when it found no payload.
pub open spec fn consistent<T>(s: State<T>) -> bool {
    s.value is Some ==> s.waker is None
}

/// Law: the initial state is consistent, and both transitions preserve
/// consistency from any state at all, so a stored payload and a waiting
/// continuation never coexist.
pub proof fn lemma_transitions_preserve_consistency<T>(s: State<T>, v: T, w: Waker)
    ensures
        consistent(unresolved::<T>()),
        consistent(signaled(s, v)),
        consistent(polled(s, w)),
{
}

/// Law: a value signaled before the future is ever polled is not lost. The
/// signal finds no continuation to wake, and the first poll that follows
/// yields the value immediately, with no suspension.
pub proof fn lemma_signal_then_poll<T>(v: T)
    ensures
        taken_by_signal(unresolved::<T>()) is None,
        poll_yield(signaled(unresolved::<T>(), v)) == Some(v),
{
}

/// Law: a poll that precedes the signal suspends and registers its token;
/// the signal then wakes exactly that token, emptying the slot so that it is
/// woken at most once, and the resumed poll yields the signaled value.
pub proof fn lemma_poll_then_signal<T>(v: T, w: Waker)
    ensures
        poll_yield(unresolved::<T>()) is None,
        taken_by_signal(polled(unresolved::<T>(), w)) == Some(w),
        taken_by_signal(signaled(polled(unresolved::<T>(), w), v)) is None,
        poll_yield(signaled(polled(unresolved::<T>(), w), v)) == Some(v),
{
}

/// Law: a signal that arrives after the future has resolved and its value
/// was taken has no observable effect on the waiting side: whatever state
/// `s` the resolution started from, the resolved state holds no
/// continuation, so the late signal wakes nothing.
pub proof fn lemma_signal_after_resolution<T>(s: State<T>, v: T, u: T, w: Waker)
    ensures
        polled(signaled(s, v), w).waker is None,
        taken_by_signal(signaled(polled(signaled(s, v), w), u)) is None,
{
}

/// Law: of two signals, only the first can wake. The first empties the
/// continuation slot, so the second finds nothing to wake; the later payload
/// overwrites the earlier one, so the poll that resumes yields the last
/// value stored before it ran.
pub proof fn lemma_second_signal_inert<T>(s: State<T>, a: T, b: T)
    ensures
        taken_by_signal(signaled(s, a)) is None,
        poll_yield(signaled(signaled(s, a), b)) == Some(b),
{
}

} // verus!
