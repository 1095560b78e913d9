use signal_future::protocol::PollStatus;
use signal_future::SignalFuture;
use std::sync::atomic::{AtomicUsize, Ordering};
use std::sync::Arc;
use std::task::Waker;

struct CountingWake(AtomicUsize);

impl futures::task::ArcWake for CountingWake {
    fn wake_by_ref(arc_self: &Arc<Self>) {
        arc_self.0.fetch_add(1, Ordering::SeqCst);
    }
}

fn counting_waker() -> (Arc<CountingWake>, Waker) {
    let counter = Arc::new(CountingWake(AtomicUsize::new(0)));
    let waker = futures::task::waker(counter.clone());
    (counter, waker)
}

#[test]
fn signal_then_poll_yields_immediately() {
    let (fut, ctl) = SignalFuture::<u32>::new();
    ctl.signal(7);
    assert_eq!(fut.poll(futures::task::noop_waker()), PollStatus::Ready(7));
}

#[test]
fn poll_after_resolution_suspends_again() {
    let (fut, ctl) = SignalFuture::<u32>::new();
    ctl.signal(7);
    assert_eq!(fut.poll(futures::task::noop_waker()), PollStatus::Ready(7));
    assert_eq!(fut.poll(futures::task::noop_waker()), PollStatus::Pending);
}

#[test]
fn poll_then_signal_wakes_once_and_yields() {
    let (fut, ctl) = SignalFuture::<u32>::new();
    let (counter, waker) = counting_waker();
    assert_eq!(fut.poll(waker), PollStatus::Pending);
    assert_eq!(counter.0.load(Ordering::SeqCst), 0);
    ctl.signal(5);
    assert_eq!(counter.0.load(Ordering::SeqCst), 1);
    assert_eq!(fut.poll(futures::task::noop_waker()), PollStatus::Ready(5));
    ctl.signal(9);
    assert_eq!(counter.0.load(Ordering::SeqCst), 1);
}

#[test]
fn signal_after_resolution_leaves_taken_value() {
    let (fut, ctl) = SignalFuture::<u32>::new();
    ctl.signal(3);
    let first = fut.poll(futures::task::noop_waker());
    ctl.signal(4);
    assert_eq!(first, PollStatus::Ready(3));
    assert_eq!(fut.poll(futures::task::noop_waker()), PollStatus::Ready(4));
}

#[test]
fn signal_from_clone_resolves() {
    let (fut, ctl) = SignalFuture::<u32>::new();
    let other = ctl.clone();
    drop(ctl);
    other.signal(42);
    assert_eq!(fut.poll(futures::task::noop_waker()), PollStatus::Ready(42));
}

#[test]
fn signals_from_two_clones_wake_once() {
    let (fut, ctl) = SignalFuture::<u32>::new();
    let other = ctl.clone();
    let (counter, waker) = counting_waker();
    assert_eq!(fut.poll(waker), PollStatus::Pending);
    ctl.signal(1);
    other.signal(2);
    assert_eq!(counter.0.load(Ordering::SeqCst), 1);
    assert_eq!(fut.poll(futures::task::noop_waker()), PollStatus::Ready(2));
}

#[test]
fn last_registered_waker_wins() {
    let (fut, ctl) = SignalFuture::<u32>::new();
    let (first_counter, first_waker) = counting_waker();
    let (last_counter, last_waker) = counting_waker();
    assert_eq!(fut.poll(first_waker), PollStatus::Pending);
    assert_eq!(fut.poll(last_waker), PollStatus::Pending);
    ctl.signal(8);
    assert_eq!(first_counter.0.load(Ordering::SeqCst), 0);
    assert_eq!(last_counter.0.load(Ordering::SeqCst), 1);
    assert_eq!(fut.poll(futures::task::noop_waker()), PollStatus::Ready(8));
}
