use lc3_traits::control::control::Event;
use lc3_traits::control::rpc::futures::SharedStateState;
use std::sync::Arc;
use std::task::{Wake, Waker};

struct NoopWake;

impl Wake for NoopWake {
    fn wake(self: Arc<Self>) {}
}

fn waker() -> Waker {
    Waker::from(Arc::new(NoopWake))
}

#[test]
fn a_batch_resolves_every_future_once() {
    let mut s = SharedStateState::Dormant;
    assert!(s.is_clean());
    assert_eq!(s.add_new_future(), Ok(()));
    assert_eq!(s.add_new_future(), Ok(()));
    assert!(!s.batch_sealed());
    assert_eq!(s.poll(waker()), None);

    assert_eq!(s.resolve_all(Event::Halted), Ok(()));
    assert!(s.batch_sealed());
    assert_eq!(s.add_new_future(), Err(()));
    assert_eq!(s.resolve_all(Event::Interrupted), Err(()));

    assert_eq!(s.poll(waker()), Some(Event::Halted));
    assert!(!s.is_clean());
    assert_eq!(s.poll(waker()), Some(Event::Halted));
    assert!(s.is_clean());
}

#[test]
fn increment_counts_pending_futures() {
    let mut s = SharedStateState::Dormant;
    assert_eq!(s.increment(), 1);
    assert_eq!(s.increment(), 2);
    assert_eq!(s.increment(), 3);
}

#[test]
fn the_event_is_handed_out_and_the_state_reset() {
    let mut s = SharedStateState::Dormant;
    s.increment();
    s.set_event(Event::Breakpoint { addr: 0x3003 });
    assert_eq!(s.get_event(), Some(Event::Breakpoint { addr: 0x3003 }));
    assert!(s.is_clean());
    s.reset();
    assert!(s.is_clean());
}

struct CountingWake(std::sync::atomic::AtomicUsize);

impl Wake for CountingWake {
    fn wake(self: Arc<Self>) {
        self.0.fetch_add(1, std::sync::atomic::Ordering::SeqCst);
    }
}

#[test]
fn wake_before_the_event_wakes_the_registered_waker_once() {
    let counter = Arc::new(CountingWake(std::sync::atomic::AtomicUsize::new(0)));
    let mut s = SharedStateState::Dormant;
    assert_eq!(s.add_new_future(), Ok(()));
    assert_eq!(s.add_new_future(), Ok(()));
    assert_eq!(s.poll(Waker::from(counter.clone())), None);

    s.wake();
    assert_eq!(counter.0.load(std::sync::atomic::Ordering::SeqCst), 1);
    assert!(matches!(s, SharedStateState::WaitingForAnEvent { waker: None, count: 2 }));

    s.wake();
    assert_eq!(counter.0.load(std::sync::atomic::Ordering::SeqCst), 1);
}

#[test]
fn the_latest_waker_is_kept() {
    let first = Arc::new(CountingWake(std::sync::atomic::AtomicUsize::new(0)));
    let second = Arc::new(CountingWake(std::sync::atomic::AtomicUsize::new(0)));
    let mut s = SharedStateState::Dormant;
    assert_eq!(s.add_new_future(), Ok(()));
    s.register_waker(Waker::from(first.clone()));
    s.register_waker(Waker::from(second.clone()));
    assert_eq!(s.resolve_all(Event::Halted), Ok(()));
    assert_eq!(first.0.load(std::sync::atomic::Ordering::SeqCst), 0);
    assert_eq!(second.0.load(std::sync::atomic::Ordering::SeqCst), 1);
}

#[test]
fn reset_leaves_a_pending_batch_alone() {
    let mut s = SharedStateState::Dormant;
    assert_eq!(s.add_new_future(), Ok(()));
    assert_eq!(s.add_new_future(), Ok(()));
    s.reset();
    assert_eq!(s.increment(), 3);
    assert_eq!(s.resolve_all(Event::Halted), Ok(()));
    s.reset();
    assert!(s.batch_sealed());
    assert_eq!(s.poll(waker()), Some(Event::Halted));
    assert_eq!(s.poll(waker()), Some(Event::Halted));
    assert_eq!(s.poll(waker()), Some(Event::Halted));
    assert!(s.is_clean());
    s.reset();
    assert!(s.is_clean());
}

#[test]
fn a_run_is_requested_only_when_none_is_waiting() {
    let mut s = SharedStateState::Dormant;
    assert_eq!(s.run_request_step(false), Ok(true));
    assert_eq!(s.run_request_step(true), Ok(false));
    assert_eq!(s.increment(), 3);
    assert_eq!(s.resolve_all(Event::Halted), Ok(()));
    assert_eq!(s.run_request_step(false), Err(()));
}
