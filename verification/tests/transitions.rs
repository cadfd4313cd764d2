use owned_mut_ref::state::ChannelState;
use std::sync::atomic::AtomicUsize;
use std::sync::atomic::Ordering;
use std::sync::Arc;
use std::task::Wake;
use std::task::Waker;

struct FlagWake(AtomicUsize);

impl Wake for FlagWake {
    fn wake(self: Arc<Self>) {
        self.0.fetch_add(1, Ordering::SeqCst);
    }
}

fn flag_waker() -> (Arc<FlagWake>, Waker) {
    let counter = Arc::new(FlagWake(AtomicUsize::new(0)));
    let waker = Waker::from(counter.clone());
    (counter, waker)
}

#[test]
fn fresh_state_is_pending_and_empty() {
    let s: ChannelState<u64> = ChannelState::new();
    assert!(!s.completed);
    assert!(s.payload.is_none());
    assert!(s.waker.is_none());
}

#[test]
fn post_completes_with_payload() {
    let mut s: ChannelState<u64> = ChannelState::new();
    let woken = s.post(7);
    assert!(woken.is_none());
    assert!(s.completed);
    assert_eq!(s.take_payload(), Some(7));
    assert!(s.completed);
    assert!(s.payload.is_none());
}

#[test]
fn close_completes_without_payload() {
    let mut s: ChannelState<u32> = ChannelState::new();
    let woken = s.close();
    assert!(woken.is_none());
    assert!(s.completed);
    assert_eq!(s.take_payload(), None);
}

#[test]
fn completion_is_monotonic_across_transitions() {
    let mut s: ChannelState<u8> = ChannelState::new();
    s.post(1);
    assert!(s.completed);
    s.close();
    assert!(s.completed);
    assert_eq!(s.take_payload(), Some(1), "close leaves a posted payload in place");
    assert!(s.completed);
    assert!(s.is_completed());
    assert!(!s.is_pending());
}

#[test]
fn registered_waker_surrendered_once_on_post() {
    let mut s: ChannelState<u64> = ChannelState::new();
    let (counter, waker) = flag_waker();
    assert!(!s.poll_register(waker));
    assert!(s.waker.is_some());
    let woken = s.post(4);
    assert!(s.waker.is_none());
    woken.expect("the completing transition surrenders the waker").wake();
    assert_eq!(counter.0.load(Ordering::SeqCst), 1);
    assert!(s.close().is_none());
}

#[test]
fn poll_register_on_completed_state_reports_ready() {
    let mut s: ChannelState<u64> = ChannelState::new();
    s.post(2);
    let (counter, waker) = flag_waker();
    assert!(s.poll_register(waker));
    assert!(s.waker.is_none());
    assert_eq!(counter.0.load(Ordering::SeqCst), 0);
}
