use owned_mut_ref::OwnedMutRef;
use std::sync::atomic::AtomicUsize;
use std::sync::atomic::Ordering;
use std::sync::Arc;
use std::task::Wake;
use std::task::Waker;

struct CountingWake(AtomicUsize);

impl Wake for CountingWake {
    fn wake(self: Arc<Self>) {
        self.0.fetch_add(1, Ordering::SeqCst);
    }
}

fn counting_waker() -> (Arc<CountingWake>, Waker) {
    let counter = Arc::new(CountingWake(AtomicUsize::new(0)));
    let waker = Waker::from(counter.clone());
    (counter, waker)
}

#[test]
fn end_to_end_increment() {
    let x: u64 = 1;
    let (mut handle, waiter) = OwnedMutRef::new(x);
    let incremented = *handle.get() + 1;
    handle.set(incremented);
    drop(handle);
    let x = waiter.wait();
    assert_eq!(x, Some(2));
}

#[test]
fn release_sends_the_value_too() {
    let (mut handle, waiter) = OwnedMutRef::new(1u64);
    handle.set(2);
    handle.release();
    assert_eq!(waiter.wait(), Some(2));
}

#[test]
fn replace_returns_previous() {
    let (mut handle, waiter) = OwnedMutRef::new(10u32);
    let before = handle.replace(99);
    assert_eq!(before, 10);
    assert_eq!(*handle.get(), 99);
    handle.release();
    assert_eq!(waiter.wait(), Some(99));
}

#[test]
fn try_wait_before_and_after_release() {
    let (handle, waiter) = OwnedMutRef::new(7i32);
    assert!(!waiter.try_wait());
    assert!(!waiter.try_wait());
    handle.release();
    assert!(waiter.try_wait());
    assert!(waiter.try_wait());
    assert_eq!(waiter.wait(), Some(7));
}

#[test]
fn dropped_handle_sends_value_back() {
    let (handle, waiter) = OwnedMutRef::new(3u8);
    assert!(!waiter.try_wait());
    drop(handle);
    assert!(waiter.try_wait());
    assert_eq!(waiter.wait(), Some(3));
}

#[test]
fn poll_pending_then_woken_once_on_release() {
    let (handle, waiter) = OwnedMutRef::new(5u64);
    let (counter, waker) = counting_waker();
    assert!(!waiter.poll_wait(waker));
    assert_eq!(counter.0.load(Ordering::SeqCst), 0);
    handle.release();
    assert_eq!(counter.0.load(Ordering::SeqCst), 1);
    assert!(waiter.poll_wait(counting_waker().1));
    assert_eq!(counter.0.load(Ordering::SeqCst), 1);
    assert_eq!(waiter.wait(), Some(5));
}

#[test]
fn poll_ready_registers_nothing() {
    let (handle, waiter) = OwnedMutRef::new(0u64);
    handle.release();
    let (counter, waker) = counting_waker();
    assert!(waiter.poll_wait(waker));
    assert_eq!(counter.0.load(Ordering::SeqCst), 0);
}

fn require_send<T: Send>() {}
fn require_sync<T: Sync>() {}

#[test]
fn handle_carries_the_cross_thread_markers() {
    require_send::<OwnedMutRef<u64>>();
    require_sync::<OwnedMutRef<u64>>();
    require_send::<owned_mut_ref::OwnedMutRefWaiter<u64>>();
    require_send::<owned_mut_ref::oneshot::Sender<u64>>();
    require_send::<owned_mut_ref::oneshot::Receiver<u64>>();
}

#[test]
fn shared_reads_agree() {
    let (handle, waiter) = OwnedMutRef::new(41u64);
    let first = handle.get();
    let second = handle.get();
    assert_eq!(*first, *second);
    handle.release();
    assert_eq!(waiter.wait(), Some(41));
}
