use vstd::prelude::*;

use crate::state::ChannelState;
use std::sync::Arc;

verus! {

/// Declares `std::sync::Mutex` to Verus. The mutex guards the channel
/// state; vstd gives it no specification.
#[verifier::external_type_specification]
#[verifier::external_body]
#[verifier::reject_recursive_types(T)]
pub struct ExMutex<T: ?Sized>(std::sync::Mutex<T>);

/// Declares `std::sync::MutexGuard` to Verus: the witness that the lock is
/// held. Verified code carries it between the one-call wrappers below and
/// releases the lock by dropping it.
#[verifier::external_type_specification]
#[verifier::external_body]
#[verifier::reject_recursive_types(T)]
pub struct ExMutexGuard<'a, T: ?Sized + 'a>(std::sync::MutexGuard<'a, T>);

/// Declares `std::sync::Condvar` to Verus: the blocking half of the latch.
#[verifier::external_type_specification]
#[verifier::external_body]
pub struct ExCondvar(std::sync::Condvar);

/// The one shared synchronization object behind a rendezvous channel: the
/// protocol state under a mutex, and a condition variable for a receiver to
/// block on. Both endpoints hold it through an `Arc`.
#[verifier::reject_recursive_types(V)]
struct LatchInner<V> {
    cond: std::sync::Condvar,
    state: std::sync::Mutex<ChannelState<V>>,
}

/// Relies on `std::sync::Condvar::new`.
#[verifier::external_body]
fn condvar_new() -> std::sync::Condvar {
    std::sync::Condvar::new()
}

/// Relies on `std::sync::Mutex::new`: the mutex takes ownership of `t`.
#[verifier::external_body]
fn mutex_new<T>(t: T) -> std::sync::Mutex<T> {
    std::sync::Mutex::new(t)
}

/// Relies on `std::sync::Arc::clone`: the clone is a second handle to the
/// same shared latch, equal as a value to the original.
#[verifier::external_body]
fn share_latch<V>(a: &Arc<LatchInner<V>>) -> (r: Arc<LatchInner<V>>)
    ensures
        r == *a,
{
    a.clone()
}

/// Relies on `std::sync::Mutex::lock`: blocks until the lock is free and
/// returns the guard. The poisoning error is unwrapped away; the lock is
/// never poisoned, because the only code that ever runs while the guard is
/// held is verified code of this crate, which does not panic. For the same
/// reason the call does not unwind.
#[verifier::external_body]
fn lock_state<'a, T>(m: &'a std::sync::Mutex<T>) -> std::sync::MutexGuard<'a, T>
    opens_invariants none
    no_unwind
{
    m.lock().unwrap()
}

/// Relies on `core::mem::replace` through the guard's `DerefMut`: stores
/// `t` behind the held lock and returns what was stored before. Moves two
/// values and cannot panic.
#[verifier::external_body]
fn guard_swap<'a, T>(g: &mut std::sync::MutexGuard<'a, T>, t: T) -> T
    opens_invariants none
    no_unwind
{
    core::mem::replace(&mut **g, t)
}

/// Relies on the guard's `Deref`: reads the value behind the held lock.
#[verifier::external_body]
fn guard_read<'a, 'b, T>(g: &'b std::sync::MutexGuard<'a, T>) -> &'b T
    no_unwind
{
    &**g
}

/// Relies on `std::sync::Mutex::lock` and `std::sync::Condvar::wait_while`:
/// blocks the calling thread until the channel state's verified
/// `is_pending` probe reports false — the closure handed to `wait_while`
/// only calls that probe — then returns the guard, with the lock still
/// held. `wait_while` re-checks the condition itself, so a spurious wake
/// never ends the wait. The poisoning error is unwrapped away, as for
/// `lock_state`.
#[verifier::external_body]
fn wait_done<'a, V>(inner: &'a LatchInner<V>) -> std::sync::MutexGuard<'a, ChannelState<V>> {
    inner.cond.wait_while(inner.state.lock().unwrap(), |s| s.is_pending()).unwrap()
}

/// Relies on `std::sync::Condvar::notify_one`: wakes one blocked waiter,
/// if any. Documented never to panic.
#[verifier::external_body]
fn notify_one(c: &std::sync::Condvar)
    opens_invariants none
    no_unwind
{
    c.notify_one();
}

/// Relies on `core::task::Waker::wake`: resumes the task that registered
/// the waker. Always called after the latch's guard has been dropped, so
/// the waker's own code never runs under the lock and may safely re-enter
/// the library. The claim that this does not unwind is an assumption on
/// the caller of the library: `wake` runs the waker's own code, and a
/// waker that panics when woken is outside the protocol.
#[verifier::external_body]
fn wake_waker(w: core::task::Waker)
    opens_invariants none
    no_unwind
{
    w.wake();
}

/// The sending endpoint of a rendezvous channel: posts one value, or
/// completes the channel without one when it is discarded.
#[verifier::reject_recursive_types(V)]
pub struct Sender<V> {
    shared: Arc<LatchInner<V>>,
}

/// The receiving endpoint of a rendezvous channel: blocks until the sender
/// has posted or gone away.
#[verifier::reject_recursive_types(V)]
pub struct Receiver<V> {
    shared: Arc<LatchInner<V>>,
}

impl<V> Sender<V> {
    /// Whether this sender and `r` are the two endpoints of one channel:
    /// they stand over the same shared latch.
    pub closed spec fn paired_with(self, r: Receiver<V>) -> bool {
        self.shared == r.shared
    }

    /// Posts `v` and completes the transfer, waking any blocked or
    /// suspended receiver. Consumes the sender: the channel is single-use.
    /// The guard is dropped before the wake, so the registered waker never
    /// runs while the lock is held.
    pub fn send(self, v: V)
        opens_invariants none
        no_unwind
    {
        let woken = {
            let mut g = lock_state(&self.shared.state);
            let mut s = guard_swap(&mut g, ChannelState::new());
            let w = s.post(v);
            let _ = guard_swap(&mut g, s);
            w
        };
        if let Some(w) = woken {
            wake_waker(w);
        }
        notify_one(&self.shared.cond);
    }
}

impl<V> Drop for Sender<V> {
    /// A sender discarded without sending still completes the transfer, so
    /// the receiving side is never left blocked merely because the sender
    /// was dropped. (This also runs right after `send`, whose posted
    /// payload the `close` transition leaves in place.)
    fn drop(&mut self)
        opens_invariants none
        no_unwind
    {
        let woken = {
            let mut g = lock_state(&self.shared.state);
            let mut s = guard_swap(&mut g, ChannelState::new());
            let w = s.close();
            let _ = guard_swap(&mut g, s);
            w
        };
        if let Some(w) = woken {
            wake_waker(w);
        }
        notify_one(&self.shared.cond);
    }
}

impl<V> Receiver<V> {
    /// Blocks the calling thread until the paired sender has posted or been
    /// dropped, then returns the payload: the posted value, or nothing when
    /// the sender only closed. The completion check and the collection of
    /// the payload run under one lock acquisition, so `take_payload`'s
    /// demand — only a completed channel surrenders its payload — is
    /// discharged here, not assumed.
    pub fn recv(self) -> Option<V> {
        let mut g = wait_done(&self.shared);
        let mut s = guard_swap(&mut g, ChannelState::new());
        let p = if s.is_completed() {
            s.take_payload()
        } else {
            // Unreachable while `wait_done` keeps its word: it returns only
            // once the state reports completion. Verus still asks for this
            // branch, since nothing ties the guard to the probed state.
            None
        };
        let _ = guard_swap(&mut g, s);
        p
    }

    /// Reports whether the transfer has completed, without blocking and
    /// without consuming the receiver.
    pub(crate) fn probe(&self) -> bool {
        let g = lock_state(&self.shared.state);
        guard_read(&g).is_completed()
    }

    /// Checks for completion and, while the transfer is still pending,
    /// atomically registers `w` to be woken by the completing thread.
    /// Returns whether the transfer has completed.
    pub(crate) fn poll_register(&self, w: core::task::Waker) -> bool {
        let mut g = lock_state(&self.shared.state);
        let mut s = guard_swap(&mut g, ChannelState::new());
        let done = s.poll_register(w);
        let _ = guard_swap(&mut g, s);
        done
    }
}

/// Creates a rendezvous channel: a single-use pair of endpoints over one
/// freshly allocated latch, whose state starts out fresh — not completed,
/// no payload, no waker.
pub fn channel<V>() -> (r: (Sender<V>, Receiver<V>))
    ensures
        r.0.paired_with(r.1),
{
    let inner = Arc::new(
        LatchInner { cond: condvar_new(), state: mutex_new(ChannelState::new()) },
    );
    let receiver = Receiver { shared: share_latch(&inner) };
    (Sender { shared: inner }, receiver)
}

} // verus!
