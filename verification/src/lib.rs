use vstd::prelude::*;

pub mod oneshot;
pub mod state;

use crate::oneshot::Receiver;
use crate::oneshot::Sender;
use crate::oneshot::channel;

verus! {

/// A transferable mutable handle: it carries exclusive access to a value of
/// `T` into another execution context, and completes a rendezvous channel
/// when it goes away, so the lending side knows the access has been given
/// back.
///
/// Exclusivity is carried by ownership: the handle owns the value while it
/// exists, and its destructor sends the value — with whatever mutations
/// were made through the handle — back through the channel to the paired
/// waiter. Dropping the handle, on whatever thread it was moved to, is the
/// completing trigger.
///
/// The fields stand in `Option` only so the destructor can move them out;
/// they are occupied from construction until the destructor runs, which
/// `is_live` records.
#[verifier::reject_recursive_types(T)]
pub struct OwnedMutRef<T: Send> {
    value: Option<T>,
    sender: Option<Sender<T>>,
}

/// The completion waiter paired with an [`OwnedMutRef`]: the lending side
/// holds it and blocks — or polls — on it until the handle has been
/// dropped, at which point the carried value comes back.
#[verifier::reject_recursive_types(T)]
pub struct OwnedMutRefWaiter<T: Send> {
    receiver: Receiver<T>,
}

impl<T: Send> View for OwnedMutRef<T> {
    type V = T;

    /// The value the handle currently carries.
    closed spec fn view(&self) -> T {
        self.value.unwrap()
    }
}

impl<T: Send> OwnedMutRef<T> {
    /// A live handle still holds its value and its channel endpoint. Every
    /// handle a caller can hold is live: `new` builds it so, every method
    /// keeps it so, and only the destructor drains the fields.
    pub closed spec fn is_live(self) -> bool {
        self.value is Some && self.sender is Some
    }

    /// Whether this handle and `w` were made together: the handle's sender
    /// and the waiter's receiver are the two endpoints of one channel, so
    /// dropping the handle is what releases exactly this waiter.
    pub closed spec fn paired_with(self, w: OwnedMutRefWaiter<T>) -> bool {
        self.sender.unwrap().paired_with(w.receiver)
    }

    /// Creates a handle carrying `value`, paired with the waiter that the
    /// lending side keeps. The handle may move to another thread; the value
    /// comes back through the waiter once the handle is dropped.
    pub fn new(value: T) -> (pair: (OwnedMutRef<T>, OwnedMutRefWaiter<T>))
        ensures
            pair.0@ == value,
            pair.0.is_live(),
            pair.0.paired_with(pair.1),
    {
        let (sender, receiver) = channel();
        (
            OwnedMutRef { value: Some(value), sender: Some(sender) },
            OwnedMutRefWaiter { receiver },
        )
    }

    /// Reads the carried value.
    pub fn get(&self) -> (r: &T)
        requires
            self.is_live(),
        ensures
            *r == self@,
    {
        self.value.as_ref().unwrap()
    }

    /// Overwrites the carried value with `v`, returning the value held
    /// before.
    pub fn replace(&mut self, v: T) -> (r: T)
        requires
            old(self).is_live(),
        ensures
            final(self).is_live(),
            final(self)@ == v,
            r == old(self)@,
    {
        let mut slot = Some(v);
        core::mem::swap(&mut self.value, &mut slot);
        slot.unwrap()
    }

    /// Overwrites the carried value with `v`.
    pub fn set(&mut self, v: T)
        requires
            old(self).is_live(),
        ensures
            final(self).is_live(),
            final(self)@ == v,
    {
        self.value = Some(v);
    }

    /// Releases the handle by name: the destructor completes the transfer,
    /// sending the carried value back to the paired waiter and waking it if
    /// it is blocked or suspended.
    pub fn release(self) {
    }
}

impl<T: Send> Drop for OwnedMutRef<T> {
    /// The completing trigger: sends the carried value back through the
    /// channel, so the waiter comes away with exactly the mutations made
    /// through the handle. Runs on whatever thread drops the handle.
    fn drop(&mut self)
        opens_invariants none
        no_unwind
    {
        let mut value: Option<T> = None;
        core::mem::swap(&mut self.value, &mut value);
        let mut sender: Option<Sender<T>> = None;
        core::mem::swap(&mut self.sender, &mut sender);
        if let Some(s) = sender {
            match value {
                Some(v) => s.send(v),
                // Only reachable if the fields were already drained, which
                // no path before the destructor does; dropping the sender
                // still closes the channel, so the waiter is not left
                // blocked.
                None => {},
            }
        }
    }
}

impl<T: Send> OwnedMutRefWaiter<T> {
    /// Blocks the calling thread until the paired handle has been dropped,
    /// then returns what came back: the carried value, with the mutations
    /// the holder of the handle made through it. An empty result means the
    /// channel was closed without its payload, which no path through the
    /// handle takes — its destructor always sends the value.
    pub fn wait(self) -> Option<T> {
        self.receiver.recv()
    }

    /// Reports whether the paired handle has already been dropped, without
    /// blocking and without consuming the waiter.
    pub fn try_wait(&self) -> bool {
        self.receiver.probe()
    }

    /// The cooperative front of `wait`: reports whether the paired handle
    /// has completed the transfer, and while it has not, atomically
    /// registers `w`, which the dropping thread will wake exactly once at
    /// the moment of completion.
    pub fn poll_wait(&self, w: core::task::Waker) -> bool {
        self.receiver.poll_register(w)
    }
}

} // verus!
