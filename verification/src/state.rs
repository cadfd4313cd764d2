use vstd::prelude::*;

verus! {

/// Declares `core::task::Waker` to Verus. A waker is carried through the
/// channel state as an opaque value: the protocol only stores it, and hands
/// it back out exactly once so the completing thread can invoke it.
#[verifier::external_type_specification]
#[verifier::external_body]
pub struct ExWaker(core::task::Waker);

/// The state a rendezvous channel keeps behind its lock: whether the
/// transfer has completed, the payload the sender posted, and the waker a
/// polling task registered for resumption.
///
/// Every operation on the shared channel is one of the transitions below,
/// performed while the lock is held, so the protocol's guarantees are the
/// guarantees of these transitions.
pub struct ChannelState<V> {
    pub completed: bool,
    pub payload: Option<V>,
    pub waker: Option<core::task::Waker>,
}

impl<V> ChannelState<V> {
    /// The channel invariant: a payload is only ever present once the
    /// transfer has completed, and a completed channel holds no registered
    /// waker (the completing transition surrendered it).
    pub open spec fn wf(self) -> bool {
        &&& self.payload is Some ==> self.completed
        &&& self.completed ==> self.waker is None
    }

    /// The state every channel is created in.
    pub open spec fn is_fresh(self) -> bool {
        &&& !self.completed
        &&& self.payload is None
        &&& self.waker is None
    }

    /// The state after a sender posted `v`.
    pub open spec fn posted(self, v: V) -> Self {
        ChannelState { completed: true, payload: Some(v), waker: None }
    }

    /// The state after the sender went away without posting.
    pub open spec fn closed(self) -> Self {
        ChannelState { completed: true, payload: self.payload, waker: None }
    }

    /// The state after a pending poll registered the waker `w`.
    pub open spec fn registered(self, w: core::task::Waker) -> Self {
        ChannelState { completed: self.completed, payload: self.payload, waker: Some(w) }
    }

    /// The state after the receiver collected the payload.
    pub open spec fn drained(self) -> Self {
        ChannelState { completed: self.completed, payload: None, waker: self.waker }
    }

    /// One protocol transition.
    pub open spec fn step(self, next: Self) -> bool {
        ||| exists|v: V| next == self.posted(v)
        ||| next == self.closed()
        ||| !self.completed && exists|w: core::task::Waker| next == self.registered(w)
        ||| self.completed && next == self.drained()
    }

    pub fn new() -> (s: Self)
        ensures
            s.is_fresh(),
        opens_invariants none
        no_unwind
    {
        ChannelState { completed: false, payload: None, waker: None }
    }

    /// The sender's transition: complete the transfer with payload `v` and
    /// surrender whatever waker was registered, so the caller can resume the
    /// waiting task.
    pub fn post(&mut self, v: V) -> (w: Option<core::task::Waker>)
        ensures
            *final(self) == old(self).posted(v),
            w == old(self).waker,
        opens_invariants none
        no_unwind
    {
        self.completed = true;
        self.payload = Some(v);
        // Swap rather than `Option::take`: this transition runs inside the
        // handle's destructor, so it must provably not unwind, and vstd's
        // specification for `mem::swap` carries that clause.
        let mut w: Option<core::task::Waker> = None;
        core::mem::swap(&mut self.waker, &mut w);
        w
    }

    /// The transition taken when the sender is discarded: complete the
    /// transfer, leave the payload as it stands — present if the sender
    /// posted first, absent if it never did — and surrender any registered
    /// waker.
    pub fn close(&mut self) -> (w: Option<core::task::Waker>)
        ensures
            *final(self) == old(self).closed(),
            w == old(self).waker,
        opens_invariants none
        no_unwind
    {
        self.completed = true;
        // Swap rather than `Option::take`: this transition runs inside the
        // sender's destructor, so it must provably not unwind, and vstd's
        // specification for `mem::swap` carries that clause.
        let mut w: Option<core::task::Waker> = None;
        core::mem::swap(&mut self.waker, &mut w);
        w
    }

    /// The poll transition: report completion, and while still pending
    /// store `w` so the completing transition can wake it.
    pub fn poll_register(&mut self, w: core::task::Waker) -> (done: bool)
        ensures
            old(self).completed ==> done && *final(self) == *old(self),
            !old(self).completed ==> !done && *final(self) == old(self).registered(w),
    {
        if self.completed {
            true
        } else {
            self.waker = Some(w);
            false
        }
    }

    /// The receiver's transition: collect the payload. Only a completed
    /// channel ever surrenders its payload.
    pub fn take_payload(&mut self) -> (p: Option<V>)
        requires
            old(self).completed,
        ensures
            *final(self) == old(self).drained(),
            p == old(self).payload,
    {
        self.payload.take()
    }

    pub fn is_completed(&self) -> (b: bool)
        ensures
            b == self.completed,
    {
        self.completed
    }

    pub fn is_pending(&self) -> (b: bool)
        ensures
            b == !self.completed,
    {
        !self.completed
    }
}

/// Completion is monotonic: no transition of the protocol ever reverts a
/// completed transfer, so a probe that once reported ready keeps reporting
/// ready.
pub proof fn lemma_completed_monotonic<V>(s: ChannelState<V>, next: ChannelState<V>)
    requires
        s.step(next),
        s.completed,
    ensures
        next.completed,
{
}

/// A channel starts out well-formed; with the preservation lemma below,
/// every state the protocol can reach satisfies the channel invariant.
pub proof fn lemma_fresh_wf<V>(s: ChannelState<V>)
    requires
        s.is_fresh(),
    ensures
        s.wf(),
        !s.completed,
{
}

/// Every transition of the protocol preserves the channel invariant.
pub proof fn lemma_step_preserves_wf<V>(s: ChannelState<V>, next: ChannelState<V>)
    requires
        s.wf(),
        s.step(next),
    ensures
        next.wf(),
{
}

/// A completed channel holds no waker, so only the single completing
/// transition can ever surrender one: a suspended task is resumed at most
/// once.
pub proof fn lemma_no_wake_after_completion<V>(s: ChannelState<V>)
    requires
        s.wf(),
        s.completed,
    ensures
        s.waker is None,
{
}

/// A waker registered while the transfer is pending is held until the
/// completing transition, which surrenders exactly that waker.
pub proof fn lemma_registered_waker_released<V>(s: ChannelState<V>, w: core::task::Waker, v: V)
    requires
        !s.completed,
    ensures
        s.registered(w).waker == Some(w),
        s.registered(w).posted(v).waker is None,
        s.registered(w).closed().waker is None,
{
}

/// Posting completes the transfer with exactly the posted payload, and the
/// receiver collects exactly that payload: what goes in on one side comes
/// out unchanged on the other.
pub proof fn lemma_post_round_trip<V>(s: ChannelState<V>, v: V)
    ensures
        s.posted(v).completed,
        s.posted(v).payload == Some(v),
        s.posted(v).drained().payload is None,
{
}

/// While the transfer is still pending there is nothing to collect: a
/// receiver can never come away with a value before the sender's completing
/// transition, and a probe that reports pending is never contradicted by a
/// payload already being present.
pub proof fn lemma_no_payload_before_completion<V>(s: ChannelState<V>)
    requires
        s.wf(),
        !s.completed,
    ensures
        s.payload is None,
{
}

/// A run of the protocol: a sequence of states in which each state follows
/// from the one before by a single transition.
pub open spec fn is_run<V>(tr: Seq<ChannelState<V>>) -> bool {
    forall|i: int| 0 <= i < tr.len() - 1 ==> tr[i].step(#[trigger] tr[i + 1])
}

/// Along any run of the protocol, completion is monotonic: from the first
/// state that reports completed, every later state does too. A probe such
/// as `try_wait` therefore reports pending at every point before the
/// completing transition and ready at every point after it, and never flips
/// back.
pub proof fn lemma_run_completed_monotonic<V>(tr: Seq<ChannelState<V>>, i: int, j: int)
    requires
        is_run(tr),
        0 <= i <= j < tr.len(),
        tr[i].completed,
    ensures
        tr[j].completed,
    decreases j - i,
{
    if i < j {
        lemma_completed_monotonic(tr[i], tr[i + 1]);
        lemma_run_completed_monotonic(tr, i + 1, j);
    }
}

/// Every state of a run that starts fresh satisfies the channel invariant:
/// the constructor establishes it and each transition preserves it.
pub proof fn lemma_run_wf<V>(tr: Seq<ChannelState<V>>, j: int)
    requires
        is_run(tr),
        tr.len() > 0,
        tr[0].is_fresh(),
        0 <= j < tr.len(),
    ensures
        tr[j].wf(),
    decreases j,
{
    if j == 0 {
        lemma_fresh_wf(tr[0]);
    } else {
        lemma_run_wf(tr, j - 1);
        assert(tr[j - 1].step(tr[(j - 1) + 1]));
        lemma_step_preserves_wf(tr[j - 1], tr[j]);
    }
}

/// Discarding the sender unused still completes the transfer, releasing a
/// blocked receiver, which then sees that no payload was sent.
pub proof fn lemma_close_releases<V>(s: ChannelState<V>)
    requires
        s.payload is None,
    ensures
        s.closed().completed,
        s.closed().payload is None,
{
}

} // verus!
