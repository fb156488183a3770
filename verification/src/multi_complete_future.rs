//! The state behind a future that many clones share and that completes
//! once: whether it has completed, and the wakers of the clones that are
//! waiting for it.
use vstd::prelude::*;

verus! {

/// Whether a shared future has completed, and, while it has not, the
/// wakers registered by the polls that found it pending, oldest first.
/// `W` is the waker type.
pub struct CompletionState<W> {
    finished: bool,
    wakers: Vec<W>,
}

/// A poll with `waker` of a future in state `s` (completed, waiting
/// wakers): whether it is ready, and the state after. A pending poll
/// registers its waker after those already waiting.
pub open spec fn after_poll<W>(s: (bool, Seq<W>), waker: W) -> (bool, (bool, Seq<W>)) {
    if s.0 {
        (true, s)
    } else {
        (false, (false, s.1.push(waker)))
    }
}

/// Completing a future in state `s`: what is reported (whether it had
/// completed, and the wakers to wake), and the state after.
pub open spec fn after_complete<W>(s: (bool, Seq<W>)) -> ((bool, Seq<W>), (bool, Seq<W>)) {
    ((s.0, s.1), (true, Seq::<W>::empty()))
}

/// The state after polls with each of `wakers` in turn, from `s`.
pub open spec fn after_polls<W>(s: (bool, Seq<W>), wakers: Seq<W>) -> (bool, Seq<W>)
    decreases wakers.len(),
{
    if wakers.len() == 0 {
        s
    } else {
        after_poll(after_polls(s, wakers.drop_last()), wakers.last()).1
    }
}

impl<W> View for CompletionState<W> {
    type V = (bool, Seq<W>);

    closed spec fn view(&self) -> (bool, Seq<W>) {
        (self.finished, self.wakers@)
    }
}

impl<W> CompletionState<W> {
    #[verifier::type_invariant]
    spec fn no_waiters_once_finished(&self) -> bool {
        self.finished ==> self.wakers@.len() == 0
    }

    /// A future that has not completed and that nobody waits for.
    pub fn new() -> (r: Self)
        ensures
            r@ == (false, Seq::<W>::empty()),
    {
        CompletionState { finished: false, wakers: Vec::new() }
    }

    /// Whether the future has completed.
    pub fn finished(&self) -> (r: bool)
        ensures
            r == self@.0,
    {
        self.finished
    }

    /// Polls the future with `waker`: ready (`true`) if it has completed;
    /// else `waker` is registered, to be woken at completion, and the
    /// result is `false` (pending).
    pub fn poll(&mut self, waker: W) -> (ready: bool)
        ensures
            ready == old(self)@.0,
            final(self)@.0 == old(self)@.0,
            ready ==> final(self)@.1 == old(self)@.1,
            !ready ==> final(self)@.1 == old(self)@.1.push(waker),
            (ready, final(self)@) == after_poll(old(self)@, waker),
    {
        proof {
            use_type_invariant(&*self);
        }
        if self.finished {
            true
        } else {
            let mut wakers: Vec<W> = Vec::new();
            std::mem::swap(&mut wakers, &mut self.wakers);
            wakers.push(waker);
            self.wakers = wakers;
            false
        }
    }

    /// Completes the future. Returns whether it had completed before, and
    /// the wakers to wake now: every waker registered while it was pending,
    /// oldest first, each once. No waker stays registered.
    pub fn complete(&mut self) -> (r: (bool, Vec<W>))
        ensures
            r.0 == old(self)@.0,
            r.1@ == old(self)@.1,
            final(self)@ == (true, Seq::<W>::empty()),
            ((r.0, r.1@), final(self)@) == after_complete(old(self)@),
    {
        proof {
            use_type_invariant(&*self);
        }
        let was = self.finished;
        let mut wakers: Vec<W> = Vec::new();
        std::mem::swap(&mut wakers, &mut self.wakers);
        self.finished = true;
        (was, wakers)
    }
}

/// Once completed, a future stays completed: a poll after completion is
/// ready and registers nothing, and completing it again reports that it
/// had completed, with no waker to wake.
pub proof fn lemma_completion_is_final<W>(s: (bool, Seq<W>), waker: W)
    ensures
        after_poll(after_complete(s).1, waker) == (true, after_complete(s).1),
        after_complete(after_complete(s).1).0 == (true, Seq::<W>::empty()),
{
}

/// Every waker of a poll that found the future pending is handed back by
/// the completion, once, in the order of the polls.
pub proof fn lemma_completion_wakes_every_waiter<W>(wakers: Seq<W>)
    ensures
        after_complete(after_polls((false, Seq::<W>::empty()), wakers)).0 == (false, wakers),
{
    lemma_pending_polls_queue_wakers(wakers);
}

proof fn lemma_pending_polls_queue_wakers<W>(wakers: Seq<W>)
    ensures
        after_polls((false, Seq::<W>::empty()), wakers) == (false, wakers),
    decreases wakers.len(),
{
    if wakers.len() > 0 {
        lemma_pending_polls_queue_wakers(wakers.drop_last());
        assert(wakers.drop_last().push(wakers.last()) =~= wakers);
    } else {
        assert(wakers =~= Seq::<W>::empty());
    }
}

/// A poll is ready exactly when the future had completed before it,
/// whatever the number of wakers waiting: a poll never completes the
/// future, and a pending poll adds its waker after those already waiting
/// and removes none.
pub proof fn lemma_poll_ready_iff_completed<W>(s: (bool, Seq<W>), waker: W)
    ensures
        after_poll(s, waker).0 == s.0,
        after_poll(s, waker).1.0 == s.0,
        s.0 ==> after_poll(s, waker).1.1 == s.1,
        !s.0 ==> after_poll(s, waker).1.1.len() == s.1.len() + 1,
        !s.0 ==> after_poll(s, waker).1.1.last() == waker,
        !s.0 ==> forall|i: int| 0 <= i < s.1.len() ==> after_poll(s, waker).1.1[i] == s.1[i],
{
}

/// Without a completion, every poll of a fresh future is pending, however
/// many polls came before it.
pub proof fn lemma_polls_before_completion_pending<W>(wakers: Seq<W>, i: int)
    requires
        0 <= i < wakers.len(),
    ensures
        !after_poll(after_polls((false, Seq::<W>::empty()), wakers.take(i)), wakers[i]).0,
{
    lemma_pending_polls_queue_wakers(wakers.take(i));
}

} // verus!
