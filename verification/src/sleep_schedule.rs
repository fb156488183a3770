//! The decisions of the sleeping thread. It keeps the messages that it has
//! received and not yet fired, fires the earliest one once it is due, and
//! otherwise waits for a new message until the earliest deadline.
//!
//! The thread's loop, the waits on the queue and the clock are outside
//! work: the caller performs them and hands the results to [`SleepSchedule`].
use vstd::prelude::*;
use vstd::multiset::Multiset;
use crate::sleep_message::FireError;
use crate::sleep_message::SleepMessage;

verus! {

broadcast use vstd::seq_lib::group_to_multiset_ensures;

/// How long the thread waits for a message when it has nothing to fire:
/// one second, in nanoseconds.
pub const IDLE_WAIT_NANOS: u64 = 1_000_000_000u64;

/// `m` is among the messages of `pending` with the smallest deadline.
pub open spec fn is_earliest(pending: Multiset<SleepMessage>, m: SleepMessage) -> bool {
    &&& pending.contains(m)
    &&& forall|x: SleepMessage| #[trigger] pending.contains(x) ==> m.deadline() <= x.deadline()
}

/// Deadlines that never increase along the sequence.
spec fn latest_first(s: Seq<SleepMessage>) -> bool {
    forall|i: int, j: int| 0 <= i < j < s.len() ==> s[i].deadline() >= s[j].deadline()
}

/// A message that the thread fired.
pub struct Fired {
    /// The deadline of the fired message.
    pub deadline: u64,
    /// What firing it gave.
    pub outcome: Result<(), FireError>,
}

/// What the thread does next.
pub enum SleepStep {
    /// Wait at most `timeout` nanoseconds for a new message; hand a message
    /// that came to [`SleepSchedule::receive`], or, if none came, read the
    /// clock again and call [`SleepSchedule::fire_due`].
    Wait { timeout: u64 },
    /// The earliest message was due and has been fired.
    Fired(Fired),
}

/// The messages that the sleeping thread holds and has not fired yet.
pub struct SleepSchedule {
    /// Kept with the latest deadline first, so that the earliest is last.
    times: Vec<SleepMessage>,
}

impl SleepSchedule {
    #[verifier::type_invariant]
    spec fn sorted(&self) -> bool {
        latest_first(self.times@)
    }

    /// The messages held, as a multiset.
    pub closed spec fn pending(&self) -> Multiset<SleepMessage> {
        self.times@.to_multiset()
    }

    /// A schedule that holds no message.
    pub fn new() -> (r: SleepSchedule)
        ensures
            r.pending() =~= Multiset::<SleepMessage>::empty(),
    {
        let r = SleepSchedule { times: Vec::new() };
        assert(r.times@ =~= Seq::<SleepMessage>::empty());
        r
    }

    /// The number of messages held.
    pub fn len(&self) -> (r: usize)
        ensures
            r == self.pending().len(),
    {
        self.times.len()
    }

    /// The earliest deadline among the messages held, if any.
    pub fn next_deadline(&self) -> (r: Option<u64>)
        ensures
            r is None <==> self.pending().len() == 0,
            r matches Some(d) ==> exists|m: SleepMessage|
                is_earliest(self.pending(), m) && m.deadline() == d,
    {
        proof {
            use_type_invariant(self);
        }
        let n = self.times.len();
        if n == 0 {
            None
        } else {
            let d = self.times[n - 1].sleep_until();
            proof {
                self.lemma_last_is_earliest();
            }
            Some(d)
        }
    }

    proof fn lemma_last_is_earliest(&self)
        requires
            latest_first(self.times@),
            self.times@.len() > 0,
        ensures
            is_earliest(self.pending(), self.times@.last()),
    {
        let s = self.times@;
        assert(s.contains(s.last())) by {
            assert(s[s.len() - 1] == s.last());
        }
        assert forall|x: SleepMessage| #[trigger] self.pending().contains(x) implies s.last().deadline()
            <= x.deadline() by {
            assert(s.to_multiset().count(x) > 0);
            assert(s.contains(x));
            let i = choose|i: int| 0 <= i < s.len() && s[i] == x;
            if i < s.len() - 1 {
                assert(s[i].deadline() >= s[s.len() - 1].deadline());
            }
        }
    }

    /// Adds a received message, if one came.
    pub fn receive(&mut self, message: Option<SleepMessage>)
        ensures
            final(self).pending() == (match message {
                Some(m) => old(self).pending().insert(m),
                None => old(self).pending(),
            }),
    {
        if let Some(m) = message {
            self.insert(m);
        }
    }

    fn insert(&mut self, m: SleepMessage)
        ensures
            final(self).pending() == old(self).pending().insert(m),
    {
        proof {
            use_type_invariant(&*self);
        }
        let d = m.sleep_until();
        let n = self.times.len();
        let mut i: usize = 0;
        while i < n && self.times[i].sleep_until() > d
            invariant
                n == self.times@.len(),
                0 <= i <= n,
                latest_first(self.times@),
                forall|j: int| 0 <= j < i ==> self.times@[j].deadline() > d,
            decreases n - i,
        {
            i = i + 1;
        }
        let ghost before = self.times@;
        assert forall|j: int| i <= j < n implies #[trigger] before[j].deadline() <= d by {
            assert(before[i as int].deadline() <= d);
        }
        let mut times: Vec<SleepMessage> = Vec::new();
        std::mem::swap(&mut times, &mut self.times);
        times.insert(i, m);
        assert(times@ == before.insert(i as int, m));
        assert(latest_first(times@)) by {
            assert forall|a: int, b: int| 0 <= a < b < times@.len() implies times@[a].deadline()
                >= times@[b].deadline() by {
                if b < i {
                } else if b == i {
                } else if a < i {
                } else if a == i {
                    assert(times@[b] == before[b - 1]);
                } else {
                    assert(times@[a] == before[a - 1]);
                    assert(times@[b] == before[b - 1]);
                }
            }
        }
        self.times = times;
    }

    /// Fires the earliest message if it is due at `now`.
    pub fn fire_due(&mut self, now: u64) -> (r: Option<Fired>)
        ensures
            r is None ==> final(self).pending() == old(self).pending(),
            r is None ==> forall|m: SleepMessage|
                is_earliest(old(self).pending(), m) ==> now < m.deadline(),
            r matches Some(f) ==> exists|m: SleepMessage|
                {
                    &&& is_earliest(old(self).pending(), m)
                    &&& m.deadline() == f.deadline
                    &&& f.deadline <= now
                    &&& final(self).pending() == old(self).pending().remove(m)
                    &&& !m.completes() ==> f.outcome is Ok
                },
    {
        proof {
            use_type_invariant(&*self);
        }
        let n = self.times.len();
        if n == 0 {
            return None;
        }
        proof {
            self.lemma_last_is_earliest();
        }
        let d = self.times[n - 1].sleep_until();
        if d <= now {
            let ghost before = self.times@;
            let mut times: Vec<SleepMessage> = Vec::new();
        std::mem::swap(&mut times, &mut self.times);
            let m = times.pop().unwrap();
            assert(before == times@.push(m));
            assert(latest_first(times@));
            self.times = times;
            proof {
                let rest = self.times@;
                assert(before.to_multiset() == rest.to_multiset().insert(m));
                assert(rest.to_multiset() =~= before.to_multiset().remove(m));
            }
            let outcome = m.fire();
            Some(Fired { deadline: d, outcome })
        } else {
            proof {
                assert forall|m: SleepMessage| is_earliest(old(self).pending(), m) implies now
                    < m.deadline() by {
                    assert(self.pending().contains(self.times@.last()));
                }
            }
            None
        }
    }

    /// One turn of the sleeping thread at time `now`: fire the earliest
    /// message if it is due; else wait for a new message until the earliest
    /// deadline, or for a second when nothing is held.
    pub fn step(&mut self, now: u64) -> (r: SleepStep)
        ensures
            old(self).pending().len() == 0 ==> r == (SleepStep::Wait { timeout: IDLE_WAIT_NANOS })
                && final(self).pending() == old(self).pending(),
            r matches SleepStep::Wait { timeout } ==> final(self).pending() == old(self).pending()
                && (old(self).pending().len() > 0 ==> forall|m: SleepMessage|
                is_earliest(old(self).pending(), m) ==> now < m.deadline() && timeout == m.deadline()
                - now),
            r matches SleepStep::Fired(f) ==> exists|m: SleepMessage|
                {
                    &&& is_earliest(old(self).pending(), m)
                    &&& m.deadline() == f.deadline
                    &&& f.deadline <= now
                    &&& final(self).pending() == old(self).pending().remove(m)
                    &&& !m.completes() ==> f.outcome is Ok
                },
    {
        match self.next_deadline() {
            None => SleepStep::Wait { timeout: IDLE_WAIT_NANOS },
            Some(d) => {
                match self.fire_due(now) {
                    Some(f) => SleepStep::Fired(f),
                    None => {
                        proof {
                            let m = choose|m: SleepMessage|
                                is_earliest(old(self).pending(), m) && m.deadline() == d;
                            assert(now < d);
                            assert forall|x: SleepMessage|
                                is_earliest(old(self).pending(), x) implies x.deadline() == d by {
                                assert(old(self).pending().contains(x));
                                assert(old(self).pending().contains(m));
                            }
                        }
                        SleepStep::Wait { timeout: d - now }
                    },
                }
            },
        }
    }
}

/// Two messages fired one after the other, with nothing received in
/// between, are fired in the order of their deadlines: the first fired is
/// the earliest of what was held, the second the earliest of what remained.
pub proof fn lemma_fires_in_deadline_order(
    pending: Multiset<SleepMessage>,
    first: SleepMessage,
    second: SleepMessage,
)
    requires
        is_earliest(pending, first),
        is_earliest(pending.remove(first), second),
    ensures
        first.deadline() <= second.deadline(),
{
    assert(pending.remove(first).count(second) > 0);
    assert(pending.count(second) > 0);
    assert(pending.contains(second));
}

} // verus!
