//! The broadcast event channel.
//!
//! [`ChannelCore`] is the heart of the library: an ordered queue of
//! [`PowerState`] values with broadcast fan-out. Every receiver registered
//! on the channel gets its own cursor: it observes, in emission order,
//! exactly the events sent after it registered, and never competes with
//! other receivers for an event.
//!
//! The core is a plain sequential structure; [`crate::monitor`] wraps it in
//! a verified reader-writer lock so that senders and receivers on different
//! threads can share it.

use vstd::prelude::*;
use vstd::rwlock::RwLockPredicate;

use crate::monitor::PowerState;

verus! {

/// The mathematical state of the event channel.
///
/// `log` is every event ever sent, in emission order. Each registered
/// receiver `i` is described by three pieces: `starts[i]`, the length of
/// the log at the moment it registered; `delivered[i]`, the events it has
/// already been handed, in the order they were handed out; and
/// `pending[i]`, the events sent since registration that it has not yet
/// polled.
#[verifier::ext_equal]
pub struct ChannelModel {
    pub log: Seq<PowerState>,
    pub starts: Seq<int>,
    pub delivered: Seq<Seq<PowerState>>,
    pub pending: Seq<Seq<PowerState>>,
}

impl ChannelModel {
    /// How many receivers have registered on the channel so far.
    pub open spec fn receiver_count(self) -> int {
        self.starts.len() as int
    }

    /// `id` names a registered receiver.
    pub open spec fn valid_receiver(self, id: int) -> bool {
        0 <= id < self.starts.len()
    }

    /// The channel invariant: for every receiver, what it has observed
    /// followed by what it has yet to observe is exactly the suffix of the
    /// emission log that starts at its registration point.
    pub open spec fn wf(self) -> bool {
        &&& self.delivered.len() == self.starts.len()
        &&& self.pending.len() == self.starts.len()
        &&& forall|i: int|
            self.valid_receiver(i) ==> 0 <= #[trigger] self.starts[i] <= self.log.len()
        &&& forall|i: int|
            self.valid_receiver(i) ==> (#[trigger] self.delivered[i]) + self.pending[i]
                == self.log.subrange(self.starts[i], self.log.len() as int)
    }

    /// The state of a channel on which nothing has happened yet.
    pub open spec fn empty() -> ChannelModel {
        ChannelModel {
            log: Seq::empty(),
            starts: Seq::empty(),
            delivered: Seq::empty(),
            pending: Seq::empty(),
        }
    }
}

/// The executable channel: one pending queue per receiver, plus the ghost
/// emission history that ties all queues to one order of events.
pub struct ChannelCore {
    queues: Vec<Vec<PowerState>>,
    log: Ghost<Seq<PowerState>>,
    starts: Ghost<Seq<int>>,
    delivered: Ghost<Seq<Seq<PowerState>>>,
}

impl View for ChannelCore {
    type V = ChannelModel;

    closed spec fn view(&self) -> ChannelModel {
        ChannelModel {
            log: self.log@,
            starts: self.starts@,
            delivered: self.delivered@,
            pending: self.queues@.map_values(|q: Vec<PowerState>| q@),
        }
    }
}

impl ChannelCore {
    /// Creates a channel with no history and no receivers.
    pub fn new() -> (c: ChannelCore)
        ensures
            c@ == ChannelModel::empty(),
            c@.wf(),
    {
        let c = ChannelCore {
            queues: Vec::new(),
            log: Ghost(Seq::empty()),
            starts: Ghost(Seq::empty()),
            delivered: Ghost(Seq::empty()),
        };
        proof {
            assert(c@ =~= ChannelModel::empty());
        }
        c
    }

    /// Registers a new receiver and returns its cursor. The receiver starts
    /// with nothing pending: it will observe exactly the events sent after
    /// this call, and none sent before it.
    pub fn register(&mut self) -> (id: usize)
        requires
            old(self)@.wf(),
        ensures
            final(self)@.wf(),
            id as int == old(self)@.receiver_count(),
            final(self)@.log == old(self)@.log,
            final(self)@.starts == old(self)@.starts.push(old(self)@.log.len() as int),
            final(self)@.delivered == old(self)@.delivered.push(Seq::empty()),
            final(self)@.pending == old(self)@.pending.push(Seq::empty()),
    {
        let ghost pre = self@;
        let id = self.queues.len();
        self.queues.push(Vec::new());
        self.starts = Ghost(self.starts@.push(self.log@.len() as int));
        self.delivered = Ghost(self.delivered@.push(Seq::empty()));
        proof {
            assert(self@.pending =~= pre.pending.push(Seq::empty()));
            assert(self@.log.subrange(self@.starts[id as int], self@.log.len() as int)
                =~= Seq::<PowerState>::empty());
            assert(self@.wf());
        }
        id
    }

    /// Sends an event: it is appended to the emission log and becomes
    /// pending for every registered receiver. Sending never fails and never
    /// drops an event; a channel with no receivers simply records it for
    /// nobody.
    pub fn send(&mut self, ev: PowerState)
        requires
            old(self)@.wf(),
        ensures
            final(self)@.wf(),
            final(self)@.log == old(self)@.log.push(ev),
            final(self)@.starts == old(self)@.starts,
            final(self)@.delivered == old(self)@.delivered,
            final(self)@.pending.len() == old(self)@.pending.len(),
            forall|i: int|
                0 <= i < old(self)@.pending.len() ==> #[trigger] final(self)@.pending[i]
                    == old(self)@.pending[i].push(ev),
    {
        let ghost pre = self@;
        let n = self.queues.len();
        let mut i: usize = 0;
        while i < n
            invariant
                i <= n,
                n == self.queues@.len(),
                self.log@ == pre.log,
                self.starts@ == pre.starts,
                self.delivered@ == pre.delivered,
                self.queues@.len() == pre.pending.len(),
                forall|j: int| 0 <= j < i ==> (#[trigger] self.queues@[j])@ == pre.pending[j].push(ev),
                forall|j: int| i <= j < n ==> (#[trigger] self.queues@[j])@ == pre.pending[j],
            decreases n - i,
        {
            self.queues[i].push(ev);
            i += 1;
        }
        self.log = Ghost(self.log@.push(ev));
        proof {
            assert forall|k: int| 0 <= k < pre.pending.len() implies #[trigger] self@.pending[k]
                == pre.pending[k].push(ev) by {
                assert(self@.pending[k] == self.queues@[k]@);
            }
            assert forall|k: int| self@.valid_receiver(k) implies (#[trigger] self@.delivered[k])
                + self@.pending[k] == self@.log.subrange(self@.starts[k], self@.log.len() as int) by {
                assert(pre.delivered[k] + pre.pending[k]
                    == pre.log.subrange(pre.starts[k], pre.log.len() as int));
                assert(self@.delivered[k] + self@.pending[k]
                    =~= (pre.delivered[k] + pre.pending[k]).push(ev));
                assert(self@.log.subrange(self@.starts[k], self@.log.len() as int)
                    =~= pre.log.subrange(pre.starts[k], pre.log.len() as int).push(ev));
            }
        }
    }

    /// How many receivers have registered so far.
    pub fn receiver_count(&self) -> (n: usize)
        requires
            self@.wf(),
        ensures
            n as int == self@.receiver_count(),
    {
        self.queues.len()
    }

    /// Polls one receiver. Returns the oldest event pending for it, or
    /// `None`, immediately and without error, when nothing is pending.
    /// Other receivers are untouched either way.
    pub fn try_recv(&mut self, id: usize) -> (r: Option<PowerState>)
        requires
            old(self)@.wf(),
            old(self)@.valid_receiver(id as int),
        ensures
            final(self)@.wf(),
            final(self)@.log == old(self)@.log,
            final(self)@.starts == old(self)@.starts,
            old(self)@.pending[id as int].len() == 0 ==> r is None && final(self)@ == old(self)@,
            old(self)@.pending[id as int].len() > 0 ==> {
                &&& r == Some(old(self)@.pending[id as int][0])
                &&& final(self)@.delivered == old(self)@.delivered.update(
                    id as int,
                    old(self)@.delivered[id as int].push(old(self)@.pending[id as int][0]),
                )
                &&& final(self)@.pending == old(self)@.pending.update(
                    id as int,
                    old(self)@.pending[id as int].drop_first(),
                )
            },
    {
        let ghost pre = self@;
        if self.queues[id].len() == 0 {
            proof {
                assert(self@ =~= pre);
            }
            return None;
        }
        let ev = self.queues[id].remove(0);
        self.delivered = Ghost(self.delivered@.update(
            id as int,
            self.delivered@[id as int].push(ev),
        ));
        proof {
            assert(self@.pending =~= pre.pending.update(id as int, pre.pending[id as int].drop_first()));
            assert forall|k: int| self@.valid_receiver(k) implies (#[trigger] self@.delivered[k])
                + self@.pending[k] == self@.log.subrange(self@.starts[k], self@.log.len() as int) by {
                assert(pre.delivered[k] + pre.pending[k]
                    == pre.log.subrange(pre.starts[k], pre.log.len() as int));
                if k == id as int {
                    assert(self@.delivered[k] + self@.pending[k]
                        =~= pre.delivered[k] + pre.pending[k]);
                }
            }
        }
        Some(ev)
    }
}

/// The predicate under which a [`ChannelCore`] is shared between threads:
/// whatever value is stored in the lock satisfies the channel invariant.
pub struct ChannelInv {}

impl RwLockPredicate<ChannelCore> for ChannelInv {
    open spec fn inv(self, v: ChannelCore) -> bool {
        v@.wf()
    }
}

/// One send, as a step between channel states: the event is appended to the
/// emission log and to the pending queue of every registered receiver;
/// nothing else moves.
pub open spec fn send_transition(pre: ChannelModel, post: ChannelModel, ev: PowerState) -> bool {
    &&& post.log == pre.log.push(ev)
    &&& post.starts == pre.starts
    &&& post.delivered == pre.delivered
    &&& post.pending.len() == pre.pending.len()
    &&& forall|i: int|
        0 <= i < pre.pending.len() ==> #[trigger] post.pending[i] == pre.pending[i].push(ev)
}

/// Law: a receiver observes events in emission order. On any well-formed
/// channel, what a receiver has been handed so far is exactly the
/// contiguous run of the emission log that begins at its registration
/// point: its `k`-th observed event is the `starts[id] + k`-th event ever
/// sent.
pub proof fn lemma_observed_in_emission_order(m: ChannelModel, id: int)
    requires
        m.wf(),
        m.valid_receiver(id),
    ensures
        m.starts[id] + m.delivered[id].len() + m.pending[id].len() == m.log.len(),
        m.delivered[id] == m.log.subrange(m.starts[id], m.starts[id] + m.delivered[id].len()),
        forall|k: int|
            0 <= k < m.delivered[id].len() ==> #[trigger] m.delivered[id][k]
                == m.log[m.starts[id] + k],
{
    let s = m.starts[id];
    let whole = m.log.subrange(s, m.log.len() as int);
    assert(m.delivered[id] + m.pending[id] == whole);
    assert(m.delivered[id] =~= m.log.subrange(s, s + m.delivered[id].len()));
}

/// Law: a receiver never observes an event that was emitted before it
/// registered; and everything emitted after it registered is either already
/// observed or still pending — nothing in between is skipped or reordered.
pub proof fn lemma_only_events_after_registration(m: ChannelModel, id: int)
    requires
        m.wf(),
        m.valid_receiver(id),
    ensures
        forall|k: int|
            0 <= k < m.delivered[id].len() ==> #[trigger] m.delivered[id][k]
                == m.log[m.starts[id] + k] && m.starts[id] + k >= m.starts[id],
        m.delivered[id] + m.pending[id] == m.log.subrange(m.starts[id], m.log.len() as int),
{
    lemma_observed_in_emission_order(m, id);
}

/// Law: broadcast fan-out. Two receivers registered at the same point in
/// the emission log observe the identical sequence of subsequent events,
/// independent of poll timing: at any moment, the one that has polled less
/// has observed exactly a prefix of what the other has observed, and after
/// equally many deliveries the two observed sequences are identical.
pub proof fn lemma_broadcast_fanout(m: ChannelModel, a: int, b: int)
    requires
        m.wf(),
        m.valid_receiver(a),
        m.valid_receiver(b),
        m.starts[a] == m.starts[b],
    ensures
        m.delivered[a] + m.pending[a] == m.delivered[b] + m.pending[b],
        m.delivered[a].len() <= m.delivered[b].len() ==> m.delivered[a]
            == m.delivered[b].take(m.delivered[a].len() as int),
        m.delivered[a].len() == m.delivered[b].len() ==> m.delivered[a] == m.delivered[b],
{
    lemma_observed_in_emission_order(m, a);
    lemma_observed_in_emission_order(m, b);
    if m.delivered[a].len() <= m.delivered[b].len() {
        assert(m.delivered[a] =~= m.delivered[b].take(m.delivered[a].len() as int));
    }
    if m.delivered[a].len() == m.delivered[b].len() {
        assert(m.delivered[a] =~= m.delivered[b]);
    }
}

} // verus!
