//! The broadcast hub: multi-consumer publish/subscribe with a fixed-capacity
//! buffer per subscriber. A new subscriber sees only events published after
//! it subscribed; a subscriber that falls behind loses its own oldest
//! pending entries and nothing else; publishing is total and never waits for
//! any subscriber. Every subscriber's pending buffer is a contiguous window
//! at the tail of the publication history — see [`SensorBroadcaster::wf`] —
//! so all subscribers observe events in the exact relative order the
//! publisher emitted them.

use vstd::prelude::*;
use crate::reading::SensorEvent;

verus! {

struct SubscriberSlot {
    active: bool,
    buf: Vec<SensorEvent>,
    start: Ghost<int>,
}

/// The fan-out distribution point for live events.
pub struct SensorBroadcaster {
    capacity: usize,
    subs: Vec<SubscriberSlot>,
    published: Ghost<Seq<SensorEvent>>,
}

impl SensorBroadcaster {
    /// Everything published so far, in publication order.
    pub closed spec fn history(self) -> Seq<SensorEvent> {
        self.published@
    }

    /// The per-subscriber buffer capacity.
    pub closed spec fn cap(self) -> int {
        self.capacity as int
    }

    /// How many subscriber slots have ever been handed out.
    pub closed spec fn slot_count(self) -> int {
        self.subs@.len() as int
    }

    /// Whether slot `k` belongs to a live subscriber.
    pub closed spec fn is_active(self, k: int) -> bool {
        0 <= k < self.subs@.len() && self.subs@[k].active
    }

    /// The pending, not yet consumed events of slot `k`.
    pub closed spec fn buffer_of(self, k: int) -> Seq<SensorEvent> {
        self.subs@[k].buf@
    }

    /// The index into the history of the first pending event of slot `k`:
    /// everything from it to the end of the history is pending, so the
    /// buffer content is a function of the history and this index alone.
    pub closed spec fn start_of(self, k: int) -> int {
        self.subs@[k].start@
    }

    spec fn slot_ok(self, k: int) -> bool {
        let sb = self.subs@[k];
        if sb.active {
            &&& 0 <= sb.start@ <= self.published@.len()
            &&& sb.buf@ == self.published@.subrange(sb.start@, self.published@.len() as int)
            &&& sb.buf@.len() <= self.capacity
        } else {
            sb.buf@.len() == 0
        }
    }

    /// The hub's invariant: each live subscriber's pending buffer is exactly
    /// the tail of the history from its start index on, and never longer
    /// than the capacity.
    pub closed spec fn wf(self) -> bool {
        &&& self.capacity >= 1
        &&& forall|k: int| 0 <= k < self.subs@.len() ==> #[trigger] self.slot_ok(k)
    }

    /// The buffer of every live subscriber of a well-formed hub is the tail
    /// of the history that begins at the subscriber's start index.
    pub proof fn lemma_buffer_is_history_tail(self, k: int)
        requires
            self.wf(),
            self.is_active(k),
        ensures
            0 <= self.start_of(k) <= self.history().len(),
            self.buffer_of(k) == self.history().subrange(
                self.start_of(k),
                self.history().len() as int,
            ),
            self.buffer_of(k).len() == self.history().len() - self.start_of(k),
            self.buffer_of(k).len() <= self.cap(),
    {
        assert(self.slot_ok(k));
    }

    /// A hub with the given per-subscriber capacity and nothing published.
    pub fn new(capacity: usize) -> (h: SensorBroadcaster)
        requires
            capacity >= 1,
        ensures
            h.wf(),
            h.cap() == capacity,
            h.history() == Seq::<SensorEvent>::empty(),
            h.slot_count() == 0,
    {
        SensorBroadcaster { capacity, subs: Vec::new(), published: Ghost(Seq::empty()) }
    }

    /// Opens a new subscriber slot. The subscriber starts with an empty
    /// buffer positioned at the end of the history: it receives only events
    /// published after this call, never a replay.
    pub fn subscribe(&mut self) -> (k: usize)
        requires
            old(self).wf(),
        ensures
            final(self).wf(),
            k as int == old(self).slot_count(),
            final(self).slot_count() == old(self).slot_count() + 1,
            final(self).cap() == old(self).cap(),
            final(self).history() == old(self).history(),
            final(self).is_active(k as int),
            final(self).start_of(k as int) == old(self).history().len(),
            final(self).buffer_of(k as int) == Seq::<SensorEvent>::empty(),
            forall|j: int|
                0 <= j < old(self).slot_count() ==> #[trigger] final(self).is_active(j) == old(self).is_active(j) && final(self).start_of(j) == old(self).start_of(j),
    {
        let k = self.subs.len();
        let slot = SubscriberSlot {
            active: true,
            buf: Vec::new(),
            start: Ghost(self.published@.len() as int),
        };
        self.subs.push(slot);
        proof {
            assert(self.subs@[k as int].buf@ =~= self.published@.subrange(
                self.published@.len() as int,
                self.published@.len() as int,
            ));
            assert forall|j: int| 0 <= j < self.subs@.len() implies #[trigger] self.slot_ok(j) by {
                if j < k as int {
                    assert(old(self).slot_ok(j));
                    assert(self.subs@[j] == old(self).subs@[j]);
                }
            }
        }
        k
    }

    /// Closes a subscriber slot and frees its buffer at once.
    pub fn unsubscribe(&mut self, k: usize)
        requires
            old(self).wf(),
            (k as int) < old(self).slot_count(),
        ensures
            final(self).wf(),
            final(self).slot_count() == old(self).slot_count(),
            final(self).cap() == old(self).cap(),
            final(self).history() == old(self).history(),
            !final(self).is_active(k as int),
            forall|j: int|
                0 <= j < old(self).slot_count() && j != k as int ==> #[trigger] final(self).is_active(j) == old(self).is_active(j) && final(self).start_of(j) == old(self).start_of(j),
    {
        let sb = &mut self.subs[k];
        sb.active = false;
        sb.buf.clear();
        proof {
            assert forall|j: int| 0 <= j < self.subs@.len() implies #[trigger] self.slot_ok(j) by {
                if j != k as int {
                    assert(self.subs@[j] == old(self).subs@[j]);
                    assert(old(self).slot_ok(j));
                }
            }
        }
    }

    /// Publishes one event. Publication is total: it succeeds whatever the
    /// state of any subscriber, and touches no subscriber but through its
    /// own buffer. A live subscriber with room keeps its start index, so its
    /// buffer gains the event at the tail; one that is full advances its
    /// start index by one, losing exactly its own oldest pending event.
    /// Closed slots and every other subscriber's window are untouched.
    pub fn broadcast(&mut self, event: SensorEvent)
        requires
            old(self).wf(),
        ensures
            final(self).wf(),
            final(self).slot_count() == old(self).slot_count(),
            final(self).cap() == old(self).cap(),
            final(self).history() == old(self).history().push(event),
            forall|j: int|
                0 <= j < old(self).slot_count() ==> #[trigger] final(self).is_active(j) == old(self).is_active(j),
            forall|j: int|
                0 <= j < old(self).slot_count() && old(self).is_active(j) && old(self).buffer_of(
                    j,
                ).len() < old(self).cap() ==> #[trigger] final(self).start_of(j) == old(self).start_of(j),
            forall|j: int|
                0 <= j < old(self).slot_count() && old(self).is_active(j) && old(self).buffer_of(
                    j,
                ).len() == old(self).cap() ==> #[trigger] final(self).start_of(j) == old(self).start_of(j) + 1,
    {
        let cap = self.capacity;
        self.published = Ghost(self.published@.push(event));
        let ghost prior = *old(self);
        let n = self.subs.len();
        let mut i: usize = 0;
        while i < n
            invariant
                n == self.subs@.len(),
                n == prior.subs@.len(),
                i <= n,
                cap == self.capacity,
                cap == prior.capacity,
                prior.wf(),
                self.published@ == prior.published@.push(event),
                forall|j: int| i <= j < n ==> self.subs@[j] == prior.subs@[j],
                forall|j: int|
                    0 <= j < i ==> #[trigger] self.subs@[j].active == prior.subs@[j].active,
                forall|j: int| 0 <= j < i ==> #[trigger] self.slot_ok(j),
                forall|j: int|
                    0 <= j < i && prior.subs@[j].active && prior.subs@[j].buf@.len() < cap
                        ==> #[trigger] self.subs@[j].start@ == prior.subs@[j].start@,
                forall|j: int|
                    0 <= j < i && prior.subs@[j].active && prior.subs@[j].buf@.len() == cap
                        ==> #[trigger] self.subs@[j].start@ == prior.subs@[j].start@ + 1,
            decreases n - i,
        {
            let ghost snap = *self;
            proof {
                assert(prior.slot_ok(i as int));
            }
            let sb = &mut self.subs[i];
            if sb.active {
                sb.buf.push(event);
                if sb.buf.len() > cap {
                    sb.buf.remove(0);
                    let ghost ns = sb.start@ + 1;
                    sb.start = Ghost(ns);
                }
            }
            proof {
                let j = i as int;
                let pb = prior.subs@[j].buf@;
                let plen = prior.published@.len() as int;
                assert(self.published@ == snap.published@);
                assert forall|m: int| 0 <= m < j implies #[trigger] self.slot_ok(m) by {
                    assert(self.subs@[m] == snap.subs@[m]);
                    assert(snap.slot_ok(m));
                }
                assert(forall|m: int|
                    0 <= m < j ==> #[trigger] self.subs@[m].active == snap.subs@[m].active
                        && self.subs@[m].start@ == snap.subs@[m].start@);
                if prior.subs@[j].active {
                    assert(pb == prior.published@.subrange(prior.subs@[j].start@, plen));
                    if pb.len() < cap {
                        assert(self.subs@[j].start@ == prior.subs@[j].start@);
                        assert(self.subs@[j].buf@ =~= self.published@.subrange(
                            self.subs@[j].start@,
                            self.published@.len() as int,
                        ));
                    } else {
                        assert(self.subs@[j].start@ == prior.subs@[j].start@ + 1);
                        assert(self.subs@[j].buf@ =~= pb.skip(1).push(event));
                        assert(self.subs@[j].buf@ =~= self.published@.subrange(
                            self.subs@[j].start@,
                            self.published@.len() as int,
                        ));
                    }
                    assert(self.slot_ok(j));
                } else {
                    assert(self.subs@[j] == snap.subs@[j]);
                    assert(self.slot_ok(j));
                }
            }
            i += 1;
        }
    }

    /// Hands the subscriber its oldest pending event, if any. The event
    /// returned is exactly the history entry at the subscriber's start
    /// index, and the window advances past it, so successive calls yield
    /// history entries at strictly increasing indices: publication order,
    /// never reordered. No other subscriber is touched.
    pub fn try_recv(&mut self, k: usize) -> (r: Option<SensorEvent>)
        requires
            old(self).wf(),
            old(self).is_active(k as int),
        ensures
            final(self).wf(),
            final(self).slot_count() == old(self).slot_count(),
            final(self).cap() == old(self).cap(),
            final(self).history() == old(self).history(),
            final(self).is_active(k as int),
            forall|j: int|
                0 <= j < old(self).slot_count() && j != k as int ==> #[trigger] final(self).is_active(j) == old(self).is_active(j) && final(self).start_of(j) == old(self).start_of(j),
            old(self).buffer_of(k as int).len() == 0 ==> r is None && final(self).start_of(
                k as int,
            ) == old(self).start_of(k as int),
            old(self).buffer_of(k as int).len() > 0 ==> r == Some(
                old(self).history()[old(self).start_of(k as int)],
            ) && final(self).start_of(k as int) == old(self).start_of(k as int) + 1,
    {
        proof {
            assert(old(self).slot_ok(k as int));
        }
        let sb = &mut self.subs[k];
        if sb.buf.len() == 0 {
            proof {
                assert(self.subs@ =~= old(self).subs@);
                assert(self.subs@ == old(self).subs@);
                assert forall|m: int| 0 <= m < self.subs@.len() implies #[trigger] self.slot_ok(
                    m,
                ) by {
                    assert(old(self).slot_ok(m));
                }
            }
            None
        } else {
            let e = sb.buf.remove(0);
            let ghost ns = sb.start@ + 1;
            sb.start = Ghost(ns);
            proof {
                let j = k as int;
                assert(self.subs@[j].buf@ =~= self.published@.subrange(
                    self.subs@[j].start@,
                    self.published@.len() as int,
                ));
                assert forall|m: int| 0 <= m < self.subs@.len() implies #[trigger] self.slot_ok(
                    m,
                ) by {
                    if m != j {
                        assert(self.subs@[m] == old(self).subs@[m]);
                        assert(old(self).slot_ok(m));
                    }
                }
            }
            Some(e)
        }
    }
}

/// Order preservation: every pending event of a live subscriber is the
/// history entry at its own offset past the subscriber's start index. Two
/// events pending for any subscriber therefore stand in its buffer in
/// exactly the relative order in which they were published, and the same
/// holds between any two subscribers that hold both events.
pub proof fn lemma_buffer_follows_publication_order(h: &SensorBroadcaster, k: int, i: int)
    requires
        h.wf(),
        h.is_active(k),
        0 <= i < h.buffer_of(k).len(),
    ensures
        0 <= h.start_of(k) + i < h.history().len(),
        h.buffer_of(k)[i] == h.history()[h.start_of(k) + i],
{
    h.lemma_buffer_is_history_tail(k);
}

} // verus!
