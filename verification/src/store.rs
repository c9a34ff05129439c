//! The persistence model: an append-only event log with the operations the
//! storage collaborator owes the rest of the system — append with a fresh
//! monotonic identifier, newest-first retrieval, range retrieval, lookup by
//! identifier, and the alert summary.

use vstd::prelude::*;
use crate::alert::AlertType;
use crate::reading::SensorEvent;

verus! {

/// Counts of stored readings by alert state.
#[derive(Debug, Clone, Copy, PartialEq, Eq, Structural)]
pub struct AlertSummary {
    pub total_readings: u64,
    pub fall_alerts: u64,
    pub inactivity_alerts: u64,
}

/// How many events of the sequence carry the given alert state.
pub open spec fn count_alert(s: Seq<SensorEvent>, a: AlertType) -> int
    decreases s.len(),
{
    if s.len() == 0 {
        0
    } else {
        count_alert(s.drop_last(), a) + if s.last().alert == a {
            1int
        } else {
            0int
        }
    }
}
/// Whether the event's reading falls in the closed timestamp range.
pub open spec fn in_range(e: SensorEvent, start: int, end: int) -> bool {
    start <= e.reading.timestamp <= end
}

/// The events of `s` whose timestamps lie in the closed range, newest
/// (latest appended) first.
pub open spec fn events_in_range_desc(s: Seq<SensorEvent>, start: int, end: int) -> Seq<
    SensorEvent,
>
    decreases s.len(),
{
    if s.len() == 0 {
        Seq::empty()
    } else {
        let rest = events_in_range_desc(s.drop_last(), start, end);
        if in_range(s.last(), start, end) {
            seq![s.last()] + rest
        } else {
            rest
        }
    }
}

/// The append-only event log. Identifiers are assigned on append, starting
/// at one and rising by one: the event with identifier `i` sits at position
/// `i - 1`, so an identifier is assigned exactly once and never reused.
pub struct EventStore {
    events: Vec<SensorEvent>,
}

impl EventStore {
    /// The stored events, oldest first.
    pub closed spec fn log(self) -> Seq<SensorEvent> {
        self.events@
    }

    /// The store's invariant: position `k` holds the event with identifier
    /// `k + 1`.
    pub open spec fn wf(self) -> bool {
        forall|k: int| 0 <= k < self.log().len() ==> (#[trigger] self.log()[k]).id == Some(
            (k + 1) as i64,
        )
    }

    /// An empty store.
    pub fn new() -> (s: EventStore)
        ensures
            s.wf(),
            s.log() == Seq::<SensorEvent>::empty(),
    {
        EventStore { events: Vec::new() }
    }

    /// How many events are stored.
    pub fn count(&self) -> (n: usize)
        ensures
            n == self.log().len(),
    {
        self.events.len()
    }

    /// The event at a position of the log.
    pub fn event_at(&self, i: usize) -> (e: SensorEvent)
        requires
            i < self.log().len(),
        ensures
            e == self.log()[i as int],
    {
        self.events[i]
    }

    /// Appends the event under the next identifier and returns that
    /// identifier. Whatever identifier the argument carried is replaced by
    /// the assigned one.
    pub fn insert_reading(&mut self, event: &SensorEvent) -> (id: i64)
        requires
            old(self).wf(),
            old(self).log().len() + 1 <= i64::MAX,
        ensures
            final(self).wf(),
            id == old(self).log().len() + 1,
            final(self).log() == old(self).log().push(
                SensorEvent { id: Some(id), reading: event.reading, alert: event.alert },
            ),
    {
        let id = (self.events.len() as i64) + 1;
        let stored = SensorEvent { id: Some(id), reading: event.reading, alert: event.alert };
        self.events.push(stored);
        id
    }

    /// The `limit` most recent events, newest first.
    pub fn get_recent_readings(&self, limit: usize) -> (r: Vec<SensorEvent>)
        ensures
            r@.len() == if limit <= self.log().len() {
                limit as int
            } else {
                self.log().len() as int
            },
            forall|i: int|
                0 <= i < r@.len() ==> r@[i] == self.log()[self.log().len() - 1 - i],
    {
        let n = self.events.len();
        let mut out: Vec<SensorEvent> = Vec::new();
        let mut i: usize = 0;
        while i < n && i < limit
            invariant
                n == self.log().len(),
                i <= n,
                i <= limit,
                out@.len() == i,
                forall|j: int| 0 <= j < i ==> out@[j] == self.log()[n - 1 - j],
            decreases n - i,
        {
            out.push(self.events[n - 1 - i]);
            i += 1;
        }
        out
    }

    /// The event stored under the identifier, present exactly when the
    /// identifier has been assigned.
    pub fn get_reading_by_id(&self, id: i64) -> (r: Option<SensorEvent>)
        requires
            self.wf(),
        ensures
            1 <= id <= self.log().len() ==> r == Some(self.log()[id - 1]),
            !(1 <= id <= self.log().len()) ==> r is None,
    {
        if id >= 1 {
            let iu: u64 = (id as u64) - 1;
            if iu < self.events.len() as u64 {
                let idx: usize = iu as usize;
                Some(self.events[idx])
            } else {
                None
            }
        } else {
            None
        }
    }

    /// The events whose timestamps lie in the closed range, newest first.
    pub fn get_readings_in_range(&self, start: i64, end: i64) -> (r: Vec<SensorEvent>)
        ensures
            r@ == events_in_range_desc(self.log(), start as int, end as int),
    {
        let n = self.events.len();
        let mut out: Vec<SensorEvent> = Vec::new();
        let mut i: usize = 0;
        while i < n
            invariant
                n == self.log().len(),
                i <= n,
                out@ == events_in_range_desc(self.log().take(i as int), start as int, end as int),
            decreases n - i,
        {
            let e = self.events[i];
            proof {
                let t = self.log().take(i + 1);
                assert(t.drop_last() =~= self.log().take(i as int));
                assert(t.last() == self.log()[i as int]);
            }
            if start <= e.reading.timestamp && e.reading.timestamp <= end {
                out.insert(0, e);
                proof {
                    assert(out@ =~= events_in_range_desc(
                        self.log().take(i + 1),
                        start as int,
                        end as int,
                    ));
                }
            }
            i += 1;
        }
        proof {
            assert(self.log().take(n as int) =~= self.log());
        }
        out
    }

    /// The total number of stored readings and how many of them carry each
    /// alerting state.
    pub fn get_alert_summary(&self) -> (r: AlertSummary)
        ensures
            r.total_readings == self.log().len(),
            r.fall_alerts as int == count_alert(self.log(), AlertType::Fall),
            r.inactivity_alerts as int == count_alert(self.log(), AlertType::Inactivity),
    {
        let n = self.events.len();
        let mut falls: u64 = 0;
        let mut inactivity: u64 = 0;
        let mut i: usize = 0;
        while i < n
            invariant
                n == self.log().len(),
                i <= n,
                falls as int == count_alert(self.log().take(i as int), AlertType::Fall),
                inactivity as int == count_alert(self.log().take(i as int), AlertType::Inactivity),
                falls <= i,
                inactivity <= i,
            decreases n - i,
        {
            let e = self.events[i];
            proof {
                let t = self.log().take(i + 1);
                assert(t.drop_last() =~= self.log().take(i as int));
                assert(t.last() == self.log()[i as int]);
            }
            match e.alert {
                AlertType::Fall => {
                    falls = falls + 1;
                },
                AlertType::Inactivity => {
                    inactivity = inactivity + 1;
                },
                AlertType::NoAlert => {},
            }
            i += 1;
        }
        proof {
            assert(self.log().take(n as int) =~= self.log());
        }
        AlertSummary { total_readings: n as u64, fall_alerts: falls, inactivity_alerts: inactivity }
    }
}

} // verus!
