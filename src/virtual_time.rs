//! A virtual clock with scheduled events, for driving the keyer in tests.
use vstd::prelude::*;

use crate::time::{Duration, Instant};

verus! {

/// Whether event `a` comes no later than event `b`: by time, then by id.
pub open spec fn event_le(a: (u64, usize), b: (u64, usize)) -> bool {
    a.0 < b.0 || (a.0 == b.0 && a.1 <= b.1)
}

/// Whether `events[i]` comes no later than any other event.
pub open spec fn is_first_event(events: Seq<(u64, usize)>, i: int) -> bool {
    &&& 0 <= i < events.len()
    &&& forall|j: int| 0 <= j < events.len() ==> event_le(events[i], #[trigger] events[j])
}

/// A clock that moves only when told, and a set of events scheduled on it.
#[derive(Clone)]
pub struct VirtualTime {
    current_time: u64,
    scheduled_events: Vec<(u64, usize)>,
}

impl VirtualTime {
    pub closed spec fn spec_now(&self) -> u64 {
        self.current_time
    }

    /// Pending events as (time, id), in no particular order.
    pub closed spec fn spec_events(&self) -> Seq<(u64, usize)> {
        self.scheduled_events@
    }

    /// Time zero, nothing scheduled.
    pub fn new() -> (r: VirtualTime)
        ensures
            r.spec_now() == 0,
            r.spec_events() == Seq::<(u64, usize)>::empty(),
    {
        VirtualTime { current_time: 0, scheduled_events: Vec::new() }
    }

    /// The virtual time.
    pub fn now(&self) -> (r: Instant)
        ensures
            r@ == self.spec_now(),
    {
        Instant::from_millis(self.current_time)
    }

    /// Moves the clock forward by `duration`.
    pub fn advance(&mut self, duration: Duration)
        requires
            old(self).spec_now() + duration@ <= u64::MAX,
        ensures
            final(self).spec_now() == old(self).spec_now() + duration@,
            final(self).spec_events() == old(self).spec_events(),
    {
        self.current_time = self.current_time + duration.as_millis();
    }

    /// Schedules an event `delay` from now; its id is the number of events
    /// pending before it.
    pub fn schedule_event(&mut self, delay: Duration) -> (r: usize)
        requires
            old(self).spec_now() + delay@ <= u64::MAX,
        ensures
            r == old(self).spec_events().len(),
            final(self).spec_now() == old(self).spec_now(),
            final(self).spec_events() == old(self).spec_events().push(
                ((old(self).spec_now() + delay@) as u64, r),
            ),
    {
        let event_time = self.current_time + delay.as_millis();
        let event_id = self.scheduled_events.len();
        self.scheduled_events.push((event_time, event_id));
        event_id
    }

    /// Index of the first pending event.
    fn first_event_index(&self) -> (r: usize)
        requires
            self.spec_events().len() > 0,
        ensures
            is_first_event(self.spec_events(), r as int),
    {
        let mut best: usize = 0;
        let mut i: usize = 1;
        while i < self.scheduled_events.len()
            invariant
                1 <= i <= self.scheduled_events.len(),
                best < i,
                forall|j: int| 0 <= j < i ==> event_le(self.spec_events()[best as int], #[trigger] self.spec_events()[j]),
            decreases self.scheduled_events.len() - i,
        {
            let (t, id) = self.scheduled_events[i];
            let (bt, bid) = self.scheduled_events[best];
            if t < bt || (t == bt && id < bid) {
                best = i;
            }
            i = i + 1;
        }
        best
    }

    /// How long until the first pending event.
    pub fn next_event_time(&self) -> (r: Option<Duration>)
        requires
            forall|j: int| 0 <= j < self.spec_events().len() ==> self.spec_now() <= (#[trigger] self.spec_events()[j]).0,
        ensures
            self.spec_events().len() == 0 ==> r is None,
            self.spec_events().len() > 0 ==> exists|i: int|
                is_first_event(self.spec_events(), i) && r == Some(
                    Duration { ms: (self.spec_events()[i].0 - self.spec_now()) as u64 },
                ),
    {
        if self.scheduled_events.len() == 0 {
            return None;
        }
        let i = self.first_event_index();
        let (t, _) = self.scheduled_events[i];
        assert(self.spec_now() <= self.spec_events()[i as int].0);
        Some(Duration::from_millis(t - self.current_time))
    }

    /// Moves the clock to the first pending event, removes it and returns its id.
    pub fn advance_to_next_event(&mut self) -> (r: Option<usize>)
        ensures
            old(self).spec_events().len() == 0 ==> r is None && final(self).spec_now() == old(self).spec_now()
                && final(self).spec_events() == old(self).spec_events(),
            old(self).spec_events().len() > 0 ==> exists|i: int|
                is_first_event(old(self).spec_events(), i) && r == Some(old(self).spec_events()[i].1)
                    && final(self).spec_now() == old(self).spec_events()[i].0
                    && final(self).spec_events() == old(self).spec_events().remove(i),
    {
        if self.scheduled_events.len() == 0 {
            return None;
        }
        let i = self.first_event_index();
        let (t, id) = self.scheduled_events.remove(i);
        self.current_time = t;
        Some(id)
    }
}

} // verus!
