//! Events and the time-ordered event queue.

use vstd::prelude::*;

verus! {

/// Payload of a queued event.
#[derive(Debug, Clone, Copy)]
pub enum EventData {
    /// Chip-specific event.
    Chip(ChipEvent),
    /// Raw VGM command byte, written verbatim.
    Raw(u8),
}

/// Chip-specific event data; the event-type code is driver-private.
#[derive(Debug, Clone, Copy)]
pub struct ChipEvent {
    /// Event type (chip-specific).
    pub event_type: u16,
    /// Primary value.
    pub value1: i32,
    /// Secondary value.
    pub value2: i32,
}

impl ChipEvent {
    /// A chip event with the given type code and payload.
    pub fn new(event_type: u16, value1: i32, value2: i32) -> (r: ChipEvent)
        ensures
            r.event_type == event_type,
            r.value1 == value1,
            r.value2 == value2,
    {
        ChipEvent { event_type, value1, value2 }
    }
}

/// An event with its sample time and channel.
#[derive(Debug, Clone, Copy)]
pub struct Event {
    /// Time in samples.
    pub time: i64,
    /// Channel index (-1 for global/raw events).
    pub channel: i8,
    /// Event data.
    pub data: EventData,
}

impl Event {
    /// An event at the given time and channel.
    pub fn new(time: i64, channel: i8, data: EventData) -> (r: Event)
        ensures
            r.time == time,
            r.channel == channel,
            r.data == data,
    {
        Event { time, channel, data }
    }

    /// A chip event at the given time and channel.
    pub fn chip(time: i64, channel: i8, event_type: u16, value1: i32, value2: i32) -> (r: Event)
        ensures
            r.time == time,
            r.channel == channel,
            r.data == EventData::Chip(ChipEvent { event_type, value1, value2 }),
    {
        Event::new(time, channel, EventData::Chip(ChipEvent::new(event_type, value1, value2)))
    }

    /// A raw VGM byte at the given time.
    pub fn raw(time: i64, value: u8) -> (r: Event)
        ensures
            r.time == time,
            r.channel == -1,
            r.data == EventData::Raw(value),
    {
        Event::new(time, -1, EventData::Raw(value))
    }
}

/// Where an event at time `t` is inserted: after every event whose time
/// is at most `t`, so that insertion order is stable within one time.
pub open spec fn insert_pos(s: Seq<Event>, t: i64) -> int
    decreases s.len(),
{
    if s.len() == 0 {
        0
    } else if s.last().time <= t {
        s.len() as int
    } else {
        insert_pos(s.drop_last(), t)
    }
}

/// The insertion point lies within the sequence.
pub proof fn lemma_insert_pos_bounds(s: Seq<Event>, t: i64)
    ensures
        0 <= insert_pos(s, t) <= s.len(),
    decreases s.len(),
{
    if s.len() > 0 && s.last().time > t {
        lemma_insert_pos_bounds(s.drop_last(), t);
    }
}

/// Time-sorted event queue with stable order among equal times.
#[derive(Debug)]
pub struct EventQueue {
    events: Vec<Event>,
}

impl View for EventQueue {
    type V = Seq<Event>;

    closed spec fn view(&self) -> Seq<Event> {
        self.events@
    }
}

impl EventQueue {
    /// Well-formed: event times never decrease along the queue.
    pub open spec fn wf(&self) -> bool {
        forall|i: int, j: int| 0 <= i < j < self@.len() ==> (#[trigger] self@[i]).time <= (
        #[trigger] self@[j]).time
    }

    /// An empty queue.
    pub fn new() -> (r: EventQueue)
        ensures
            r.wf(),
            r@.len() == 0,
    {
        EventQueue { events: Vec::new() }
    }

    /// Insert an event: it lands after every event at its time or
    /// earlier, keeping the queue sorted and the intra-time order stable.
    pub fn insert(&mut self, event: Event)
        requires
            old(self).wf(),
        ensures
            final(self).wf(),
            final(self)@ == old(self)@.insert(insert_pos(old(self)@, event.time), event),
            final(self)@.len() == old(self)@.len() + 1,
    {
        proof {
            lemma_insert_pos_bounds(self@, event.time);
            assert(old(self)@.take(old(self)@.len() as int) =~= old(self)@);
        }
        let mut i: usize = self.events.len();
        while i > 0 && self.events[i - 1].time > event.time
            invariant
                i <= self.events@.len(),
                self.events@ == old(self)@,
                old(self).wf(),
                insert_pos(old(self)@.take(i as int), event.time) == insert_pos(
                    old(self)@,
                    event.time,
                ),
                forall|j: int| i <= j < old(self)@.len() ==> (#[trigger] old(self)@[j]).time
                    > event.time,
            decreases i,
        {
            proof {
                assert(old(self)@.take(i as int).last() == old(self)@[i - 1]);
                assert(old(self)@.take(i as int).drop_last() =~= old(self)@.take(i - 1));
            }
            i = i - 1;
        }
        proof {
            if i == 0 {
                assert(old(self)@.take(0) =~= Seq::<Event>::empty());
            } else {
                assert(old(self)@.take(i as int).last() == old(self)@[i - 1]);
                assert(insert_pos(old(self)@.take(i as int), event.time) == i);
            }
            assert(i == insert_pos(old(self)@, event.time));
        }
        self.events.insert(i, event);
        proof {
            let p = i as int;
            let s = old(self)@;
            assert forall|a: int, b: int| 0 <= a < b < self@.len() implies (#[trigger] self@[
                a
            ]).time <= (#[trigger] self@[b]).time by {
                if a < p && b == p {
                    assert(self@[a] == s[a]);
                    assert(s[p - 1].time <= event.time);
                } else if a == p && b > p {
                    assert(self@[b] == s[b - 1]);
                } else if a < p && b > p {
                    assert(self@[a] == s[a] && self@[b] == s[b - 1]);
                } else if a < p && b < p {
                    assert(self@[a] == s[a] && self@[b] == s[b]);
                } else {
                    assert(self@[a] == s[a - 1] && self@[b] == s[b - 1]);
                }
            }
        }
    }

    /// All events, in time order.
    pub fn iter(&self) -> (r: &Vec<Event>)
        ensures
            r@ == self@,
    {
        &self.events
    }

    /// The events at exactly the given time, in queue order, or `None`
    /// when there is none.
    pub fn at_time(&self, time: i64) -> (r: Option<Vec<Event>>)
        ensures
            match r {
                Some(v) => v@ == self@.filter(|e: Event| e.time == time) && v@.len() > 0,
                None => self@.filter(|e: Event| e.time == time).len() == 0,
            },
    {
        let mut found: Vec<Event> = Vec::new();
        proof {
            reveal(Seq::filter);
            assert(self@.take(0) =~= Seq::<Event>::empty());
        }
        let mut i: usize = 0;
        while i < self.events.len()
            invariant
                i <= self@.len(),
                found@ == self@.take(i as int).filter(|e: Event| e.time == time),
            decreases self@.len() - i,
        {
            proof {
                reveal(Seq::filter);
                assert(self@.take(i + 1).drop_last() =~= self@.take(i as int));
                assert(self@.take(i + 1).last() == self@[i as int]);
            }
            if self.events[i].time == time {
                found.push(self.events[i]);
                proof {
                    reveal(Seq::filter);
                    assert(found@ == self@.take(i + 1).filter(|e: Event| e.time == time));
                }
            } else {
                proof {
                    reveal(Seq::filter);
                    assert(found@ == self@.take(i + 1).filter(|e: Event| e.time == time));
                }
            }
            i = i + 1;
        }
        proof {
            assert(self@.take(self@.len() as int) =~= self@);
        }
        if found.len() > 0 {
            Some(found)
        } else {
            None
        }
    }

    /// Remove all events.
    pub fn clear(&mut self)
        ensures
            final(self).wf(),
            final(self)@.len() == 0,
    {
        self.events.clear();
    }

    /// Whether the queue holds no events.
    pub fn is_empty(&self) -> (r: bool)
        ensures
            r == (self@.len() == 0),
    {
        self.events.len() == 0
    }

    /// The time of the latest event, if any.
    pub fn last_time(&self) -> (r: Option<i64>)
        requires
            self.wf(),
        ensures
            self@.len() == 0 ==> r is None,
            self@.len() > 0 ==> r == Some(self@.last().time) && (forall|i: int| 0 <= i < self@.len()
                ==> (#[trigger] self@[i]).time <= r->0),
    {
        if self.events.len() > 0 {
            Some(self.events[self.events.len() - 1].time)
        } else {
            None
        }
    }
}

} // verus!
