//! Parameter changes and the order in which a block takes them.
//!
//! A host delivers the changes that fall into a block, each with the frame at which it takes
//! place. A [`Schedule`] holds them in the order of their frames, whatever the order in which
//! they arrive, so that the engine can read them front to back while it walks the block.

use vstd::prelude::*;
use crate::params::ParamId;
use crate::scalar::Scalar;

verus! {

/// A change of a parameter at a place in a block.
#[derive(Clone, Copy, Debug, PartialEq, Eq, Structural)]
pub struct AutomationEvent {
    /// The parameter that changes.
    pub param: ParamId,
    /// The value to head for, as a value of the parameter's range.
    pub value: Scalar,
    /// The frame of the block before which the change takes place, counted from the start
    /// of the block.
    pub sample_offset: u32,
}

/// Whether the events stand in the order of their offsets.
pub open spec fn in_offset_order(events: Seq<AutomationEvent>) -> bool {
    forall|i: int, j: int|
        0 <= i <= j < events.len() ==> events[i].sample_offset <= events[j].sample_offset
}

/// The place behind the events that are due at `frame`, reading from `cursor` on: the
/// first place from `cursor` whose event lies after `frame`, or the end.
pub open spec fn due_until(events: Seq<AutomationEvent>, cursor: int, frame: u32) -> int
    decreases events.len() - cursor,
{
    if 0 <= cursor < events.len() && events[cursor].sample_offset <= frame {
        due_until(events, cursor + 1, frame)
    } else {
        cursor
    }
}

/// The events with `event` among them: it stands behind every event that takes place at its
/// frame or before, and before every later one.
pub open spec fn scheduled(events: Seq<AutomationEvent>, event: AutomationEvent) -> Seq<
    AutomationEvent,
> {
    events.insert(due_until(events, 0, event.sample_offset), event)
}

/// The changes of one block, in the order of their frames.
///
/// A schedule has room for a number of events: the number it was made for, or the most it
/// has held since, whichever is more. Its list grows, and so asks for memory, only when an
/// event is put into a schedule that is full.
#[derive(Debug)]
pub struct Schedule {
    events: Vec<AutomationEvent>,
    room: usize,
}

impl View for Schedule {
    type V = Seq<AutomationEvent>;

    closed spec fn view(&self) -> Seq<AutomationEvent> {
        self.events@
    }
}

impl Schedule {
    /// The events of every schedule stand in the order of their offsets, and there are no
    /// more of them than the schedule has room for.
    #[verifier::type_invariant]
    pub open spec fn inv(self) -> bool {
        in_offset_order(self@) && self@.len() <= self.room()
    }

    /// The number of events that the schedule has room for.
    pub closed spec fn room(self) -> nat {
        self.room as nat
    }

    /// The room of a schedule after an event was put in: it grows by one place where the
    /// schedule was full, and stays as it was where it was not.
    pub open spec fn room_after_insert(self) -> nat {
        if self@.len() < self.room() {
            self.room()
        } else {
            self@.len() + 1
        }
    }

    /// Makes an empty schedule with room for `capacity` events. As long as it holds no
    /// more than that, nothing is allocated when events are put in.
    pub fn with_capacity(capacity: usize) -> (schedule: Schedule)
        ensures
            schedule@ == Seq::<AutomationEvent>::empty(),
            schedule.room() == capacity,
    {
        Schedule { events: Vec::with_capacity(capacity), room: capacity }
    }

    /// Takes a list of events that already stand in the order of their offsets. A list
    /// out of order is turned away.
    pub fn from_ordered(events: Vec<AutomationEvent>) -> (r: Option<Schedule>)
        ensures
            r is Some <==> in_offset_order(events@),
            r matches Some(schedule) ==> schedule@ == events@ && schedule.room() == events@.len(),
    {
        let mut i: usize = 1;
        while i < events.len()
            invariant
                1 <= i,
                forall|a: int, b: int|
                    0 <= a <= b < i && b < events.len() ==> events[a].sample_offset
                        <= events[b].sample_offset,
            decreases events.len() - i,
        {
            if events[i - 1].sample_offset > events[i].sample_offset {
                return None;
            }
            i = i + 1;
        }
        let room = events.len();
        Some(Schedule { events, room })
    }

    /// The number of events that the schedule has room for.
    pub fn capacity(&self) -> (n: usize)
        ensures
            n == self.room(),
            self@.len() <= n,
    {
        proof {
            use_type_invariant(self);
        }
        self.room
    }

    /// The number of events.
    pub fn len(&self) -> (n: usize)
        ensures
            n == self@.len(),
    {
        self.events.len()
    }

    /// The event at a place.
    pub fn get(&self, index: usize) -> (event: AutomationEvent)
        requires
            index < self@.len(),
        ensures
            event == self@[index as int],
    {
        self.events[index]
    }

    /// Takes the list out and leaves an empty one, which holds no memory.
    fn take(&mut self) -> (events: Vec<AutomationEvent>)
        ensures
            events@ == old(self)@,
            in_offset_order(events@),
            events@.len() <= old(self).room(),
            final(self)@ == Seq::<AutomationEvent>::empty(),
    {
        proof {
            use_type_invariant(&*self);
        }
        let mut taken = Schedule { events: Vec::new(), room: 0 };
        core::mem::swap(self, &mut taken);
        taken.events
    }

    /// Empties the schedule. Its room stays.
    pub fn clear(&mut self)
        ensures
            final(self)@ == Seq::<AutomationEvent>::empty(),
            final(self).room() == old(self).room(),
    {
        let room = self.room;
        let mut events = self.take();
        events.clear();
        *self = Schedule { events, room };
    }

    /// The place behind the events that are due at `frame`, reading from `cursor` on.
    pub fn due(&self, cursor: usize, frame: u32) -> (next: usize)
        ensures
            next == due_until(self@, cursor as int, frame),
            cursor <= self@.len() ==> cursor <= next <= self@.len(),
    {
        let mut i = cursor;
        while i < self.events.len() && self.events[i].sample_offset <= frame
            invariant
                cursor <= i,
                cursor <= self.events.len() ==> i <= self.events.len(),
                due_until(self@, cursor as int, frame) == due_until(self@, i as int, frame),
            decreases self.events.len() - i,
        {
            i = i + 1;
        }
        i
    }

    /// Puts an event in its place: behind every event that takes place at its frame or
    /// before, and before every later one. Events of one frame so stay in the order in which
    /// they came. A schedule that was full has grown by one place.
    pub fn insert(&mut self, event: AutomationEvent)
        ensures
            final(self)@ == scheduled(old(self)@, event),
            in_offset_order(final(self)@),
            final(self).room() == old(self).room_after_insert(),
    {
        let place = self.due(0, event.sample_offset);
        let room = self.room;
        let mut events = self.take();
        proof {
            law_schedule_keeps_order(events@, event);
        }
        events.insert(place, event);
        let held = events.len();
        let room = if held > room {
            held
        } else {
            room
        };
        *self = Schedule { events, room };
    }
}

/// The events that are due form a run that starts at the cursor: reading stops inside the
/// list, every event it passes is due, and the event it stops at, if there is one, is not.
pub proof fn law_due_run(events: Seq<AutomationEvent>, cursor: int, frame: u32)
    requires
        0 <= cursor <= events.len(),
    ensures
        cursor <= due_until(events, cursor, frame) <= events.len(),
        forall|i: int|
            cursor <= i < due_until(events, cursor, frame) ==> (#[trigger] events[i]).sample_offset
                <= frame,
        due_until(events, cursor, frame) < events.len() ==> events[due_until(
            events,
            cursor,
            frame,
        )].sample_offset > frame,
    decreases events.len() - cursor,
{
    if cursor < events.len() && events[cursor].sample_offset <= frame {
        law_due_run(events, cursor + 1, frame);
    }
}

/// Changes take place at their own frame, in the order given. Where the events of a block
/// stand in the order of their offsets and the cursor is handed on from frame to frame, the
/// events read at frame `k` are exactly those with offset `k`: every earlier frame has left
/// the cursor behind the events before `k`, and reading stops before the first event after
/// `k`. So the frames before `k` are drawn toward the old target and the frames from `k`
/// on toward the new one.
pub proof fn law_changes_take_place_at_their_frame(events: Seq<AutomationEvent>, frame: u32)
    requires
        in_offset_order(events),
    ensures
        ({
            let before = if frame == 0 {
                0
            } else {
                due_until(events, 0, (frame - 1) as u32)
            };
            let after = due_until(events, before, frame);
            &&& 0 <= before <= after <= events.len()
            &&& after == due_until(events, 0, frame)
            &&& forall|i: int|
                0 <= i < events.len() ==> ((before <= i < after) <==> (#[trigger] events[i]).sample_offset
                    == frame)
        }),
{
    let before = if frame == 0 {
        0
    } else {
        due_until(events, 0, (frame - 1) as u32)
    };
    if frame > 0 {
        law_due_run(events, 0, (frame - 1) as u32);
    }
    law_due_run(events, before, frame);
    law_due_run(events, 0, frame);
    let after = due_until(events, before, frame);
    let whole = due_until(events, 0, frame);
    if after < whole {
        assert(events[after].sample_offset > frame);
        assert(events[after].sample_offset <= frame);
    }
    if whole < after {
        assert(events[whole].sample_offset > frame);
        if whole < before {
            assert(events[whole].sample_offset <= frame - 1);
        } else {
            assert(events[whole].sample_offset <= frame);
        }
    }
    assert forall|i: int| 0 <= i < events.len() implies ((before <= i < after) <==> (
    #[trigger] events[i]).sample_offset == frame) by {
        if i < before {
            assert(events[i].sample_offset <= frame - 1);
        } else if i < after {
            assert(events[i].sample_offset <= frame);
            if frame > 0 && before < events.len() {
                assert(events[before].sample_offset > frame - 1);
                assert(events[before].sample_offset <= events[i].sample_offset);
            }
        } else {
            assert(events[after].sample_offset > frame);
            assert(events[after].sample_offset <= events[i].sample_offset);
        }
    }
}

/// Putting an event in its place keeps the order of the offsets, loses no event, and
/// leaves the events that were there in the order they had.
pub proof fn law_schedule_keeps_order(events: Seq<AutomationEvent>, event: AutomationEvent)
    requires
        in_offset_order(events),
    ensures
        in_offset_order(scheduled(events, event)),
        scheduled(events, event).len() == events.len() + 1,
        scheduled(events, event).remove(due_until(events, 0, event.sample_offset)) == events,
        scheduled(events, event)[due_until(events, 0, event.sample_offset)] == event,
        scheduled(events, event).to_multiset() == events.to_multiset().insert(event),
{
    let place = due_until(events, 0, event.sample_offset);
    let after = scheduled(events, event);
    law_due_run(events, 0, event.sample_offset);
    assert forall|i: int, j: int| 0 <= i <= j < after.len() implies after[i].sample_offset
        <= after[j].sample_offset by {
        if j < place {
            assert(after[i] == events[i] && after[j] == events[j]);
        } else if j == place {
            if i < place {
                assert(after[i] == events[i]);
            }
        } else {
            assert(after[j] == events[j - 1]);
            assert(events[place].sample_offset <= events[j - 1].sample_offset);
            if i < place {
                assert(after[i] == events[i]);
            } else if i > place {
                assert(after[i] == events[i - 1]);
            }
        }
    }
    assert(after.remove(place) =~= events);
    vstd::seq_lib::to_multiset_insert(events, place, event);
}

} // verus!
