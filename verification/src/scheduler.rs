use vstd::prelude::*;

verus! {

/// The points of a scanline at which the PPU acts.
#[derive(Clone, Copy, Debug, PartialEq, Eq, Structural)]
pub enum PpuEvent {
    HDraw,
    HBlankStart,
    NewScanline,
}

/// Something that is due at a master-clock time.
#[derive(Clone, Copy, Debug, PartialEq, Eq, Structural)]
pub enum Event {
    /// The sound unit catches up with the master clock.
    Apu,
    Ppu(PpuEvent),
}

impl Event {
    /// The scheduler slot an event kind occupies.
    pub open spec fn index_spec(&self) -> int {
        match self {
            Event::Apu => 0,
            Event::Ppu(_) => 1,
        }
    }

    pub fn index(&self) -> (r: usize)
        ensures
            r == self.index_spec(),
    {
        match self {
            Event::Apu => 0,
            Event::Ppu(_) => 1,
        }
    }
}

/// An event with the time it is due; `u64::MAX` marks an empty slot.
#[derive(Clone, Copy)]
pub struct PendingEvent {
    pub event: Event,
    pub time: u64,
}

/// One slot per event kind, and the slot that is due first.
pub struct Scheduler {
    pub cycles: u64,
    pub events: [PendingEvent; 3],
    pub next_event_id: usize,
}

/// 1 for a PPU event, 0 for the sound unit's.
pub open spec fn kind_code(e: Event) -> u64 {
    if e is Ppu { 1 } else { 0 }
}

/// `id` is the first slot whose time is the least of the three.
pub open spec fn is_first_min(events: Seq<PendingEvent>, id: int) -> bool {
    &&& 0 <= id < 3
    &&& forall|j: int| 0 <= j < 3 ==> events[id].time <= #[trigger] events[j].time
    &&& forall|j: int| 0 <= j < id ==> events[id].time < #[trigger] events[j].time
}

/// The first slot whose time is the least of the three.
pub open spec fn first_min(events: Seq<PendingEvent>) -> int {
    if events[0].time <= events[1].time && events[0].time <= events[2].time {
        0
    } else if events[1].time <= events[2].time {
        1
    } else {
        2
    }
}

impl Scheduler {
    /// The times of the slots, the next slot and which slots hold PPU events, as one sequence.
    pub open spec fn agenda(&self) -> Seq<u64> {
        seq![self.events[0].time, self.events[1].time, self.events[2].time, self.next_event_id as u64,
            kind_code(self.events[0].event), kind_code(self.events[1].event), kind_code(self.events[2].event)]
    }

    /// The next slot is a valid index.
    pub open spec fn wf(&self) -> bool {
        self.next_event_id < 3
    }

    /// The next slot is due no later than any other slot.
    pub open spec fn next_is_earliest(&self) -> bool {
        self.wf() && forall|j: int| 0 <= j < 3 ==> self.events[self.next_event_id as int].time <= #[trigger] self.events[j].time
    }

    pub fn new() -> (r: Self)
        ensures
            r.wf(),
            r.next_is_earliest(),
            r.cycles == 0,
            r.next_event_id == 0,
            forall|i: int| 0 <= i < 3 ==> (#[trigger] r.events[i]).time == u64::MAX
                && r.events[i].event == Event::Ppu(PpuEvent::HDraw),
    {
        let e = PendingEvent { event: Event::Ppu(PpuEvent::HDraw), time: u64::MAX };
        Scheduler { cycles: 0, events: [e, e, e], next_event_id: 0 }
    }

    /// Points `next_event_id` at the first slot with the least time.
    fn find_next_event(&mut self)
        ensures
            final(self).next_event_id == first_min(old(self).events@),
            final(self).events == old(self).events,
            final(self).cycles == old(self).cycles,
    {
        let mut new_id: usize = 0;
        let mut idx: usize = 1;
        while idx < 3
            invariant
                1 <= idx <= 3,
                new_id < idx,
                idx == 2 ==> new_id == (if self.events[1].time < self.events[0].time { 1int } else { 0 }),
                idx == 3 ==> new_id == first_min(self.events@),
            decreases 3 - idx,
        {
            if self.events[idx].time < self.events[new_id].time {
                new_id = idx;
            }
            idx = idx + 1;
        }
        self.next_event_id = new_id;
    }

    /// Schedules `event` at `time`, replacing what its slot held.
    pub fn add_event(&mut self, event: Event, time: u64)
        requires
            old(self).wf(),
        ensures
            final(self).wf(),
            final(self).cycles == old(self).cycles,
            final(self).events@ == old(self).events@.update(event.index_spec(), PendingEvent { event, time }),
            final(self).next_event_id == if event.index_spec() == old(self).next_event_id {
                first_min(final(self).events@)
            } else if time < old(self).events[old(self).next_event_id as int].time {
                event.index_spec()
            } else {
                old(self).next_event_id as int
            },
    {
        let id = event.index();
        self.events[id].event = event;
        self.events[id].time = time;

        if id == self.next_event_id {
            self.find_next_event();
        } else if self.events[id].time < self.events[self.next_event_id].time {
            self.next_event_id = id;
        }
    }

    /// Whether the clock has not reached the next event yet.
    pub fn waiting_for_next_event(&self) -> (r: bool)
        requires
            self.wf(),
        ensures
            r == (self.cycles < self.events[self.next_event_id as int].time),
    {
        self.cycles < self.events[self.next_event_id].time
    }

    /// Takes the next event once it is due, and empties its slot.
    pub fn pop_event(&mut self) -> (r: Option<(Event, u64)>)
        requires
            old(self).wf(),
        ensures
            final(self).wf(),
            final(self).cycles == old(self).cycles,
            ({
                let id = old(self).next_event_id as int;
                if old(self).cycles < old(self).events[id].time {
                    r == None::<(Event, u64)> && *final(self) == *old(self)
                } else {
                    &&& r == Some((old(self).events[id].event, old(self).events[id].time))
                    &&& final(self).next_event_id == first_min(old(self).events@)
                    &&& final(self).events@ == old(self).events@.update(id, PendingEvent { time: u64::MAX, ..old(self).events[id] })
                }
            }),
    {
        if self.waiting_for_next_event() {
            return None;
        }

        let id = self.next_event_id;

        self.find_next_event();

        let slot = self.events[id];
        self.events[id].time = u64::MAX;

        Some((slot.event, slot.time))
    }

    /// Advances the master clock.
    pub fn tick(&mut self, ticks: u64)
        requires
            old(self).cycles + ticks <= u64::MAX,
        ensures
            *final(self) == (Scheduler { cycles: (old(self).cycles + ticks) as u64, ..*old(self) }),
    {
        self.cycles = self.cycles + ticks;
    }
}

/// `first_min` picks the first slot with the least time.
pub proof fn lemma_first_min(events: Seq<PendingEvent>)
    requires
        events.len() == 3,
    ensures
        is_first_min(events, first_min(events)),
{
}

/// Scheduling an event keeps the next slot the earliest one.
pub proof fn lemma_add_event_keeps_earliest(s: Scheduler, t: Scheduler, event: Event, time: u64)
    requires
        s.next_is_earliest(),
        t.wf(),
        t.events@ == s.events@.update(event.index_spec(), PendingEvent { event, time }),
        t.next_event_id == if event.index_spec() == s.next_event_id {
            first_min(t.events@)
        } else if time < s.events[s.next_event_id as int].time {
            event.index_spec()
        } else {
            s.next_event_id as int
        },
    ensures
        t.next_is_earliest(),
{
    lemma_first_min(t.events@);
}

/// Only the PPU slot is used, and the next slot is the PPU slot unless it is empty.
pub open spec fn ppu_schedule(s: Scheduler) -> bool {
    &&& s.wf()
    &&& s.events[0].time == u64::MAX
    &&& s.events[2].time == u64::MAX
    &&& (s.next_event_id == 1 || s.events[1].time == u64::MAX)
    &&& forall|i: int| 0 <= i < 3 ==> #[trigger] s.events[i].event is Ppu
}

/// Scheduling a PPU event keeps a PPU-only schedule.
pub proof fn lemma_ppu_schedule_add(s: Scheduler, t: Scheduler, event: Event, time: u64)
    requires
        ppu_schedule(s),
        event is Ppu,
        t.wf(),
        t.events@ == s.events@.update(event.index_spec(), PendingEvent { event, time }),
        t.next_event_id == if event.index_spec() == s.next_event_id {
            first_min(t.events@)
        } else if time < s.events[s.next_event_id as int].time {
            event.index_spec()
        } else {
            s.next_event_id as int
        },
    ensures
        ppu_schedule(t),
{
    assert(t.events[0] == s.events[0] && t.events[2] == s.events[2]);
    assert(t.events[1].event == event);
    assert(t.events[1].time == time);
}

/// Taking the due event keeps a PPU-only schedule.
pub proof fn lemma_ppu_schedule_pop(s: Scheduler, t: Scheduler)
    requires
        ppu_schedule(s),
        t.wf(),
        t.next_event_id == first_min(s.events@),
        t.events@ == s.events@.update(s.next_event_id as int, PendingEvent { time: u64::MAX, ..s.events[s.next_event_id as int] }),
    ensures
        ppu_schedule(t),
{
}

} // verus!
