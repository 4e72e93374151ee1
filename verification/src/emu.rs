use vstd::prelude::*;

use crate::bus::dma::{dma_done, Dma};
use crate::bus::system_bus::{lemma_same_agenda, SystemBus};
use crate::bus::Bus;
use crate::cart::Cart;
use crate::scheduler::{kind_code, lemma_ppu_schedule_add, lemma_ppu_schedule_pop, ppu_schedule, Event, PpuEvent, Scheduler};
use crate::w65c816::{step_taken, W65C816};
use crate::w65c816::cpu::Cpu;
use crate::bus::BusCycle;

verus! {

/// The console: the main CPU and the bus it runs on.
pub struct Emu {
    pub w65c816: W65C816,
    pub bus: SystemBus,
    /// How many times the PPU has finished a frame (raised its frame-ready flag) while this
    /// console ran.
    pub frames: Ghost<nat>,
}

/// A DMA move: MDMAEN had channels enabled, and the DMA ran, leaving the processor alone.
pub open spec fn dma_move(a: (Cpu, SystemBus), b: (Cpu, SystemBus)) -> bool {
    &&& a.1.dma.enable_channels > 0
    &&& b.0 == a.0
    &&& dma_done(a.1, b.1)
}

/// A CPU step, from a bus with no DMA pending: the processor steps with the interrupt lines of
/// that bus, over its trace; the step leaves the bus's agenda as it was.
pub open spec fn step_move(a: (Cpu, SystemBus), b: (Cpu, SystemBus)) -> bool {
    &&& a.1.dma.enable_channels == 0
    &&& step_taken(a.0, a.1.ppu.counters.nmi_requested, a.1.ppu.counters.in_irq, a.1.log@, b.0, b.1.log@)
    &&& b.1.agenda() == a.1.agenda()
}

/// Idling: only the clock moves.
pub open spec fn wait_move(a: (Cpu, SystemBus), b: (Cpu, SystemBus)) -> bool {
    &&& b.0 == a.0
    &&& b.1 == (SystemBus { scheduler: b.1.scheduler, ..a.1 })
    &&& b.1.scheduler == (Scheduler { cycles: b.1.scheduler.cycles, ..a.1.scheduler })
}

/// One move of the CPU side of the console: a DMA, a CPU step or idling.
pub open spec fn cpu_move(a: (Cpu, SystemBus), b: (Cpu, SystemBus)) -> bool {
    dma_move(a, b) || step_move(a, b) || wait_move(a, b)
}

/// A run of CPU-side moves: each state is the processor and the whole bus.
pub open spec fn cpu_run(run: Seq<(Cpu, SystemBus)>) -> bool {
    &&& run.len() >= 1
    &&& forall|i: int| 0 <= i < run.len() - 1 ==> #[trigger] cpu_move(run[i], run[i + 1])
}

/// The console went from `c0` on `b0` to `c1` on `b1` by CPU-side moves.
pub open spec fn cpu_ran(c0: Cpu, b0: SystemBus, c1: Cpu, b1: SystemBus) -> bool {
    exists|run: Seq<(Cpu, SystemBus)>| #[trigger] cpu_run(run) && run[0] == (c0, b0) && run.last() == (c1, b1)
}

/// One move of the console: a CPU-side move, or events (PPU events, taking a frame) that leave
/// the processor and the trace as they were.
pub open spec fn console_move(a: (Cpu, SystemBus), b: (Cpu, SystemBus)) -> bool {
    cpu_move(a, b) || (b.0 == a.0 && b.1.log == a.1.log)
}

/// A run of moves of the console.
pub open spec fn console_run(run: Seq<(Cpu, SystemBus)>) -> bool {
    &&& run.len() >= 1
    &&& forall|i: int| 0 <= i < run.len() - 1 ==> #[trigger] console_move(run[i], run[i + 1])
}

/// The console went from `c0` on `b0` to `c1` on `b1` by CPU-side moves with events between them.
pub open spec fn console_ran(c0: Cpu, b0: SystemBus, c1: Cpu, b1: SystemBus) -> bool {
    exists|run: Seq<(Cpu, SystemBus)>| #[trigger] console_run(run) && run[0] == (c0, b0) && run.last() == (c1, b1)
}

/// A run of moves followed by a run of CPU-side moves that starts with the processor and the
/// trace the first ends in is a run of moves.
proof fn lemma_console_run_append(a: Seq<(Cpu, SystemBus)>, b: Seq<(Cpu, SystemBus)>)
    requires
        console_run(a),
        cpu_run(b),
        a.last().0 == b[0].0 && a.last().1.log == b[0].1.log,
    ensures
        console_run(a + b),
        (a + b)[0] == a[0],
        (a + b).last() == b.last(),
{
    let c = a + b;
    assert forall|i: int| 0 <= i < c.len() - 1 implies #[trigger] console_move(c[i], c[i + 1]) by {
        if i < a.len() - 1 {
            assert(c[i] == a[i] && c[i + 1] == a[i + 1]);
        } else if i == a.len() - 1 {
            assert(c[i] == a.last() && c[i + 1] == b[0]);
        } else {
            let k = i - a.len();
            assert(c[i] == b[k] && c[i + 1] == b[k + 1]);
            assert(cpu_move(b[k], b[k + 1]));
        }
    }
}

/// Two runs of moves, the second starting with the processor and trace the first ends in,
/// make one run of moves.
proof fn lemma_console_run_join(a: Seq<(Cpu, SystemBus)>, b: Seq<(Cpu, SystemBus)>)
    requires
        console_run(a),
        console_run(b),
        a.last().0 == b[0].0 && a.last().1.log == b[0].1.log,
    ensures
        console_run(a + b),
        (a + b)[0] == a[0],
        (a + b).last() == b.last(),
{
    let c = a + b;
    assert forall|i: int| 0 <= i < c.len() - 1 implies #[trigger] console_move(c[i], c[i + 1]) by {
        if i < a.len() - 1 {
            assert(c[i] == a[i] && c[i + 1] == a[i + 1]);
        } else if i == a.len() - 1 {
            assert(c[i] == a.last() && c[i + 1] == b[0]);
        } else {
            let k = i - a.len();
            assert(c[i] == b[k] && c[i + 1] == b[k + 1]);
        }
    }
}

/// A run of moves followed by a state with the same processor and trace (events ran) is a run
/// of moves.
proof fn lemma_console_run_events(a: Seq<(Cpu, SystemBus)>, x: (Cpu, SystemBus))
    requires
        console_run(a),
        x.0 == a.last().0 && x.1.log == a.last().1.log,
    ensures
        console_run(a.push(x)),
        a.push(x)[0] == a[0],
        a.push(x).last() == x,
{
    let c = a.push(x);
    assert forall|i: int| 0 <= i < c.len() - 1 implies #[trigger] console_move(c[i], c[i + 1]) by {
        if i < a.len() - 1 {
            assert(c[i] == a[i] && c[i + 1] == a[i + 1]);
        } else {
            assert(c[i] == a.last() && c[i + 1] == x);
        }
    }
}

/// A run of CPU-side moves followed by one more CPU-side move is a run of CPU-side moves.
proof fn lemma_cpu_run_push(a: Seq<(Cpu, SystemBus)>, x: (Cpu, SystemBus))
    requires
        cpu_run(a),
        cpu_move(a.last(), x),
    ensures
        cpu_run(a.push(x)),
        a.push(x)[0] == a[0],
        a.push(x).last() == x,
{
    let c = a.push(x);
    assert forall|i: int| 0 <= i < c.len() - 1 implies #[trigger] cpu_move(c[i], c[i + 1]) by {
        if i < a.len() - 1 {
            assert(c[i] == a[i] && c[i + 1] == a[i + 1]);
        } else {
            assert(c[i] == a.last() && c[i + 1] == x);
        }
    }
}

/// From `a` to `b` the frame-ready flag did not fall, and the frame count went up by one when
/// it rose.
pub open spec fn frame_counted(a: Emu, b: Emu) -> bool {
    &&& a.bus.ppu.frame_ready ==> b.bus.ppu.frame_ready
    &&& b.frames@ == a.frames@ + if !a.bus.ppu.frame_ready && b.bus.ppu.frame_ready { 1int } else { 0 }
}

/// The time the next event is due.
pub open spec fn next_due(s: Scheduler) -> u64 {
    s.events[s.next_event_id as int].time
}

impl Emu {
    /// The bus keeps its invariant and only PPU events are scheduled.
    pub open spec fn wf(&self) -> bool {
        self.bus.wf() && ppu_schedule(self.bus.scheduler)
    }

    /// A console with the cartridge inserted, reset, with the first scanline due at time 0.
    pub fn new(cart: Cart) -> (r: Self)
        requires
            cart.wf(),
        ensures
            r.wf(),
            r.bus.cart == cart,
            r.bus.log@ == crate::w65c816::trace::bank0_reads(0xFFFC, r.bus.log@, 0),
            r.w65c816.cpu == crate::w65c816::cpu::reset_cpu(Cpu::power_on(), r.bus.log@, 0),
            r.w65c816.cpu.emulation_mode && r.w65c816.cpu.stack_pointer == 0x1FF && r.w65c816.cpu.pbr == 0,
            r.bus.scheduler.events[1].event == Event::Ppu(PpuEvent::NewScanline),
            r.bus.scheduler.events[1].time == 0,
            r.frames@ == 0 && !r.bus.ppu.frame_ready,
    {
        let mut bus = SystemBus::new(cart);
        let mut w65c816 = W65C816::new();
        let ghost a0 = bus.scheduler.agenda();
        proof {
            assert(bus.scheduler.events[0].time == u64::MAX && bus.scheduler.events[1].time == u64::MAX);
            assert(bus.scheduler.events[2].time == u64::MAX);
            assert(bus.scheduler.events[0].event is Ppu && bus.scheduler.events[1].event is Ppu);
            assert(bus.scheduler.events[2].event is Ppu);
        }
        let ghost b1 = bus;
        w65c816.reset(&mut bus);
        proof {
            lemma_same_agenda(b1, bus);
            assert(bus.scheduler.agenda() == a0);
            assert(a0[0] == bus.scheduler.events[0].time && a0[1] == bus.scheduler.events[1].time);
            assert(a0[2] == bus.scheduler.events[2].time && a0[3] == bus.scheduler.next_event_id as u64);
            assert(a0[4] == kind_code(bus.scheduler.events[0].event) && a0[5] == kind_code(bus.scheduler.events[1].event));
            assert(a0[6] == kind_code(bus.scheduler.events[2].event));
            assert(bus.scheduler.events[0].event is Ppu && bus.scheduler.events[1].event is Ppu);
            assert(bus.scheduler.events[2].event is Ppu);
        }
        let ghost s0 = bus.scheduler;
        bus.scheduler.add_event(Event::Ppu(PpuEvent::NewScanline), 0);
        proof {
            lemma_ppu_schedule_add(s0, bus.scheduler, Event::Ppu(PpuEvent::NewScanline), 0);
        }
        Emu { w65c816, bus, frames: Ghost(0) }
    }

    /// Resets the CPU (the rest of the console keeps its state).
    pub fn reset(&mut self)
        requires
            old(self).wf(),
        ensures
            final(self).wf(),
            final(self).w65c816.cpu == crate::w65c816::cpu::reset_cpu(old(self).w65c816.cpu, final(self).bus.log@,
                old(self).bus.log@.len() as int),
    {
        let ghost b0 = self.bus;
        self.w65c816.reset(&mut self.bus);
        proof { lemma_same_agenda(b0, self.bus); }
    }

    /// Handles every PPU event that is due. When one was due, the PPU slot moves on in time.
    fn handle_due_events(&mut self)
        requires
            old(self).wf(),
        ensures
            final(self).wf(),
            final(self).bus.scheduler.cycles == old(self).bus.scheduler.cycles,
            final(self).w65c816 == old(self).w65c816 && final(self).bus.log == old(self).bus.log,
            final(self).bus.scheduler.cycles < next_due(final(self).bus.scheduler) || final(self).bus.scheduler.cycles == u64::MAX,
            final(self).bus.scheduler.events[1].time >= old(self).bus.scheduler.events[1].time,
            old(self).bus.scheduler.cycles >= next_due(old(self).bus.scheduler) && old(self).bus.scheduler.events[1].time < u64::MAX
                ==> final(self).bus.scheduler.events[1].time > old(self).bus.scheduler.events[1].time,
            frame_counted(*old(self), *final(self)),
    {
        let ghost s0 = self.bus.scheduler;
        let mut first = true;
        loop
            invariant
                self.wf(),
                self.bus.scheduler.cycles == s0.cycles,
                self.w65c816 == old(self).w65c816 && self.bus.log == old(self).bus.log,
                self.bus.scheduler.events[1].time >= s0.events[1].time,
                first ==> self.bus.scheduler == s0,
                !first && s0.cycles >= next_due(s0) && s0.events[1].time < u64::MAX
                    ==> self.bus.scheduler.events[1].time > s0.events[1].time,
                s0 == old(self).bus.scheduler,
                frame_counted(*old(self), *self),
            ensures
                self.wf(),
                self.bus.scheduler.cycles < next_due(self.bus.scheduler) || self.bus.scheduler.cycles == u64::MAX,
                self.bus.scheduler.cycles == s0.cycles,
                self.w65c816 == old(self).w65c816 && self.bus.log == old(self).bus.log,
                self.bus.scheduler.events[1].time >= s0.events[1].time,
                s0.cycles >= next_due(s0) && s0.events[1].time < u64::MAX ==> self.bus.scheduler.events[1].time > s0.events[1].time,
                frame_counted(*old(self), *self),
            decreases u64::MAX - self.bus.scheduler.events[1].time, if first { 1int } else { 0 },
        {
            let ghost s1 = self.bus.scheduler;
            let popped = self.bus.scheduler.pop_event();
            match popped {
                None => {
                    break;
                },
                Some((Event::Apu, _)) => {
                    // The console's bus has no sound unit attached: nothing schedules it.
                    proof { assert(s1.events[s1.next_event_id as int].event is Ppu); }
                    break;
                },
                Some((Event::Ppu(event), time)) => {
                    proof {
                        lemma_ppu_schedule_pop(s1, self.bus.scheduler);
                    }
                    let ready = self.bus.ppu.frame_ready;
                    self.bus.ppu.handle_event(&mut self.bus.scheduler, event, time);
                    if !ready && self.bus.ppu.frame_ready {
                        self.frames = Ghost(self.frames@ + 1);
                    }
                    first = false;
                    if time == u64::MAX {
                        break;
                    }
                },
            }
        }
    }

    /// Runs a DMA if one was started (the CPU step then starts from the bus the DMA leaves), then
    /// one CPU step, then the events that came due: afterwards none is due, unless the clock has
    /// run out. The DMA leaves the trace and the interrupt lines as they were.
    pub fn step(&mut self)
        requires
            old(self).wf(),
        ensures
            final(self).wf(),
            final(self).bus.scheduler.cycles >= old(self).bus.scheduler.cycles,
            step_taken(old(self).w65c816.cpu, old(self).bus.ppu.counters.nmi_requested, old(self).bus.ppu.counters.in_irq,
                old(self).bus.log@, final(self).w65c816.cpu, final(self).bus.log@),
            final(self).bus.scheduler.cycles < next_due(final(self).bus.scheduler) || final(self).bus.scheduler.cycles == u64::MAX,
            frame_counted(*old(self), *final(self)),
            exists|pre: SystemBus, after: SystemBus| #[trigger] step_move((old(self).w65c816.cpu, pre), (final(self).w65c816.cpu, after))
                && (if old(self).bus.dma.enable_channels > 0 { dma_done(old(self).bus, pre) } else { pre == old(self).bus })
                && after.log == final(self).bus.log,
    {
        if self.bus.dma.enable_channels > 0 {
            Dma::do_dma(&mut self.bus);
        }
        let ghost b1 = self.bus;
        self.w65c816.step(&mut self.bus);
        let ghost b2 = self.bus;
        proof { lemma_same_agenda(b1, self.bus); }
        self.handle_due_events();
        proof {
            assert(step_move((old(self).w65c816.cpu, b1), (self.w65c816.cpu, b2)));
        }
    }

    /// Runs the CPU (and any DMA it starts) until the next event is due: a run of DMA transfers
    /// and CPU steps, each step from a bus with no DMA pending. A CPU that spends no time
    /// (stopped, or waiting for an interrupt) idles until then.
    pub fn run_cpu_until_next_event(&mut self)
        requires
            old(self).wf(),
        ensures
            final(self).wf(),
            final(self).bus.scheduler.cycles >= next_due(final(self).bus.scheduler),
            final(self).bus.scheduler.agenda() == old(self).bus.scheduler.agenda(),
            cpu_ran(old(self).w65c816.cpu, old(self).bus, final(self).w65c816.cpu, final(self).bus),
            final(self).bus.ppu.frame_ready == old(self).bus.ppu.frame_ready && final(self).frames == old(self).frames,
    {
        let ghost mut run: Seq<(Cpu, SystemBus)> = seq![(self.w65c816.cpu, self.bus)];
        while self.bus.scheduler.waiting_for_next_event()
            invariant
                self.bus.ppu.frame_ready == old(self).bus.ppu.frame_ready && self.frames == old(self).frames,
                self.wf(),
                self.bus.scheduler.agenda() == old(self).bus.scheduler.agenda(),
                cpu_run(run),
                run[0] == (old(self).w65c816.cpu, old(self).bus),
                run.last() == (self.w65c816.cpu, self.bus),
            decreases if self.bus.scheduler.cycles < next_due(self.bus.scheduler) { next_due(self.bus.scheduler) - self.bus.scheduler.cycles } else { 0 },
        {
            let before = self.bus.scheduler.cycles;
            let ghost a0 = self.bus.scheduler.agenda();
            let ghost d0 = next_due(self.bus.scheduler);
            if self.bus.dma.enable_channels > 0 {
                let ghost b0 = self.bus;
                Dma::do_dma(&mut self.bus);
                proof {
                    assert(dma_move((self.w65c816.cpu, b0), (self.w65c816.cpu, self.bus)));
                    lemma_cpu_run_push(run, (self.w65c816.cpu, self.bus));
                    run = run.push((self.w65c816.cpu, self.bus));
                }
            }
            let ghost b1 = self.bus;
            let ghost c1 = self.w65c816.cpu;
            self.w65c816.step(&mut self.bus);
            proof {
                lemma_same_agenda(b1, self.bus);
                assert(step_move((c1, b1), (self.w65c816.cpu, self.bus)));
                lemma_cpu_run_push(run, (self.w65c816.cpu, self.bus));
                run = run.push((self.w65c816.cpu, self.bus));
                let s = self.bus.scheduler;
                assert(s.agenda() == a0);
                assert(a0[0] == s.events[0].time && a0[1] == s.events[1].time && a0[2] == s.events[2].time);
                assert(a0[3] == s.next_event_id as u64);
                assert(next_due(s) == d0);
            }
            if self.bus.scheduler.cycles == before {
                let due = self.bus.scheduler.events[self.bus.scheduler.next_event_id].time;
                let ghost b2 = self.bus;
                self.bus.add_cycles(due - before);
                proof {
                    assert(wait_move((self.w65c816.cpu, b2), (self.w65c816.cpu, self.bus)));
                    lemma_cpu_run_push(run, (self.w65c816.cpu, self.bus));
                    run = run.push((self.w65c816.cpu, self.bus));
                }
            }
        }
    }

    /// Runs until the PPU has a frame ready, then takes the frame: unless a frame was already
    /// waiting, one more frame is counted in `frames`. The run also ends when the clock has run
    /// out. The console gets there by DMA transfers and CPU steps, with events between them.
    pub fn run_frame(&mut self)
        requires
            old(self).wf(),
        ensures
            final(self).wf(),
            !final(self).bus.ppu.frame_ready,
            console_ran(old(self).w65c816.cpu, old(self).bus, final(self).w65c816.cpu, final(self).bus),
            final(self).bus.scheduler.events[1].time >= old(self).bus.scheduler.events[1].time,
            old(self).bus.ppu.frame_ready ==> final(self).frames == old(self).frames,
            !old(self).bus.ppu.frame_ready ==> final(self).frames@ == old(self).frames@ + 1
                || (final(self).frames == old(self).frames && final(self).bus.scheduler.events[1].time == u64::MAX),
    {
        let ghost mut run: Seq<(Cpu, SystemBus)> = seq![(self.w65c816.cpu, self.bus)];
        while !self.bus.ppu.frame_ready && self.bus.scheduler.events[1].time < u64::MAX
            invariant
                self.wf(),
                frame_counted(*old(self), *self),
                self.bus.scheduler.events[1].time >= old(self).bus.scheduler.events[1].time,
                console_run(run),
                run[0] == (old(self).w65c816.cpu, old(self).bus),
                run.last() == (self.w65c816.cpu, self.bus),
            decreases u64::MAX - self.bus.scheduler.events[1].time,
        {
            let ghost a0 = self.bus.scheduler.agenda();
            let ghost t1 = self.bus.scheduler.events[1].time;
            let ghost e0 = (self.w65c816.cpu, self.bus);
            self.run_cpu_until_next_event();
            proof {
                assert(self.bus.scheduler.agenda() == a0);
                assert(a0[1] == t1 && a0[1] == self.bus.scheduler.events[1].time);
                assert(a0[3] == self.bus.scheduler.next_event_id as u64);
                let b = choose|b: Seq<(Cpu, SystemBus)>| #[trigger] cpu_run(b) && b[0] == e0
                    && b.last() == (self.w65c816.cpu, self.bus);
                lemma_console_run_append(run, b);
                run = run + b;
            }
            let ghost before = *self;
            self.handle_due_events();
            proof {
                assert(frame_counted(before, *self));
                lemma_console_run_events(run, (self.w65c816.cpu, self.bus));
                run = run.push((self.w65c816.cpu, self.bus));
            }
        }
        self.bus.ppu.frame_ready = false;
        proof {
            lemma_console_run_events(run, (self.w65c816.cpu, self.bus));
            run = run.push((self.w65c816.cpu, self.bus));
            assert(console_run(run) && run[0] == (old(self).w65c816.cpu, old(self).bus));
        }
    }

    /// Runs a number of frames, by DMA transfers and CPU steps with events between them: `frames` counts each
    /// (a frame already waiting is taken as the first), unless the clock runs out.
    pub fn run_for_frames(&mut self, frames: u64)
        requires
            old(self).wf(),
        ensures
            final(self).wf(),
            console_ran(old(self).w65c816.cpu, old(self).bus, final(self).w65c816.cpu, final(self).bus),
            final(self).bus.scheduler.events[1].time == u64::MAX
                || final(self).frames@ + (if frames > 0 && old(self).bus.ppu.frame_ready { 1int } else { 0 })
                    == old(self).frames@ + frames,
            frames > 0 ==> !final(self).bus.ppu.frame_ready,
            frames == 0 ==> final(self).frames == old(self).frames,
    {
        let ghost mut run: Seq<(Cpu, SystemBus)> = seq![(self.w65c816.cpu, self.bus)];
        let mut i: u64 = 0;
        while i < frames
            invariant
                self.wf(),
                i <= frames,
                self.bus.scheduler.events[1].time >= old(self).bus.scheduler.events[1].time,
                self.bus.scheduler.events[1].time == u64::MAX
                    || self.frames@ + (if i > 0 && old(self).bus.ppu.frame_ready { 1int } else { 0 }) == old(self).frames@ + i,
                i > 0 ==> !self.bus.ppu.frame_ready,
                i == 0 ==> self.frames == old(self).frames && self.bus.ppu.frame_ready == old(self).bus.ppu.frame_ready,
                console_run(run),
                run[0] == (old(self).w65c816.cpu, old(self).bus),
                run.last() == (self.w65c816.cpu, self.bus),
            decreases frames - i,
        {
            let ghost e0 = (self.w65c816.cpu, self.bus);
            self.run_frame();
            proof {
                let b = choose|b: Seq<(Cpu, SystemBus)>| #[trigger] console_run(b) && b[0] == e0
                    && b.last() == (self.w65c816.cpu, self.bus);
                lemma_console_run_join(run, b);
                run = run + b;
            }
            i = i + 1;
        }
    }

    pub fn frame_ready(&self) -> (r: bool)
        ensures
            r == self.bus.ppu.frame_ready,
    {
        self.bus.ppu.frame_ready
    }

    pub fn frame_width(&self) -> (r: usize)
        ensures
            r == self.bus.ppu.screen_width,
    {
        self.bus.ppu.screen_width
    }

    pub fn frame_height(&self) -> (r: usize)
        ensures
            r == self.bus.ppu.screen_height,
    {
        self.bus.ppu.screen_height
    }

    /// The frame buffer: BGR555 colors, one per pixel, line after line.
    pub fn frame(&self) -> (r: &[u16])
        ensures
            r@ == self.bus.ppu.frame_buffer@,
    {
        self.bus.ppu.frame_buffer.as_slice()
    }
}

} // verus!
