use vstd::prelude::*;

pub mod dsp;
pub mod spc700;
pub mod timer;
pub mod voice;

use dsp::Dsp;
use timer::Timer;
use spc700::Cpu;
use spc700::instructions::Spc700;
use spc700::table::step_made;
use crate::bus::{Bus, BusCycle};
use crate::cart::info::Model;
use crate::scheduler::{Event, Scheduler};
use crate::w65c816::addressing::Address;
use crate::w65c816::trace::extends;

verus! {

/// A run of SPC700 steps, each begun while the clock (the cost of the trace so far) was below
/// `target`: every state of `run` but the first is one step after the one before it.
pub open spec fn steps_until(run: Seq<(Cpu, Seq<BusCycle>)>, target: int) -> bool {
    &&& run.len() >= 1
    &&& forall|i: int| 0 <= i < run.len() - 1 ==> #[trigger] step_made(run[i].0, run[i].1, run[i + 1].0, run[i + 1].1)
    &&& forall|i: int| 0 <= i < run.len() - 1 ==> #[trigger] log_cost(run[i].1) < target
}

/// The SPC700 went from `c0` with the trace `l0` to `c1` with the trace `l1` by a run of steps,
/// each begun while the clock was below `target`.
pub open spec fn ran_to(c0: Cpu, l0: Seq<BusCycle>, c1: Cpu, l1: Seq<BusCycle>, target: int) -> bool {
    exists|run: Seq<(Cpu, Seq<BusCycle>)>| #[trigger] steps_until(run, target) && run[0] == (c0, l0) && run.last() == (c1, l1)
}

/// The SPC700's address space: 64 KiB of audio RAM with the I/O registers at $F0-$FF and
/// the boot ROM over $FFC0-$FFFF while it is enabled.
pub struct ApuBus {
    pub aram: [u8; 0x10000],
    pub apuio: [u8; 4],
    pub cpuio: [u8; 4],
    pub bootrom_enabled: bool,
    pub cycles: u64,
    pub dsp: Dsp,
    pub timers: [Timer; 3],
    /// The bus cycles made so far.
    pub log: Ghost<Seq<BusCycle>>,
}

/// A write to audio RAM is read back, except under the boot ROM while it is enabled, which
/// keeps answering what it answered.
pub proof fn lemma_aram_write_read(b: ApuBus, b2: ApuBus, addr: u16, data: u8)
    requires
        b.wf(),
        !(0xF0 <= addr <= 0xFF),
        b2.aram@ == b.aram@.update(addr as int, data),
        b2.bootrom_enabled == b.bootrom_enabled,
    ensures
        !(addr >= 0xFFC0 && b.bootrom_enabled) ==> b2.read_spec(addr) == data,
        addr >= 0xFFC0 && b.bootrom_enabled ==> b2.read_spec(addr) == b.read_spec(addr),
{
}

/// The SPC700 clock cycles a bus cycle takes: one per access, `n` for `n` internal cycles.
pub open spec fn cycle_cost(c: BusCycle) -> int {
    match c {
        BusCycle::Io(n) => n as int,
        _ => 1,
    }
}

/// The SPC700 clock cycles that a log of bus cycles took.
pub open spec fn log_cost(l: Seq<BusCycle>) -> int
    decreases l.len(),
{
    if l.len() == 0 { 0 } else { log_cost(l.drop_last()) + cycle_cost(l.last()) }
}

/// The cost of a log that another extends grows by at least one per added cycle, when
/// every internal-cycle count is positive.
pub proof fn lemma_log_cost_grows(l1: Seq<BusCycle>, l2: Seq<BusCycle>)
    requires
        extends(l2, l1),
        forall|i: int| 0 <= i < l2.len() ==> #[trigger] cycle_cost(l2[i]) >= 1,
    ensures
        log_cost(l2) >= log_cost(l1) + (l2.len() - l1.len()),
    decreases l2.len(),
{
    if l2.len() == l1.len() {
        assert(l2 =~= l1);
    } else {
        let l3 = l2.drop_last();
        assert(extends(l3, l1));
        assert(cycle_cost(l2[l2.len() - 1]) >= 1);
        lemma_log_cost_grows(l1, l3);
    }
}

/// Every internal-cycle count in a log is positive.
pub open spec fn positive_io(l: Seq<BusCycle>) -> bool {
    forall|i: int| 0 <= i < l.len() ==> #[trigger] cycle_cost(l[i]) >= 1
}

/// The SPC700 clock count that master-clock time `time` corresponds to.
pub open spec fn master_to_spc(model: Model, time: int) -> int {
    match model {
        Model::Ntsc => time * 1_024_000 / 21_477_270,
        Model::Pal => time * 1_024_000 / 21_281_370,
    }
}

/// The master-clock period of the sound unit's event: 32 SPC700 cycles.
pub open spec fn event_period(model: Model) -> int {
    match model {
        Model::Ntsc => 671,
        Model::Pal => 665,
    }
}

/// The sound unit: the SPC700 with its bus.
pub struct Apu {
    pub spc700: Spc700,
    pub bus: ApuBus,
    pub model: Model,
}

impl Apu {
    pub fn new(model: Model) -> (r: Self)
        ensures
            r.bus.inv(),
            r.model == model,
            r.bus.cycles == 0 && r.bus.bootrom_enabled,
            r.spc700.cpu.program_counter == 0 && !r.spc700.cpu.paused,
    {
        Apu { spc700: Spc700::new(), bus: ApuBus::new(), model }
    }

    /// Runs the SPC700 until its clock reaches the master-clock time `time`: the processor goes
    /// through a run of steps, each begun before that time. Opcodes without an entry in the
    /// table only cost their fetch.
    pub fn catch_up_to_master(&mut self, time: u64)
        requires
            old(self).bus.inv(),
        ensures
            final(self).bus.inv(),
            final(self).model == old(self).model,
            final(self).bus.cycles >= old(self).bus.cycles,
            final(self).bus.cycles >= master_to_spc(old(self).model, time as int),
            old(self).bus.cycles >= master_to_spc(old(self).model, time as int) ==> *final(self) == *old(self),
            ran_to(old(self).spc700.cpu, old(self).bus.log@, final(self).spc700.cpu, final(self).bus.log@,
                master_to_spc(old(self).model, time as int)),
    {
        let target = match self.model {
            Model::Ntsc => (time as u128 * 1_024_000 / 21_477_270) as u64,
            Model::Pal => (time as u128 * 1_024_000 / 21_281_370) as u64,
        };
        assert(target as int == master_to_spc(self.model, time as int)) by (nonlinear_arith)
            requires
                self.model == Model::Ntsc ==> target as int == (time as u128 * 1_024_000 / 21_477_270) as u64,
                self.model == Model::Pal ==> target as int == (time as u128 * 1_024_000 / 21_281_370) as u64,
                time as u128 * 1_024_000 / 21_477_270 <= time,
                time as u128 * 1_024_000 / 21_281_370 <= time,
        {
        }
        let ghost mut run: Seq<(Cpu, Seq<BusCycle>)> = seq![(self.spc700.cpu, self.bus.log@)];
        while self.bus.cycles < target
            invariant
                self.bus.inv(),
                self.model == old(self).model,
                self.bus.cycles >= old(self).bus.cycles,
                target as int == master_to_spc(self.model, time as int),
                old(self).bus.cycles >= target ==> *self == *old(self),
                run.len() >= 1,
                run[0] == (old(self).spc700.cpu, old(self).bus.log@),
                run.last() == (self.spc700.cpu, self.bus.log@),
                forall|i: int| 0 <= i < run.len() - 1 ==> #[trigger] step_made(run[i].0, run[i].1, run[i + 1].0, run[i + 1].1),
                forall|i: int| 0 <= i < run.len() - 1 ==> #[trigger] log_cost(run[i].1) < target,
            decreases if self.bus.cycles < target { target - self.bus.cycles } else { 0 },
        {
            let ghost l0 = self.bus.log@;
            let ghost c0 = self.bus.cycles;
            let ghost r0 = run;
            let _ = self.spc700.step(&mut self.bus);
            proof {
                lemma_log_cost_grows(l0, self.bus.log@);
                assert(log_cost(l0) == c0);
                assert(self.bus.cycles > c0);
                run = r0.push((self.spc700.cpu, self.bus.log@));
                assert forall|i: int| 0 <= i < run.len() - 1 implies #[trigger] step_made(run[i].0, run[i].1, run[i + 1].0, run[i + 1].1) by {
                    if i < r0.len() - 1 {
                        assert(run[i] == r0[i] && run[i + 1] == r0[i + 1]);
                    }
                }
                assert forall|i: int| 0 <= i < run.len() - 1 implies #[trigger] log_cost(run[i].1) < target by {
                    if i < r0.len() - 1 {
                        assert(run[i] == r0[i]);
                    }
                }
            }
        }
        assert(steps_until(run, target as int));
    }

    /// The sound unit's event: catches up with the master clock and schedules the next one.
    pub fn handle_event(&mut self, scheduler: &mut Scheduler, time: u64)
        requires
            old(self).bus.inv(),
            old(scheduler).wf(),
            time as int + event_period(old(self).model) <= u64::MAX,
        ensures
            final(self).bus.inv(),
            final(self).bus.cycles >= master_to_spc(old(self).model, time as int),
            ran_to(old(self).spc700.cpu, old(self).bus.log@, final(self).spc700.cpu, final(self).bus.log@,
                master_to_spc(old(self).model, time as int)),
            final(scheduler).wf(),
            final(scheduler).events@[0] == (crate::scheduler::PendingEvent {
                event: Event::Apu,
                time: (time + event_period(old(self).model)) as u64,
            }),
            final(scheduler).events@[1] == old(scheduler).events@[1],
            final(scheduler).events@[2] == old(scheduler).events@[2],
    {
        self.catch_up_to_master(time);
        let period: u64 = match self.model {
            Model::Ntsc => 671,
            Model::Pal => 665,
        };
        scheduler.add_event(Event::Apu, time + period);
    }

    /// What the CPU reads from port `addr % 4` ($2140-$2143), once the sound unit has caught up.
    pub fn read(&mut self, addr: u16, time: u64) -> (r: Option<u8>)
        requires
            old(self).bus.inv(),
        ensures
            final(self).bus.inv(),
            final(self).bus.cycles >= master_to_spc(old(self).model, time as int),
            ran_to(old(self).spc700.cpu, old(self).bus.log@, final(self).spc700.cpu, final(self).bus.log@,
                master_to_spc(old(self).model, time as int)),
            *final(self) == (Apu { spc700: final(self).spc700, bus: final(self).bus, ..*old(self) }),
            r == Some(final(self).bus.cpuio[addr as int % 4]),
    {
        self.catch_up_to_master(time);
        Some(self.bus.cpuio[(addr % 4) as usize])
    }

    /// The CPU writes port `addr % 4` ($2140-$2143), once the sound unit has caught up.
    pub fn write(&mut self, addr: u16, data: u8, time: u64)
        requires
            old(self).bus.inv(),
        ensures
            final(self).bus.inv(),
            final(self).bus.cycles >= master_to_spc(old(self).model, time as int),
            ran_to(old(self).spc700.cpu, old(self).bus.log@, final(self).spc700.cpu, final(self).bus.log@,
                master_to_spc(old(self).model, time as int)),
            final(self).bus.apuio[addr as int % 4] == data,
    {
        self.catch_up_to_master(time);
        self.bus.apuio[(addr % 4) as usize] = data;
    }
}

/// A byte of the boot ROM. Without the boot ROM image the area reads as zeros.
pub open spec fn ipl_rom(i: int) -> u8 {
    0
}

fn ipl_rom_byte(i: usize) -> (r: u8)
    ensures
        r == ipl_rom(i as int),
{
    0
}

impl ApuBus {
    /// The DSP address register holds a byte.
    pub open spec fn wf(&self) -> bool {
        self.dsp.dsp_addr < 0x100
    }

    pub fn new() -> (r: Self)
        ensures
            r.wf(),
            r.bootrom_enabled && r.cycles == 0,
            r.log@ == Seq::<BusCycle>::empty(),
            forall|i: int| 0 <= i < 0x10000 ==> r.aram[i] == 0,
            r.apuio@ == seq![0u8, 0, 0, 0] && r.cpuio@ == seq![0u8, 0, 0, 0],
    {
        ApuBus {
            aram: [0; 0x10000],
            apuio: [0; 4],
            cpuio: [0; 4],
            bootrom_enabled: true,
            cycles: 0,
            dsp: Dsp::new(),
            timers: [Timer::new(), Timer::new(), Timer::new()],
            log: Ghost(Seq::empty()),
        }
    }

    /// The byte a read at `addr` returns.
    pub open spec fn read_spec(&self, addr: u16) -> u8 {
        if addr == 0xF0 || addr == 0xF1 || (0xFA <= addr <= 0xFC) {
            0
        } else if addr == 0xF2 {
            self.dsp.dsp_addr as u8
        } else if addr == 0xF3 {
            self.dsp.reg(self.dsp.dsp_addr as int % 0x80)
        } else if 0xF4 <= addr <= 0xF7 {
            self.apuio[addr as int % 4]
        } else if 0xFD <= addr <= 0xFF {
            self.timers[addr - 0xFD].timer_output
        } else if addr >= 0xFFC0 && self.bootrom_enabled {
            ipl_rom(addr as int % 0x40)
        } else {
            self.aram[addr as int]
        }
    }

    /// CONTROL ($F1): enables the timers, clears port pairs and maps the boot ROM.
    pub fn write_control(&mut self, data: u8)
        ensures
            forall|i: int| 0 <= i < 3 ==> #[trigger] final(self).timers[i] == ({
                let on = (data as int / crate::apu::spc700::pow2_3(i)) % 2 == 1;
                Timer {
                    enabled: on,
                    timer_output: if !old(self).timers[i].enabled && on { 0 } else { old(self).timers[i].timer_output },
                    ..old(self).timers[i]
                }
            }),
            final(self).apuio[0] == if (data / 16) % 2 == 1 { 0 } else { old(self).apuio[0] },
            final(self).apuio[1] == if (data / 16) % 2 == 1 { 0 } else { old(self).apuio[1] },
            final(self).apuio[2] == if (data / 32) % 2 == 1 { 0 } else { old(self).apuio[2] },
            final(self).apuio[3] == if (data / 32) % 2 == 1 { 0 } else { old(self).apuio[3] },
            final(self).bootrom_enabled == (data >= 0x80),
            final(self).aram == old(self).aram && final(self).cpuio == old(self).cpuio,
            final(self).dsp == old(self).dsp && final(self).cycles == old(self).cycles,
            final(self).log == old(self).log,
    {
        self.timers[0].set_enabled(data % 2 == 1);
        self.timers[1].set_enabled((data / 2) % 2 == 1);
        self.timers[2].set_enabled((data / 4) % 2 == 1);
        if (data / 16) % 2 == 1 {
            self.apuio[0] = 0;
            self.apuio[1] = 0;
        }
        if (data / 32) % 2 == 1 {
            self.apuio[2] = 0;
            self.apuio[3] = 0;
        }
        self.bootrom_enabled = data >= 0x80;
    }

    /// Reads a byte of the SPC700's address space.
    pub fn read(&self, addr: u16) -> (r: u8)
        requires
            self.wf(),
        ensures
            r == self.read_spec(addr),
    {
        if addr == 0xF0 || addr == 0xF1 || (0xFA <= addr && addr <= 0xFC) {
            0
        } else if addr == 0xF2 {
            self.dsp.read_dsp_addr()
        } else if addr == 0xF3 {
            self.dsp.read()
        } else if 0xF4 <= addr && addr <= 0xF7 {
            self.apuio[(addr % 4) as usize]
        } else if 0xFD <= addr && addr <= 0xFF {
            self.timers[(addr - 0xFD) as usize].timer_output()
        } else if addr >= 0xFFC0 && self.bootrom_enabled {
            ipl_rom_byte((addr % 0x40) as usize)
        } else {
            self.aram[addr as usize]
        }
    }

    /// Writes a byte of the SPC700's address space: the I/O registers, or audio RAM (also
    /// under the boot ROM).
    pub fn write(&mut self, addr: u16, data: u8)
        requires
            old(self).wf(),
        ensures
            final(self).wf(),
            final(self).cycles == old(self).cycles,
            final(self).log == old(self).log,
            !(0xF0 <= addr <= 0xFF) ==> final(self).aram@ == old(self).aram@.update(addr as int, data)
                && final(self).dsp == old(self).dsp && final(self).apuio == old(self).apuio
                && final(self).cpuio == old(self).cpuio && final(self).timers == old(self).timers
                && final(self).bootrom_enabled == old(self).bootrom_enabled,
            0xF4 <= addr <= 0xF7 ==> final(self).cpuio@ == old(self).cpuio@.update(addr as int % 4, data)
                && final(self).aram == old(self).aram && final(self).apuio == old(self).apuio,
            addr == 0xF2 ==> final(self).dsp.dsp_addr == data && final(self).aram == old(self).aram,
            addr == 0xF3 ==> final(self).dsp.dsp_addr == old(self).dsp.dsp_addr
                && (old(self).dsp.dsp_addr < 0x80 && dsp::writable(old(self).dsp.dsp_addr as int)
                    ==> final(self).dsp.reg(old(self).dsp.dsp_addr as int) == data),
            0xFA <= addr <= 0xFC ==> final(self).timers[addr - 0xFA] == (Timer {
                timer_target: data, timer_output: data, ..old(self).timers[addr - 0xFA] }),
            0xFD <= addr <= 0xFF || addr == 0xF0 ==> *final(self) == *old(self),
    {
        if addr == 0xF0 {
        } else if addr == 0xF1 {
            self.write_control(data);
        } else if addr == 0xF2 {
            self.dsp.set_dsp_addr(data);
        } else if addr == 0xF3 {
            self.dsp.write(data);
        } else if 0xF4 <= addr && addr <= 0xF7 {
            self.cpuio[(addr % 4) as usize] = data;
        } else if 0xFA <= addr && addr <= 0xFC {
            let i = (addr - 0xFA) as usize;
            let mut t = self.timers[i];
            t.set_timer_target(data);
            self.timers[i] = t;
        } else if 0xFD <= addr && addr <= 0xFF {
        } else {
            self.aram[addr as usize] = data;
        }
    }
}

impl Bus for ApuBus {
    type Board = ();

    open spec fn board(&self) -> () {
        ()
    }

    open spec fn cycles(&self) -> Seq<BusCycle> {
        self.log@
    }

    /// The DSP address holds a byte, and the clock counts what the log cost (saturating).
    open spec fn inv(&self) -> bool {
        &&& self.wf()
        &&& positive_io(self.log@)
        &&& self.cycles as int == if log_cost(self.log@) < u64::MAX { log_cost(self.log@) } else { u64::MAX as int }
    }

    open spec fn clock(&self) -> int {
        self.cycles as int
    }

    open spec fn agenda(&self) -> Seq<u64> {
        Seq::empty()
    }

    open spec fn nmi_line(&self) -> bool {
        false
    }

    open spec fn irq_line(&self) -> bool {
        false
    }

    open spec fn peek_spec(&self, addr: int) -> Option<u8> {
        Some(self.read_spec((addr % 0x1_0000) as u16))
    }

    fn peek_at(&self, addr: Address) -> (r: Option<u8>) {
        Some(self.read(addr.offset))
    }

    fn read_and_tick(&mut self, addr: Address) -> (data: u8) {
        self.tick(1);
        let data = self.read(addr.offset);
        self.log = Ghost(self.log@.push(BusCycle::Read(addr@ as u32, data)));
        proof { assert(self.log@.drop_last() =~= old(self).log@); }
        data
    }

    fn write_and_tick(&mut self, addr: Address, data: u8) {
        self.tick(1);
        self.write(addr.offset, data);
        self.log = Ghost(self.log@.push(BusCycle::Write(addr@ as u32, data)));
        proof { assert(self.log@.drop_last() =~= old(self).log@); }
    }

    fn add_io_cycles(&mut self, cycles: usize) {
        self.tick(cycles as u64);
        self.log = Ghost(self.log@.push(BusCycle::Io(cycles)));
        proof { assert(self.log@.drop_last() =~= old(self).log@); }
    }

    fn fired_nmi(&mut self) -> (fired: bool) {
        false
    }

    fn fired_irq(&mut self) -> (fired: bool) {
        false
    }
}

impl ApuBus {
    /// Moves the clock on by `n`, stopping at the top.
    fn tick(&mut self, n: u64)
        ensures
            final(self).cycles as int == if old(self).cycles + n < u64::MAX { old(self).cycles + n } else { u64::MAX as int },
            final(self).aram == old(self).aram && final(self).apuio == old(self).apuio,
            final(self).cpuio == old(self).cpuio && final(self).dsp == old(self).dsp,
            final(self).timers == old(self).timers && final(self).bootrom_enabled == old(self).bootrom_enabled,
            final(self).log == old(self).log,
    {
        self.cycles = self.cycles.saturating_add(n);
    }
}

} // verus!
