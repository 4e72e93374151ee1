use vstd::prelude::*;

use super::system_bus::{clock_after, system_bank, SystemBus};
use crate::scheduler::Scheduler;
use crate::utils::bits::bit;
use crate::utils::int_traits::{hi, lo, word, ManipulateU16};
use crate::w65c816::addressing::Address;

verus! {

/// DMAPx: the transfer parameters of a channel.
#[derive(Clone, Copy)]
pub struct Parameters(pub u8);

impl Parameters {
    /// Bits 0-2: which B-bus registers each unit writes.
    #[verifier::allow_in_spec]
    pub fn transfer_pattern(&self) -> u8
        returns
            self.0 % 8,
    {
        self.0 % 8
    }

    /// Bits 3-4: 0 increments the A-bus address, 2 decrements it, 1 and 3 keep it.
    #[verifier::allow_in_spec]
    pub fn address_adjust_mode(&self) -> u8
        returns
            (self.0 / 8) % 4,
    {
        (self.0 / 8) % 4
    }

    /// Bit 6: HDMA indirect addressing.
    #[verifier::allow_in_spec]
    pub fn h_indirect(&self) -> bool
        returns
            (self.0 / 64) % 2 == 1,
    {
        (self.0 / 64) % 2 == 1
    }

    /// Bit 7: set for B-bus to A-bus transfers.
    #[verifier::allow_in_spec]
    pub fn direction(&self) -> bool
        returns
            self.0 >= 128,
    {
        self.0 >= 128
    }
}

/// The registers of one DMA channel ($43x0-$43xF).
#[derive(Clone, Copy)]
pub struct Channel {
    pub parameters: Parameters,
    pub b_addr: u8,
    pub a_addr_or_h_table_addr: u16,
    pub a_bank_or_h_table_bank: u8,
    pub byte_count_or_h_indirect_addr: u16,
    pub h_indirect_bank: u8,
    pub h_curr_addr: u16,
    pub h_reload_or_scanline_count: u8,
    pub unused: u8,
}

/// The value of register `reg` (the low nibble of the address) of a channel, if it is mapped.
pub open spec fn channel_reg(c: Channel, reg: int) -> Option<u8> {
    if reg == 0x0 {
        Some(c.parameters.0)
    } else if reg == 0x1 {
        Some(c.b_addr)
    } else if reg == 0x2 {
        Some(lo(c.a_addr_or_h_table_addr))
    } else if reg == 0x3 {
        Some(hi(c.a_addr_or_h_table_addr))
    } else if reg == 0x4 {
        Some(c.a_bank_or_h_table_bank)
    } else if reg == 0x5 {
        Some(lo(c.byte_count_or_h_indirect_addr))
    } else if reg == 0x6 {
        Some(hi(c.byte_count_or_h_indirect_addr))
    } else if reg == 0x7 {
        Some(c.h_indirect_bank)
    } else if reg == 0x8 {
        Some(lo(c.h_curr_addr))
    } else if reg == 0x9 {
        Some(hi(c.h_curr_addr))
    } else if reg == 0xA {
        Some(c.h_reload_or_scanline_count)
    } else if reg == 0xB || reg == 0xF {
        Some(c.unused)
    } else {
        None
    }
}

/// A channel after `data` is written to its register `reg`; unmapped registers ignore writes.
pub open spec fn channel_written(c: Channel, reg: int, data: u8) -> Channel {
    if reg == 0x0 {
        Channel { parameters: Parameters(data), ..c }
    } else if reg == 0x1 {
        Channel { b_addr: data, ..c }
    } else if reg == 0x2 {
        Channel { a_addr_or_h_table_addr: word(data, hi(c.a_addr_or_h_table_addr)), ..c }
    } else if reg == 0x3 {
        Channel { a_addr_or_h_table_addr: word(lo(c.a_addr_or_h_table_addr), data), ..c }
    } else if reg == 0x4 {
        Channel { a_bank_or_h_table_bank: data, ..c }
    } else if reg == 0x5 {
        Channel { byte_count_or_h_indirect_addr: word(data, hi(c.byte_count_or_h_indirect_addr)), ..c }
    } else if reg == 0x6 {
        Channel { byte_count_or_h_indirect_addr: word(lo(c.byte_count_or_h_indirect_addr), data), ..c }
    } else if reg == 0x7 {
        Channel { h_indirect_bank: data, ..c }
    } else if reg == 0x8 {
        Channel { h_curr_addr: word(data, hi(c.h_curr_addr)), ..c }
    } else if reg == 0x9 {
        Channel { h_curr_addr: word(lo(c.h_curr_addr), data), ..c }
    } else if reg == 0xA {
        Channel { h_reload_or_scanline_count: data, ..c }
    } else if reg == 0xB || reg == 0xF {
        Channel { unused: data, ..c }
    } else {
        c
    }
}

/// The eight DMA channels with the MDMAEN ($420B) and HDMAEN ($420C) enables.
pub struct Dma {
    pub channels: [Channel; 8],
    pub enable_channels: u8,
    pub h_enable_channels: u8,
}

/// The channel an address in $43x0-$43xF selects.
pub open spec fn channel_index(addr: u16) -> int {
    (addr as int / 16) % 8
}

impl Dma {
    pub fn new() -> (r: Self)
        ensures
            r.enable_channels == 0 && r.h_enable_channels == 0,
            forall|i: int| 0 <= i < 8 ==> (#[trigger] r.channels[i]) == (Channel {
                parameters: Parameters(0xFF),
                b_addr: 0xFF,
                a_addr_or_h_table_addr: 0xFFFF,
                a_bank_or_h_table_bank: 0xFF,
                byte_count_or_h_indirect_addr: 0xFFFF,
                h_indirect_bank: 0xFF,
                h_curr_addr: 0xFF,
                h_reload_or_scanline_count: 0xFF,
                unused: 0xFF,
            }),
    {
        let c = Channel {
            parameters: Parameters(0xFF),
            b_addr: 0xFF,
            a_addr_or_h_table_addr: 0xFFFF,
            a_bank_or_h_table_bank: 0xFF,
            byte_count_or_h_indirect_addr: 0xFFFF,
            h_indirect_bank: 0xFF,
            h_curr_addr: 0xFF,
            h_reload_or_scanline_count: 0xFF,
            unused: 0xFF,
        };
        Dma { channels: [c, c, c, c, c, c, c, c], enable_channels: 0, h_enable_channels: 0 }
    }

    /// Reads a channel register ($43x0-$43xF).
    pub fn read(&mut self, addr: u16) -> (r: Option<u8>)
        ensures
            r == channel_reg(old(self).channels[channel_index(addr)], addr as int % 16),
            *final(self) == *old(self),
    {
        let channel = self.channels[((addr / 16) % 8) as usize];
        match addr % 16 {
            0x0 => Some(channel.parameters.0),
            0x1 => Some(channel.b_addr),
            0x2 => Some(channel.a_addr_or_h_table_addr.low_byte()),
            0x3 => Some(channel.a_addr_or_h_table_addr.high_byte()),
            0x4 => Some(channel.a_bank_or_h_table_bank),
            0x5 => Some(channel.byte_count_or_h_indirect_addr.low_byte()),
            0x6 => Some(channel.byte_count_or_h_indirect_addr.high_byte()),
            0x7 => Some(channel.h_indirect_bank),
            0x8 => Some(channel.h_curr_addr.low_byte()),
            0x9 => Some(channel.h_curr_addr.high_byte()),
            0xA => Some(channel.h_reload_or_scanline_count),
            0xB | 0xF => Some(channel.unused),
            _ => None,
        }
    }

    /// Writes MDMAEN, HDMAEN or a channel register.
    pub fn write(&mut self, addr: u16, data: u8)
        ensures
            addr == 0x420B ==> *final(self) == (Dma { enable_channels: data, ..*old(self) }),
            addr == 0x420C ==> *final(self) == (Dma { h_enable_channels: data, ..*old(self) }),
            addr != 0x420B && addr != 0x420C ==> final(self).enable_channels == old(self).enable_channels
                && final(self).h_enable_channels == old(self).h_enable_channels
                && final(self).channels@ == old(self).channels@.update(
                    channel_index(addr),
                    channel_written(old(self).channels[channel_index(addr)], addr as int % 16, data),
                ),
    {
        match addr {
            0x420B => self.enable_channels = data,
            0x420C => self.h_enable_channels = data,
            _ => {
                let idx = ((addr / 16) % 8) as usize;
                let mut channel = self.channels[idx];
                match addr % 16 {
                    0x0 => channel.parameters = Parameters(data),
                    0x1 => channel.b_addr = data,
                    0x2 => channel.a_addr_or_h_table_addr.set_low_byte(data),
                    0x3 => channel.a_addr_or_h_table_addr.set_high_byte(data),
                    0x4 => channel.a_bank_or_h_table_bank = data,
                    0x5 => channel.byte_count_or_h_indirect_addr.set_low_byte(data),
                    0x6 => channel.byte_count_or_h_indirect_addr.set_high_byte(data),
                    0x7 => channel.h_indirect_bank = data,
                    0x8 => channel.h_curr_addr.set_low_byte(data),
                    0x9 => channel.h_curr_addr.set_high_byte(data),
                    0xA => channel.h_reload_or_scanline_count = data,
                    0xB | 0xF => channel.unused = data,
                    _ => {},
                }
                self.channels[idx] = channel;
            },
        }
    }
}

/// Reading back a channel register gives the byte last written to it.
pub proof fn lemma_channel_write_read(c: Channel, reg: int, data: u8)
    requires
        0 <= reg < 16,
        reg != 0xC && reg != 0xD && reg != 0xE,
    ensures
        channel_reg(channel_written(c, reg, data), reg) == Some(data),
{
}

/// The B-bus register offset of unit `i` of a transfer with the given pattern.
pub open spec fn pattern_offset(pattern: u8, i: int) -> u8 {
    if pattern == 1 || pattern == 5 {
        (i % 2) as u8
    } else if pattern == 3 || pattern == 7 {
        ((i % 4) / 2) as u8
    } else if pattern == 4 {
        (i % 4) as u8
    } else {
        0
    }
}

/// A unit between WRAM and its own B-bus port ($2180), which the hardware does not perform.
pub open spec fn wram_to_wram(b_reg: u8, bank: u8, offset: u16) -> bool {
    b_reg == 0x80 && (bank == 0x7E || bank == 0x7F || (system_bank(bank) && offset < 0x2000))
}

/// The A-bus offset after a unit: 0 counts up, 2 counts down, 1 and 3 keep it.
pub open spec fn adjusted(offset: u16, mode: u8) -> u16 {
    if mode == 0 {
        ((offset + 1) % 0x1_0000) as u16
    } else if mode == 2 {
        ((offset + 0xFFFF) % 0x1_0000) as u16
    } else {
        offset
    }
}

/// The number of bytes a channel moves: its count, where 0 stands for 65536.
pub open spec fn transfer_count(c: Channel) -> int {
    if c.byte_count_or_h_indirect_addr == 0 { 0x1_0000 } else { c.byte_count_or_h_indirect_addr as int }
}

/// The B-bus register offset of unit `i` of a transfer with the given pattern.
fn unit_offset(pattern: u8, i: u32) -> (r: u8)
    requires
        pattern < 8,
    ensures
        r == pattern_offset(pattern, i as int),
{
    if pattern == 1 || pattern == 5 {
        (i % 2) as u8
    } else if pattern == 3 || pattern == 7 {
        ((i % 4) / 2) as u8
    } else if pattern == 4 {
        (i % 4) as u8
    } else {
        0
    }
}

/// The channel as a general-purpose DMA leaves it: count 0, A-bus offset moved.
pub open spec fn after_transfer(c: Channel, offset: u16) -> Channel {
    Channel { a_addr_or_h_table_addr: offset, byte_count_or_h_indirect_addr: 0, ..c }
}

/// The A-bus offset of a channel after `n` units of its transfer: each unit moves it as the
/// channel's adjust mode says, except a unit that WRAM-to-WRAM rules skip.
pub open spec fn offset_after(c: Channel, n: nat) -> u16
    decreases n,
{
    if n == 0 {
        c.a_addr_or_h_table_addr
    } else {
        let o = offset_after(c, (n - 1) as nat);
        let b_reg = ((c.b_addr + pattern_offset(c.parameters.transfer_pattern(), n - 1)) % 256) as u8;
        if wram_to_wram(b_reg, c.a_bank_or_h_table_bank, o) { o } else { adjusted(o, c.parameters.address_adjust_mode()) }
    }
}

/// Unit `i` of the transfer of channel `index`, from `b0` to `b1` (the channel's own state
/// aside): the byte is read on one bus and written on the other, by the direction bit, at the
/// channel's A-bus address and the B-bus register that the transfer pattern gives for the unit.
/// A WRAM-to-WRAM unit does nothing.
pub open spec fn unit_moved(b0: SystemBus, index: int, i: int, b1: SystemBus) -> bool {
    let c = b0.dma.channels[index];
    let bank = c.a_bank_or_h_table_bank;
    let offset = c.a_addr_or_h_table_addr;
    let b_reg = ((c.b_addr + pattern_offset(c.parameters.transfer_pattern(), i)) % 256) as u8;
    let a = Address { bank, offset };
    let b_addr = (0x2100 + b_reg) as u16;
    let moved = SystemBus { dma: b0.dma, ..b1 };
    if wram_to_wram(b_reg, bank, offset) {
        moved == b0
    } else if c.parameters.direction() {
        exists|mid: SystemBus, v: u8| #[trigger] b0.b_read_post(b_addr, mid, v) && mid.a_write_post(true, a, v, moved)
    } else {
        exists|mid: SystemBus, v: u8| #[trigger] b0.a_read_post(true, a, mid, v) && mid.b_write_post(b_addr, v, moved)
    }
}

/// The buses before each unit of a transfer of channel `index`: the channel's A-bus address
/// moves unit by unit, and each unit moves its byte.
pub open spec fn channel_run(run: Seq<SystemBus>, index: int) -> bool {
    let c = run[0].dma.channels[index];
    &&& run.len() >= 1
    &&& forall|k: int| 0 <= k < run.len() ==> #[trigger] run[k].dma.channels[index] == (Channel {
            a_addr_or_h_table_addr: offset_after(c, k as nat),
            ..c
        })
    &&& forall|k: int| 0 <= k < run.len() - 1 ==> #[trigger] unit_moved(run[k], index, k, run[k + 1])
}

/// The whole general-purpose transfer of channel `index`, from `b0` to `b1`: its units in order,
/// then the channel left with a zero byte count and the clock advanced by the transfer's cost.
pub open spec fn channel_moved(b0: SystemBus, index: int, b1: SystemBus) -> bool {
    let c = b0.dma.channels[index];
    let n = transfer_count(c);
    &&& exists|run: Seq<SystemBus>| #[trigger] channel_run(run, index) && run.len() == n + 1 && run[0] == b0
        && b1 == (SystemBus { dma: b1.dma, scheduler: b1.scheduler, ..run.last() })
    &&& b1.dma.channels[index] == after_transfer(c, offset_after(c, n as nat))
    &&& forall|j: int| 0 <= j < 8 && j != index ==> #[trigger] b1.dma.channels[j] == b0.dma.channels[j]
    &&& b1.dma.enable_channels == b0.dma.enable_channels && b1.dma.h_enable_channels == b0.dma.h_enable_channels
    &&& b1.scheduler == (Scheduler { cycles: clock_after(b0.scheduler.cycles, 10 + 8 * n), ..b0.scheduler })
}

/// The buses before each channel's turn in a DMA with the MDMAEN bits `enable`: channel `j`
/// makes its whole transfer when its bit is set, and nothing otherwise.
pub open spec fn dma_run(stages: Seq<SystemBus>, enable: u8) -> bool {
    &&& stages.len() == 9
    &&& forall|j: int| 0 <= j < 8 && bit(enable, pow2_8(j)) ==> #[trigger] channel_moved(stages[j], j, stages[j + 1])
    &&& forall|j: int| 0 <= j < 8 && !bit(enable, pow2_8(j)) ==> #[trigger] stages[j + 1] == stages[j]
}

/// A whole DMA, from `b0` to `b1`: the channels that MDMAEN enables make their transfers in
/// channel order, then MDMAEN is cleared.
pub open spec fn dma_done(b0: SystemBus, b1: SystemBus) -> bool {
    exists|stages: Seq<SystemBus>| #[trigger] dma_run(stages, b0.dma.enable_channels) && stages[0] == b0
        && b1 == (SystemBus { dma: Dma { enable_channels: 0, ..stages[8].dma }, ..stages[8] })
}

impl Dma {
    /// Moves one unit of a channel's transfer, then adjusts its A-bus address.
    #[verifier::spinoff_prover]
    #[verifier::rlimit(60)]
    fn transfer_unit(bus: &mut SystemBus, index: usize, i: u32)
        requires
            old(bus).wf(),
            index < 8,
        ensures
            final(bus).wf(),
            final(bus).log == old(bus).log && final(bus).scheduler == old(bus).scheduler,
            final(bus).ppu.counters.nmi_requested == old(bus).ppu.counters.nmi_requested,
            final(bus).ppu.counters.in_irq == old(bus).ppu.counters.in_irq,
            final(bus).ppu.frame_ready == old(bus).ppu.frame_ready,
            final(bus).dma.enable_channels == old(bus).dma.enable_channels,
            final(bus).dma.h_enable_channels == old(bus).dma.h_enable_channels,
            forall|j: int| 0 <= j < 8 && j != index ==> #[trigger] final(bus).dma.channels[j] == old(bus).dma.channels[j],
            unit_moved(*old(bus), index as int, i as int, *final(bus)),
            ({
                let c = old(bus).dma.channels[index as int];
                let b_reg = (c.b_addr + pattern_offset(c.parameters.transfer_pattern(), i as int)) % 256;
                final(bus).dma.channels[index as int] == if wram_to_wram(b_reg as u8, c.a_bank_or_h_table_bank, c.a_addr_or_h_table_addr) {
                    c
                } else {
                    Channel {
                        a_addr_or_h_table_addr: adjusted(c.a_addr_or_h_table_addr, c.parameters.address_adjust_mode()),
                        ..c
                    }
                }
            }),
    {
        let channel = bus.dma.channels[index];
        let bank = channel.a_bank_or_h_table_bank;
        let offset = channel.a_addr_or_h_table_addr;
        let a_addr = Address::new(offset, bank);
        let byte = channel.b_addr.wrapping_add(unit_offset(channel.parameters.transfer_pattern(), i));
        if byte == 0x80 && (bank == 0x7E || bank == 0x7F || ((bank < 0x40 || (0x80 <= bank && bank < 0xC0)) && offset < 0x2000)) {
            return;
        }
        let b_addr = 0x2100 + byte as u16;
        let ghost b0 = *bus;
        if channel.parameters.direction() {
            let data = bus.read_b(b_addr);
            let ghost mid = *bus;
            bus.write::<true>(a_addr, data);
            proof {
                assert(b0.b_read_post(b_addr, mid, data) && mid.a_write_post(true, a_addr, data, *bus));
            }
        } else {
            let data = bus.read::<true>(a_addr);
            let ghost mid = *bus;
            bus.write_b(b_addr, data);
            proof {
                assert(b0.a_read_post(true, a_addr, mid, data) && mid.b_write_post(b_addr, data, *bus));
            }
        }
        let mode = channel.parameters.address_adjust_mode();
        if mode == 0 {
            bus.dma.channels[index].a_addr_or_h_table_addr = offset.wrapping_add(1);
        } else if mode == 2 {
            bus.dma.channels[index].a_addr_or_h_table_addr = offset.wrapping_sub(1);
        }
    }

    /// Runs the general-purpose transfer of one channel to its end.
    fn transfer_channel(bus: &mut SystemBus, index: usize)
        requires
            old(bus).wf(),
            index < 8,
        ensures
            final(bus).wf(),
            final(bus).log == old(bus).log,
            final(bus).ppu.counters.nmi_requested == old(bus).ppu.counters.nmi_requested,
            final(bus).ppu.counters.in_irq == old(bus).ppu.counters.in_irq,
            final(bus).ppu.frame_ready == old(bus).ppu.frame_ready,
            final(bus).dma.enable_channels == old(bus).dma.enable_channels,
            final(bus).dma.h_enable_channels == old(bus).dma.h_enable_channels,
            forall|j: int| 0 <= j < 8 && j != index ==> #[trigger] final(bus).dma.channels[j] == old(bus).dma.channels[j],
            final(bus).dma.channels[index as int] == after_transfer(old(bus).dma.channels[index as int],
                offset_after(old(bus).dma.channels[index as int], transfer_count(old(bus).dma.channels[index as int]) as nat)),
            final(bus).scheduler.cycles == clock_after(old(bus).scheduler.cycles, 10 + 8 * transfer_count(old(bus).dma.channels[index as int])),
            final(bus).scheduler.events == old(bus).scheduler.events,
            final(bus).scheduler.next_event_id == old(bus).scheduler.next_event_id,
            channel_moved(*old(bus), index as int, *final(bus)),
    {
        let channel = bus.dma.channels[index];
        let count: u32 = if channel.byte_count_or_h_indirect_addr == 0 {
            0x1_0000
        } else {
            channel.byte_count_or_h_indirect_addr as u32
        };
        let ghost b0 = *bus;
        let ghost mut run: Seq<SystemBus> = seq![*bus];
        let mut i: u32 = 0;
        while i < count
            invariant
                bus.wf(),
                0 <= i <= count,
                channel_run(run, index as int),
                run.len() == i + 1,
                run[0] == b0,
                run.last() == *bus,
                count == transfer_count(b0.dma.channels[index as int]),
                index < 8,
                bus.log == b0.log,
                bus.ppu.counters.nmi_requested == b0.ppu.counters.nmi_requested,
                bus.ppu.counters.in_irq == b0.ppu.counters.in_irq,
                bus.ppu.frame_ready == b0.ppu.frame_ready,
                bus.scheduler == b0.scheduler,
                bus.dma.enable_channels == b0.dma.enable_channels,
                bus.dma.h_enable_channels == b0.dma.h_enable_channels,
                forall|j: int| 0 <= j < 8 && j != index ==> #[trigger] bus.dma.channels[j] == b0.dma.channels[j],
                bus.dma.channels[index as int] == (Channel {
                    a_addr_or_h_table_addr: offset_after(b0.dma.channels[index as int], i as nat),
                    ..b0.dma.channels[index as int]
                }),
            decreases count - i,
        {
            let ghost r0 = run;
            Self::transfer_unit(bus, index, i);
            proof {
                run = r0.push(*bus);
                let c = b0.dma.channels[index as int];
                assert(run[0] == b0);
                assert forall|k: int| 0 <= k < run.len() implies #[trigger] run[k].dma.channels[index as int] == (Channel {
                    a_addr_or_h_table_addr: offset_after(c, k as nat),
                    ..c
                }) by {
                    if k < r0.len() {
                        assert(run[k] == r0[k]);
                    } else {
                        assert(run[k] == *bus);
                    }
                }
                assert forall|k: int| 0 <= k < run.len() - 1 implies #[trigger] unit_moved(run[k], index as int, k, run[k + 1]) by {
                    if k < r0.len() - 1 {
                        assert(run[k] == r0[k] && run[k + 1] == r0[k + 1]);
                    } else {
                        assert(run[k] == r0.last() && run[k + 1] == *bus);
                    }
                }
            }
            i = i + 1;
        }
        let ghost last = *bus;
        bus.dma.channels[index].byte_count_or_h_indirect_addr = 0;
        bus.add_cycles(8 + 8 * count as u64 + 2);
        proof {
            assert(*bus == (SystemBus { dma: bus.dma, scheduler: bus.scheduler, ..run.last() }));
            assert(channel_run(run, index as int) && run.len() == count + 1 && run[0] == b0);
        }
    }

    /// Runs the general-purpose DMA of every enabled channel, in channel order, then clears MDMAEN.
    pub fn do_dma(bus: &mut SystemBus)
        requires
            old(bus).wf(),
        ensures
            final(bus).wf(),
            final(bus).log == old(bus).log,
            final(bus).ppu.counters.nmi_requested == old(bus).ppu.counters.nmi_requested,
            final(bus).ppu.counters.in_irq == old(bus).ppu.counters.in_irq,
            final(bus).ppu.frame_ready == old(bus).ppu.frame_ready,
            final(bus).scheduler.cycles >= old(bus).scheduler.cycles,
            final(bus).scheduler.events == old(bus).scheduler.events,
            final(bus).scheduler.next_event_id == old(bus).scheduler.next_event_id,
            final(bus).dma.enable_channels == 0,
            final(bus).dma.h_enable_channels == old(bus).dma.h_enable_channels,
            forall|j: int| 0 <= j < 8 && !bit(old(bus).dma.enable_channels, pow2_8(j)) ==> #[trigger] final(bus).dma.channels[j] == old(bus).dma.channels[j],
            forall|j: int| 0 <= j < 8 && bit(old(bus).dma.enable_channels, pow2_8(j)) ==> #[trigger] final(bus).dma.channels[j] == after_transfer(
                old(bus).dma.channels[j], offset_after(old(bus).dma.channels[j], transfer_count(old(bus).dma.channels[j]) as nat)),
            dma_done(*old(bus), *final(bus)),
    {
        let ghost b0 = *bus;
        let ghost mut stages: Seq<SystemBus> = seq![*bus];
        let mut index: usize = 0;
        while index < 8
            invariant
                bus.wf(),
                0 <= index <= 8,
                stages.len() == index + 1,
                stages[0] == b0,
                stages.last() == *bus,
                forall|j: int| 0 <= j < index && bit(b0.dma.enable_channels, pow2_8(j)) ==> #[trigger] channel_moved(stages[j], j, stages[j + 1]),
                forall|j: int| 0 <= j < index && !bit(b0.dma.enable_channels, pow2_8(j)) ==> #[trigger] stages[j + 1] == stages[j],
                bus.log == b0.log,
                bus.ppu.counters.nmi_requested == b0.ppu.counters.nmi_requested,
                bus.ppu.counters.in_irq == b0.ppu.counters.in_irq,
                bus.ppu.frame_ready == b0.ppu.frame_ready,
                bus.scheduler.cycles >= b0.scheduler.cycles,
                bus.scheduler.events == b0.scheduler.events,
                bus.scheduler.next_event_id == b0.scheduler.next_event_id,
                bus.dma.enable_channels == b0.dma.enable_channels,
                bus.dma.h_enable_channels == b0.dma.h_enable_channels,
                forall|j: int| index <= j < 8 ==> #[trigger] bus.dma.channels[j] == b0.dma.channels[j],
                forall|j: int| 0 <= j < index && !bit(b0.dma.enable_channels, pow2_8(j)) ==> #[trigger] bus.dma.channels[j] == b0.dma.channels[j],
                forall|j: int| 0 <= j < index && bit(b0.dma.enable_channels, pow2_8(j)) ==> #[trigger] bus.dma.channels[j] == after_transfer(
                    b0.dma.channels[j], offset_after(b0.dma.channels[j], transfer_count(b0.dma.channels[j]) as nat)),
            decreases 8 - index,
        {
            let ghost s0 = stages;
            let mask = channel_mask(index);
            if (bus.dma.enable_channels / mask) % 2 == 1 {
                Self::transfer_channel(bus, index);
            }
            proof {
                stages = s0.push(*bus);
                assert forall|j: int| 0 <= j <= index && bit(b0.dma.enable_channels, pow2_8(j)) implies #[trigger] channel_moved(stages[j], j, stages[j + 1]) by {
                    if j < index {
                        assert(stages[j] == s0[j] && stages[j + 1] == s0[j + 1]);
                    } else {
                        assert(stages[j] == s0.last() && stages[j + 1] == *bus);
                    }
                }
                assert forall|j: int| 0 <= j <= index && !bit(b0.dma.enable_channels, pow2_8(j)) implies #[trigger] stages[j + 1] == stages[j] by {
                    if j < index {
                        assert(stages[j] == s0[j] && stages[j + 1] == s0[j + 1]);
                    } else {
                        assert(stages[j] == s0.last() && stages[j + 1] == *bus);
                    }
                }
            }
            index = index + 1;
        }
        bus.dma.enable_channels = 0;
        proof {
            assert(dma_run(stages, b0.dma.enable_channels));
        }
    }
}

/// The bit of channel `j` in MDMAEN.
pub open spec fn pow2_8(j: int) -> int {
    if j == 0 { 1 } else if j == 1 { 2 } else if j == 2 { 4 } else if j == 3 { 8 }
    else if j == 4 { 16 } else if j == 5 { 32 } else if j == 6 { 64 } else { 128 }
}

/// The MDMAEN bit of channel `index`.
fn channel_mask(index: usize) -> (r: u8)
    requires
        index < 8,
    ensures
        r == pow2_8(index as int),
{
    if index == 0 { 1 } else if index == 1 { 2 } else if index == 2 { 4 } else if index == 3 { 8 }
    else if index == 4 { 16 } else if index == 5 { 32 } else if index == 6 { 64 } else { 128 }
}

} // verus!
