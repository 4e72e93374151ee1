use vstd::prelude::*;

pub mod dma;
pub mod math;
pub mod system_bus;
pub mod wram;

pub use crate::w65c816::addressing::Address;

verus! {

/// One bus cycle, as a processor sees it.
#[derive(Clone, Copy)]
pub enum BusCycle {
    /// A read of the byte at a 24-bit address.
    Read(u32, u8),
    /// A write of a byte at a 24-bit address.
    Write(u32, u8),
    /// A number of internal cycles with no memory access.
    Io(usize),
}

/// The bus a processor runs on. `cycles` is the log of every access made through it.
pub trait Bus {
    /// What is plugged into the bus and not changed by reading it (a cartridge, for one).
    type Board;

    spec fn board(&self) -> Self::Board;

    spec fn cycles(&self) -> Seq<BusCycle>;

    /// What the bus keeps true between accesses.
    spec fn inv(&self) -> bool;

    /// The bus clock: it never goes back.
    spec fn clock(&self) -> int;

    /// What the bus's clients have pending (scheduled events, a finished frame): accesses leave
    /// it alone.
    spec fn agenda(&self) -> Seq<u64>;

    /// Whether a non-maskable interrupt is pending.
    spec fn nmi_line(&self) -> bool;

    /// Whether an interrupt request is pending.
    spec fn irq_line(&self) -> bool;

    /// What a look at the 24-bit address `addr` shows.
    spec fn peek_spec(&self, addr: int) -> Option<u8>;

    /// Looks at a byte without any side effect.
    fn peek_at(&self, addr: Address) -> (r: Option<u8>)
        requires
            self.inv(),
        ensures
            r == self.peek_spec(addr@),
    ;

    fn read_and_tick(&mut self, addr: Address) -> (data: u8)
        requires
            old(self).inv(),
        ensures
            final(self).inv(),
            final(self).clock() >= old(self).clock(),
            final(self).agenda() == old(self).agenda(),
            final(self).board() == old(self).board(),
            final(self).cycles() == old(self).cycles().push(BusCycle::Read(addr@ as u32, data)),
    ;

    fn write_and_tick(&mut self, addr: Address, data: u8)
        requires
            old(self).inv(),
        ensures
            final(self).inv(),
            final(self).clock() >= old(self).clock(),
            final(self).agenda() == old(self).agenda(),
            final(self).cycles() == old(self).cycles().push(BusCycle::Write(addr@ as u32, data)),
    ;

    fn add_io_cycles(&mut self, cycles: usize)
        requires
            old(self).inv(),
            1 <= cycles <= 10,
        ensures
            final(self).inv(),
            final(self).clock() >= old(self).clock(),
            final(self).agenda() == old(self).agenda(),
            final(self).cycles() == old(self).cycles().push(BusCycle::Io(cycles)),
    ;

    fn fired_nmi(&mut self) -> (fired: bool)
        requires
            old(self).inv(),
        ensures
            fired == old(self).nmi_line(),
            !final(self).nmi_line(),
            final(self).irq_line() == old(self).irq_line(),
            final(self).inv(),
            final(self).clock() >= old(self).clock(),
            final(self).agenda() == old(self).agenda(),
            final(self).cycles() == old(self).cycles(),
    ;

    fn fired_irq(&mut self) -> (fired: bool)
        requires
            old(self).inv(),
        ensures
            fired == old(self).irq_line(),
            !final(self).irq_line(),
            final(self).nmi_line() == old(self).nmi_line(),
            final(self).inv(),
            final(self).clock() >= old(self).clock(),
            final(self).agenda() == old(self).agenda(),
            final(self).cycles() == old(self).cycles(),
    ;
}

} // verus!
