use vstd::prelude::*;

use super::addressing::{linear, AddressingMode};
use super::cpu::Cpu;
use crate::bus::BusCycle;
use crate::utils::int_traits::{hi, lo};

verus! {

// The bus traces that the processor's memory accesses leave. Each trace is
// stated against the final log `l` of the bus, with the accesses starting at
// index `k`: the byte a read returned is taken from the log itself.

/// The byte a cycle carried (0 for an internal cycle).
pub open spec fn data_of(c: BusCycle) -> u8 {
    match c {
        BusCycle::Read(_, d) => d,
        BusCycle::Write(_, d) => d,
        BusCycle::Io(_) => 0,
    }
}

/// The byte carried by cycle `i` of the log.
pub open spec fn d(l: Seq<BusCycle>, i: int) -> u8 {
    data_of(l[i])
}

/// A read of the byte `v` at address `a`.
pub open spec fn rd(a: int, v: u8) -> BusCycle {
    BusCycle::Read(a as u32, v)
}

/// A write of the byte `v` at address `a`.
pub open spec fn wr(a: int, v: u8) -> BusCycle {
    BusCycle::Write(a as u32, v)
}

/// The little-endian word carried by cycles `j` and `j + 1`.
pub open spec fn w16(l: Seq<BusCycle>, j: int) -> int {
    d(l, j) + 256 * d(l, j + 1)
}

/// Two reads of a word in bank 0 at `off` (the high byte wraps inside the bank).
pub open spec fn bank0_reads(off: int, l: Seq<BusCycle>, j: int) -> Seq<BusCycle> {
    seq![rd(off, d(l, j)), rd((off + 1) % 0x1_0000, d(l, j + 1))]
}

/// Two writes of the word `v` in bank 0 at `off`.
pub open spec fn bank0_writes(off: int, v: u16) -> Seq<BusCycle> {
    seq![wr(off, lo(v)), wr((off + 1) % 0x1_0000, hi(v))]
}

/// Reads of an operand of `wide` width at the 24-bit address `a` (the high byte at `a + 1`).
pub open spec fn data_reads(a: int, wide: bool, l: Seq<BusCycle>, j: int) -> Seq<BusCycle> {
    if wide {
        seq![rd(a, d(l, j)), rd((a + 1) % 0x100_0000, d(l, j + 1))]
    } else {
        seq![rd(a, d(l, j))]
    }
}

/// The value of an operand of `wide` width carried from cycle `j` on.
pub open spec fn data_value(wide: bool, l: Seq<BusCycle>, j: int) -> int {
    if wide { w16(l, j) } else { d(l, j) as int }
}

/// Writes of `v` of `wide` width at the 24-bit address `a`.
pub open spec fn data_writes(a: int, wide: bool, v: u16) -> Seq<BusCycle> {
    if wide {
        seq![wr(a, lo(v)), wr((a + 1) % 0x100_0000, hi(v))]
    } else {
        seq![wr(a, lo(v))]
    }
}

/// An optional internal cycle.
pub open spec fn io_if(b: bool) -> Seq<BusCycle> {
    if b { seq![BusCycle::Io(1)] } else { seq![] }
}

/// The address of the `i`-th byte after the program counter (wrapping in the program bank).
pub open spec fn pc_addr(c: Cpu, i: int) -> int {
    linear(c.pbr, ((c.program_counter + i) % 0x1_0000) as u16)
}

/// The CPU with its program counter moved `n` bytes on.
pub open spec fn advance(c: Cpu, n: int) -> Cpu {
    Cpu { program_counter: ((c.program_counter + n) % 0x1_0000) as u16, ..c }
}

/// Reads of `n` (1 to 3) bytes after the program counter.
pub open spec fn imm_reads(c: Cpu, n: int, l: Seq<BusCycle>, k: int) -> Seq<BusCycle> {
    if n == 1 {
        seq![rd(pc_addr(c, 0), d(l, k))]
    } else if n == 2 {
        seq![rd(pc_addr(c, 0), d(l, k)), rd(pc_addr(c, 1), d(l, k + 1))]
    } else {
        seq![rd(pc_addr(c, 0), d(l, k)), rd(pc_addr(c, 1), d(l, k + 1)), rd(pc_addr(c, 2), d(l, k + 2))]
    }
}

/// A direct-page access costs one more cycle when the low byte of D is not zero.
pub open spec fn dp_io(c: Cpu) -> int {
    if lo(c.dpr) != 0 { 1 } else { 0 }
}

/// Fetching a direct-page offset: the extra cycle, then the offset byte.
pub open spec fn dp_trace(c: Cpu, l: Seq<BusCycle>, k: int) -> Seq<BusCycle> {
    io_if(dp_io(c) == 1) + seq![rd(pc_addr(c, 0), d(l, k + dp_io(c)))]
}

/// The bank-0 address of a direct-page operand.
pub open spec fn dp_addr(c: Cpu, l: Seq<BusCycle>, k: int) -> int {
    (c.dpr + d(l, k + dp_io(c))) % 0x1_0000
}

/// Whether an indexed access takes the extra cycle: always on a write or with
/// 16-bit index registers, else only when the index crosses a page.
pub open spec fn penalty(c: Cpu, write: bool, unindexed: int, indexed: int) -> bool {
    write || !c.status.index_regs_size() || (unindexed % 0x1_0000) / 256 != (indexed % 0x1_0000) / 256
}

/// The modes that compute a 24-bit effective address from their operand bytes.
pub open spec fn decodes(mode: AddressingMode) -> bool {
    match mode {
        AddressingMode::Indirect | AddressingMode::IndirectX | AddressingMode::IndirectY
        | AddressingMode::IndirectLong | AddressingMode::IndirectLongY | AddressingMode::Absolute
        | AddressingMode::AbsoluteX | AddressingMode::AbsoluteY | AddressingMode::AbsoluteLong
        | AddressingMode::AbsoluteLongX | AddressingMode::AbsoluteIndirect
        | AddressingMode::AbsoluteIndirectX | AddressingMode::StackRelIndirectY => true,
        _ => false,
    }
}

/// How many operand bytes an address-computing mode takes from the instruction stream.
pub open spec fn decode_len(mode: AddressingMode) -> int {
    match mode {
        AddressingMode::Absolute | AddressingMode::AbsoluteX | AddressingMode::AbsoluteY
        | AddressingMode::AbsoluteIndirect | AddressingMode::AbsoluteIndirectX => 2,
        AddressingMode::AbsoluteLong | AddressingMode::AbsoluteLongX => 3,
        _ => 1,
    }
}

/// Index of the first pointer byte of an indirect mode.
pub open spec fn ptr_at(mode: AddressingMode, c: Cpu, k: int) -> int {
    match mode {
        AddressingMode::IndirectX => k + 1 + dp_io(c) + 1,
        AddressingMode::StackRelIndirectY => k + 3,
        _ => k + dp_io(c) + 1,
    }
}

/// The bank-0 address of the pointer of an indirect mode.
pub open spec fn ptr_addr(mode: AddressingMode, c: Cpu, l: Seq<BusCycle>, k: int) -> int {
    match mode {
        AddressingMode::IndirectX => (dp_addr(c, l, k + 1) + c.index_x) % 0x1_0000,
        AddressingMode::StackRelIndirectY => (c.stack_pointer + d(l, k + 2)) % 0x1_0000,
        _ => dp_addr(c, l, k),
    }
}

/// The effective address before indexing by X or Y.
pub open spec fn unindexed_addr(mode: AddressingMode, c: Cpu, l: Seq<BusCycle>, k: int) -> int {
    let p = ptr_at(mode, c, k);
    match mode {
        AddressingMode::IndirectLong | AddressingMode::IndirectLongY => linear(d(l, p + 2), w16(l, p) as u16),
        AddressingMode::Absolute | AddressingMode::AbsoluteX | AddressingMode::AbsoluteY => linear(c.dbr, w16(l, k) as u16),
        AddressingMode::AbsoluteLong | AddressingMode::AbsoluteLongX => linear(d(l, k + 2), w16(l, k) as u16),
        AddressingMode::AbsoluteIndirect => w16(l, k),
        AddressingMode::AbsoluteIndirectX => linear(c.pbr, ((w16(l, k + 1) + c.index_x) % 0x1_0000) as u16),
        _ => linear(c.dbr, w16(l, p) as u16),
    }
}

/// The effective address of an address-computing mode.
pub open spec fn decode_addr(mode: AddressingMode, c: Cpu, l: Seq<BusCycle>, k: int) -> int {
    let u = unindexed_addr(mode, c, l, k);
    match mode {
        AddressingMode::IndirectY | AddressingMode::IndirectLongY | AddressingMode::AbsoluteY
        | AddressingMode::StackRelIndirectY => (u + c.index_y) % 0x100_0000,
        AddressingMode::AbsoluteX | AddressingMode::AbsoluteLongX => (u + c.index_x) % 0x100_0000,
        _ => u,
    }
}

/// The bus cycles of computing an effective address.
pub open spec fn decode_trace(mode: AddressingMode, c: Cpu, write: bool, l: Seq<BusCycle>, k: int) -> Seq<BusCycle> {
    let p = ptr_at(mode, c, k);
    let pa = ptr_addr(mode, c, l, k);
    let u = unindexed_addr(mode, c, l, k);
    let a = decode_addr(mode, c, l, k);
    match mode {
        AddressingMode::Indirect => dp_trace(c, l, k) + bank0_reads(pa, l, p),
        AddressingMode::IndirectX => seq![BusCycle::Io(1)] + dp_trace(c, l, k + 1) + bank0_reads(pa, l, p),
        AddressingMode::IndirectY => dp_trace(c, l, k) + bank0_reads(pa, l, p) + io_if(penalty(c, write, u, a)),
        AddressingMode::IndirectLong | AddressingMode::IndirectLongY =>
            dp_trace(c, l, k) + bank0_reads(pa, l, p) + seq![rd((pa + 2) % 0x1_0000, d(l, p + 2))],
        AddressingMode::AbsoluteX | AddressingMode::AbsoluteY => imm_reads(c, 2, l, k) + io_if(penalty(c, write, u, a)),
        AddressingMode::AbsoluteLong | AddressingMode::AbsoluteLongX => imm_reads(c, 3, l, k),
        AddressingMode::AbsoluteIndirectX => seq![BusCycle::Io(1)] + imm_reads(c, 2, l, k + 1),
        AddressingMode::StackRelIndirectY =>
            seq![BusCycle::Io(1), BusCycle::Io(1), rd(pc_addr(c, 0), d(l, k + 2))] + bank0_reads(pa, l, p),
        _ => imm_reads(c, 2, l, k),
    }
}

/// The modes whose operand sits in bank 0 at a direct-page or stack address.
pub open spec fn on_page(mode: AddressingMode) -> bool {
    match mode {
        AddressingMode::Direct | AddressingMode::DirectX | AddressingMode::DirectY
        | AddressingMode::StackRelative | AddressingMode::StackPEI => true,
        _ => false,
    }
}

/// The modes whose operand is the next bytes of the instruction stream.
pub open spec fn inline_operand(mode: AddressingMode) -> bool {
    match mode {
        AddressingMode::Immediate | AddressingMode::Implied | AddressingMode::Relative
        | AddressingMode::RelativeLong | AddressingMode::AbsoluteJMP | AddressingMode::AbsoluteLongJSL
        | AddressingMode::AbsoluteIndirectLong | AddressingMode::BlockMove => true,
        _ => false,
    }
}

/// The cycles of computing a bank-0 page address.
pub open spec fn page_trace(mode: AddressingMode, c: Cpu, l: Seq<BusCycle>, k: int) -> Seq<BusCycle> {
    match mode {
        AddressingMode::DirectX | AddressingMode::DirectY => seq![BusCycle::Io(1)] + dp_trace(c, l, k + 1),
        AddressingMode::StackRelative => seq![BusCycle::Io(1), rd(pc_addr(c, 0), d(l, k + 1))],
        _ => dp_trace(c, l, k),
    }
}

/// The bank-0 address of a page operand.
pub open spec fn page_addr(mode: AddressingMode, c: Cpu, l: Seq<BusCycle>, k: int) -> int {
    match mode {
        AddressingMode::DirectX => (dp_addr(c, l, k + 1) + c.index_x) % 0x1_0000,
        AddressingMode::DirectY => (dp_addr(c, l, k + 1) + c.index_y) % 0x1_0000,
        AddressingMode::StackRelative => (c.stack_pointer + d(l, k + 1)) % 0x1_0000,
        _ => dp_addr(c, l, k),
    }
}

/// The number of cycles of computing a page address.
pub open spec fn page_len(mode: AddressingMode, c: Cpu) -> int {
    match mode {
        AddressingMode::DirectX | AddressingMode::DirectY => 2 + dp_io(c),
        AddressingMode::StackRelative => 2,
        _ => 1 + dp_io(c),
    }
}

/// Reads of a page operand of `wide` width at `a` (the high byte wraps inside bank 0).
pub open spec fn page_reads(a: int, wide: bool, l: Seq<BusCycle>, j: int) -> Seq<BusCycle> {
    if wide { bank0_reads(a, l, j) } else { seq![rd(a, d(l, j))] }
}

/// Writes of a page operand of `wide` width at `a`.
pub open spec fn page_writes(a: int, wide: bool, v: u16) -> Seq<BusCycle> {
    if wide { bank0_writes(a, v) } else { seq![wr(a, lo(v))] }
}

/// The number of cycles of computing an effective address.
pub open spec fn decode_cycles(mode: AddressingMode, c: Cpu, write: bool, l: Seq<BusCycle>, k: int) -> int {
    decode_trace(mode, c, write, l, k).len() as int
}

/// Whether `get_operand` handles the mode.
pub open spec fn has_operand(mode: AddressingMode) -> bool {
    inline_operand(mode) || on_page(mode) || decodes(mode)
}

/// How many bytes of the instruction stream an operand fetch takes.
pub open spec fn operand_len(mode: AddressingMode, wide: bool) -> int {
    if inline_operand(mode) {
        if wide { 2 } else { 1 }
    } else if on_page(mode) {
        1
    } else {
        decode_len(mode)
    }
}

/// Index of the first operand byte in the log.
pub open spec fn operand_at(mode: AddressingMode, c: Cpu, l: Seq<BusCycle>, k: int) -> int {
    if inline_operand(mode) {
        k
    } else if on_page(mode) {
        k + page_len(mode, c)
    } else {
        k + decode_cycles(mode, c, false, l, k)
    }
}

/// The bus cycles of fetching an operand of `wide` width.
pub open spec fn operand_trace(mode: AddressingMode, c: Cpu, wide: bool, l: Seq<BusCycle>, k: int) -> Seq<BusCycle> {
    let j = operand_at(mode, c, l, k);
    if inline_operand(mode) {
        imm_reads(c, if wide { 2 } else { 1 }, l, k)
    } else if on_page(mode) {
        page_trace(mode, c, l, k) + page_reads(page_addr(mode, c, l, k), wide, l, j)
    } else {
        decode_trace(mode, c, false, l, k) + data_reads(decode_addr(mode, c, l, k), wide, l, j)
    }
}

/// The value of the operand fetched for the mode.
pub open spec fn operand_value(mode: AddressingMode, c: Cpu, wide: bool, l: Seq<BusCycle>, k: int) -> int {
    data_value(wide, l, operand_at(mode, c, l, k))
}

/// `l2` extends `l1`: it agrees with it on all of `l1`'s cycles.
pub open spec fn extends(l2: Seq<BusCycle>, l1: Seq<BusCycle>) -> bool {
    l1.len() <= l2.len() && forall|i: int| 0 <= i < l1.len() ==> #[trigger] l2[i] == l1[i]
}

/// An address computation only looks at its own cycles: a longer log gives the same trace and address.
pub proof fn lemma_decode_frame(mode: AddressingMode, c: Cpu, write: bool, l1: Seq<BusCycle>, l2: Seq<BusCycle>, k: int)
    requires
        decodes(mode),
        0 <= k,
        k + decode_trace(mode, c, write, l1, k).len() <= l1.len(),
        extends(l2, l1),
    ensures
        decode_trace(mode, c, write, l2, k) == decode_trace(mode, c, write, l1, k),
        decode_addr(mode, c, l2, k) == decode_addr(mode, c, l1, k),
{
    let p = ptr_at(mode, c, k);
    assert(l2[k] == l1[k]);
    if decode_trace(mode, c, write, l1, k).len() > 1 { assert(l2[k + 1] == l1[k + 1]); }
    if decode_trace(mode, c, write, l1, k).len() > 2 { assert(l2[k + 2] == l1[k + 2]); }
    if decode_trace(mode, c, write, l1, k).len() > 3 { assert(l2[k + 3] == l1[k + 3]); }
    if decode_trace(mode, c, write, l1, k).len() > 4 { assert(l2[k + 4] == l1[k + 4]); }
    if decode_trace(mode, c, write, l1, k).len() > 5 { assert(l2[k + 5] == l1[k + 5]); }
    if decode_trace(mode, c, write, l1, k).len() > 6 { assert(l2[k + 6] == l1[k + 6]); }
    assert(decode_trace(mode, c, write, l2, k) =~= decode_trace(mode, c, write, l1, k));
}

/// A page-address computation only looks at its own cycles.
pub proof fn lemma_page_frame(mode: AddressingMode, c: Cpu, l1: Seq<BusCycle>, l2: Seq<BusCycle>, k: int)
    requires
        0 <= k,
        k + page_len(mode, c) <= l1.len(),
        extends(l2, l1),
    ensures
        page_trace(mode, c, l2, k) == page_trace(mode, c, l1, k),
        page_addr(mode, c, l2, k) == page_addr(mode, c, l1, k),
{
    assert(l2[k] == l1[k]);
    if page_len(mode, c) > 1 { assert(l2[k + 1] == l1[k + 1]); }
    if page_len(mode, c) > 2 { assert(l2[k + 2] == l1[k + 2]); }
    assert(page_trace(mode, c, l2, k) =~= page_trace(mode, c, l1, k));
}

/// An operand fetch only looks at its own cycles: a longer log gives the same trace and value.
pub proof fn lemma_operand_frame(mode: AddressingMode, c: Cpu, wide: bool, l1: Seq<BusCycle>, l2: Seq<BusCycle>, k: int)
    requires
        has_operand(mode),
        0 <= k,
        k + operand_trace(mode, c, wide, l1, k).len() <= l1.len(),
        extends(l2, l1),
    ensures
        operand_trace(mode, c, wide, l2, k) == operand_trace(mode, c, wide, l1, k),
        operand_value(mode, c, wide, l2, k) == operand_value(mode, c, wide, l1, k),
{
    let j = operand_at(mode, c, l1, k);
    if inline_operand(mode) {
        assert(l2[k] == l1[k]);
        if wide { assert(l2[k + 1] == l1[k + 1]); }
        assert(operand_trace(mode, c, wide, l2, k) =~= operand_trace(mode, c, wide, l1, k));
    } else if on_page(mode) {
        lemma_page_frame(mode, c, l1, l2, k);
        assert(l2[j] == l1[j]);
        if wide { assert(l2[j + 1] == l1[j + 1]); }
        assert(operand_trace(mode, c, wide, l2, k) =~= operand_trace(mode, c, wide, l1, k));
    } else {
        lemma_decode_frame(mode, c, false, l1, l2, k);
        assert(l2[j] == l1[j]);
        if wide { assert(l2[j + 1] == l1[j + 1]); }
        assert(operand_trace(mode, c, wide, l2, k) =~= operand_trace(mode, c, wide, l1, k));
    }
}

} // verus!
