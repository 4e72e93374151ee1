use vstd::prelude::*;

use super::addressing::{linear, AddressingMode};
use super::cpu::{lemma_jmp_frame, interrupt_cpu, interrupt_trace, jmp_cpu, jmp_mode, jmp_trace, merge, nz_spec, Cpu, Status, Vector};
use super::effects::{
    adc_effect, sbc_effect, and_effect, ora_effect, eor_effect, lda_effect, ldx_effect, ldy_effect,
    cmp_effect, cpx_effect, cpy_effect, bit_effect, asl_effect, lsr_effect, rol_effect, ror_effect,
    dec_effect, inc_effect, trb_effect, tsb_effect, sta_effect, stx_effect, sty_effect, stz_effect,
    bcc_effect, bcs_effect, beq_effect, bne_effect, bmi_effect, bpl_effect, bvc_effect, bvs_effect,
    bra_effect, clc_effect, cld_effect, cli_effect, clv_effect, sec_effect, sed_effect, sei_effect,
    dex_effect, dey_effect, inx_effect, iny_effect, tax_effect, tay_effect, txy_effect, tyx_effect,
    tsx_effect, txa_effect, tya_effect, tcd_effect, tdc_effect, tsc_effect, tcs_effect, txs_effect,
    pha_effect, phx_effect, phy_effect, phb_effect, phd_effect, phk_effect, php_effect, pea_effect,
    pei_effect, per_effect, pla_effect, plx_effect, ply_effect, plb_effect, pld_effect, plp_effect,
    rti_effect, rtl_effect, rts_effect, rep_effect, sep_effect, brk_effect, cop_effect, brl_effect,
    jmp_effect, jml_effect, jsl_effect, jsr_effect, mvn_effect, mvp_effect, nop_effect, stp_effect,
    wai_effect, wdm_effect, xba_effect, xce_effect,
};
use super::functions::{
    after_arith, bin_adc_spec, bit_p, dec_adc16_spec, dec_adc8_spec, dec_sbc16_spec, dec_sbc8_spec, do_bin_adc, do_bit,
    do_block_move, do_branch, do_compare, do_dec, do_dec_adc, do_dec_sbc, do_inc, do_pull, do_push, do_store, move_sp,
    pull_reads, push_writes, rmw_cpu, rmw_trace, sext, store_len, store_mode, store_trace, width, with_p, RmwOp,
};
use super::regsize::{modulus, RegSize};
use super::trace::{
    advance, d, data_value, extends, has_operand, imm_reads, io_if, lemma_operand_frame, operand_len, operand_trace, operand_value, rd, w16, wr,
};
use super::W65C816;
use crate::bus::{Bus, BusCycle};
use crate::utils::bits::{bit, with_bit};
use crate::utils::int_traits::{hi, lo, word, ManipulateU16};

verus! {

/// A register value taken at the given width.
pub open spec fn at_width(r: u16, wide: bool) -> int {
    r as int % modulus(wide)
}

/// The CPU after loading `v` into A, with N and Z.
pub open spec fn load_a(c: Cpu, v: int, wide: bool) -> Cpu {
    Cpu { accumulator: merge(c.accumulator, v as u16, wide), status: Status(nz_spec(c.status.0, v, wide)), ..c }
}

/// The CPU after loading `v` into X, with N and Z.
pub open spec fn load_x(c: Cpu, v: int, wide: bool) -> Cpu {
    Cpu { index_x: merge(c.index_x, v as u16, wide), status: Status(nz_spec(c.status.0, v, wide)), ..c }
}

/// The CPU after loading `v` into Y, with N and Z.
pub open spec fn load_y(c: Cpu, v: int, wide: bool) -> Cpu {
    Cpu { index_y: merge(c.index_y, v as u16, wide), status: Status(nz_spec(c.status.0, v, wide)), ..c }
}

/// The CPU after P is loaded; a set X flag truncates the index registers to 8 bits.
pub open spec fn set_status(c: Cpu, bits: u8) -> Cpu {
    Cpu {
        status: Status(bits),
        index_x: if bit(bits, 16) { (c.index_x % 256) as u16 } else { c.index_x },
        index_y: if bit(bits, 16) { (c.index_y % 256) as u16 } else { c.index_y },
        ..c
    }
}

/// The CPU after ADC of `v`, in binary or decimal mode as D selects.
pub open spec fn adc_cpu(c: Cpu, v: int, wide: bool) -> Cpu {
    if c.status.decimal() {
        after_arith(c, if wide {
            dec_adc16_spec(c.accumulator as int, v, c.status.carry())
        } else {
            dec_adc8_spec(c.accumulator as int % 0x100, v, c.status.carry())
        }, wide)
    } else {
        after_arith(c, bin_adc_spec(at_width(c.accumulator, wide), v, c.status.carry(), wide), wide)
    }
}

/// The CPU after SBC of `v`: an add of the complemented operand, in binary or decimal mode.
pub open spec fn sbc_cpu(c: Cpu, v: int, wide: bool) -> Cpu {
    let nv = modulus(wide) - 1 - v;
    if c.status.decimal() {
        after_arith(c, if wide {
            dec_sbc16_spec(c.accumulator as int, nv, c.status.carry())
        } else {
            dec_sbc8_spec(c.accumulator as int % 0x100, nv, c.status.carry())
        }, wide)
    } else {
        after_arith(c, bin_adc_spec(at_width(c.accumulator, wide), nv, c.status.carry(), wide), wide)
    }
}

/// P after a compare of `src` with `v`.
pub open spec fn compare_p(p: u8, src: int, v: int, wide: bool) -> u8 {
    nz_spec(with_bit(p, 1, src >= v), (src - v) % modulus(wide), wide)
}

/// A compare instruction of `reg` at the given width: the operand fetch, then C, N and Z.
pub open spec fn compared(mode: AddressingMode, c: Cpu, f: Cpu, l0: Seq<BusCycle>, l: Seq<BusCycle>, reg: u16, wide: bool) -> bool {
    let k = l0.len() as int;
    &&& l == l0 + operand_trace(mode, c, wide, l, k)
    &&& f == with_p(advance(c, operand_len(mode, wide)),
        compare_p(c.status.0, at_width(reg, wide), operand_value(mode, c, wide, l, k), wide))
}

/// The CPU after the emulation flag is set to `e` (entering it forces 8-bit registers and page 1 for S).
pub open spec fn emulation_cpu(c: Cpu, e: bool) -> Cpu {
    if e {
        Cpu {
            emulation_mode: true,
            status: Status(with_bit(with_bit(c.status.0, 32, true), 16, true)),
            stack_pointer: word(lo(c.stack_pointer), 1),
            index_x: word(lo(c.index_x), 0),
            index_y: word(lo(c.index_y), 0),
            ..c
        }
    } else {
        Cpu { emulation_mode: false, ..c }
    }
}

/// Bitwise AND, OR or EOR of A with an operand at the given width.
pub open spec fn logic(op: int, a: u16, v: u16) -> int {
    if op == 0 { (a & v) as int } else if op == 1 { (a | v) as int } else { (a ^ v) as int }
}

impl W65C816 {
    /// ADC: add the operand and the carry to A, in binary or decimal mode.
    pub fn adc<B: Bus>(cpu: &mut Cpu, bus: &mut B, mode: AddressingMode)
        requires
            has_operand(mode),
            old(bus).inv(),
        ensures
            final(bus).inv(),
            final(bus).clock() >= old(bus).clock(),
            final(bus).agenda() == old(bus).agenda(),
            extends(final(bus).cycles(), old(bus).cycles()),
            adc_effect(mode, *old(cpu), *final(cpu), old(bus).cycles(), final(bus).cycles()),
    {
        proof { reveal(adc_effect); }
        if cpu.status.a_reg_size() {
            let operand = cpu.get_operand::<u8, B>(bus, &mode);
            if cpu.status.decimal() {
                do_dec_adc::<u8>(cpu, operand);
            } else {
                do_bin_adc::<u8>(cpu, operand);
            }
        } else {
            let operand = cpu.get_operand::<u16, B>(bus, &mode);
            if cpu.status.decimal() {
                do_dec_adc::<u16>(cpu, operand);
            } else {
                do_bin_adc::<u16>(cpu, operand);
            }
        }
    }
    /// SBC: subtract the operand and the borrow from A, in binary or decimal mode.
    pub fn sbc<B: Bus>(cpu: &mut Cpu, bus: &mut B, mode: AddressingMode)
        requires
            has_operand(mode),
            old(bus).inv(),
        ensures
            final(bus).inv(),
            final(bus).clock() >= old(bus).clock(),
            final(bus).agenda() == old(bus).agenda(),
            extends(final(bus).cycles(), old(bus).cycles()),
            sbc_effect(mode, *old(cpu), *final(cpu), old(bus).cycles(), final(bus).cycles()),
    {
        proof { reveal(sbc_effect); }
        if cpu.status.a_reg_size() {
            let operand = cpu.get_operand::<u8, B>(bus, &mode);
            if cpu.status.decimal() {
                do_dec_sbc::<u8>(cpu, operand.complement());
            } else {
                do_bin_adc::<u8>(cpu, operand.complement());
            }
        } else {
            let operand = cpu.get_operand::<u16, B>(bus, &mode);
            if cpu.status.decimal() {
                do_dec_sbc::<u16>(cpu, operand.complement());
            } else {
                do_bin_adc::<u16>(cpu, operand.complement());
            }
        }
    }
    /// AND: A becomes A AND the operand.
    pub fn and<B: Bus>(cpu: &mut Cpu, bus: &mut B, mode: AddressingMode)
        requires
            old(bus).inv(),
            has_operand(mode),
        ensures
            final(bus).inv(),
            final(bus).clock() >= old(bus).clock(),
            final(bus).agenda() == old(bus).agenda(),
            extends(final(bus).cycles(), old(bus).cycles()),
            and_effect(mode, *old(cpu), *final(cpu), old(bus).cycles(), final(bus).cycles()),
    {
        proof { reveal(and_effect); }
        if cpu.status.a_reg_size() {
            let operand = cpu.get_operand::<u8, B>(bus, &mode);
            let result = cpu.accumulator.low_byte() & operand;
            cpu.set_nz(result);
            cpu.set_accumulator(result);
        } else {
            let operand = cpu.get_operand::<u16, B>(bus, &mode);
            let result = cpu.accumulator & operand;
            cpu.set_nz(result);
            cpu.set_accumulator(result);
        }
    }
    /// ORA: A becomes A OR the operand.
    pub fn ora<B: Bus>(cpu: &mut Cpu, bus: &mut B, mode: AddressingMode)
        requires
            old(bus).inv(),
            has_operand(mode),
        ensures
            final(bus).inv(),
            final(bus).clock() >= old(bus).clock(),
            final(bus).agenda() == old(bus).agenda(),
            extends(final(bus).cycles(), old(bus).cycles()),
            ora_effect(mode, *old(cpu), *final(cpu), old(bus).cycles(), final(bus).cycles()),
    {
        proof { reveal(ora_effect); }
        if cpu.status.a_reg_size() {
            let operand = cpu.get_operand::<u8, B>(bus, &mode);
            let result = cpu.accumulator.low_byte() | operand;
            cpu.set_nz(result);
            cpu.set_accumulator(result);
        } else {
            let operand = cpu.get_operand::<u16, B>(bus, &mode);
            let result = cpu.accumulator | operand;
            cpu.set_nz(result);
            cpu.set_accumulator(result);
        }
    }
    /// EOR: A becomes A XOR the operand.
    pub fn eor<B: Bus>(cpu: &mut Cpu, bus: &mut B, mode: AddressingMode)
        requires
            old(bus).inv(),
            has_operand(mode),
        ensures
            final(bus).inv(),
            final(bus).clock() >= old(bus).clock(),
            final(bus).agenda() == old(bus).agenda(),
            extends(final(bus).cycles(), old(bus).cycles()),
            eor_effect(mode, *old(cpu), *final(cpu), old(bus).cycles(), final(bus).cycles()),
    {
        proof { reveal(eor_effect); }
        if cpu.status.a_reg_size() {
            let operand = cpu.get_operand::<u8, B>(bus, &mode);
            let result = cpu.accumulator.low_byte() ^ operand;
            cpu.set_nz(result);
            cpu.set_accumulator(result);
        } else {
            let operand = cpu.get_operand::<u16, B>(bus, &mode);
            let result = cpu.accumulator ^ operand;
            cpu.set_nz(result);
            cpu.set_accumulator(result);
        }
    }
    /// LDA: loads the operand, with N and Z.
    pub fn lda<B: Bus>(cpu: &mut Cpu, bus: &mut B, mode: AddressingMode)
        requires
            old(bus).inv(),
            has_operand(mode),
        ensures
            final(bus).inv(),
            final(bus).clock() >= old(bus).clock(),
            final(bus).agenda() == old(bus).agenda(),
            extends(final(bus).cycles(), old(bus).cycles()),
            lda_effect(mode, *old(cpu), *final(cpu), old(bus).cycles(), final(bus).cycles()),
    {
        proof { reveal(lda_effect); }
        if cpu.status.a_reg_size() {
            let operand = cpu.get_operand::<u8, B>(bus, &mode);
            cpu.set_accumulator(operand);
            cpu.set_nz(operand);
        } else {
            let operand = cpu.get_operand::<u16, B>(bus, &mode);
            cpu.set_accumulator(operand);
            cpu.set_nz(operand);
        }
    }
    /// LDX: loads the operand, with N and Z.
    pub fn ldx<B: Bus>(cpu: &mut Cpu, bus: &mut B, mode: AddressingMode)
        requires
            old(bus).inv(),
            has_operand(mode),
        ensures
            final(bus).inv(),
            final(bus).clock() >= old(bus).clock(),
            final(bus).agenda() == old(bus).agenda(),
            extends(final(bus).cycles(), old(bus).cycles()),
            ldx_effect(mode, *old(cpu), *final(cpu), old(bus).cycles(), final(bus).cycles()),
    {
        proof { reveal(ldx_effect); }
        if cpu.status.index_regs_size() {
            let operand = cpu.get_operand::<u8, B>(bus, &mode);
            cpu.set_index_x(operand);
            cpu.set_nz(operand);
        } else {
            let operand = cpu.get_operand::<u16, B>(bus, &mode);
            cpu.set_index_x(operand);
            cpu.set_nz(operand);
        }
    }
    /// LDY: loads the operand, with N and Z.
    pub fn ldy<B: Bus>(cpu: &mut Cpu, bus: &mut B, mode: AddressingMode)
        requires
            old(bus).inv(),
            has_operand(mode),
        ensures
            final(bus).inv(),
            final(bus).clock() >= old(bus).clock(),
            final(bus).agenda() == old(bus).agenda(),
            extends(final(bus).cycles(), old(bus).cycles()),
            ldy_effect(mode, *old(cpu), *final(cpu), old(bus).cycles(), final(bus).cycles()),
    {
        proof { reveal(ldy_effect); }
        if cpu.status.index_regs_size() {
            let operand = cpu.get_operand::<u8, B>(bus, &mode);
            cpu.set_index_y(operand);
            cpu.set_nz(operand);
        } else {
            let operand = cpu.get_operand::<u16, B>(bus, &mode);
            cpu.set_index_y(operand);
            cpu.set_nz(operand);
        }
    }
    /// CMP: compares the register with the operand.
    pub fn cmp<B: Bus>(cpu: &mut Cpu, bus: &mut B, mode: AddressingMode)
        requires
            old(bus).inv(),
            has_operand(mode),
        ensures
            final(bus).inv(),
            final(bus).clock() >= old(bus).clock(),
            final(bus).agenda() == old(bus).agenda(),
            extends(final(bus).cycles(), old(bus).cycles()),
            cmp_effect(mode, *old(cpu), *final(cpu), old(bus).cycles(), final(bus).cycles()),
    {
        proof { reveal(cmp_effect); }
        if cpu.status.a_reg_size() {
            let operand = cpu.get_operand::<u8, B>(bus, &mode);
            let src = cpu.accumulator.low_byte();
            do_compare(cpu, src, operand);
        } else {
            let operand = cpu.get_operand::<u16, B>(bus, &mode);
            let src = cpu.accumulator;
            do_compare(cpu, src, operand);
        }
    }
    /// CPX: compares the register with the operand.
    pub fn cpx<B: Bus>(cpu: &mut Cpu, bus: &mut B, mode: AddressingMode)
        requires
            old(bus).inv(),
            has_operand(mode),
        ensures
            final(bus).inv(),
            final(bus).clock() >= old(bus).clock(),
            final(bus).agenda() == old(bus).agenda(),
            extends(final(bus).cycles(), old(bus).cycles()),
            cpx_effect(mode, *old(cpu), *final(cpu), old(bus).cycles(), final(bus).cycles()),
    {
        proof { reveal(cpx_effect); }
        if cpu.status.index_regs_size() {
            let operand = cpu.get_operand::<u8, B>(bus, &mode);
            let src = cpu.index_x.low_byte();
            do_compare(cpu, src, operand);
        } else {
            let operand = cpu.get_operand::<u16, B>(bus, &mode);
            let src = cpu.index_x;
            do_compare(cpu, src, operand);
        }
    }
    /// CPY: compares the register with the operand.
    pub fn cpy<B: Bus>(cpu: &mut Cpu, bus: &mut B, mode: AddressingMode)
        requires
            old(bus).inv(),
            has_operand(mode),
        ensures
            final(bus).inv(),
            final(bus).clock() >= old(bus).clock(),
            final(bus).agenda() == old(bus).agenda(),
            extends(final(bus).cycles(), old(bus).cycles()),
            cpy_effect(mode, *old(cpu), *final(cpu), old(bus).cycles(), final(bus).cycles()),
    {
        proof { reveal(cpy_effect); }
        if cpu.status.index_regs_size() {
            let operand = cpu.get_operand::<u8, B>(bus, &mode);
            let src = cpu.index_y.low_byte();
            do_compare(cpu, src, operand);
        } else {
            let operand = cpu.get_operand::<u16, B>(bus, &mode);
            let src = cpu.index_y;
            do_compare(cpu, src, operand);
        }
    }
    /// BIT: tests A against the operand.
    pub fn bit<B: Bus>(cpu: &mut Cpu, bus: &mut B, mode: AddressingMode)
        requires
            old(bus).inv(),
            has_operand(mode),
        ensures
            final(bus).inv(),
            final(bus).clock() >= old(bus).clock(),
            final(bus).agenda() == old(bus).agenda(),
            extends(final(bus).cycles(), old(bus).cycles()),
            bit_effect(mode, *old(cpu), *final(cpu), old(bus).cycles(), final(bus).cycles()),
    {
        proof { reveal(bit_effect); }
        if cpu.status.a_reg_size() {
            let operand = cpu.get_operand::<u8, B>(bus, &mode);
            do_bit::<u8>(cpu, operand, mode);
        } else {
            let operand = cpu.get_operand::<u16, B>(bus, &mode);
            do_bit::<u16>(cpu, operand, mode);
        }
    }
    /// ASL: shift left, on A or in memory (after an internal cycle).
    pub fn asl<B: Bus>(cpu: &mut Cpu, bus: &mut B, mode: AddressingMode)
        requires
            old(bus).inv(),
            mode == AddressingMode::Accumulator || store_mode(mode),
        ensures
            final(bus).inv(),
            final(bus).clock() >= old(bus).clock(),
            final(bus).agenda() == old(bus).agenda(),
            extends(final(bus).cycles(), old(bus).cycles()),
            asl_effect(mode, *old(cpu), *final(cpu), old(bus).cycles(), final(bus).cycles()),
    {
        proof { reveal(asl_effect); }
        bus.add_io_cycles(1);
        if cpu.status.a_reg_size() {
            cpu.do_rmw::<u8, B>(bus, &mode, RmwOp::Asl);
        } else {
            cpu.do_rmw::<u16, B>(bus, &mode, RmwOp::Asl);
        }
    }
    /// LSR: shift right, on A or in memory (after an internal cycle).
    pub fn lsr<B: Bus>(cpu: &mut Cpu, bus: &mut B, mode: AddressingMode)
        requires
            old(bus).inv(),
            mode == AddressingMode::Accumulator || store_mode(mode),
        ensures
            final(bus).inv(),
            final(bus).clock() >= old(bus).clock(),
            final(bus).agenda() == old(bus).agenda(),
            extends(final(bus).cycles(), old(bus).cycles()),
            lsr_effect(mode, *old(cpu), *final(cpu), old(bus).cycles(), final(bus).cycles()),
    {
        proof { reveal(lsr_effect); }
        bus.add_io_cycles(1);
        if cpu.status.a_reg_size() {
            cpu.do_rmw::<u8, B>(bus, &mode, RmwOp::Lsr);
        } else {
            cpu.do_rmw::<u16, B>(bus, &mode, RmwOp::Lsr);
        }
    }
    /// ROL: rotate left through carry, on A or in memory (after an internal cycle).
    pub fn rol<B: Bus>(cpu: &mut Cpu, bus: &mut B, mode: AddressingMode)
        requires
            old(bus).inv(),
            mode == AddressingMode::Accumulator || store_mode(mode),
        ensures
            final(bus).inv(),
            final(bus).clock() >= old(bus).clock(),
            final(bus).agenda() == old(bus).agenda(),
            extends(final(bus).cycles(), old(bus).cycles()),
            rol_effect(mode, *old(cpu), *final(cpu), old(bus).cycles(), final(bus).cycles()),
    {
        proof { reveal(rol_effect); }
        bus.add_io_cycles(1);
        if cpu.status.a_reg_size() {
            cpu.do_rmw::<u8, B>(bus, &mode, RmwOp::Rol);
        } else {
            cpu.do_rmw::<u16, B>(bus, &mode, RmwOp::Rol);
        }
    }
    /// ROR: rotate right through carry, on A or in memory (after an internal cycle).
    pub fn ror<B: Bus>(cpu: &mut Cpu, bus: &mut B, mode: AddressingMode)
        requires
            old(bus).inv(),
            mode == AddressingMode::Accumulator || store_mode(mode),
        ensures
            final(bus).inv(),
            final(bus).clock() >= old(bus).clock(),
            final(bus).agenda() == old(bus).agenda(),
            extends(final(bus).cycles(), old(bus).cycles()),
            ror_effect(mode, *old(cpu), *final(cpu), old(bus).cycles(), final(bus).cycles()),
    {
        proof { reveal(ror_effect); }
        bus.add_io_cycles(1);
        if cpu.status.a_reg_size() {
            cpu.do_rmw::<u8, B>(bus, &mode, RmwOp::Ror);
        } else {
            cpu.do_rmw::<u16, B>(bus, &mode, RmwOp::Ror);
        }
    }
    /// DEC: decrement, on A or in memory (after an internal cycle).
    pub fn dec<B: Bus>(cpu: &mut Cpu, bus: &mut B, mode: AddressingMode)
        requires
            old(bus).inv(),
            mode == AddressingMode::Accumulator || store_mode(mode),
        ensures
            final(bus).inv(),
            final(bus).clock() >= old(bus).clock(),
            final(bus).agenda() == old(bus).agenda(),
            extends(final(bus).cycles(), old(bus).cycles()),
            dec_effect(mode, *old(cpu), *final(cpu), old(bus).cycles(), final(bus).cycles()),
    {
        proof { reveal(dec_effect); }
        bus.add_io_cycles(1);
        if cpu.status.a_reg_size() {
            cpu.do_rmw::<u8, B>(bus, &mode, RmwOp::Dec);
        } else {
            cpu.do_rmw::<u16, B>(bus, &mode, RmwOp::Dec);
        }
    }
    /// INC: increment, on A or in memory (after an internal cycle).
    pub fn inc<B: Bus>(cpu: &mut Cpu, bus: &mut B, mode: AddressingMode)
        requires
            old(bus).inv(),
            mode == AddressingMode::Accumulator || store_mode(mode),
        ensures
            final(bus).inv(),
            final(bus).clock() >= old(bus).clock(),
            final(bus).agenda() == old(bus).agenda(),
            extends(final(bus).cycles(), old(bus).cycles()),
            inc_effect(mode, *old(cpu), *final(cpu), old(bus).cycles(), final(bus).cycles()),
    {
        proof { reveal(inc_effect); }
        bus.add_io_cycles(1);
        if cpu.status.a_reg_size() {
            cpu.do_rmw::<u8, B>(bus, &mode, RmwOp::Inc);
        } else {
            cpu.do_rmw::<u16, B>(bus, &mode, RmwOp::Inc);
        }
    }
    /// TRB: test and reset bits, on A or in memory (after an internal cycle).
    pub fn trb<B: Bus>(cpu: &mut Cpu, bus: &mut B, mode: AddressingMode)
        requires
            old(bus).inv(),
            mode == AddressingMode::Accumulator || store_mode(mode),
        ensures
            final(bus).inv(),
            final(bus).clock() >= old(bus).clock(),
            final(bus).agenda() == old(bus).agenda(),
            extends(final(bus).cycles(), old(bus).cycles()),
            trb_effect(mode, *old(cpu), *final(cpu), old(bus).cycles(), final(bus).cycles()),
    {
        proof { reveal(trb_effect); }
        bus.add_io_cycles(1);
        if cpu.status.a_reg_size() {
            cpu.do_rmw::<u8, B>(bus, &mode, RmwOp::Trb);
        } else {
            cpu.do_rmw::<u16, B>(bus, &mode, RmwOp::Trb);
        }
    }
    /// TSB: test and set bits, on A or in memory (after an internal cycle).
    pub fn tsb<B: Bus>(cpu: &mut Cpu, bus: &mut B, mode: AddressingMode)
        requires
            old(bus).inv(),
            mode == AddressingMode::Accumulator || store_mode(mode),
        ensures
            final(bus).inv(),
            final(bus).clock() >= old(bus).clock(),
            final(bus).agenda() == old(bus).agenda(),
            extends(final(bus).cycles(), old(bus).cycles()),
            tsb_effect(mode, *old(cpu), *final(cpu), old(bus).cycles(), final(bus).cycles()),
    {
        proof { reveal(tsb_effect); }
        bus.add_io_cycles(1);
        if cpu.status.a_reg_size() {
            cpu.do_rmw::<u8, B>(bus, &mode, RmwOp::Tsb);
        } else {
            cpu.do_rmw::<u16, B>(bus, &mode, RmwOp::Tsb);
        }
    }
    /// STA: stores the register at the operand address.
    pub fn sta<B: Bus>(cpu: &mut Cpu, bus: &mut B, mode: AddressingMode)
        requires
            old(bus).inv(),
            store_mode(mode),
        ensures
            final(bus).inv(),
            final(bus).clock() >= old(bus).clock(),
            final(bus).agenda() == old(bus).agenda(),
            extends(final(bus).cycles(), old(bus).cycles()),
            sta_effect(mode, *old(cpu), *final(cpu), old(bus).cycles(), final(bus).cycles()),
    {
        proof { reveal(sta_effect); }
        if cpu.status.a_reg_size() {
            let value = cpu.accumulator.low_byte();
            do_store(cpu, bus, mode, value);
        } else {
            let value = cpu.accumulator;
            do_store(cpu, bus, mode, value);
        }
    }
    /// STX: stores the register at the operand address.
    pub fn stx<B: Bus>(cpu: &mut Cpu, bus: &mut B, mode: AddressingMode)
        requires
            old(bus).inv(),
            store_mode(mode),
        ensures
            final(bus).inv(),
            final(bus).clock() >= old(bus).clock(),
            final(bus).agenda() == old(bus).agenda(),
            extends(final(bus).cycles(), old(bus).cycles()),
            stx_effect(mode, *old(cpu), *final(cpu), old(bus).cycles(), final(bus).cycles()),
    {
        proof { reveal(stx_effect); }
        if cpu.status.index_regs_size() {
            let value = cpu.index_x.low_byte();
            do_store(cpu, bus, mode, value);
        } else {
            let value = cpu.index_x;
            do_store(cpu, bus, mode, value);
        }
    }
    /// STY: stores the register at the operand address.
    pub fn sty<B: Bus>(cpu: &mut Cpu, bus: &mut B, mode: AddressingMode)
        requires
            old(bus).inv(),
            store_mode(mode),
        ensures
            final(bus).inv(),
            final(bus).clock() >= old(bus).clock(),
            final(bus).agenda() == old(bus).agenda(),
            extends(final(bus).cycles(), old(bus).cycles()),
            sty_effect(mode, *old(cpu), *final(cpu), old(bus).cycles(), final(bus).cycles()),
    {
        proof { reveal(sty_effect); }
        if cpu.status.index_regs_size() {
            let value = cpu.index_y.low_byte();
            do_store(cpu, bus, mode, value);
        } else {
            let value = cpu.index_y;
            do_store(cpu, bus, mode, value);
        }
    }
    /// STZ: stores zero at the operand address.
    pub fn stz<B: Bus>(cpu: &mut Cpu, bus: &mut B, mode: AddressingMode)
        requires
            old(bus).inv(),
            store_mode(mode),
        ensures
            final(bus).inv(),
            final(bus).clock() >= old(bus).clock(),
            final(bus).agenda() == old(bus).agenda(),
            extends(final(bus).cycles(), old(bus).cycles()),
            stz_effect(mode, *old(cpu), *final(cpu), old(bus).cycles(), final(bus).cycles()),
    {
        proof { reveal(stz_effect); }
        if cpu.status.a_reg_size() {
            let value = 0u8;
            do_store(cpu, bus, mode, value);
        } else {
            let value = 0u16;
            do_store(cpu, bus, mode, value);
        }
    }
    /// BCC: branches when carry clear.
    pub fn bcc<B: Bus>(cpu: &mut Cpu, bus: &mut B, mode: AddressingMode)
        requires
            old(bus).inv(),
            mode == AddressingMode::Relative,
        ensures
            final(bus).inv(),
            final(bus).clock() >= old(bus).clock(),
            final(bus).agenda() == old(bus).agenda(),
            extends(final(bus).cycles(), old(bus).cycles()),
            bcc_effect(mode, *old(cpu), *final(cpu), old(bus).cycles(), final(bus).cycles()),
    {
        proof { reveal(bcc_effect); }
        let cond = !cpu.status.carry();
        do_branch(cpu, bus, mode, cond);
    }
    /// BCS: branches when carry set.
    pub fn bcs<B: Bus>(cpu: &mut Cpu, bus: &mut B, mode: AddressingMode)
        requires
            old(bus).inv(),
            mode == AddressingMode::Relative,
        ensures
            final(bus).inv(),
            final(bus).clock() >= old(bus).clock(),
            final(bus).agenda() == old(bus).agenda(),
            extends(final(bus).cycles(), old(bus).cycles()),
            bcs_effect(mode, *old(cpu), *final(cpu), old(bus).cycles(), final(bus).cycles()),
    {
        proof { reveal(bcs_effect); }
        let cond = cpu.status.carry();
        do_branch(cpu, bus, mode, cond);
    }
    /// BEQ: branches when zero set.
    pub fn beq<B: Bus>(cpu: &mut Cpu, bus: &mut B, mode: AddressingMode)
        requires
            old(bus).inv(),
            mode == AddressingMode::Relative,
        ensures
            final(bus).inv(),
            final(bus).clock() >= old(bus).clock(),
            final(bus).agenda() == old(bus).agenda(),
            extends(final(bus).cycles(), old(bus).cycles()),
            beq_effect(mode, *old(cpu), *final(cpu), old(bus).cycles(), final(bus).cycles()),
    {
        proof { reveal(beq_effect); }
        let cond = cpu.status.zero();
        do_branch(cpu, bus, mode, cond);
    }
    /// BNE: branches when zero clear.
    pub fn bne<B: Bus>(cpu: &mut Cpu, bus: &mut B, mode: AddressingMode)
        requires
            old(bus).inv(),
            mode == AddressingMode::Relative,
        ensures
            final(bus).inv(),
            final(bus).clock() >= old(bus).clock(),
            final(bus).agenda() == old(bus).agenda(),
            extends(final(bus).cycles(), old(bus).cycles()),
            bne_effect(mode, *old(cpu), *final(cpu), old(bus).cycles(), final(bus).cycles()),
    {
        proof { reveal(bne_effect); }
        let cond = !cpu.status.zero();
        do_branch(cpu, bus, mode, cond);
    }
    /// BMI: branches when negative set.
    pub fn bmi<B: Bus>(cpu: &mut Cpu, bus: &mut B, mode: AddressingMode)
        requires
            old(bus).inv(),
            mode == AddressingMode::Relative,
        ensures
            final(bus).inv(),
            final(bus).clock() >= old(bus).clock(),
            final(bus).agenda() == old(bus).agenda(),
            extends(final(bus).cycles(), old(bus).cycles()),
            bmi_effect(mode, *old(cpu), *final(cpu), old(bus).cycles(), final(bus).cycles()),
    {
        proof { reveal(bmi_effect); }
        let cond = cpu.status.negative();
        do_branch(cpu, bus, mode, cond);
    }
    /// BPL: branches when negative clear.
    pub fn bpl<B: Bus>(cpu: &mut Cpu, bus: &mut B, mode: AddressingMode)
        requires
            old(bus).inv(),
            mode == AddressingMode::Relative,
        ensures
            final(bus).inv(),
            final(bus).clock() >= old(bus).clock(),
            final(bus).agenda() == old(bus).agenda(),
            extends(final(bus).cycles(), old(bus).cycles()),
            bpl_effect(mode, *old(cpu), *final(cpu), old(bus).cycles(), final(bus).cycles()),
    {
        proof { reveal(bpl_effect); }
        let cond = !cpu.status.negative();
        do_branch(cpu, bus, mode, cond);
    }
    /// BVC: branches when overflow clear.
    pub fn bvc<B: Bus>(cpu: &mut Cpu, bus: &mut B, mode: AddressingMode)
        requires
            old(bus).inv(),
            mode == AddressingMode::Relative,
        ensures
            final(bus).inv(),
            final(bus).clock() >= old(bus).clock(),
            final(bus).agenda() == old(bus).agenda(),
            extends(final(bus).cycles(), old(bus).cycles()),
            bvc_effect(mode, *old(cpu), *final(cpu), old(bus).cycles(), final(bus).cycles()),
    {
        proof { reveal(bvc_effect); }
        let cond = !cpu.status.overflow();
        do_branch(cpu, bus, mode, cond);
    }
    /// BVS: branches when overflow set.
    pub fn bvs<B: Bus>(cpu: &mut Cpu, bus: &mut B, mode: AddressingMode)
        requires
            old(bus).inv(),
            mode == AddressingMode::Relative,
        ensures
            final(bus).inv(),
            final(bus).clock() >= old(bus).clock(),
            final(bus).agenda() == old(bus).agenda(),
            extends(final(bus).cycles(), old(bus).cycles()),
            bvs_effect(mode, *old(cpu), *final(cpu), old(bus).cycles(), final(bus).cycles()),
    {
        proof { reveal(bvs_effect); }
        let cond = cpu.status.overflow();
        do_branch(cpu, bus, mode, cond);
    }
    /// BRA: branches when always.
    pub fn bra<B: Bus>(cpu: &mut Cpu, bus: &mut B, mode: AddressingMode)
        requires
            old(bus).inv(),
            mode == AddressingMode::Relative,
        ensures
            final(bus).inv(),
            final(bus).clock() >= old(bus).clock(),
            final(bus).agenda() == old(bus).agenda(),
            extends(final(bus).cycles(), old(bus).cycles()),
            bra_effect(mode, *old(cpu), *final(cpu), old(bus).cycles(), final(bus).cycles()),
    {
        proof { reveal(bra_effect); }
        let cond = true;
        do_branch(cpu, bus, mode, cond);
    }
    /// CLC: clears carry.
    pub fn clc<B: Bus>(cpu: &mut Cpu, bus: &mut B, mode: AddressingMode)
        requires
            old(bus).inv(),
        ensures
            final(bus).inv(),
            final(bus).clock() >= old(bus).clock(),
            final(bus).agenda() == old(bus).agenda(),
            extends(final(bus).cycles(), old(bus).cycles()),
            clc_effect(mode, *old(cpu), *final(cpu), old(bus).cycles(), final(bus).cycles()),
    {
        proof { reveal(clc_effect); }
        bus.add_io_cycles(1);
        cpu.status.set_carry(false);
    }
    /// CLD: clears decimal mode.
    pub fn cld<B: Bus>(cpu: &mut Cpu, bus: &mut B, mode: AddressingMode)
        requires
            old(bus).inv(),
        ensures
            final(bus).inv(),
            final(bus).clock() >= old(bus).clock(),
            final(bus).agenda() == old(bus).agenda(),
            extends(final(bus).cycles(), old(bus).cycles()),
            cld_effect(mode, *old(cpu), *final(cpu), old(bus).cycles(), final(bus).cycles()),
    {
        proof { reveal(cld_effect); }
        bus.add_io_cycles(1);
        cpu.status.set_decimal(false);
    }
    /// CLI: enables interrupts.
    pub fn cli<B: Bus>(cpu: &mut Cpu, bus: &mut B, mode: AddressingMode)
        requires
            old(bus).inv(),
        ensures
            final(bus).inv(),
            final(bus).clock() >= old(bus).clock(),
            final(bus).agenda() == old(bus).agenda(),
            extends(final(bus).cycles(), old(bus).cycles()),
            cli_effect(mode, *old(cpu), *final(cpu), old(bus).cycles(), final(bus).cycles()),
    {
        proof { reveal(cli_effect); }
        bus.add_io_cycles(1);
        cpu.status.set_irq_disable(false);
    }
    /// CLV: clears overflow.
    pub fn clv<B: Bus>(cpu: &mut Cpu, bus: &mut B, mode: AddressingMode)
        requires
            old(bus).inv(),
        ensures
            final(bus).inv(),
            final(bus).clock() >= old(bus).clock(),
            final(bus).agenda() == old(bus).agenda(),
            extends(final(bus).cycles(), old(bus).cycles()),
            clv_effect(mode, *old(cpu), *final(cpu), old(bus).cycles(), final(bus).cycles()),
    {
        proof { reveal(clv_effect); }
        bus.add_io_cycles(1);
        cpu.status.set_overflow(false);
    }
    /// SEC: sets carry.
    pub fn sec<B: Bus>(cpu: &mut Cpu, bus: &mut B, mode: AddressingMode)
        requires
            old(bus).inv(),
        ensures
            final(bus).inv(),
            final(bus).clock() >= old(bus).clock(),
            final(bus).agenda() == old(bus).agenda(),
            extends(final(bus).cycles(), old(bus).cycles()),
            sec_effect(mode, *old(cpu), *final(cpu), old(bus).cycles(), final(bus).cycles()),
    {
        proof { reveal(sec_effect); }
        bus.add_io_cycles(1);
        cpu.status.set_carry(true);
    }
    /// SED: sets decimal mode.
    pub fn sed<B: Bus>(cpu: &mut Cpu, bus: &mut B, mode: AddressingMode)
        requires
            old(bus).inv(),
        ensures
            final(bus).inv(),
            final(bus).clock() >= old(bus).clock(),
            final(bus).agenda() == old(bus).agenda(),
            extends(final(bus).cycles(), old(bus).cycles()),
            sed_effect(mode, *old(cpu), *final(cpu), old(bus).cycles(), final(bus).cycles()),
    {
        proof { reveal(sed_effect); }
        bus.add_io_cycles(1);
        cpu.status.set_decimal(true);
    }
    /// SEI: disables interrupts.
    pub fn sei<B: Bus>(cpu: &mut Cpu, bus: &mut B, mode: AddressingMode)
        requires
            old(bus).inv(),
        ensures
            final(bus).inv(),
            final(bus).clock() >= old(bus).clock(),
            final(bus).agenda() == old(bus).agenda(),
            extends(final(bus).cycles(), old(bus).cycles()),
            sei_effect(mode, *old(cpu), *final(cpu), old(bus).cycles(), final(bus).cycles()),
    {
        proof { reveal(sei_effect); }
        bus.add_io_cycles(1);
        cpu.status.set_irq_disable(true);
    }
    /// DEX: decrements X, with N and Z.
    #[verifier::spinoff_prover]
    pub fn dex<B: Bus>(cpu: &mut Cpu, bus: &mut B, mode: AddressingMode)
        requires
            old(bus).inv(),
        ensures
            final(bus).inv(),
            final(bus).clock() >= old(bus).clock(),
            final(bus).agenda() == old(bus).agenda(),
            extends(final(bus).cycles(), old(bus).cycles()),
            dex_effect(mode, *old(cpu), *final(cpu), old(bus).cycles(), final(bus).cycles()),
    {
        proof { reveal(dex_effect); }
        bus.add_io_cycles(1);
        if cpu.status.index_regs_size() {
            let v = cpu.index_x.low_byte();
            proof { assert(v as int == at_width(old(cpu).index_x, false)); }
            let result = do_dec::<u8>(cpu, v);
            cpu.set_index_x(result);
        } else {
            let v = cpu.index_x;
            proof { assert(v as int == at_width(old(cpu).index_x, true)); }
            let result = do_dec::<u16>(cpu, v);
            cpu.set_index_x(result);
        }
    }
    /// DEY: decrements Y, with N and Z.
    #[verifier::spinoff_prover]
    pub fn dey<B: Bus>(cpu: &mut Cpu, bus: &mut B, mode: AddressingMode)
        requires
            old(bus).inv(),
        ensures
            final(bus).inv(),
            final(bus).clock() >= old(bus).clock(),
            final(bus).agenda() == old(bus).agenda(),
            extends(final(bus).cycles(), old(bus).cycles()),
            dey_effect(mode, *old(cpu), *final(cpu), old(bus).cycles(), final(bus).cycles()),
    {
        proof { reveal(dey_effect); }
        bus.add_io_cycles(1);
        if cpu.status.index_regs_size() {
            let v = cpu.index_y.low_byte();
            proof { assert(v as int == at_width(old(cpu).index_y, false)); }
            let result = do_dec::<u8>(cpu, v);
            cpu.set_index_y(result);
        } else {
            let v = cpu.index_y;
            proof { assert(v as int == at_width(old(cpu).index_y, true)); }
            let result = do_dec::<u16>(cpu, v);
            cpu.set_index_y(result);
        }
    }
    /// INX: increments X, with N and Z.
    #[verifier::spinoff_prover]
    pub fn inx<B: Bus>(cpu: &mut Cpu, bus: &mut B, mode: AddressingMode)
        requires
            old(bus).inv(),
        ensures
            final(bus).inv(),
            final(bus).clock() >= old(bus).clock(),
            final(bus).agenda() == old(bus).agenda(),
            extends(final(bus).cycles(), old(bus).cycles()),
            inx_effect(mode, *old(cpu), *final(cpu), old(bus).cycles(), final(bus).cycles()),
    {
        proof { reveal(inx_effect); }
        bus.add_io_cycles(1);
        if cpu.status.index_regs_size() {
            let v = cpu.index_x.low_byte();
            proof { assert(v as int == at_width(old(cpu).index_x, false)); }
            let result = do_inc::<u8>(cpu, v);
            cpu.set_index_x(result);
        } else {
            let v = cpu.index_x;
            proof { assert(v as int == at_width(old(cpu).index_x, true)); }
            let result = do_inc::<u16>(cpu, v);
            cpu.set_index_x(result);
        }
    }
    /// INY: increments Y, with N and Z.
    #[verifier::spinoff_prover]
    pub fn iny<B: Bus>(cpu: &mut Cpu, bus: &mut B, mode: AddressingMode)
        requires
            old(bus).inv(),
        ensures
            final(bus).inv(),
            final(bus).clock() >= old(bus).clock(),
            final(bus).agenda() == old(bus).agenda(),
            extends(final(bus).cycles(), old(bus).cycles()),
            iny_effect(mode, *old(cpu), *final(cpu), old(bus).cycles(), final(bus).cycles()),
    {
        proof { reveal(iny_effect); }
        bus.add_io_cycles(1);
        if cpu.status.index_regs_size() {
            let v = cpu.index_y.low_byte();
            proof { assert(v as int == at_width(old(cpu).index_y, false)); }
            let result = do_inc::<u8>(cpu, v);
            cpu.set_index_y(result);
        } else {
            let v = cpu.index_y;
            proof { assert(v as int == at_width(old(cpu).index_y, true)); }
            let result = do_inc::<u16>(cpu, v);
            cpu.set_index_y(result);
        }
    }
    /// TAX: copies A to X at the index width, with N and Z.
    pub fn tax<B: Bus>(cpu: &mut Cpu, bus: &mut B, mode: AddressingMode)
        requires
            old(bus).inv(),
        ensures
            final(bus).inv(),
            final(bus).clock() >= old(bus).clock(),
            final(bus).agenda() == old(bus).agenda(),
            extends(final(bus).cycles(), old(bus).cycles()),
            tax_effect(mode, *old(cpu), *final(cpu), old(bus).cycles(), final(bus).cycles()),
    {
        proof { reveal(tax_effect); }
        bus.add_io_cycles(1);
        if cpu.status.index_regs_size() {
            let value = cpu.accumulator.low_byte();
            cpu.set_nz(value);
            cpu.set_index_x(value);
        } else {
            let value = cpu.accumulator;
            cpu.set_nz(value);
            cpu.set_index_x(value);
        }
    }
    /// TAY: copies A to Y at the index width, with N and Z.
    pub fn tay<B: Bus>(cpu: &mut Cpu, bus: &mut B, mode: AddressingMode)
        requires
            old(bus).inv(),
        ensures
            final(bus).inv(),
            final(bus).clock() >= old(bus).clock(),
            final(bus).agenda() == old(bus).agenda(),
            extends(final(bus).cycles(), old(bus).cycles()),
            tay_effect(mode, *old(cpu), *final(cpu), old(bus).cycles(), final(bus).cycles()),
    {
        proof { reveal(tay_effect); }
        bus.add_io_cycles(1);
        if cpu.status.index_regs_size() {
            let value = cpu.accumulator.low_byte();
            cpu.set_nz(value);
            cpu.set_index_y(value);
        } else {
            let value = cpu.accumulator;
            cpu.set_nz(value);
            cpu.set_index_y(value);
        }
    }
    /// TXY: copies X to Y at the index width, with N and Z.
    pub fn txy<B: Bus>(cpu: &mut Cpu, bus: &mut B, mode: AddressingMode)
        requires
            old(bus).inv(),
        ensures
            final(bus).inv(),
            final(bus).clock() >= old(bus).clock(),
            final(bus).agenda() == old(bus).agenda(),
            extends(final(bus).cycles(), old(bus).cycles()),
            txy_effect(mode, *old(cpu), *final(cpu), old(bus).cycles(), final(bus).cycles()),
    {
        proof { reveal(txy_effect); }
        bus.add_io_cycles(1);
        if cpu.status.index_regs_size() {
            let value = cpu.index_x.low_byte();
            cpu.set_nz(value);
            cpu.set_index_y(value);
        } else {
            let value = cpu.index_x;
            cpu.set_nz(value);
            cpu.set_index_y(value);
        }
    }
    /// TYX: copies Y to X at the index width, with N and Z.
    pub fn tyx<B: Bus>(cpu: &mut Cpu, bus: &mut B, mode: AddressingMode)
        requires
            old(bus).inv(),
        ensures
            final(bus).inv(),
            final(bus).clock() >= old(bus).clock(),
            final(bus).agenda() == old(bus).agenda(),
            extends(final(bus).cycles(), old(bus).cycles()),
            tyx_effect(mode, *old(cpu), *final(cpu), old(bus).cycles(), final(bus).cycles()),
    {
        proof { reveal(tyx_effect); }
        bus.add_io_cycles(1);
        if cpu.status.index_regs_size() {
            let value = cpu.index_y.low_byte();
            cpu.set_nz(value);
            cpu.set_index_x(value);
        } else {
            let value = cpu.index_y;
            cpu.set_nz(value);
            cpu.set_index_x(value);
        }
    }
    /// TSX: copies S to X, with N and Z; at 8 bits X takes the low byte of S.
    pub fn tsx<B: Bus>(cpu: &mut Cpu, bus: &mut B, mode: AddressingMode)
        requires
            old(bus).inv(),
        ensures
            final(bus).inv(),
            final(bus).clock() >= old(bus).clock(),
            final(bus).agenda() == old(bus).agenda(),
            extends(final(bus).cycles(), old(bus).cycles()),
            tsx_effect(mode, *old(cpu), *final(cpu), old(bus).cycles(), final(bus).cycles()),
    {
        proof { reveal(tsx_effect); }
        bus.add_io_cycles(1);
        if cpu.status.index_regs_size() {
            let value = cpu.stack_pointer.low_byte();
            cpu.set_nz(value);
            cpu.set_index_x(value as u16);
        } else {
            let value = cpu.stack_pointer;
            cpu.set_nz(value);
            cpu.set_index_x(value);
        }
    }
    /// TXA: copies X to A, with N and Z; a 16-bit A takes only the low byte of an 8-bit index register.
    pub fn txa<B: Bus>(cpu: &mut Cpu, bus: &mut B, mode: AddressingMode)
        requires
            old(bus).inv(),
        ensures
            final(bus).inv(),
            final(bus).clock() >= old(bus).clock(),
            final(bus).agenda() == old(bus).agenda(),
            extends(final(bus).cycles(), old(bus).cycles()),
            txa_effect(mode, *old(cpu), *final(cpu), old(bus).cycles(), final(bus).cycles()),
    {
        proof { reveal(txa_effect); }
        bus.add_io_cycles(1);
        if cpu.status.a_reg_size() {
            let value = cpu.index_x.low_byte();
            cpu.set_nz(value);
            cpu.set_accumulator(value);
        } else {
            let value = cpu.index_x;
            cpu.set_nz(value);
            cpu.set_accumulator(value);
            if cpu.status.index_regs_size() {
                cpu.accumulator = cpu.accumulator % 256;
            }
        }
    }
    /// TYA: copies Y to A, with N and Z; a 16-bit A takes only the low byte of an 8-bit index register.
    pub fn tya<B: Bus>(cpu: &mut Cpu, bus: &mut B, mode: AddressingMode)
        requires
            old(bus).inv(),
        ensures
            final(bus).inv(),
            final(bus).clock() >= old(bus).clock(),
            final(bus).agenda() == old(bus).agenda(),
            extends(final(bus).cycles(), old(bus).cycles()),
            tya_effect(mode, *old(cpu), *final(cpu), old(bus).cycles(), final(bus).cycles()),
    {
        proof { reveal(tya_effect); }
        bus.add_io_cycles(1);
        if cpu.status.a_reg_size() {
            let value = cpu.index_y.low_byte();
            cpu.set_nz(value);
            cpu.set_accumulator(value);
        } else {
            let value = cpu.index_y;
            cpu.set_nz(value);
            cpu.set_accumulator(value);
            if cpu.status.index_regs_size() {
                cpu.accumulator = cpu.accumulator % 256;
            }
        }
    }
    /// TCD: copies A to D (16 bits), with N and Z.
    pub fn tcd<B: Bus>(cpu: &mut Cpu, bus: &mut B, mode: AddressingMode)
        requires
            old(bus).inv(),
        ensures
            final(bus).inv(),
            final(bus).clock() >= old(bus).clock(),
            final(bus).agenda() == old(bus).agenda(),
            extends(final(bus).cycles(), old(bus).cycles()),
            tcd_effect(mode, *old(cpu), *final(cpu), old(bus).cycles(), final(bus).cycles()),
    {
        proof { reveal(tcd_effect); }
        bus.add_io_cycles(1);
        let value = cpu.accumulator;
        cpu.dpr = value;
        cpu.set_nz(value);
    }
    /// TDC: copies D to A (16 bits), with N and Z.
    pub fn tdc<B: Bus>(cpu: &mut Cpu, bus: &mut B, mode: AddressingMode)
        requires
            old(bus).inv(),
        ensures
            final(bus).inv(),
            final(bus).clock() >= old(bus).clock(),
            final(bus).agenda() == old(bus).agenda(),
            extends(final(bus).cycles(), old(bus).cycles()),
            tdc_effect(mode, *old(cpu), *final(cpu), old(bus).cycles(), final(bus).cycles()),
    {
        proof { reveal(tdc_effect); }
        bus.add_io_cycles(1);
        let value = cpu.dpr;
        cpu.accumulator = value;
        cpu.set_nz(value);
    }
    /// TSC: copies S to A (16 bits), with N and Z.
    pub fn tsc<B: Bus>(cpu: &mut Cpu, bus: &mut B, mode: AddressingMode)
        requires
            old(bus).inv(),
        ensures
            final(bus).inv(),
            final(bus).clock() >= old(bus).clock(),
            final(bus).agenda() == old(bus).agenda(),
            extends(final(bus).cycles(), old(bus).cycles()),
            tsc_effect(mode, *old(cpu), *final(cpu), old(bus).cycles(), final(bus).cycles()),
    {
        proof { reveal(tsc_effect); }
        bus.add_io_cycles(1);
        let value = cpu.stack_pointer;
        cpu.accumulator = value;
        cpu.set_nz(value);
    }
    /// TCS: copies A to S (in emulation mode only the low byte; the high byte stays 0x01).
    pub fn tcs<B: Bus>(cpu: &mut Cpu, bus: &mut B, mode: AddressingMode)
        requires
            old(bus).inv(),
        ensures
            final(bus).inv(),
            final(bus).clock() >= old(bus).clock(),
            final(bus).agenda() == old(bus).agenda(),
            extends(final(bus).cycles(), old(bus).cycles()),
            tcs_effect(mode, *old(cpu), *final(cpu), old(bus).cycles(), final(bus).cycles()),
    {
        proof { reveal(tcs_effect); }
        bus.add_io_cycles(1);
        cpu.stack_pointer = if cpu.emulation_mode { 0x100 + cpu.accumulator % 256 } else { cpu.accumulator };
    }
    /// TXS: copies X to S (in emulation mode only the low byte; the high byte stays 0x01).
    pub fn txs<B: Bus>(cpu: &mut Cpu, bus: &mut B, mode: AddressingMode)
        requires
            old(bus).inv(),
        ensures
            final(bus).inv(),
            final(bus).clock() >= old(bus).clock(),
            final(bus).agenda() == old(bus).agenda(),
            extends(final(bus).cycles(), old(bus).cycles()),
            txs_effect(mode, *old(cpu), *final(cpu), old(bus).cycles(), final(bus).cycles()),
    {
        proof { reveal(txs_effect); }
        bus.add_io_cycles(1);
        cpu.stack_pointer = if cpu.emulation_mode { 0x100 + cpu.index_x % 256 } else { cpu.index_x };
    }
    /// PHA: pushes A at its width, after an internal cycle.
    pub fn pha<B: Bus>(cpu: &mut Cpu, bus: &mut B, mode: AddressingMode)
        requires
            old(bus).inv(),
        ensures
            final(bus).inv(),
            final(bus).clock() >= old(bus).clock(),
            final(bus).agenda() == old(bus).agenda(),
            extends(final(bus).cycles(), old(bus).cycles()),
            pha_effect(mode, *old(cpu), *final(cpu), old(bus).cycles(), final(bus).cycles()),
    {
        proof { reveal(pha_effect); }
        bus.add_io_cycles(1);
        if cpu.status.a_reg_size() {
            let value = cpu.accumulator.low_byte();
            do_push(cpu, bus, value);
        } else {
            let value = cpu.accumulator;
            do_push(cpu, bus, value);
        }
    }
    /// PHX: pushes X at its width, after an internal cycle.
    pub fn phx<B: Bus>(cpu: &mut Cpu, bus: &mut B, mode: AddressingMode)
        requires
            old(bus).inv(),
        ensures
            final(bus).inv(),
            final(bus).clock() >= old(bus).clock(),
            final(bus).agenda() == old(bus).agenda(),
            extends(final(bus).cycles(), old(bus).cycles()),
            phx_effect(mode, *old(cpu), *final(cpu), old(bus).cycles(), final(bus).cycles()),
    {
        proof { reveal(phx_effect); }
        bus.add_io_cycles(1);
        if cpu.status.index_regs_size() {
            let value = cpu.index_x.low_byte();
            do_push(cpu, bus, value);
        } else {
            let value = cpu.index_x;
            do_push(cpu, bus, value);
        }
    }
    /// PHY: pushes Y at its width, after an internal cycle.
    pub fn phy<B: Bus>(cpu: &mut Cpu, bus: &mut B, mode: AddressingMode)
        requires
            old(bus).inv(),
        ensures
            final(bus).inv(),
            final(bus).clock() >= old(bus).clock(),
            final(bus).agenda() == old(bus).agenda(),
            extends(final(bus).cycles(), old(bus).cycles()),
            phy_effect(mode, *old(cpu), *final(cpu), old(bus).cycles(), final(bus).cycles()),
    {
        proof { reveal(phy_effect); }
        bus.add_io_cycles(1);
        if cpu.status.index_regs_size() {
            let value = cpu.index_y.low_byte();
            do_push(cpu, bus, value);
        } else {
            let value = cpu.index_y;
            do_push(cpu, bus, value);
        }
    }
    /// PHB: pushes the data bank, after an internal cycle.
    pub fn phb<B: Bus>(cpu: &mut Cpu, bus: &mut B, mode: AddressingMode)
        requires
            old(bus).inv(),
        ensures
            final(bus).inv(),
            final(bus).clock() >= old(bus).clock(),
            final(bus).agenda() == old(bus).agenda(),
            extends(final(bus).cycles(), old(bus).cycles()),
            phb_effect(mode, *old(cpu), *final(cpu), old(bus).cycles(), final(bus).cycles()),
    {
        proof { reveal(phb_effect); }
        bus.add_io_cycles(1);
        let value = cpu.dbr;
        do_push(cpu, bus, value);
    }
    /// PHD: pushes D, after an internal cycle.
    pub fn phd<B: Bus>(cpu: &mut Cpu, bus: &mut B, mode: AddressingMode)
        requires
            old(bus).inv(),
        ensures
            final(bus).inv(),
            final(bus).clock() >= old(bus).clock(),
            final(bus).agenda() == old(bus).agenda(),
            extends(final(bus).cycles(), old(bus).cycles()),
            phd_effect(mode, *old(cpu), *final(cpu), old(bus).cycles(), final(bus).cycles()),
    {
        proof { reveal(phd_effect); }
        bus.add_io_cycles(1);
        let value = cpu.dpr;
        do_push(cpu, bus, value);
    }
    /// PHK: pushes the program bank, after an internal cycle.
    pub fn phk<B: Bus>(cpu: &mut Cpu, bus: &mut B, mode: AddressingMode)
        requires
            old(bus).inv(),
        ensures
            final(bus).inv(),
            final(bus).clock() >= old(bus).clock(),
            final(bus).agenda() == old(bus).agenda(),
            extends(final(bus).cycles(), old(bus).cycles()),
            phk_effect(mode, *old(cpu), *final(cpu), old(bus).cycles(), final(bus).cycles()),
    {
        proof { reveal(phk_effect); }
        bus.add_io_cycles(1);
        let value = cpu.pbr;
        do_push(cpu, bus, value);
    }
    /// PHP: pushes P, after an internal cycle.
    pub fn php<B: Bus>(cpu: &mut Cpu, bus: &mut B, mode: AddressingMode)
        requires
            old(bus).inv(),
        ensures
            final(bus).inv(),
            final(bus).clock() >= old(bus).clock(),
            final(bus).agenda() == old(bus).agenda(),
            extends(final(bus).cycles(), old(bus).cycles()),
            php_effect(mode, *old(cpu), *final(cpu), old(bus).cycles(), final(bus).cycles()),
    {
        proof { reveal(php_effect); }
        bus.add_io_cycles(1);
        let value = cpu.status.0;
        do_push::<u8, B>(cpu, bus, value);
    }
    /// PEA: pushes the 16-bit operand word.
    pub fn pea<B: Bus>(cpu: &mut Cpu, bus: &mut B, mode: AddressingMode)
        requires
            old(bus).inv(),
            has_operand(mode),
        ensures
            final(bus).inv(),
            final(bus).clock() >= old(bus).clock(),
            final(bus).agenda() == old(bus).agenda(),
            extends(final(bus).cycles(), old(bus).cycles()),
            pea_effect(mode, *old(cpu), *final(cpu), old(bus).cycles(), final(bus).cycles()),
    {
        proof { reveal(pea_effect); }
        let ghost n = old(bus).cycles().len() as int;
        let ghost c = *old(cpu);
        let value = cpu.get_operand::<u16, B>(bus, &mode);
        let ghost l1 = bus.cycles();
        do_push(cpu, bus, value);
        proof {
            lemma_operand_frame(mode, c, true, l1, bus.cycles(), n);
        }
    }
    /// PEI: pushes the 16-bit word read at the direct-page operand.
    pub fn pei<B: Bus>(cpu: &mut Cpu, bus: &mut B, mode: AddressingMode)
        requires
            old(bus).inv(),
            has_operand(mode),
        ensures
            final(bus).inv(),
            final(bus).clock() >= old(bus).clock(),
            final(bus).agenda() == old(bus).agenda(),
            extends(final(bus).cycles(), old(bus).cycles()),
            pei_effect(mode, *old(cpu), *final(cpu), old(bus).cycles(), final(bus).cycles()),
    {
        proof { reveal(pei_effect); }
        let ghost n = old(bus).cycles().len() as int;
        let ghost c = *old(cpu);
        let value = cpu.get_operand::<u16, B>(bus, &mode);
        let ghost l1 = bus.cycles();
        do_push(cpu, bus, value);
        proof {
            lemma_operand_frame(mode, c, true, l1, bus.cycles(), n);
        }
    }
    /// PER: pushes the address that a 16-bit offset from the end of the instruction names.
    #[verifier::spinoff_prover]
    pub fn per<B: Bus>(cpu: &mut Cpu, bus: &mut B, mode: AddressingMode)
        requires
            mode == AddressingMode::RelativeLong,
            old(bus).inv(),
        ensures
            final(bus).inv(),
            final(bus).clock() >= old(bus).clock(),
            final(bus).agenda() == old(bus).agenda(),
            extends(final(bus).cycles(), old(bus).cycles()),
            per_effect(mode, *old(cpu), *final(cpu), old(bus).cycles(), final(bus).cycles()),
    {
        proof { reveal(per_effect); }
        let ghost n = old(bus).cycles().len() as int;
        let ghost c = *old(cpu);
        let offset = cpu.get_imm::<u16, B>(bus);
        let ghost l1 = bus.cycles();
        let value = cpu.program_counter.wrapping_add(offset);
        proof {
            assert(offset as int == w16(l1, n));
            assert(value as int == (c.program_counter + 2 + w16(l1, n)) % 0x1_0000);
        }
        do_push(cpu, bus, value);
        proof {
            let l = bus.cycles();
            assert(l[n] == l1[n] && l[n + 1] == l1[n + 1]);
            assert(w16(l, n) == w16(l1, n));
            assert(imm_reads(c, 2, l, n) =~= imm_reads(c, 2, l1, n));
        }
    }

    /// PLA: pulls A at its width, with N and Z.
    pub fn pla<B: Bus>(cpu: &mut Cpu, bus: &mut B, mode: AddressingMode)
        requires
            old(bus).inv(),
        ensures
            final(bus).inv(),
            final(bus).clock() >= old(bus).clock(),
            final(bus).agenda() == old(bus).agenda(),
            extends(final(bus).cycles(), old(bus).cycles()),
            pla_effect(mode, *old(cpu), *final(cpu), old(bus).cycles(), final(bus).cycles()),
    {
        proof { reveal(pla_effect); }
        bus.add_io_cycles(2);
        if cpu.status.a_reg_size() {
            let result = do_pull::<u8, B>(cpu, bus);
            cpu.set_nz(result);
            cpu.set_accumulator(result);
        } else {
            let result = do_pull::<u16, B>(cpu, bus);
            cpu.set_nz(result);
            cpu.set_accumulator(result);
        }
    }
    /// PLX: pulls X at its width, with N and Z.
    pub fn plx<B: Bus>(cpu: &mut Cpu, bus: &mut B, mode: AddressingMode)
        requires
            old(bus).inv(),
        ensures
            final(bus).inv(),
            final(bus).clock() >= old(bus).clock(),
            final(bus).agenda() == old(bus).agenda(),
            extends(final(bus).cycles(), old(bus).cycles()),
            plx_effect(mode, *old(cpu), *final(cpu), old(bus).cycles(), final(bus).cycles()),
    {
        proof { reveal(plx_effect); }
        bus.add_io_cycles(2);
        if cpu.status.index_regs_size() {
            let result = do_pull::<u8, B>(cpu, bus);
            cpu.set_nz(result);
            cpu.set_index_x(result);
        } else {
            let result = do_pull::<u16, B>(cpu, bus);
            cpu.set_nz(result);
            cpu.set_index_x(result);
        }
    }
    /// PLY: pulls Y at its width, with N and Z.
    pub fn ply<B: Bus>(cpu: &mut Cpu, bus: &mut B, mode: AddressingMode)
        requires
            old(bus).inv(),
        ensures
            final(bus).inv(),
            final(bus).clock() >= old(bus).clock(),
            final(bus).agenda() == old(bus).agenda(),
            extends(final(bus).cycles(), old(bus).cycles()),
            ply_effect(mode, *old(cpu), *final(cpu), old(bus).cycles(), final(bus).cycles()),
    {
        proof { reveal(ply_effect); }
        bus.add_io_cycles(2);
        if cpu.status.index_regs_size() {
            let result = do_pull::<u8, B>(cpu, bus);
            cpu.set_nz(result);
            cpu.set_index_y(result);
        } else {
            let result = do_pull::<u16, B>(cpu, bus);
            cpu.set_nz(result);
            cpu.set_index_y(result);
        }
    }
    /// PLB: pulls the data bank, with N and Z.
    pub fn plb<B: Bus>(cpu: &mut Cpu, bus: &mut B, mode: AddressingMode)
        requires
            old(bus).inv(),
        ensures
            final(bus).inv(),
            final(bus).clock() >= old(bus).clock(),
            final(bus).agenda() == old(bus).agenda(),
            extends(final(bus).cycles(), old(bus).cycles()),
            plb_effect(mode, *old(cpu), *final(cpu), old(bus).cycles(), final(bus).cycles()),
    {
        proof { reveal(plb_effect); }
        bus.add_io_cycles(2);
        let result = do_pull::<u8, B>(cpu, bus);
        cpu.set_nz(result);
        cpu.dbr = result;
    }
    /// PLD: pulls D, with N and Z.
    pub fn pld<B: Bus>(cpu: &mut Cpu, bus: &mut B, mode: AddressingMode)
        requires
            old(bus).inv(),
        ensures
            final(bus).inv(),
            final(bus).clock() >= old(bus).clock(),
            final(bus).agenda() == old(bus).agenda(),
            extends(final(bus).cycles(), old(bus).cycles()),
            pld_effect(mode, *old(cpu), *final(cpu), old(bus).cycles(), final(bus).cycles()),
    {
        proof { reveal(pld_effect); }
        bus.add_io_cycles(2);
        let result = do_pull::<u16, B>(cpu, bus);
        cpu.set_nz(result);
        cpu.dpr = result;
    }
    /// PLP: pulls P (a set X flag truncates the index registers).
    pub fn plp<B: Bus>(cpu: &mut Cpu, bus: &mut B, mode: AddressingMode)
        requires
            old(bus).inv(),
        ensures
            final(bus).inv(),
            final(bus).clock() >= old(bus).clock(),
            final(bus).agenda() == old(bus).agenda(),
            extends(final(bus).cycles(), old(bus).cycles()),
            plp_effect(mode, *old(cpu), *final(cpu), old(bus).cycles(), final(bus).cycles()),
    {
        proof { reveal(plp_effect); }
        bus.add_io_cycles(2);
        let result = do_pull::<u8, B>(cpu, bus);
        cpu.set_status_register(result);
    }

    /// RTI: pulls P, the program counter and (in native mode) the program bank.
    pub fn rti<B: Bus>(cpu: &mut Cpu, bus: &mut B, mode: AddressingMode)
        requires
            old(bus).inv(),
        ensures
            final(bus).inv(),
            final(bus).clock() >= old(bus).clock(),
            final(bus).agenda() == old(bus).agenda(),
            extends(final(bus).cycles(), old(bus).cycles()),
            rti_effect(mode, *old(cpu), *final(cpu), old(bus).cycles(), final(bus).cycles()),
    {
        proof { reveal(rti_effect); }
        let ghost n = old(bus).cycles().len() as int + 1;
        bus.add_io_cycles(2);
        let new_status = do_pull::<u8, B>(cpu, bus);
        let ghost l1 = bus.cycles();
        cpu.program_counter = do_pull::<u16, B>(cpu, bus);
        let ghost l2 = bus.cycles();
        if !cpu.emulation_mode {
            cpu.pbr = do_pull::<u8, B>(cpu, bus);
        }
        proof {
            assert(bus.cycles()[n] == l1[n]);
            assert(bus.cycles()[n + 1] == l2[n + 1] && bus.cycles()[n + 2] == l2[n + 2]);
        }
        cpu.set_status_register(new_status);
    }

    /// RTL: pulls the program counter (plus one) and the program bank.
    pub fn rtl<B: Bus>(cpu: &mut Cpu, bus: &mut B, mode: AddressingMode)
        requires
            old(bus).inv(),
        ensures
            final(bus).inv(),
            final(bus).clock() >= old(bus).clock(),
            final(bus).agenda() == old(bus).agenda(),
            extends(final(bus).cycles(), old(bus).cycles()),
            rtl_effect(mode, *old(cpu), *final(cpu), old(bus).cycles(), final(bus).cycles()),
    {
        proof { reveal(rtl_effect); }
        let ghost n = old(bus).cycles().len() as int + 1;
        bus.add_io_cycles(2);
        cpu.program_counter = do_pull::<u16, B>(cpu, bus).wrapping_add(1);
        let ghost l1 = bus.cycles();
        cpu.pbr = do_pull::<u8, B>(cpu, bus);
        proof {
            assert(bus.cycles()[n] == l1[n] && bus.cycles()[n + 1] == l1[n + 1]);
        }
    }

    /// RTS: pulls the program counter (plus one).
    pub fn rts<B: Bus>(cpu: &mut Cpu, bus: &mut B, mode: AddressingMode)
        requires
            old(bus).inv(),
        ensures
            final(bus).inv(),
            final(bus).clock() >= old(bus).clock(),
            final(bus).agenda() == old(bus).agenda(),
            extends(final(bus).cycles(), old(bus).cycles()),
            rts_effect(mode, *old(cpu), *final(cpu), old(bus).cycles(), final(bus).cycles()),
    {
        proof { reveal(rts_effect); }
        bus.add_io_cycles(3);
        cpu.program_counter = do_pull::<u16, B>(cpu, bus).wrapping_add(1);
    }

    /// REP: clears the P bits set in the operand (M and X stay set in emulation mode).
    pub fn rep<B: Bus>(cpu: &mut Cpu, bus: &mut B, mode: AddressingMode)
        requires
            old(bus).inv(),
            mode == AddressingMode::Immediate,
        ensures
            final(bus).inv(),
            final(bus).clock() >= old(bus).clock(),
            final(bus).agenda() == old(bus).agenda(),
            extends(final(bus).cycles(), old(bus).cycles()),
            rep_effect(mode, *old(cpu), *final(cpu), old(bus).cycles(), final(bus).cycles()),
    {
        proof { reveal(rep_effect); }
        bus.add_io_cycles(1);
        let mask = cpu.get_operand::<u8, B>(bus, &mode);
        let src = cpu.status.0;
        cpu.set_status_register(src & !mask);
        if cpu.emulation_mode {
            cpu.status.set_a_reg_size(true);
            cpu.status.set_index_regs_size(true);
        }
    }

    /// SEP: sets the P bits set in the operand.
    pub fn sep<B: Bus>(cpu: &mut Cpu, bus: &mut B, mode: AddressingMode)
        requires
            old(bus).inv(),
            mode == AddressingMode::Immediate,
        ensures
            final(bus).inv(),
            final(bus).clock() >= old(bus).clock(),
            final(bus).agenda() == old(bus).agenda(),
            extends(final(bus).cycles(), old(bus).cycles()),
            sep_effect(mode, *old(cpu), *final(cpu), old(bus).cycles(), final(bus).cycles()),
    {
        proof { reveal(sep_effect); }
        bus.add_io_cycles(1);
        let mask = cpu.get_operand::<u8, B>(bus, &mode);
        let src = cpu.status.0;
        cpu.set_status_register(src | mask);
    }
    /// BRK: skips the signature byte and takes the break interrupt.
    pub fn brk<B: Bus>(cpu: &mut Cpu, bus: &mut B, mode: AddressingMode)
        requires
            old(bus).inv(),
            mode == AddressingMode::Immediate,
        ensures
            final(bus).inv(),
            final(bus).clock() >= old(bus).clock(),
            final(bus).agenda() == old(bus).agenda(),
            extends(final(bus).cycles(), old(bus).cycles()),
            brk_effect(mode, *old(cpu), *final(cpu), old(bus).cycles(), final(bus).cycles()),
    {
        proof { reveal(brk_effect); }
        let ghost n = old(bus).cycles().len() as int;
        let _thrown = cpu.get_operand::<u8, B>(bus, &mode);
        let ghost l1 = bus.cycles();
        cpu.handle_interrupt(bus, Vector::Brk);
        proof {
            assert(bus.cycles()[n] == l1[n]);
        }
    }
    /// COP: skips the signature byte and takes the coprocessor interrupt.
    pub fn cop<B: Bus>(cpu: &mut Cpu, bus: &mut B, mode: AddressingMode)
        requires
            old(bus).inv(),
            mode == AddressingMode::Immediate,
        ensures
            final(bus).inv(),
            final(bus).clock() >= old(bus).clock(),
            final(bus).agenda() == old(bus).agenda(),
            extends(final(bus).cycles(), old(bus).cycles()),
            cop_effect(mode, *old(cpu), *final(cpu), old(bus).cycles(), final(bus).cycles()),
    {
        proof { reveal(cop_effect); }
        let ghost n = old(bus).cycles().len() as int;
        let _thrown = cpu.get_operand::<u8, B>(bus, &mode);
        let ghost l1 = bus.cycles();
        cpu.handle_interrupt(bus, Vector::Cop);
        proof {
            assert(bus.cycles()[n] == l1[n]);
        }
    }
    /// BRL: branches always, by a 16-bit offset from the end of the instruction.
    pub fn brl<B: Bus>(cpu: &mut Cpu, bus: &mut B, mode: AddressingMode)
        requires
            mode == AddressingMode::RelativeLong,
            old(bus).inv(),
        ensures
            final(bus).inv(),
            final(bus).clock() >= old(bus).clock(),
            final(bus).agenda() == old(bus).agenda(),
            extends(final(bus).cycles(), old(bus).cycles()),
            brl_effect(mode, *old(cpu), *final(cpu), old(bus).cycles(), final(bus).cycles()),
    {
        proof { reveal(brl_effect); }
        let offset = cpu.get_operand::<u16, B>(bus, &mode);
        cpu.program_counter = cpu.program_counter.wrapping_add(offset);
    }

    /// JMP: jumps to the target of the mode.
    pub fn jmp<B: Bus>(cpu: &mut Cpu, bus: &mut B, mode: AddressingMode)
        requires
            old(bus).inv(),
            jmp_mode(mode),
        ensures
            final(bus).inv(),
            final(bus).clock() >= old(bus).clock(),
            final(bus).agenda() == old(bus).agenda(),
            extends(final(bus).cycles(), old(bus).cycles()),
            jmp_effect(mode, *old(cpu), *final(cpu), old(bus).cycles(), final(bus).cycles()),
    {
        proof { reveal(jmp_effect); }
        cpu.do_jmp(bus, mode);
    }

    /// JML: long jump to the target of the mode.
    pub fn jml<B: Bus>(cpu: &mut Cpu, bus: &mut B, mode: AddressingMode)
        requires
            old(bus).inv(),
            jmp_mode(mode),
        ensures
            final(bus).inv(),
            final(bus).clock() >= old(bus).clock(),
            final(bus).agenda() == old(bus).agenda(),
            extends(final(bus).cycles(), old(bus).cycles()),
            jml_effect(mode, *old(cpu), *final(cpu), old(bus).cycles(), final(bus).cycles()),
    {
        proof { reveal(jml_effect); }
        cpu.do_jmp(bus, mode);
    }

    /// JSL: pushes the program bank and the address of the last operand byte, then jumps long.
    pub fn jsl<B: Bus>(cpu: &mut Cpu, bus: &mut B, mode: AddressingMode)
        requires
            old(bus).inv(),
            mode == AddressingMode::AbsoluteLong,
        ensures
            final(bus).inv(),
            final(bus).clock() >= old(bus).clock(),
            final(bus).agenda() == old(bus).agenda(),
            extends(final(bus).cycles(), old(bus).cycles()),
            jsl_effect(mode, *old(cpu), *final(cpu), old(bus).cycles(), final(bus).cycles()),
    {
        proof { reveal(jsl_effect); }
        let ghost n = old(bus).cycles().len() as int;
        let ghost c = *old(cpu);
        bus.add_io_cycles(1);
        let pbr = cpu.pbr;
        do_push(cpu, bus, pbr);
        let ret = cpu.program_counter.wrapping_add(2);
        do_push(cpu, bus, ret);
        proof {
            assert(((c.stack_pointer - 1) % 0x1_0000 - 2) % 0x1_0000 == (c.stack_pointer - 3) % 0x1_0000);
            assert(*cpu == move_sp(c, -3));
            assert(bus.cycles().len() == n + 4);
        }
        cpu.do_jmp(bus, mode);
    }

    /// JSR: pushes the address of the last operand byte, then jumps (an absolute JSR ends with an internal cycle).
    #[verifier::spinoff_prover]
    #[verifier::rlimit(50)]
    pub fn jsr<B: Bus>(cpu: &mut Cpu, bus: &mut B, mode: AddressingMode)
        requires
            old(bus).inv(),
            mode == AddressingMode::Absolute || mode == AddressingMode::AbsoluteIndirectX,
        ensures
            final(bus).inv(),
            final(bus).clock() >= old(bus).clock(),
            final(bus).agenda() == old(bus).agenda(),
            extends(final(bus).cycles(), old(bus).cycles()),
            jsr_effect(mode, *old(cpu), *final(cpu), old(bus).cycles(), final(bus).cycles()),
    {
        proof { reveal(jsr_effect); }
        let ghost n = old(bus).cycles().len() as int;
        let ret = cpu.program_counter.wrapping_add(1);
        do_push(cpu, bus, ret);
        let ghost c1 = *cpu;
        proof {
            assert(c1 == move_sp(*old(cpu), -2));
            assert(bus.cycles().len() == n + 2);
        }
        cpu.do_jmp(bus, mode);
        let ghost l2 = bus.cycles();
        if let AddressingMode::Absolute = mode {
            bus.add_io_cycles(1);
        }
        proof {
            assert(extends(bus.cycles(), l2));
            lemma_jmp_frame(mode, c1, l2, bus.cycles(), n + 2);
        }
    }

    /// MVN: moves one byte upwards (X and Y count up) and repeats until A wraps.
    pub fn mvn<B: Bus>(cpu: &mut Cpu, bus: &mut B, mode: AddressingMode)
        requires
            old(bus).inv(),
        ensures
            final(bus).inv(),
            final(bus).clock() >= old(bus).clock(),
            final(bus).agenda() == old(bus).agenda(),
            extends(final(bus).cycles(), old(bus).cycles()),
            mvn_effect(mode, *old(cpu), *final(cpu), old(bus).cycles(), final(bus).cycles()),
    {
        proof { reveal(mvn_effect); }
        if cpu.status.index_regs_size() {
            do_block_move::<u8, B>(cpu, bus, true);
        } else {
            do_block_move::<u16, B>(cpu, bus, true);
        }
    }

    /// MVP: moves one byte downwards (X and Y count down) and repeats until A wraps.
    pub fn mvp<B: Bus>(cpu: &mut Cpu, bus: &mut B, mode: AddressingMode)
        requires
            old(bus).inv(),
        ensures
            final(bus).inv(),
            final(bus).clock() >= old(bus).clock(),
            final(bus).agenda() == old(bus).agenda(),
            extends(final(bus).cycles(), old(bus).cycles()),
            mvp_effect(mode, *old(cpu), *final(cpu), old(bus).cycles(), final(bus).cycles()),
    {
        proof { reveal(mvp_effect); }
        if cpu.status.index_regs_size() {
            do_block_move::<u8, B>(cpu, bus, false);
        } else {
            do_block_move::<u16, B>(cpu, bus, false);
        }
    }

    /// NOP: one internal cycle.
    pub fn nop<B: Bus>(cpu: &mut Cpu, bus: &mut B, mode: AddressingMode)
        requires
            old(bus).inv(),
        ensures
            final(bus).inv(),
            final(bus).clock() >= old(bus).clock(),
            final(bus).agenda() == old(bus).agenda(),
            extends(final(bus).cycles(), old(bus).cycles()),
            nop_effect(mode, *old(cpu), *final(cpu), old(bus).cycles(), final(bus).cycles()),
    {
        proof { reveal(nop_effect); }
        bus.add_io_cycles(1);
    }

    /// STP: stops the processor.
    pub fn stp<B: Bus>(cpu: &mut Cpu, bus: &mut B, mode: AddressingMode)
        requires
            old(bus).inv(),
        ensures
            final(bus).inv(),
            final(bus).clock() >= old(bus).clock(),
            final(bus).agenda() == old(bus).agenda(),
            extends(final(bus).cycles(), old(bus).cycles()),
            stp_effect(mode, *old(cpu), *final(cpu), old(bus).cycles(), final(bus).cycles()),
    {
        proof { reveal(stp_effect); }
        cpu.stopped = true;
        bus.add_io_cycles(3);
    }

    /// WAI: waits for an interrupt.
    pub fn wai<B: Bus>(cpu: &mut Cpu, bus: &mut B, mode: AddressingMode)
        requires
            old(bus).inv(),
        ensures
            final(bus).inv(),
            final(bus).clock() >= old(bus).clock(),
            final(bus).agenda() == old(bus).agenda(),
            extends(final(bus).cycles(), old(bus).cycles()),
            wai_effect(mode, *old(cpu), *final(cpu), old(bus).cycles(), final(bus).cycles()),
    {
        proof { reveal(wai_effect); }
        bus.add_io_cycles(3);
        cpu.waiting_interrupt = true;
    }

    /// WDM: skips its operand byte without reading it.
    pub fn wdm<B: Bus>(cpu: &mut Cpu, bus: &mut B, mode: AddressingMode)
        requires
            old(bus).inv(),
        ensures
            final(bus).inv(),
            final(bus).clock() >= old(bus).clock(),
            final(bus).agenda() == old(bus).agenda(),
            extends(final(bus).cycles(), old(bus).cycles()),
            wdm_effect(mode, *old(cpu), *final(cpu), old(bus).cycles(), final(bus).cycles()),
    {
        proof { reveal(wdm_effect); }
        bus.add_io_cycles(1);
        cpu.program_counter = cpu.program_counter.wrapping_add(1);
    }

    /// XBA: swaps the two bytes of A; N and Z from the new low byte.
    pub fn xba<B: Bus>(cpu: &mut Cpu, bus: &mut B, mode: AddressingMode)
        requires
            old(bus).inv(),
        ensures
            final(bus).inv(),
            final(bus).clock() >= old(bus).clock(),
            final(bus).agenda() == old(bus).agenda(),
            extends(final(bus).cycles(), old(bus).cycles()),
            xba_effect(mode, *old(cpu), *final(cpu), old(bus).cycles(), final(bus).cycles()),
    {
        proof { reveal(xba_effect); }
        bus.add_io_cycles(2);
        let a = cpu.accumulator;
        cpu.accumulator = a.low_byte() as u16 * 256 + a.high_byte() as u16;
        cpu.set_nz(cpu.accumulator.low_byte());
    }

    /// XCE: exchanges the carry and the emulation flag.
    pub fn xce<B: Bus>(cpu: &mut Cpu, bus: &mut B, mode: AddressingMode)
        requires
            old(bus).inv(),
        ensures
            final(bus).inv(),
            final(bus).clock() >= old(bus).clock(),
            final(bus).agenda() == old(bus).agenda(),
            extends(final(bus).cycles(), old(bus).cycles()),
            xce_effect(mode, *old(cpu), *final(cpu), old(bus).cycles(), final(bus).cycles()),
    {
        proof { reveal(xce_effect); }
        bus.add_io_cycles(1);
        let carry = cpu.status.carry();
        cpu.status.set_carry(cpu.emulation_mode);
        cpu.set_emulation_mode(carry);
    }
}

/// One step of a block move, as a relation between the CPU and bus log before and after.
pub open spec fn block_move_spec(c: Cpu, f: Cpu, l0: Seq<BusCycle>, l: Seq<BusCycle>, increment: bool) -> bool {
    let k = l0.len() as int;
    let m = modulus(c.x_wide());
    let step = if increment { 1int } else { -1int };
    let acc = (c.accumulator - 1) % 0x1_0000;
    &&& l == l0 + imm_reads(c, 2, l, k) + seq![
        rd(linear(d(l, k + 1), c.index_x), d(l, k + 2)),
        wr(linear(d(l, k), c.index_y), d(l, k + 2)),
        BusCycle::Io(2)]
    &&& f == (Cpu {
        dbr: d(l, k),
        index_x: ((c.index_x as int % m + step) % m) as u16,
        index_y: ((c.index_y as int % m + step) % m) as u16,
        accumulator: acc as u16,
        program_counter: if acc != 0xFFFF { ((c.program_counter + 2 - 3) % 0x1_0000) as u16 } else { ((c.program_counter + 2) % 0x1_0000) as u16 },
        ..c
    })
}

} // verus!
