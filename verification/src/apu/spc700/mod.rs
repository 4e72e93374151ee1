use vstd::prelude::*;

pub mod addressing;
pub mod effects;
pub mod instructions;
pub mod ops;
pub mod table;

use crate::utils::bits::{bit, set_bit, with_bit};
use crate::utils::int_traits::word;

verus! {

/// The value of bit `i` (0 to 2) of a byte.
pub open spec fn pow2_3(i: int) -> int {
    if i == 0 { 1 } else if i == 1 { 2 } else { 4 }
}

/// The addressing modes of the SPC700.
#[derive(Clone, Copy, PartialEq, Eq, Structural)]
pub enum AddressingMode {
    Implied,
    /// A
    Accumulator,
    /// X
    X,
    /// Y
    Y,
    /// SP
    Sp,
    /// PSW
    Psw,
    /// #imm
    Immediate,
    /// dp
    DirectPage,
    /// !abs
    Absolute,
    /// !abs+X
    AbsoluteX,
    /// !abs+Y
    AbsoluteY,
    /// mem.bit
    AbsoluteBooleanBit,
    /// dp+X
    DirectX,
    /// dp+Y
    DirectY,
    DirectXPostIncrement,
    /// (X)
    IndirectX,
    /// (Y)
    IndirectY,
    /// [dp]+Y
    DirectPageIndirectY,
    /// [dp+X]
    XIndirect,
}

impl AddressingMode {
    /// Whether the operand is a register rather than memory.
    pub fn is_register_access(&self) -> (r: bool)
        ensures
            r == (*self == AddressingMode::Accumulator || *self == AddressingMode::X || *self == AddressingMode::Y
                || *self == AddressingMode::Psw || *self == AddressingMode::Sp),
    {
        match self {
            AddressingMode::Accumulator | AddressingMode::X | AddressingMode::Y | AddressingMode::Psw
            | AddressingMode::Sp => true,
            _ => false,
        }
    }
}

/// What the opcode table says of an SPC700 opcode.
#[derive(Clone, Copy)]
pub struct Meta {
    pub code: u8,
    pub mnemonic: &'static str,
    pub mode: AddressingMode,
}

/// The SPC700 program status word.
#[derive(Clone, Copy)]
pub struct Status(pub u8);

impl Status {
    #[verifier::allow_in_spec]
    pub fn carry(&self) -> bool
        returns
            bit(self.0, 1),
    {
        self.0 % 2 == 1
    }

    #[verifier::allow_in_spec]
    pub fn zero(&self) -> bool
        returns
            bit(self.0, 2),
    {
        (self.0 / 2) % 2 == 1
    }

    #[verifier::allow_in_spec]
    pub fn irq_enabled(&self) -> bool
        returns
            bit(self.0, 4),
    {
        (self.0 / 4) % 2 == 1
    }

    #[verifier::allow_in_spec]
    pub fn direct_page(&self) -> bool
        returns
            bit(self.0, 32),
    {
        (self.0 / 32) % 2 == 1
    }

    #[verifier::allow_in_spec]
    pub fn half_carry(&self) -> bool
        returns
            bit(self.0, 8),
    {
        (self.0 / 8) % 2 == 1
    }

    #[verifier::allow_in_spec]
    pub fn overflow(&self) -> bool
        returns
            bit(self.0, 64),
    {
        (self.0 / 64) % 2 == 1
    }

    #[verifier::allow_in_spec]
    pub fn negative(&self) -> bool
        returns
            bit(self.0, 128),
    {
        self.0 >= 128
    }

    pub fn set_carry(&mut self, v: bool)
        ensures
            final(self).0 == with_bit(old(self).0, 1, v),
    {
        self.0 = set_bit(self.0, 1, v);
    }

    pub fn set_zero(&mut self, v: bool)
        ensures
            final(self).0 == with_bit(old(self).0, 2, v),
    {
        self.0 = set_bit(self.0, 2, v);
    }

    pub fn set_irq_enabled(&mut self, v: bool)
        ensures
            final(self).0 == with_bit(old(self).0, 4, v),
    {
        self.0 = set_bit(self.0, 4, v);
    }

    pub fn set_break(&mut self, v: bool)
        ensures
            final(self).0 == with_bit(old(self).0, 16, v),
    {
        self.0 = set_bit(self.0, 16, v);
    }

    pub fn set_direct_page(&mut self, v: bool)
        ensures
            final(self).0 == with_bit(old(self).0, 32, v),
    {
        self.0 = set_bit(self.0, 32, v);
    }

    pub fn set_half_carry(&mut self, v: bool)
        ensures
            final(self).0 == with_bit(old(self).0, 8, v),
    {
        self.0 = set_bit(self.0, 8, v);
    }

    pub fn set_overflow(&mut self, v: bool)
        ensures
            final(self).0 == with_bit(old(self).0, 64, v),
    {
        self.0 = set_bit(self.0, 64, v);
    }

    pub fn set_negative(&mut self, v: bool)
        ensures
            final(self).0 == with_bit(old(self).0, 128, v),
    {
        self.0 = set_bit(self.0, 128, v);
    }
}

/// The SPC700 register file.
pub struct Cpu {
    pub accumulator: u8,
    pub index_x: u8,
    pub index_y: u8,
    pub program_counter: u16,
    pub stack_pointer: u8,
    pub status: Status,
    pub paused: bool,
}

/// PSW after N and Z are set from a byte.
pub open spec fn nz8(p: u8, v: u8) -> u8 {
    with_bit(with_bit(p, 128, v >= 0x80), 2, v == 0)
}

/// PSW after an 8-bit add with carry of `a` and `b`: (result, flags).
pub open spec fn adc_spec(p: u8, a: u8, b: u8) -> (u8, u8) {
    let c: int = if bit(p, 1) { 1 } else { 0 };
    let sum = a + b + c;
    let r = (sum % 256) as u8;
    let h = a % 16 + b % 16 + c >= 16;
    let v = (a >= 0x80) == (b >= 0x80) && (r >= 0x80) != (a >= 0x80);
    (r, nz8(with_bit(with_bit(with_bit(p, 1, sum >= 256), 8, h), 64, v), r))
}

impl Cpu {
    pub fn new() -> (r: Self)
        ensures
            r.accumulator == 0 && r.index_x == 0 && r.index_y == 0,
            r.program_counter == 0 && r.stack_pointer == 0 && r.status.0 == 0 && !r.paused,
    {
        Self {
            accumulator: 0x00,
            index_x: 0x00,
            index_y: 0x00,
            program_counter: 0x00,
            stack_pointer: 0x00,
            status: Status(0),
            paused: false,
        }
    }

    /// The 16-bit register pair YA (Y is the high byte).
    pub fn ya(&self) -> (r: u16)
        ensures
            r == word(self.accumulator, self.index_y),
    {
        self.accumulator as u16 + self.index_y as u16 * 256
    }

    /// Sets N and Z from a byte.
    pub fn set_nz(&mut self, value: u8)
        ensures
            *final(self) == (Cpu { status: Status(nz8(old(self).status.0, value)), ..*old(self) }),
    {
        self.status.set_negative(value >= 0x80);
        self.status.set_zero(value == 0);
    }

    /// Adds with carry: C, H, V, N and Z from the sum.
    pub fn do_adc(&mut self, a: u8, b: u8) -> (r: u8)
        ensures
            r == adc_spec(old(self).status.0, a, b).0,
            *final(self) == (Cpu { status: Status(adc_spec(old(self).status.0, a, b).1), ..*old(self) }),
    {
        let c: u16 = if self.status.carry() { 1 } else { 0 };
        let result = a as u16 + b as u16 + c;
        self.status.set_carry(result >= 256);
        let r = (result % 256) as u8;
        self.status.set_half_carry((a % 16) as u16 + (b % 16) as u16 + c >= 16);
        self.status.set_overflow((a >= 0x80) == (b >= 0x80) && (r >= 0x80) != (a >= 0x80));
        self.set_nz(r);
        r
    }

    /// Compares: C when `a >= b`, N and Z from the difference.
    pub fn do_compare(&mut self, a: u8, b: u8)
        ensures
            *final(self) == (Cpu {
                status: Status(nz8(with_bit(old(self).status.0, 1, a >= b), ((a - b) % 256) as u8)),
                ..*old(self)
            }),
    {
        let result = a.wrapping_sub(b);
        self.status.set_carry(a >= b);
        self.status.set_negative(result >= 0x80);
        self.status.set_zero(result == 0);
    }
}

} // verus!
