use vstd::prelude::*;

use crate::errors::DecodeError;
use crate::Mnemonic;

pub mod arithmetic_16bit;
pub mod arithmetic_8bit;
pub mod bitflag;
pub mod bitshift;
pub mod bitwise;
pub mod carry;
pub mod interrupts;
pub mod jumps;
pub mod load;
pub mod misc;
pub mod stack;

pub use crate::cpu::Condition;

verus! {

/// What the decoder reports of one executed instruction: its mnemonic, its
/// encoded length in bytes and its cost in M-cycles.
#[derive(Debug, Copy, Clone, PartialEq, Eq, Structural)]
pub struct Instruction {
    pub mnemonic: Mnemonic,
    pub bytes: u8,
    pub cycles: u8,
}

/// The result type of every instruction implementation.
pub type InstructionResult<T> = Result<T, DecodeError>;

/// An 8-bit arithmetic result: the sum and the flag byte it produces.
#[derive(Debug, Copy, Clone, PartialEq, Eq, Structural)]
pub struct Arith8Bit {
    pub sum: u8,
    pub flags: u8,
}

/// A 16-bit arithmetic result: the sum and the flag byte it produces.
#[derive(Debug, Copy, Clone, PartialEq, Eq, Structural)]
pub struct Arith16Bit {
    pub sum: u16,
    pub flags: u8,
}

/// The truncated 8-bit sum of two bytes and a carry-in.
pub open spec fn add8_sum(a: u8, b: u8, c: u8) -> u8 {
    ((a + b + c) % 256) as u8
}

/// The flags of an 8-bit add: Z from the truncated sum, N clear, H from the
/// low-nibble carry, C from the 9-bit sum.
pub open spec fn add8_flags(a: u8, b: u8, c: u8) -> crate::cpu::Flags {
    crate::cpu::Flags {
        zero: (a + b + c) % 256 == 0,
        subtraction: false,
        half_carry: a % 16 + b % 16 + c > 0x0f,
        carry: a + b + c > 0xff,
    }
}

/// The wrapped 8-bit difference of two bytes and a carry-in.
pub open spec fn sub8_sum(a: u8, b: u8, c: u8) -> u8 {
    (if a >= b + c {
        a - b - c
    } else {
        a - b - c + 256
    }) as u8
}

/// The flags of an 8-bit subtract: Z from the result, N set, H from the
/// low-nibble borrow, C from the full borrow.
pub open spec fn sub8_flags(a: u8, b: u8, c: u8) -> crate::cpu::Flags {
    crate::cpu::Flags {
        zero: sub8_sum(a, b, c) == 0,
        subtraction: true,
        half_carry: a % 16 < b % 16 + c,
        carry: (a as int) < b + c,
    }
}

/// The truncated 16-bit sum of two words and a carry-in.
pub open spec fn add16_sum(a: u16, b: u16, c: u8) -> u16 {
    ((a + b + c) % 0x10000) as u16
}

/// The flags of a 16-bit add: Z from the truncated sum, N clear, H from the
/// bit-11 carry, C from the bit-15 carry.
pub open spec fn add16_flags(a: u16, b: u16, c: u8) -> crate::cpu::Flags {
    crate::cpu::Flags {
        zero: (a + b + c) % 0x10000 == 0,
        subtraction: false,
        half_carry: a % 0x1000 + b % 0x1000 + c > 0x0fff,
        carry: a + b + c > 0xffff,
    }
}

/// The wrapped 16-bit difference of two words and a carry-in.
pub open spec fn sub16_sum(a: u16, b: u16, c: u8) -> u16 {
    (if a >= b + c {
        a - b - c
    } else {
        a - b - c + 0x10000
    }) as u16
}

/// The flags of a 16-bit subtract: Z from the result, N set, H from the
/// bit-11 borrow, C from the full borrow.
pub open spec fn sub16_flags(a: u16, b: u16, c: u8) -> crate::cpu::Flags {
    crate::cpu::Flags {
        zero: sub16_sum(a, b, c) == 0,
        subtraction: true,
        half_carry: a % 0x1000 < b % 0x1000 + c,
        carry: (a as int) < b + c,
    }
}

/// Add two bytes and a carry bit, returning the sum and the flag set.
pub(crate) fn add8_with_flags(a: u8, b: u8, c: u8) -> (r: (u8, crate::cpu::Flags))
    requires
        c <= 1,
    ensures
        r.0 == add8_sum(a, b, c),
        r.1 == add8_flags(a, b, c),
{
    let sum16: u16 = a as u16 + b as u16 + c as u16;
    let sum: u8 = (sum16 % 256) as u8;
    let f = crate::cpu::Flags {
        zero: sum == 0,
        subtraction: false,
        half_carry: a % 16 + b % 16 + c > 0x0f,
        carry: sum16 > 0xff,
    };
    (sum, f)
}

/// Subtract two bytes and a carry bit, returning the difference and the
/// flag set.
pub(crate) fn sub8_with_flags(a: u8, b: u8, c: u8) -> (r: (u8, crate::cpu::Flags))
    requires
        c <= 1,
    ensures
        r.0 == sub8_sum(a, b, c),
        r.1 == sub8_flags(a, b, c),
{
    let bc: u16 = b as u16 + c as u16;
    let sum: u8 = if a as u16 >= bc {
        (a as u16 - bc) as u8
    } else {
        (a as u16 + 256 - bc) as u8
    };
    let f = crate::cpu::Flags {
        zero: sum == 0,
        subtraction: true,
        half_carry: a % 16 < b % 16 + c,
        carry: (a as u16) < bc,
    };
    (sum, f)
}

/// Add two words and a carry bit, returning the sum and the flag set.
pub(crate) fn add16_with_flags(a: u16, b: u16, c: u8) -> (r: (u16, crate::cpu::Flags))
    requires
        c <= 1,
    ensures
        r.0 == add16_sum(a, b, c),
        r.1 == add16_flags(a, b, c),
{
    let sum32: u32 = a as u32 + b as u32 + c as u32;
    let sum: u16 = (sum32 % 0x10000) as u16;
    let f = crate::cpu::Flags {
        zero: sum == 0,
        subtraction: false,
        half_carry: a % 0x1000 + b % 0x1000 + (c as u16) > 0x0fff,
        carry: sum32 > 0xffff,
    };
    (sum, f)
}

/// Subtract two words and a carry bit, returning the difference and the
/// flag set.
pub(crate) fn sub16_with_flags(a: u16, b: u16, c: u8) -> (r: (u16, crate::cpu::Flags))
    requires
        c <= 1,
    ensures
        r.0 == sub16_sum(a, b, c),
        r.1 == sub16_flags(a, b, c),
{
    let bc: u32 = b as u32 + c as u32;
    let sum: u16 = if a as u32 >= bc {
        (a as u32 - bc) as u16
    } else {
        (a as u32 + 0x10000 - bc) as u16
    };
    let f = crate::cpu::Flags {
        zero: sum == 0,
        subtraction: true,
        half_carry: a % 0x1000 < b % 0x1000 + (c as u16),
        carry: (a as u32) < bc,
    };
    (sum, f)
}

/// Add two bytes and an optional carry, returning the sum and the flag byte.
pub fn add_8bit(a: u8, b: u8, carry_flag: Option<u8>) -> (r: Arith8Bit)
    ensures
        ({
            let c: u8 = if carry_flag matches Some(n) && n != 0 {
                1u8
            } else {
                0u8
            };
            r.sum == add8_sum(a, b, c) && r.flags == crate::cpu::flags_bits(add8_flags(a, b, c))
        }),
{
    let c: u8 = match carry_flag {
        Some(n) => if n != 0 {
            1
        } else {
            0
        },
        None => 0,
    };
    let (sum, flags) = arithmetic_8bit::add_8bit(a, b, Some(c != 0));
    Arith8Bit { sum, flags }
}

/// Subtract two bytes and an optional carry, returning the difference and
/// the flag byte.
pub fn sub_8bit(a: u8, b: u8, carry_flag: Option<u8>) -> (r: Arith8Bit)
    ensures
        ({
            let c: u8 = if carry_flag matches Some(n) && n != 0 {
                1u8
            } else {
                0u8
            };
            r.sum == sub8_sum(a, b, c) && r.flags == crate::cpu::flags_bits(sub8_flags(a, b, c))
        }),
{
    let c: u8 = match carry_flag {
        Some(n) => if n != 0 {
            1
        } else {
            0
        },
        None => 0,
    };
    let (sum, flags) = arithmetic_8bit::sub_8bit(a, b, Some(c != 0));
    Arith8Bit { sum, flags }
}

/// Add two words and an optional carry, returning the sum and the flag byte.
pub fn add_16bit(a: u16, b: u16, carry_flag: Option<u8>) -> (r: Arith16Bit)
    ensures
        ({
            let c: u8 = if carry_flag matches Some(n) && n != 0 {
                1u8
            } else {
                0u8
            };
            r.sum == add16_sum(a, b, c) && r.flags == crate::cpu::flags_bits(add16_flags(a, b, c))
        }),
{
    let c: u8 = match carry_flag {
        Some(n) => if n != 0 {
            1
        } else {
            0
        },
        None => 0,
    };
    let (sum, flags) = arithmetic_16bit::add_16bit(a, b, Some(c != 0));
    Arith16Bit { sum, flags }
}

/// Subtract two words and an optional carry, returning the difference and
/// the flag byte.
pub fn sub_16bit(a: u16, b: u16, carry_flag: Option<u8>) -> (r: Arith16Bit)
    ensures
        ({
            let c: u8 = if carry_flag matches Some(n) && n != 0 {
                1u8
            } else {
                0u8
            };
            r.sum == sub16_sum(a, b, c) && r.flags == crate::cpu::flags_bits(sub16_flags(a, b, c))
        }),
{
    let c: u8 = match carry_flag {
        Some(n) => if n != 0 {
            1
        } else {
            0
        },
        None => 0,
    };
    let (sum, flags) = arithmetic_16bit::sub_16bit(a, b, Some(c != 0));
    Arith16Bit { sum, flags }
}

} // verus!
