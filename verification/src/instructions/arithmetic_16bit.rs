use vstd::prelude::*;

use crate::cpu::{
    flags_bits, r16_of, same_int_state, set_r16_spec, with_flags, with_pc, Cpu, Flags, R16,
};
use crate::Mnemonic;

use super::{
    add16_flags, add16_sum, add16_with_flags, sub16_flags, sub16_sum, sub16_with_flags,
    Instruction, InstructionResult,
};

verus! {

/// Add two words and an optional carry, returning the sum and the flag byte.
pub fn add_16bit(a: u16, b: u16, carry_flag: Option<bool>) -> (r: (u16, u8))
    ensures
        ({
            let c: u8 = if carry_flag == Some(true) {
                1u8
            } else {
                0u8
            };
            r.0 == add16_sum(a, b, c) && r.1 == flags_bits(add16_flags(a, b, c))
        }),
{
    let c: u8 = match carry_flag {
        Some(true) => 1,
        _ => 0,
    };
    let (sum, f) = add16_with_flags(a, b, c);
    let fb = f.to_byte();
    (sum, fb)
}

/// Subtract two words and an optional carry, returning the difference and
/// the flag byte.
pub fn sub_16bit(a: u16, b: u16, carry_flag: Option<bool>) -> (r: (u16, u8))
    ensures
        ({
            let c: u8 = if carry_flag == Some(true) {
                1u8
            } else {
                0u8
            };
            r.0 == sub16_sum(a, b, c) && r.1 == flags_bits(sub16_flags(a, b, c))
        }),
{
    let c: u8 = match carry_flag {
        Some(true) => 1,
        _ => 0,
    };
    let (sum, f) = sub16_with_flags(a, b, c);
    let fb = f.to_byte();
    (sum, fb)
}

/// ADD HL,r16: add the value in r16 to HL. The zero flag is kept; N clears,
/// H comes from the bit-11 carry and C from the bit-15 carry.
pub fn add_r16_hl(r16: R16, cpu: &mut Cpu) -> (r: InstructionResult<Instruction>)
    requires
        old(cpu).registers.wf(),
    ensures
        final(cpu).registers.wf(),
        same_int_state(*old(cpu), *final(cpu)),
        ({
            let v = r16_of(old(cpu).registers, r16);
            let hl = old(cpu).registers.hl;
            final(cpu).registers == with_pc(
                with_flags(
                    set_r16_spec(old(cpu).registers, R16::HL, add16_sum(hl, v, 0)),
                    (Flags { zero: old(cpu).registers.flags.zero, ..add16_flags(hl, v, 0) }),
                ),
                old(cpu).registers.pc.wrapping_add(1),
            )
        }),
        r == Ok::<Instruction, crate::errors::DecodeError>(
            (Instruction { mnemonic: Mnemonic::ADD, bytes: 1, cycles: 2 }),
        ),
{
    let v = cpu.registers.get_r16(r16);
    let hl = cpu.registers.hl;
    let (sum, f0) = add16_with_flags(hl, v, 0);
    let f = Flags { zero: cpu.registers.flags.zero, ..f0 };
    cpu.registers.set_r16(R16::HL, sum);
    cpu.registers.set_flags(f);
    cpu.registers.pc = cpu.registers.pc.wrapping_add(1);
    Ok(Instruction { mnemonic: Mnemonic::ADD, bytes: 1, cycles: 2 })
}

/// DEC r16: decrement the value in register r16 by 1; no flags change.
pub fn dec_r16(r16: R16, cpu: &mut Cpu) -> (r: InstructionResult<Instruction>)
    requires
        old(cpu).registers.wf(),
    ensures
        final(cpu).registers.wf(),
        same_int_state(*old(cpu), *final(cpu)),
        ({
            let v = r16_of(old(cpu).registers, r16);
            final(cpu).registers == (if r16 == R16::PC {
                set_r16_spec(old(cpu).registers, r16, sub16_sum(v, 1, 0))
            } else {
                with_pc(
                    set_r16_spec(old(cpu).registers, r16, sub16_sum(v, 1, 0)),
                    old(cpu).registers.pc.wrapping_add(1),
                )
            })
        }),
        r == Ok::<Instruction, crate::errors::DecodeError>(
            (Instruction { mnemonic: Mnemonic::DEC, bytes: 1, cycles: 2 }),
        ),
{
    let v = cpu.registers.get_r16(r16);
    let (sum, _) = sub16_with_flags(v, 1, 0);
    cpu.registers.set_r16(r16, sum);
    if r16 != R16::PC {
        cpu.registers.pc = cpu.registers.pc.wrapping_add(1);
    }
    Ok(Instruction { mnemonic: Mnemonic::DEC, bytes: 1, cycles: 2 })
}

/// INC r16: increment the value in register r16 by 1; no flags change.
pub fn inc_r16(r16: R16, cpu: &mut Cpu) -> (r: InstructionResult<Instruction>)
    requires
        old(cpu).registers.wf(),
    ensures
        final(cpu).registers.wf(),
        same_int_state(*old(cpu), *final(cpu)),
        ({
            let v = r16_of(old(cpu).registers, r16);
            final(cpu).registers == (if r16 == R16::PC {
                set_r16_spec(old(cpu).registers, r16, add16_sum(v, 1, 0))
            } else {
                with_pc(
                    set_r16_spec(old(cpu).registers, r16, add16_sum(v, 1, 0)),
                    old(cpu).registers.pc.wrapping_add(1),
                )
            })
        }),
        r == Ok::<Instruction, crate::errors::DecodeError>(
            (Instruction { mnemonic: Mnemonic::INC, bytes: 1, cycles: 2 }),
        ),
{
    let v = cpu.registers.get_r16(r16);
    let (sum, _) = add16_with_flags(v, 1, 0);
    cpu.registers.set_r16(r16, sum);
    if r16 != R16::PC {
        cpu.registers.pc = cpu.registers.pc.wrapping_add(1);
    }
    Ok(Instruction { mnemonic: Mnemonic::INC, bytes: 1, cycles: 2 })
}

} // verus!
