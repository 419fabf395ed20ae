use vstd::prelude::*;

use crate::cpu::{
    flags_bits, r8_of, same_int_state, set_r8_spec, with_flags, with_pc, Cpu, Flags, R8,
};
use crate::memory::{read_spec, write_rel, Memory};
use crate::Mnemonic;

use super::{
    add8_flags, add8_sum, add8_with_flags, sub8_flags, sub8_sum, sub8_with_flags, Instruction,
    InstructionResult,
};

verus! {

/// Add two bytes and an optional carry, returning the sum and the flag byte.
pub fn add_8bit(a: u8, b: u8, carry_flag: Option<bool>) -> (r: (u8, u8))
    ensures
        ({
            let c: u8 = if carry_flag == Some(true) {
                1u8
            } else {
                0u8
            };
            r.0 == add8_sum(a, b, c) && r.1 == flags_bits(add8_flags(a, b, c))
        }),
{
    let c: u8 = match carry_flag {
        Some(true) => 1,
        _ => 0,
    };
    let (sum, f) = add8_with_flags(a, b, c);
    let fb = f.to_byte();
    (sum, fb)
}

/// Subtract two bytes and an optional carry, returning the difference and
/// the flag byte.
pub fn sub_8bit(a: u8, b: u8, carry_flag: Option<bool>) -> (r: (u8, u8))
    ensures
        ({
            let c: u8 = if carry_flag == Some(true) {
                1u8
            } else {
                0u8
            };
            r.0 == sub8_sum(a, b, c) && r.1 == flags_bits(sub8_flags(a, b, c))
        }),
{
    let c: u8 = match carry_flag {
        Some(true) => 1,
        _ => 0,
    };
    let (sum, f) = sub8_with_flags(a, b, c);
    let fb = f.to_byte();
    (sum, fb)
}

/// ADC A,r8: add the value in r8 plus the carry flag to A.
pub fn adc_a_r8(r8: R8, cpu: &mut Cpu) -> (r: InstructionResult<Instruction>)
    requires
        old(cpu).registers.wf(),
    ensures
        final(cpu).registers.wf(),
        same_int_state(*old(cpu), *final(cpu)),
        ({
            let a = old(cpu).registers.a;
            let b = r8_of(old(cpu).registers, r8);
            let c: u8 = if old(cpu).registers.flags.carry {
                1u8
            } else {
                0u8
            };
            final(cpu).registers == with_pc(
                with_flags(
                    set_r8_spec(old(cpu).registers, R8::A, add8_sum(a, b, c)),
                    add8_flags(a, b, c),
                ),
                old(cpu).registers.pc.wrapping_add(1),
            )
        }),
        r == Ok::<Instruction, crate::errors::DecodeError>(
            (Instruction { mnemonic: Mnemonic::ADC, bytes: 1, cycles: 1 }),
        ),
{
    let a = cpu.registers.a;
    let b = cpu.registers.get_r8(r8);
    let c: u8 = if cpu.registers.flags.carry {
        1
    } else {
        0
    };
    let (sum, f) = add8_with_flags(a, b, c);
    cpu.registers.set_r8(R8::A, sum);
    cpu.registers.set_flags(f);
    cpu.registers.pc = cpu.registers.pc.wrapping_add(1);
    Ok(Instruction { mnemonic: Mnemonic::ADC, bytes: 1, cycles: 1 })
}

/// ADC A,[HL]: add the byte pointed to by HL plus the carry flag to A.
pub fn adc_a_immed_hl(cpu: &mut Cpu, mem: &mut Memory) -> (r: InstructionResult<Instruction>)
    requires
        old(cpu).registers.wf(),
        old(mem).wf(),
    ensures
        final(cpu).registers.wf(),
        *final(mem) == *old(mem),
        same_int_state(*old(cpu), *final(cpu)),
        ({
            let a = old(cpu).registers.a;
            let b = read_spec(*old(mem), old(cpu).registers.hl as int);
            let c: u8 = if old(cpu).registers.flags.carry {
                1u8
            } else {
                0u8
            };
            final(cpu).registers == with_pc(
                with_flags(
                    set_r8_spec(old(cpu).registers, R8::A, add8_sum(a, b, c)),
                    add8_flags(a, b, c),
                ),
                old(cpu).registers.pc.wrapping_add(1),
            )
        }),
        r == Ok::<Instruction, crate::errors::DecodeError>(
            (Instruction { mnemonic: Mnemonic::ADC, bytes: 1, cycles: 2 }),
        ),
{
    let hl = cpu.registers.hl;
    let a = cpu.registers.a;
    let b = mem.read(hl as usize);
    let c: u8 = if cpu.registers.flags.carry {
        1
    } else {
        0
    };
    let (sum, f) = add8_with_flags(a, b, c);
    cpu.registers.set_r8(R8::A, sum);
    cpu.registers.set_flags(f);
    cpu.registers.pc = cpu.registers.pc.wrapping_add(1);
    Ok(Instruction { mnemonic: Mnemonic::ADC, bytes: 1, cycles: 2 })
}

/// ADC A,n8: add the value n8 plus the carry flag to A.
pub fn adc_a_n8(n8: u8, cpu: &mut Cpu) -> (r: InstructionResult<Instruction>)
    requires
        old(cpu).registers.wf(),
    ensures
        final(cpu).registers.wf(),
        same_int_state(*old(cpu), *final(cpu)),
        ({
            let a = old(cpu).registers.a;
            let c: u8 = if old(cpu).registers.flags.carry {
                1u8
            } else {
                0u8
            };
            final(cpu).registers == with_pc(
                with_flags(
                    set_r8_spec(old(cpu).registers, R8::A, add8_sum(a, n8, c)),
                    add8_flags(a, n8, c),
                ),
                old(cpu).registers.pc.wrapping_add(2),
            )
        }),
        r == Ok::<Instruction, crate::errors::DecodeError>(
            (Instruction { mnemonic: Mnemonic::ADC, bytes: 2, cycles: 2 }),
        ),
{
    let a = cpu.registers.a;
    let c: u8 = if cpu.registers.flags.carry {
        1
    } else {
        0
    };
    let (sum, f) = add8_with_flags(a, n8, c);
    cpu.registers.set_r8(R8::A, sum);
    cpu.registers.set_flags(f);
    cpu.registers.pc = cpu.registers.pc.wrapping_add(2);
    Ok(Instruction { mnemonic: Mnemonic::ADC, bytes: 2, cycles: 2 })
}

/// ADD A,r8: add the value in r8 to A.
pub fn add_a_r8(r8: R8, cpu: &mut Cpu) -> (r: InstructionResult<Instruction>)
    requires
        old(cpu).registers.wf(),
    ensures
        final(cpu).registers.wf(),
        same_int_state(*old(cpu), *final(cpu)),
        ({
            let a = old(cpu).registers.a;
            let b = r8_of(old(cpu).registers, r8);
            final(cpu).registers == with_pc(
                with_flags(
                    set_r8_spec(old(cpu).registers, R8::A, add8_sum(a, b, 0)),
                    add8_flags(a, b, 0),
                ),
                old(cpu).registers.pc.wrapping_add(1),
            )
        }),
        r == Ok::<Instruction, crate::errors::DecodeError>(
            (Instruction { mnemonic: Mnemonic::ADD, bytes: 1, cycles: 1 }),
        ),
{
    let a = cpu.registers.a;
    let b = cpu.registers.get_r8(r8);
    let (sum, f) = add8_with_flags(a, b, 0);
    cpu.registers.set_r8(R8::A, sum);
    cpu.registers.set_flags(f);
    cpu.registers.pc = cpu.registers.pc.wrapping_add(1);
    Ok(Instruction { mnemonic: Mnemonic::ADD, bytes: 1, cycles: 1 })
}

/// ADD A,[HL]: add the byte pointed to by HL to A.
pub fn add_a_immed_hl(cpu: &mut Cpu, mem: &mut Memory) -> (r: InstructionResult<Instruction>)
    requires
        old(cpu).registers.wf(),
        old(mem).wf(),
    ensures
        final(cpu).registers.wf(),
        *final(mem) == *old(mem),
        same_int_state(*old(cpu), *final(cpu)),
        ({
            let a = old(cpu).registers.a;
            let b = read_spec(*old(mem), old(cpu).registers.hl as int);
            final(cpu).registers == with_pc(
                with_flags(
                    set_r8_spec(old(cpu).registers, R8::A, add8_sum(a, b, 0)),
                    add8_flags(a, b, 0),
                ),
                old(cpu).registers.pc.wrapping_add(1),
            )
        }),
        r == Ok::<Instruction, crate::errors::DecodeError>(
            (Instruction { mnemonic: Mnemonic::ADD, bytes: 1, cycles: 2 }),
        ),
{
    let hl = cpu.registers.hl;
    let a = cpu.registers.a;
    let b = mem.read(hl as usize);
    let (sum, f) = add8_with_flags(a, b, 0);
    cpu.registers.set_r8(R8::A, sum);
    cpu.registers.set_flags(f);
    cpu.registers.pc = cpu.registers.pc.wrapping_add(1);
    Ok(Instruction { mnemonic: Mnemonic::ADD, bytes: 1, cycles: 2 })
}

/// ADD A,n8: add the value n8 to A.
pub fn add_a_n8(n8: u8, cpu: &mut Cpu) -> (r: InstructionResult<Instruction>)
    requires
        old(cpu).registers.wf(),
    ensures
        final(cpu).registers.wf(),
        same_int_state(*old(cpu), *final(cpu)),
        ({
            let a = old(cpu).registers.a;
            final(cpu).registers == with_pc(
                with_flags(
                    set_r8_spec(old(cpu).registers, R8::A, add8_sum(a, n8, 0)),
                    add8_flags(a, n8, 0),
                ),
                old(cpu).registers.pc.wrapping_add(2),
            )
        }),
        r == Ok::<Instruction, crate::errors::DecodeError>(
            (Instruction { mnemonic: Mnemonic::ADD, bytes: 2, cycles: 2 }),
        ),
{
    let a = cpu.registers.a;
    let (sum, f) = add8_with_flags(a, n8, 0);
    cpu.registers.set_r8(R8::A, sum);
    cpu.registers.set_flags(f);
    cpu.registers.pc = cpu.registers.pc.wrapping_add(2);
    Ok(Instruction { mnemonic: Mnemonic::ADD, bytes: 2, cycles: 2 })
}

/// CP A,r8: compare A with the value in r8: subtract and set the flags but
/// discard the result.
pub fn cp_a_r8(r8: R8, cpu: &mut Cpu) -> (r: InstructionResult<Instruction>)
    requires
        old(cpu).registers.wf(),
    ensures
        final(cpu).registers.wf(),
        same_int_state(*old(cpu), *final(cpu)),
        ({
            let a = old(cpu).registers.a;
            let b = r8_of(old(cpu).registers, r8);
            final(cpu).registers == with_pc(
                with_flags(old(cpu).registers, sub8_flags(a, b, 0)),
                old(cpu).registers.pc.wrapping_add(1),
            )
        }),
        r == Ok::<Instruction, crate::errors::DecodeError>(
            (Instruction { mnemonic: Mnemonic::CP, bytes: 1, cycles: 1 }),
        ),
{
    let a = cpu.registers.a;
    let b = cpu.registers.get_r8(r8);
    let (_, f) = sub8_with_flags(a, b, 0);
    cpu.registers.set_flags(f);
    cpu.registers.pc = cpu.registers.pc.wrapping_add(1);
    Ok(Instruction { mnemonic: Mnemonic::CP, bytes: 1, cycles: 1 })
}

/// CP A,[HL]: compare A with the byte pointed to by HL.
pub fn cp_a_hl(cpu: &mut Cpu, mem: &mut Memory) -> (r: InstructionResult<Instruction>)
    requires
        old(cpu).registers.wf(),
        old(mem).wf(),
    ensures
        final(cpu).registers.wf(),
        *final(mem) == *old(mem),
        same_int_state(*old(cpu), *final(cpu)),
        ({
            let a = old(cpu).registers.a;
            let b = read_spec(*old(mem), old(cpu).registers.hl as int);
            final(cpu).registers == with_pc(
                with_flags(old(cpu).registers, sub8_flags(a, b, 0)),
                old(cpu).registers.pc.wrapping_add(1),
            )
        }),
        r == Ok::<Instruction, crate::errors::DecodeError>(
            (Instruction { mnemonic: Mnemonic::CP, bytes: 1, cycles: 2 }),
        ),
{
    let a = cpu.registers.a;
    let hl = cpu.registers.hl;
    let b = mem.read(hl as usize);
    let (_, f) = sub8_with_flags(a, b, 0);
    cpu.registers.set_flags(f);
    cpu.registers.pc = cpu.registers.pc.wrapping_add(1);
    Ok(Instruction { mnemonic: Mnemonic::CP, bytes: 1, cycles: 2 })
}

/// CP A,n8: compare A with the value n8.
pub fn cp_a_n8(n8: u8, cpu: &mut Cpu) -> (r: InstructionResult<Instruction>)
    requires
        old(cpu).registers.wf(),
    ensures
        final(cpu).registers.wf(),
        same_int_state(*old(cpu), *final(cpu)),
        ({
            let a = old(cpu).registers.a;
            final(cpu).registers == with_pc(
                with_flags(old(cpu).registers, sub8_flags(a, n8, 0)),
                old(cpu).registers.pc.wrapping_add(2),
            )
        }),
        r == Ok::<Instruction, crate::errors::DecodeError>(
            (Instruction { mnemonic: Mnemonic::CP, bytes: 2, cycles: 2 }),
        ),
{
    let a = cpu.registers.a;
    let (_, f) = sub8_with_flags(a, n8, 0);
    cpu.registers.set_flags(f);
    cpu.registers.pc = cpu.registers.pc.wrapping_add(2);
    Ok(Instruction { mnemonic: Mnemonic::CP, bytes: 2, cycles: 2 })
}

/// DEC r8: decrement the value in register r8 by 1; the carry flag is kept.
pub fn dec_r8(r8: R8, cpu: &mut Cpu) -> (r: InstructionResult<Instruction>)
    requires
        old(cpu).registers.wf(),
    ensures
        final(cpu).registers.wf(),
        same_int_state(*old(cpu), *final(cpu)),
        ({
            let v = r8_of(old(cpu).registers, r8);
            final(cpu).registers == with_pc(
                with_flags(
                    set_r8_spec(old(cpu).registers, r8, sub8_sum(v, 1, 0)),
                    (Flags { carry: old(cpu).registers.flags.carry, ..sub8_flags(v, 1, 0) }),
                ),
                old(cpu).registers.pc.wrapping_add(1),
            )
        }),
        r == Ok::<Instruction, crate::errors::DecodeError>(
            (Instruction { mnemonic: Mnemonic::DEC, bytes: 1, cycles: 1 }),
        ),
{
    let v = cpu.registers.get_r8(r8);
    let (sum, f0) = sub8_with_flags(v, 1, 0);
    let f = Flags { carry: cpu.registers.flags.carry, ..f0 };
    cpu.registers.set_r8(r8, sum);
    cpu.registers.set_flags(f);
    cpu.registers.pc = cpu.registers.pc.wrapping_add(1);
    Ok(Instruction { mnemonic: Mnemonic::DEC, bytes: 1, cycles: 1 })
}

/// DEC [HL]: decrement the byte pointed to by HL by 1; the carry flag is
/// kept.
pub fn dec_hl(cpu: &mut Cpu, mem: &mut Memory) -> (r: InstructionResult<Instruction>)
    requires
        old(cpu).registers.wf(),
        old(mem).wf(),
    ensures
        final(cpu).registers.wf(),
        final(mem).wf(),
        same_int_state(*old(cpu), *final(cpu)),
        ({
            let v = read_spec(*old(mem), old(cpu).registers.hl as int);
            &&& write_rel(
                *old(mem),
                *final(mem),
                old(cpu).registers.hl as int,
                sub8_sum(v, 1, 0),
            )
            &&& final(cpu).registers == with_pc(
                with_flags(
                    old(cpu).registers,
                    (Flags { carry: old(cpu).registers.flags.carry, ..sub8_flags(v, 1, 0) }),
                ),
                old(cpu).registers.pc.wrapping_add(1),
            )
        }),
        r == Ok::<Instruction, crate::errors::DecodeError>(
            (Instruction { mnemonic: Mnemonic::DEC, bytes: 1, cycles: 3 }),
        ),
{
    let hl = cpu.registers.hl;
    let v = mem.read(hl as usize);
    let (sum, f0) = sub8_with_flags(v, 1, 0);
    let f = Flags { carry: cpu.registers.flags.carry, ..f0 };
    mem.write(hl as usize, sum);
    cpu.registers.set_flags(f);
    cpu.registers.pc = cpu.registers.pc.wrapping_add(1);
    Ok(Instruction { mnemonic: Mnemonic::DEC, bytes: 1, cycles: 3 })
}

/// INC r8: increment the value in register r8 by 1; the carry flag is kept.
pub fn inc_r8(r8: R8, cpu: &mut Cpu) -> (r: InstructionResult<Instruction>)
    requires
        old(cpu).registers.wf(),
    ensures
        final(cpu).registers.wf(),
        same_int_state(*old(cpu), *final(cpu)),
        ({
            let v = r8_of(old(cpu).registers, r8);
            final(cpu).registers == with_pc(
                with_flags(
                    set_r8_spec(old(cpu).registers, r8, add8_sum(v, 1, 0)),
                    (Flags { carry: old(cpu).registers.flags.carry, ..add8_flags(v, 1, 0) }),
                ),
                old(cpu).registers.pc.wrapping_add(1),
            )
        }),
        r == Ok::<Instruction, crate::errors::DecodeError>(
            (Instruction { mnemonic: Mnemonic::INC, bytes: 1, cycles: 1 }),
        ),
{
    let v = cpu.registers.get_r8(r8);
    let (sum, f0) = add8_with_flags(v, 1, 0);
    let f = Flags { carry: cpu.registers.flags.carry, ..f0 };
    cpu.registers.set_r8(r8, sum);
    cpu.registers.set_flags(f);
    cpu.registers.pc = cpu.registers.pc.wrapping_add(1);
    Ok(Instruction { mnemonic: Mnemonic::INC, bytes: 1, cycles: 1 })
}

/// INC [HL]: increment the byte pointed to by HL by 1; the carry flag is
/// kept.
pub fn inc_hl(cpu: &mut Cpu, mem: &mut Memory) -> (r: InstructionResult<Instruction>)
    requires
        old(cpu).registers.wf(),
        old(mem).wf(),
    ensures
        final(cpu).registers.wf(),
        final(mem).wf(),
        same_int_state(*old(cpu), *final(cpu)),
        ({
            let v = read_spec(*old(mem), old(cpu).registers.hl as int);
            &&& write_rel(
                *old(mem),
                *final(mem),
                old(cpu).registers.hl as int,
                add8_sum(v, 1, 0),
            )
            &&& final(cpu).registers == with_pc(
                with_flags(
                    old(cpu).registers,
                    (Flags { carry: old(cpu).registers.flags.carry, ..add8_flags(v, 1, 0) }),
                ),
                old(cpu).registers.pc.wrapping_add(1),
            )
        }),
        r == Ok::<Instruction, crate::errors::DecodeError>(
            (Instruction { mnemonic: Mnemonic::INC, bytes: 1, cycles: 3 }),
        ),
{
    let hl = cpu.registers.hl;
    let v = mem.read(hl as usize);
    let (sum, f0) = add8_with_flags(v, 1, 0);
    let f = Flags { carry: cpu.registers.flags.carry, ..f0 };
    mem.write(hl as usize, sum);
    cpu.registers.set_flags(f);
    cpu.registers.pc = cpu.registers.pc.wrapping_add(1);
    Ok(Instruction { mnemonic: Mnemonic::INC, bytes: 1, cycles: 3 })
}

/// SBC A,r8: subtract the value in r8 and the carry flag from A.
pub fn sbc_a_r8(r8: R8, cpu: &mut Cpu) -> (r: InstructionResult<Instruction>)
    requires
        old(cpu).registers.wf(),
    ensures
        final(cpu).registers.wf(),
        same_int_state(*old(cpu), *final(cpu)),
        ({
            let a = old(cpu).registers.a;
            let b = r8_of(old(cpu).registers, r8);
            let c: u8 = if old(cpu).registers.flags.carry {
                1u8
            } else {
                0u8
            };
            final(cpu).registers == with_pc(
                with_flags(
                    set_r8_spec(old(cpu).registers, R8::A, sub8_sum(a, b, c)),
                    sub8_flags(a, b, c),
                ),
                old(cpu).registers.pc.wrapping_add(1),
            )
        }),
        r == Ok::<Instruction, crate::errors::DecodeError>(
            (Instruction { mnemonic: Mnemonic::SBC, bytes: 1, cycles: 1 }),
        ),
{
    let a = cpu.registers.a;
    let b = cpu.registers.get_r8(r8);
    let c: u8 = if cpu.registers.flags.carry {
        1
    } else {
        0
    };
    let (sum, f) = sub8_with_flags(a, b, c);
    cpu.registers.set_r8(R8::A, sum);
    cpu.registers.set_flags(f);
    cpu.registers.pc = cpu.registers.pc.wrapping_add(1);
    Ok(Instruction { mnemonic: Mnemonic::SBC, bytes: 1, cycles: 1 })
}

/// SBC A,[HL]: subtract the byte pointed to by HL and the carry flag from A.
pub fn sbc_a_immed_hl(cpu: &mut Cpu, mem: &mut Memory) -> (r: InstructionResult<Instruction>)
    requires
        old(cpu).registers.wf(),
        old(mem).wf(),
    ensures
        final(cpu).registers.wf(),
        *final(mem) == *old(mem),
        same_int_state(*old(cpu), *final(cpu)),
        ({
            let a = old(cpu).registers.a;
            let b = read_spec(*old(mem), old(cpu).registers.hl as int);
            let c: u8 = if old(cpu).registers.flags.carry {
                1u8
            } else {
                0u8
            };
            final(cpu).registers == with_pc(
                with_flags(
                    set_r8_spec(old(cpu).registers, R8::A, sub8_sum(a, b, c)),
                    sub8_flags(a, b, c),
                ),
                old(cpu).registers.pc.wrapping_add(1),
            )
        }),
        r == Ok::<Instruction, crate::errors::DecodeError>(
            (Instruction { mnemonic: Mnemonic::SBC, bytes: 1, cycles: 2 }),
        ),
{
    let a = cpu.registers.a;
    let hl = cpu.registers.hl;
    let b = mem.read(hl as usize);
    let c: u8 = if cpu.registers.flags.carry {
        1
    } else {
        0
    };
    let (sum, f) = sub8_with_flags(a, b, c);
    cpu.registers.set_r8(R8::A, sum);
    cpu.registers.set_flags(f);
    cpu.registers.pc = cpu.registers.pc.wrapping_add(1);
    Ok(Instruction { mnemonic: Mnemonic::SBC, bytes: 1, cycles: 2 })
}

/// SBC A,n8: subtract the value n8 and the carry flag from A.
pub fn sbc_a_n8(n8: u8, cpu: &mut Cpu) -> (r: InstructionResult<Instruction>)
    requires
        old(cpu).registers.wf(),
    ensures
        final(cpu).registers.wf(),
        same_int_state(*old(cpu), *final(cpu)),
        ({
            let a = old(cpu).registers.a;
            let c: u8 = if old(cpu).registers.flags.carry {
                1u8
            } else {
                0u8
            };
            final(cpu).registers == with_pc(
                with_flags(
                    set_r8_spec(old(cpu).registers, R8::A, sub8_sum(a, n8, c)),
                    sub8_flags(a, n8, c),
                ),
                old(cpu).registers.pc.wrapping_add(2),
            )
        }),
        r == Ok::<Instruction, crate::errors::DecodeError>(
            (Instruction { mnemonic: Mnemonic::SBC, bytes: 2, cycles: 2 }),
        ),
{
    let a = cpu.registers.a;
    let c: u8 = if cpu.registers.flags.carry {
        1
    } else {
        0
    };
    let (sum, f) = sub8_with_flags(a, n8, c);
    cpu.registers.set_r8(R8::A, sum);
    cpu.registers.set_flags(f);
    cpu.registers.pc = cpu.registers.pc.wrapping_add(2);
    Ok(Instruction { mnemonic: Mnemonic::SBC, bytes: 2, cycles: 2 })
}

/// SUB A,r8: subtract the value in r8 from A.
pub fn sub_a_r8(r8: R8, cpu: &mut Cpu) -> (r: InstructionResult<Instruction>)
    requires
        old(cpu).registers.wf(),
    ensures
        final(cpu).registers.wf(),
        same_int_state(*old(cpu), *final(cpu)),
        ({
            let a = old(cpu).registers.a;
            let b = r8_of(old(cpu).registers, r8);
            final(cpu).registers == with_pc(
                with_flags(
                    set_r8_spec(old(cpu).registers, R8::A, sub8_sum(a, b, 0)),
                    sub8_flags(a, b, 0),
                ),
                old(cpu).registers.pc.wrapping_add(1),
            )
        }),
        r == Ok::<Instruction, crate::errors::DecodeError>(
            (Instruction { mnemonic: Mnemonic::SUB, bytes: 1, cycles: 1 }),
        ),
{
    let a = cpu.registers.a;
    let b = cpu.registers.get_r8(r8);
    let (sum, f) = sub8_with_flags(a, b, 0);
    cpu.registers.set_r8(R8::A, sum);
    cpu.registers.set_flags(f);
    cpu.registers.pc = cpu.registers.pc.wrapping_add(1);
    Ok(Instruction { mnemonic: Mnemonic::SUB, bytes: 1, cycles: 1 })
}

/// SUB A,[HL]: subtract the byte pointed to by HL from A.
pub fn sub_a_immed_hl(cpu: &mut Cpu, mem: &mut Memory) -> (r: InstructionResult<Instruction>)
    requires
        old(cpu).registers.wf(),
        old(mem).wf(),
    ensures
        final(cpu).registers.wf(),
        *final(mem) == *old(mem),
        same_int_state(*old(cpu), *final(cpu)),
        ({
            let a = old(cpu).registers.a;
            let b = read_spec(*old(mem), old(cpu).registers.hl as int);
            final(cpu).registers == with_pc(
                with_flags(
                    set_r8_spec(old(cpu).registers, R8::A, sub8_sum(a, b, 0)),
                    sub8_flags(a, b, 0),
                ),
                old(cpu).registers.pc.wrapping_add(1),
            )
        }),
        r == Ok::<Instruction, crate::errors::DecodeError>(
            (Instruction { mnemonic: Mnemonic::SUB, bytes: 1, cycles: 2 }),
        ),
{
    let a = cpu.registers.a;
    let hl = cpu.registers.hl;
    let b = mem.read(hl as usize);
    let (sum, f) = sub8_with_flags(a, b, 0);
    cpu.registers.set_r8(R8::A, sum);
    cpu.registers.set_flags(f);
    cpu.registers.pc = cpu.registers.pc.wrapping_add(1);
    Ok(Instruction { mnemonic: Mnemonic::SUB, bytes: 1, cycles: 2 })
}

/// SUB A,n8: subtract the value n8 from A.
pub fn sub_a_n8(n8: u8, cpu: &mut Cpu) -> (r: InstructionResult<Instruction>)
    requires
        old(cpu).registers.wf(),
    ensures
        final(cpu).registers.wf(),
        same_int_state(*old(cpu), *final(cpu)),
        ({
            let a = old(cpu).registers.a;
            final(cpu).registers == with_pc(
                with_flags(
                    set_r8_spec(old(cpu).registers, R8::A, sub8_sum(a, n8, 0)),
                    sub8_flags(a, n8, 0),
                ),
                old(cpu).registers.pc.wrapping_add(2),
            )
        }),
        r == Ok::<Instruction, crate::errors::DecodeError>(
            (Instruction { mnemonic: Mnemonic::SUB, bytes: 2, cycles: 2 }),
        ),
{
    let a = cpu.registers.a;
    let (sum, f) = sub8_with_flags(a, n8, 0);
    cpu.registers.set_r8(R8::A, sum);
    cpu.registers.set_flags(f);
    cpu.registers.pc = cpu.registers.pc.wrapping_add(2);
    Ok(Instruction { mnemonic: Mnemonic::SUB, bytes: 2, cycles: 2 })
}

} // verus!
