use vstd::prelude::*;

use crate::cpu::{r8_of, same_int_state, set_r8_spec, with_flags, with_pc, Cpu, Flags, R8};
use crate::memory::{read_spec, write_rel, Memory};
use crate::Mnemonic;

use super::{Instruction, InstructionResult};

verus! {

/// The flags of a BIT test on a byte: Z set when the tested bit is clear,
/// N clear, H set, C kept.
pub open spec fn bit_flags_spec(byte: u8, u3: u8, carry: bool) -> Flags {
    Flags { zero: (byte >> u3) & 1 == 0, subtraction: false, half_carry: true, carry }
}

/// BIT u3,r8: test bit u3 in register r8; the zero flag is set when the bit
/// is clear.
pub fn bit_u3_r8(u3: u8, r8: R8, cpu: &mut Cpu) -> (r: InstructionResult<Instruction>)
    requires
        u3 <= 7,
        old(cpu).registers.wf(),
    ensures
        final(cpu).registers.wf(),
        same_int_state(*old(cpu), *final(cpu)),
        final(cpu).registers == with_pc(
            with_flags(
                old(cpu).registers,
                bit_flags_spec(
                    r8_of(old(cpu).registers, r8),
                    u3,
                    old(cpu).registers.flags.carry,
                ),
            ),
            old(cpu).registers.pc.wrapping_add(2),
        ),
        r == Ok::<Instruction, crate::errors::DecodeError>(
            (Instruction { mnemonic: Mnemonic::BIT, bytes: 2, cycles: 2 }),
        ),
{
    let v = cpu.registers.get_r8(r8);
    let bit = (v >> u3) & 1;
    let f = Flags {
        zero: bit == 0,
        subtraction: false,
        half_carry: true,
        carry: cpu.registers.flags.carry,
    };
    cpu.registers.set_flags(f);
    cpu.registers.pc = cpu.registers.pc.wrapping_add(2);
    Ok(Instruction { mnemonic: Mnemonic::BIT, bytes: 2, cycles: 2 })
}

/// BIT u3,[HL]: test bit u3 in the byte pointed to by HL.
pub fn bit_u3_hl(u3: u8, cpu: &mut Cpu, mem: &mut Memory) -> (r: InstructionResult<Instruction>)
    requires
        u3 <= 7,
        old(cpu).registers.wf(),
        old(mem).wf(),
    ensures
        final(cpu).registers.wf(),
        *final(mem) == *old(mem),
        same_int_state(*old(cpu), *final(cpu)),
        final(cpu).registers == with_pc(
            with_flags(
                old(cpu).registers,
                bit_flags_spec(
                    read_spec(*old(mem), old(cpu).registers.hl as int),
                    u3,
                    old(cpu).registers.flags.carry,
                ),
            ),
            old(cpu).registers.pc.wrapping_add(2),
        ),
        r == Ok::<Instruction, crate::errors::DecodeError>(
            (Instruction { mnemonic: Mnemonic::BIT, bytes: 2, cycles: 3 }),
        ),
{
    let hl = cpu.registers.hl;
    let v = mem.read(hl as usize);
    let bit = (v >> u3) & 1;
    let f = Flags {
        zero: bit == 0,
        subtraction: false,
        half_carry: true,
        carry: cpu.registers.flags.carry,
    };
    cpu.registers.set_flags(f);
    cpu.registers.pc = cpu.registers.pc.wrapping_add(2);
    Ok(Instruction { mnemonic: Mnemonic::BIT, bytes: 2, cycles: 3 })
}

/// RES u3,r8: clear bit u3 in register r8; no flags change.
pub fn res_u3_r8(u3: u8, r8: R8, cpu: &mut Cpu) -> (r: InstructionResult<Instruction>)
    requires
        u3 <= 7,
        old(cpu).registers.wf(),
    ensures
        final(cpu).registers.wf(),
        same_int_state(*old(cpu), *final(cpu)),
        final(cpu).registers == with_pc(
            set_r8_spec(old(cpu).registers, r8, r8_of(old(cpu).registers, r8) & !(1u8 << u3)),
            old(cpu).registers.pc.wrapping_add(2),
        ),
        r == Ok::<Instruction, crate::errors::DecodeError>(
            (Instruction { mnemonic: Mnemonic::RES, bytes: 2, cycles: 2 }),
        ),
{
    let v = cpu.registers.get_r8(r8);
    cpu.registers.set_r8(r8, v & !(1u8 << u3));
    cpu.registers.pc = cpu.registers.pc.wrapping_add(2);
    Ok(Instruction { mnemonic: Mnemonic::RES, bytes: 2, cycles: 2 })
}

/// RES u3,[HL]: clear bit u3 in the byte pointed to by HL; no flags change.
pub fn res_u3_hl(u3: u8, cpu: &mut Cpu, mem: &mut Memory) -> (r: InstructionResult<Instruction>)
    requires
        u3 <= 7,
        old(cpu).registers.wf(),
        old(mem).wf(),
    ensures
        final(cpu).registers.wf(),
        final(mem).wf(),
        same_int_state(*old(cpu), *final(cpu)),
        write_rel(
            *old(mem),
            *final(mem),
            old(cpu).registers.hl as int,
            read_spec(*old(mem), old(cpu).registers.hl as int) & !(1u8 << u3),
        ),
        final(cpu).registers == with_pc(
            old(cpu).registers,
            old(cpu).registers.pc.wrapping_add(2),
        ),
        r == Ok::<Instruction, crate::errors::DecodeError>(
            (Instruction { mnemonic: Mnemonic::RES, bytes: 2, cycles: 4 }),
        ),
{
    let hl = cpu.registers.hl;
    let v = mem.read(hl as usize);
    mem.write(hl as usize, v & !(1u8 << u3));
    cpu.registers.pc = cpu.registers.pc.wrapping_add(2);
    Ok(Instruction { mnemonic: Mnemonic::RES, bytes: 2, cycles: 4 })
}

/// SET u3,r8: set bit u3 in register r8 to 1; no flags change.
pub fn set_u3_r8(u3: u8, r8: R8, cpu: &mut Cpu) -> (r: InstructionResult<Instruction>)
    requires
        u3 <= 7,
        old(cpu).registers.wf(),
    ensures
        final(cpu).registers.wf(),
        same_int_state(*old(cpu), *final(cpu)),
        final(cpu).registers == with_pc(
            set_r8_spec(old(cpu).registers, r8, r8_of(old(cpu).registers, r8) | (1u8 << u3)),
            old(cpu).registers.pc.wrapping_add(2),
        ),
        r == Ok::<Instruction, crate::errors::DecodeError>(
            (Instruction { mnemonic: Mnemonic::SET, bytes: 2, cycles: 2 }),
        ),
{
    let v = cpu.registers.get_r8(r8);
    cpu.registers.set_r8(r8, v | (1u8 << u3));
    cpu.registers.pc = cpu.registers.pc.wrapping_add(2);
    Ok(Instruction { mnemonic: Mnemonic::SET, bytes: 2, cycles: 2 })
}

/// SET u3,[HL]: set bit u3 in the byte pointed to by HL to 1; no flags
/// change.
pub fn set_u3_hl(u3: u8, cpu: &mut Cpu, mem: &mut Memory) -> (r: InstructionResult<Instruction>)
    requires
        u3 <= 7,
        old(cpu).registers.wf(),
        old(mem).wf(),
    ensures
        final(cpu).registers.wf(),
        final(mem).wf(),
        same_int_state(*old(cpu), *final(cpu)),
        write_rel(
            *old(mem),
            *final(mem),
            old(cpu).registers.hl as int,
            read_spec(*old(mem), old(cpu).registers.hl as int) | (1u8 << u3),
        ),
        final(cpu).registers == with_pc(
            old(cpu).registers,
            old(cpu).registers.pc.wrapping_add(2),
        ),
        r == Ok::<Instruction, crate::errors::DecodeError>(
            (Instruction { mnemonic: Mnemonic::SET, bytes: 2, cycles: 4 }),
        ),
{
    let hl = cpu.registers.hl;
    let v = mem.read(hl as usize);
    mem.write(hl as usize, v | (1u8 << u3));
    cpu.registers.pc = cpu.registers.pc.wrapping_add(2);
    Ok(Instruction { mnemonic: Mnemonic::SET, bytes: 2, cycles: 4 })
}

} // verus!
