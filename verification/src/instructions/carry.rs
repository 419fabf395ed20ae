use vstd::prelude::*;

use crate::cpu::{same_int_state, with_flags, with_pc, Cpu, Flags};
use crate::Mnemonic;

use super::{Instruction, InstructionResult};

verus! {

/// CCF: complement the carry flag; N and H clear, Z is kept.
pub fn ccf(cpu: &mut Cpu) -> (r: InstructionResult<Instruction>)
    requires
        old(cpu).registers.wf(),
    ensures
        final(cpu).registers.wf(),
        same_int_state(*old(cpu), *final(cpu)),
        final(cpu).registers == with_pc(
            with_flags(
                old(cpu).registers,
                (Flags {
                    zero: old(cpu).registers.flags.zero,
                    subtraction: false,
                    half_carry: false,
                    carry: !old(cpu).registers.flags.carry,
                }),
            ),
            old(cpu).registers.pc.wrapping_add(1),
        ),
        r == Ok::<Instruction, crate::errors::DecodeError>(
            (Instruction { mnemonic: Mnemonic::CCF, bytes: 1, cycles: 1 }),
        ),
{
    let f = Flags {
        zero: cpu.registers.flags.zero,
        subtraction: false,
        half_carry: false,
        carry: !cpu.registers.flags.carry,
    };
    cpu.registers.set_flags(f);
    cpu.registers.pc = cpu.registers.pc.wrapping_add(1);
    Ok(Instruction { mnemonic: Mnemonic::CCF, bytes: 1, cycles: 1 })
}

/// SCF: set the carry flag; N and H clear, Z is kept.
pub fn scf(cpu: &mut Cpu) -> (r: InstructionResult<Instruction>)
    requires
        old(cpu).registers.wf(),
    ensures
        final(cpu).registers.wf(),
        same_int_state(*old(cpu), *final(cpu)),
        final(cpu).registers == with_pc(
            with_flags(
                old(cpu).registers,
                (Flags {
                    zero: old(cpu).registers.flags.zero,
                    subtraction: false,
                    half_carry: false,
                    carry: true,
                }),
            ),
            old(cpu).registers.pc.wrapping_add(1),
        ),
        r == Ok::<Instruction, crate::errors::DecodeError>(
            (Instruction { mnemonic: Mnemonic::SCF, bytes: 1, cycles: 1 }),
        ),
{
    let f = Flags {
        zero: cpu.registers.flags.zero,
        subtraction: false,
        half_carry: false,
        carry: true,
    };
    cpu.registers.set_flags(f);
    cpu.registers.pc = cpu.registers.pc.wrapping_add(1);
    Ok(Instruction { mnemonic: Mnemonic::SCF, bytes: 1, cycles: 1 })
}

} // verus!
