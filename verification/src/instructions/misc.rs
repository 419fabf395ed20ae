use vstd::prelude::*;

use crate::cpu::{same_int_state, set_r8_spec, with_flags, with_pc, Cpu, Flags, R8};
use crate::memory::registers::DIV;
use crate::memory::{write_rel, Memory};
use crate::Mnemonic;

use super::{add8_sum, sub8_sum, Instruction, InstructionResult};

verus! {

/// The DAA adjustment: 0x06 for a low-nibble carry or an out-of-range low
/// nibble after an add, 0x60 for a carry or an out-of-range byte after an
/// add; after a subtract only the recorded carries count.
pub open spec fn daa_adjust(a: u8, f: Flags) -> u8 {
    if !f.subtraction {
        ((if f.half_carry || a % 16 > 9 {
            0x06int
        } else {
            0
        }) + (if f.carry || a > 0x99 {
            0x60int
        } else {
            0
        })) as u8
    } else {
        ((if f.half_carry {
            0x06int
        } else {
            0
        }) + (if f.carry {
            0x60int
        } else {
            0
        })) as u8
    }
}

/// The accumulator after DAA: the adjustment is added after an add and
/// subtracted after a subtract.
pub open spec fn daa_a(a: u8, f: Flags) -> u8 {
    if !f.subtraction {
        add8_sum(a, daa_adjust(a, f), 0)
    } else {
        sub8_sum(a, daa_adjust(a, f), 0)
    }
}

/// The flags after DAA: Z from the adjusted accumulator, N kept, H cleared,
/// C set when it was set or an add overflowed the BCD range.
pub open spec fn daa_flags(a: u8, f: Flags) -> Flags {
    Flags {
        zero: daa_a(a, f) == 0,
        subtraction: f.subtraction,
        half_carry: false,
        carry: f.carry || (!f.subtraction && a > 0x99),
    }
}

/// DAA: adjust the accumulator to binary-coded decimal after an 8-bit add
/// or subtract of BCD operands.
pub fn daa(cpu: &mut Cpu) -> (r: InstructionResult<Instruction>)
    requires
        old(cpu).registers.wf(),
    ensures
        final(cpu).registers.wf(),
        same_int_state(*old(cpu), *final(cpu)),
        final(cpu).registers == with_pc(
            with_flags(
                set_r8_spec(
                    old(cpu).registers,
                    R8::A,
                    daa_a(old(cpu).registers.a, old(cpu).registers.flags),
                ),
                daa_flags(old(cpu).registers.a, old(cpu).registers.flags),
            ),
            old(cpu).registers.pc.wrapping_add(1),
        ),
        r == Ok::<Instruction, crate::errors::DecodeError>(
            (Instruction { mnemonic: Mnemonic::DAA, bytes: 1, cycles: 1 }),
        ),
{
    let a = cpu.registers.a;
    let f = cpu.registers.flags;
    let mut adjust: u8 = 0;
    let mut carry_out: bool = f.carry;
    if !f.subtraction {
        if f.half_carry || a % 16 > 9 {
            adjust = adjust + 0x06;
        }
        if f.carry || a > 0x99 {
            adjust = adjust + 0x60;
            carry_out = true;
        }
    } else {
        if f.half_carry {
            adjust = adjust + 0x06;
        }
        if f.carry {
            adjust = adjust + 0x60;
        }
    }
    let new_a: u8 = if !f.subtraction {
        let s: u16 = a as u16 + adjust as u16;
        (s % 256) as u8
    } else {
        if a >= adjust {
            a - adjust
        } else {
            ((a as u16 + 256) - adjust as u16) as u8
        }
    };
    cpu.registers.set_r8(R8::A, new_a);
    let nf = Flags {
        zero: new_a == 0,
        subtraction: f.subtraction,
        half_carry: false,
        carry: carry_out,
    };
    cpu.registers.set_flags(nf);
    cpu.registers.pc = cpu.registers.pc.wrapping_add(1);
    Ok(Instruction { mnemonic: Mnemonic::DAA, bytes: 1, cycles: 1 })
}

/// NOP: no operation; only the program counter moves.
pub fn nop(cpu: &mut Cpu) -> (r: InstructionResult<Instruction>)
    requires
        old(cpu).registers.wf(),
    ensures
        final(cpu).registers.wf(),
        same_int_state(*old(cpu), *final(cpu)),
        final(cpu).registers == with_pc(
            old(cpu).registers,
            old(cpu).registers.pc.wrapping_add(1),
        ),
        r == Ok::<Instruction, crate::errors::DecodeError>(
            (Instruction { mnemonic: Mnemonic::NOP, bytes: 1, cycles: 1 }),
        ),
{
    cpu.registers.pc = cpu.registers.pc.wrapping_add(1);
    Ok(Instruction { mnemonic: Mnemonic::NOP, bytes: 1, cycles: 1 })
}

/// STOP: reset the divider, as a bus write to DIV does, and enter the
/// stopped state, which holds the processor until a button wakes it.
pub fn stop(cpu: &mut Cpu, mem: &mut Memory) -> (r: InstructionResult<Instruction>)
    requires
        old(cpu).registers.wf(),
        old(mem).wf(),
    ensures
        final(cpu).registers.wf(),
        final(mem).wf(),
        write_rel(*old(mem), *final(mem), DIV as int, 0),
        *final(cpu) == (Cpu {
            stopped: true,
            registers: with_pc(old(cpu).registers, old(cpu).registers.pc.wrapping_add(2)),
            ..*old(cpu)
        }),
        r == Ok::<Instruction, crate::errors::DecodeError>(
            (Instruction { mnemonic: Mnemonic::STOP, bytes: 2, cycles: 1 }),
        ),
{
    mem.write(DIV, 0);
    cpu.stopped = true;
    cpu.registers.pc = cpu.registers.pc.wrapping_add(2);
    Ok(Instruction { mnemonic: Mnemonic::STOP, bytes: 2, cycles: 1 })
}

} // verus!
