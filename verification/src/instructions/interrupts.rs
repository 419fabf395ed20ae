use vstd::prelude::*;

use crate::cpu::{ime_commit_spec, with_pc, Cpu};
use crate::Mnemonic;

use super::{Instruction, InstructionResult};

verus! {

/// The processor state after DI: the master enable and any pending EI are
/// cleared at once.
pub open spec fn di_spec(c: Cpu) -> Cpu {
    Cpu {
        ime: false,
        ime_pending: false,
        registers: with_pc(c.registers, c.registers.pc.wrapping_add(1)),
        ..c
    }
}

/// The processor state after EI: the master enable is only scheduled; it is
/// committed after the next instruction.
pub open spec fn ei_spec(c: Cpu) -> Cpu {
    Cpu { ime_pending: true, registers: with_pc(c.registers, c.registers.pc.wrapping_add(1)), ..c }
}

/// The processor state after an instruction that only moves the program
/// counter, such as NOP.
pub open spec fn nop_spec(c: Cpu) -> Cpu {
    Cpu { registers: with_pc(c.registers, c.registers.pc.wrapping_add(1)), ..c }
}

/// DI: disable interrupts by clearing the IME flag, cancelling a pending EI.
pub fn di(cpu: &mut Cpu) -> (r: InstructionResult<Instruction>)
    requires
        old(cpu).registers.wf(),
    ensures
        final(cpu).registers.wf(),
        *final(cpu) == di_spec(*old(cpu)),
        r == Ok::<Instruction, crate::errors::DecodeError>(
            (Instruction { mnemonic: Mnemonic::DI, bytes: 1, cycles: 1 }),
        ),
{
    cpu.ime = false;
    cpu.ime_pending = false;
    cpu.registers.pc = cpu.registers.pc.wrapping_add(1);
    Ok(Instruction { mnemonic: Mnemonic::DI, bytes: 1, cycles: 1 })
}

/// EI: enable interrupts with a one-instruction delay; the IME flag itself
/// is set only after the instruction that follows EI.
pub fn ei(cpu: &mut Cpu) -> (r: InstructionResult<Instruction>)
    requires
        old(cpu).registers.wf(),
    ensures
        final(cpu).registers.wf(),
        *final(cpu) == ei_spec(*old(cpu)),
        r == Ok::<Instruction, crate::errors::DecodeError>(
            (Instruction { mnemonic: Mnemonic::EI, bytes: 1, cycles: 1 }),
        ),
{
    cpu.ime_pending = true;
    cpu.registers.pc = cpu.registers.pc.wrapping_add(1);
    Ok(Instruction { mnemonic: Mnemonic::EI, bytes: 1, cycles: 1 })
}

/// HALT: wait for an interrupt. With IME clear and an interrupt already
/// pending the processor does not halt at all, by the documented hardware
/// bug, and the fetch of the next instruction re-reads its first byte: the
/// `halt_bug` latch makes that fetch consume the byte after HALT twice,
/// advancing PC past it only once.
pub fn halt(cpu: &mut Cpu, pending: bool) -> (r: InstructionResult<Instruction>)
    requires
        old(cpu).registers.wf(),
    ensures
        *final(cpu) == halt_spec(*old(cpu), pending),
        final(cpu).registers.wf(),
        r == Ok::<Instruction, crate::errors::DecodeError>(
            (Instruction { mnemonic: Mnemonic::HALT, bytes: 1, cycles: 1 }),
        ),
{
    if cpu.ime || !pending {
        cpu.halted = true;
    } else {
        cpu.halt_bug = true;
    }
    cpu.registers.pc = cpu.registers.pc.wrapping_add(1);
    Ok(Instruction { mnemonic: Mnemonic::HALT, bytes: 1, cycles: 1 })
}

/// Whether HALT actually halts: always, except with the master enable clear
/// and an interrupt already pending.
pub open spec fn cpu_will_halt(c: Cpu, pending: bool) -> bool {
    c.ime || !pending
}

/// The processor state after HALT: PC moves past the HALT byte; either the
/// processor halts, or, in the bug case, the halt-bug latch is set instead.
pub open spec fn halt_spec(c: Cpu, pending: bool) -> Cpu {
    Cpu {
        registers: with_pc(c.registers, c.registers.pc.wrapping_add(1)),
        halted: c.halted || cpu_will_halt(c, pending),
        halt_bug: c.halt_bug || !cpu_will_halt(c, pending),
        ..c
    }
}

/// EI, then NOP, then DI leaves the master enable clear: EI only schedules
/// the enable, the commit after NOP turns it on, and DI turns it off again,
/// so no interrupt window survives the sequence.
pub proof fn lemma_ei_nop_di_leaves_ime_clear(c0: Cpu)
    ensures
        ({
            let s1 = ime_commit_spec(ei_spec(c0), c0.ime_pending);
            let s2 = ime_commit_spec(nop_spec(s1), s1.ime_pending);
            let s3 = ime_commit_spec(di_spec(s2), s2.ime_pending);
            !s3.ime && !s3.ime_pending
        }),
{
}

/// EI enables with a delay: from a state with the master enable off and no
/// enable already pending, the commit right after EI itself still leaves the
/// master enable off; the instruction after EI runs without interrupts.
pub proof fn lemma_ei_delays_one_instruction(c0: Cpu)
    requires
        !c0.ime,
        !c0.ime_pending,
    ensures
        !ime_commit_spec(ei_spec(c0), c0.ime_pending).ime,
{
}

} // verus!
