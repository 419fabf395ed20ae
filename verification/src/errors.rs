use vstd::prelude::*;

use crate::interrupts::Interrupt;

verus! {

/// Failures of the instruction decoder.
#[derive(Debug, Copy, Clone)]
pub enum DecodeError {
    InvalidOpcodeByte(u8),
    MissingDataByte,
    MissingOffsetByte,
}

/// Failures of the joypad register decoder.
#[derive(Debug)]
pub enum JoypadError {
    InvalidRegisterValue(u8, String),
}

/// Failures at the system level. An illegal instruction carries the
/// offending opcode byte and the program counter it was fetched from.
#[derive(Debug, Copy, Clone)]
pub enum SystemError {
    InterruptHandlerError(Interrupt, u16),
    TimerControlError,
    CartridgeError,
    IllegalInstruction(u8, u16),
}

/// Failures of the CPU fetch/execute step. An illegal opcode carries the
/// offending byte and the program counter it was fetched from.
#[derive(Debug, Copy, Clone)]
pub enum CpuError {
    MissingOpcodeByte,
    NoCycles,
    IllegalOpcode(u8, u16),
}

/// Failures while parsing a cartridge header.
#[derive(Debug, Copy, Clone)]
pub enum CartridgeError {
    InvalidHardware(u8),
    InvalidRamSize(u8),
    InvalidRomSize(u8),
    Truncated,
}

} // verus!
