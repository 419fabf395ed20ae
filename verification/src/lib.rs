use vstd::prelude::*;

pub mod cartridge;
pub mod clock;
pub mod cpu;
pub mod display;
pub mod io;
pub mod errors;
pub mod interrupts;
pub mod memory;
pub mod system;

pub mod instructions;

verus! {

/// The instruction mnemonics of the processor.
#[derive(Debug, PartialEq, Eq, Structural, Copy, Clone)]
pub enum Mnemonic {
    PREFIX,
    LD,
    LDH,
    ADC,
    ADD,
    CP,
    DEC,
    INC,
    SBC,
    SUB,
    AND,
    CPL,
    OR,
    XOR,
    BIT,
    RES,
    SET,
    RL,
    RLA,
    RLC,
    RLCA,
    RR,
    RRA,
    RRC,
    RRCA,
    SLA,
    SRA,
    SRL,
    SWAP,
    CALL,
    JP,
    JR,
    RET,
    RETI,
    RST,
    CCF,
    SCF,
    POP,
    PUSH,
    DI,
    EI,
    HALT,
    DAA,
    NOP,
    STOP,
}

/// Split a 16-bit value into its high and low bytes, high first.
pub fn extract_bytes(value: u16) -> (r: (u8, u8))
    ensures
        r.0 == value / 256,
        r.1 == value % 256,
{
    let lsb = (value % 256) as u8;
    let msb = (value / 256) as u8;
    (msb, lsb)
}

/// Read the signed byte at `pos`; past the end it is `MissingDataByte`.
pub fn get_i8(bytes: &Vec<u8>, pos: usize) -> (r: instructions::InstructionResult<i8>)
    ensures
        pos < bytes.len() ==> r == Ok::<i8, errors::DecodeError>(bytes[pos as int] as i8),
        pos >= bytes.len() ==> r == Err::<i8, errors::DecodeError>(
            errors::DecodeError::MissingDataByte,
        ),
{
    if pos < bytes.len() {
        Ok(bytes[pos] as i8)
    } else {
        Err(errors::DecodeError::MissingDataByte)
    }
}

/// Read the byte at `pos`; past the end it is `MissingDataByte`.
pub fn get_u8(bytes: &Vec<u8>, pos: usize) -> (r: instructions::InstructionResult<u8>)
    ensures
        pos < bytes.len() ==> r == Ok::<u8, errors::DecodeError>(bytes[pos as int]),
        pos >= bytes.len() ==> r == Err::<u8, errors::DecodeError>(
            errors::DecodeError::MissingDataByte,
        ),
{
    if pos < bytes.len() {
        Ok(bytes[pos])
    } else {
        Err(errors::DecodeError::MissingDataByte)
    }
}

/// The little-endian 16-bit value at `pos`.
pub open spec fn le16_at(bytes: Seq<u8>, pos: int) -> u16 {
    (bytes[pos] + bytes[pos + 1] * 256) as u16
}

/// Read the little-endian signed 16-bit value at `pos`; a missing byte is
/// `MissingDataByte`.
pub fn get_i16(bytes: &Vec<u8>, pos: usize) -> (r: instructions::InstructionResult<i16>)
    ensures
        pos + 1 < bytes.len() ==> r == Ok::<i16, errors::DecodeError>(
            le16_at(bytes@, pos as int) as i16,
        ),
        pos + 1 >= bytes.len() ==> r == Err::<i16, errors::DecodeError>(
            errors::DecodeError::MissingDataByte,
        ),
{
    if pos < bytes.len() && pos + 1 < bytes.len() {
        let lo = bytes[pos];
        let hi = bytes[pos + 1];
        let v: u16 = (lo as u16) + (hi as u16) * 256;
        Ok(v as i16)
    } else {
        Err(errors::DecodeError::MissingDataByte)
    }
}

/// Read the little-endian 16-bit value at `pos`; a missing byte is
/// `MissingDataByte`.
pub fn get_u16(bytes: &Vec<u8>, pos: usize) -> (r: instructions::InstructionResult<u16>)
    ensures
        pos + 1 < bytes.len() ==> r == Ok::<u16, errors::DecodeError>(le16_at(bytes@, pos as int)),
        pos + 1 >= bytes.len() ==> r == Err::<u16, errors::DecodeError>(
            errors::DecodeError::MissingDataByte,
        ),
{
    if pos < bytes.len() && pos + 1 < bytes.len() {
        let lo = bytes[pos];
        let hi = bytes[pos + 1];
        Ok((lo as u16) + (hi as u16) * 256)
    } else {
        Err(errors::DecodeError::MissingDataByte)
    }
}

/// The four shades of the display, lightest to darkest, as grey levels.
pub open spec fn palette_spec(shade: u8) -> u8 {
    if shade == 0 {
        255
    } else if shade == 1 {
        170
    } else if shade == 2 {
        85
    } else {
        0
    }
}

/// Map a 2-bit colour index to its grey level.
pub fn palette(shade: u8) -> (r: u8)
    ensures
        r == palette_spec(shade),
{
    if shade == 0 {
        255
    } else if shade == 1 {
        170
    } else if shade == 2 {
        85
    } else {
        0
    }
}

/// The 2-bit colour index of a tile pixel: row `i`, bit `j`; even bytes hold
/// the low bit of each pixel, odd bytes the high bit.
pub open spec fn tile_pixel(t: Seq<u8>, i: int, j: int) -> u8 {
    ((t[2 * i] >> (j as u8)) & 1) | (((t[2 * i + 1] >> (j as u8)) & 1) << 1)
}

/// Decode one 16-byte tile into 8 rows of 8 grey-level pixels: each row is
/// built from one even/odd byte pair, two bits per pixel, mapped through
/// the palette.
pub fn decode_tile(tile: &Vec<u8>) -> (r: Vec<Vec<u8>>)
    requires
        tile.len() >= 16,
    ensures
        r.len() == 8,
        forall|i: int| 0 <= i < 8 ==> #[trigger] r[i]@.len() == 8,
        forall|i: int, j: int|
            0 <= i < 8 && 0 <= j < 8 ==> #[trigger] r[i]@[j] == palette_spec(
                tile_pixel(tile@, i, j),
            ),
{
    let mut out: Vec<Vec<u8>> = Vec::new();
    let mut i: usize = 0;
    while i < 8
        invariant
            tile.len() >= 16,
            0 <= i <= 8,
            out.len() == i,
            forall|a: int| 0 <= a < i ==> #[trigger] out[a]@.len() == 8,
            forall|a: int, b: int|
                0 <= a < i && 0 <= b < 8 ==> #[trigger] out[a]@[b] == palette_spec(
                    tile_pixel(tile@, a, b),
                ),
        decreases 8 - i,
    {
        let low = tile[2 * i];
        let high = tile[2 * i + 1];
        let mut row: Vec<u8> = Vec::new();
        let mut j: u8 = 0;
        while j < 8
            invariant
                0 <= j <= 8,
                row.len() == j,
                forall|b: int|
                    0 <= b < j ==> #[trigger] row[b] == palette_spec(
                        ((low >> (b as u8)) & 1) | (((high >> (b as u8)) & 1) << 1),
                    ),
            decreases 8 - j,
        {
            let pixel = ((low >> j) & 1) | (((high >> j) & 1) << 1);
            row.push(palette(pixel));
            j = j + 1;
        }
        out.push(row);
        i = i + 1;
    }
    out
}

} // verus!
