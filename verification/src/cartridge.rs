use vstd::prelude::*;

use crate::errors::CartridgeError;

verus! {

/// Header offsets of the cartridge.
pub const ENTRY_POINT_START: usize = 0x0100;

pub const ENTRY_POINT_END: usize = 0x0103;

pub const LOGO_START: usize = 0x0104;

pub const LOGO_END: usize = 0x0133;

pub const TITLE_START: usize = 0x0134;

pub const TITLE_END: usize = 0x0143;

pub const CGB_FLAG: usize = 0x0143;

pub const CARTRIDGE_TYPE: usize = 0x0147;

pub const ROM_SIZE: usize = 0x0148;

pub const RAM_SIZE: usize = 0x0149;

/// The size of the header: every field read at load time lies below this.
pub const HEADER_SIZE: usize = 0x0150;

/// The memory-bank-controller hardware named by header byte 0x147.
#[derive(Debug, Clone, Copy, PartialEq, Eq, Structural)]
pub enum CartridgeType {
    RomOnly,
    MBC1 { ram: bool, battery: bool },
    MBC2 { battery: bool },
    RomRam,
    RomRamBattery,
    MMM01 { ram: bool, battery: bool },
    MBC3 { timer: bool, ram: bool, battery: bool },
    MBC5 { ram: bool, rumble: bool, battery: bool },
    MBC6,
    MBC7,
    PocketCamera,
    BandaiTama,
    HuC3,
    HuC1,
}

/// The hardware table of header byte 0x147; `None` for an unassigned byte.
pub open spec fn cartridge_type_of(value: u8) -> Option<CartridgeType> {
    match value {
        0x00 => Some(CartridgeType::RomOnly),
        0x01 => Some(CartridgeType::MBC1 { ram: false, battery: false }),
        0x02 => Some(CartridgeType::MBC1 { ram: true, battery: false }),
        0x03 => Some(CartridgeType::MBC1 { ram: true, battery: true }),
        0x05 => Some(CartridgeType::MBC2 { battery: false }),
        0x06 => Some(CartridgeType::MBC2 { battery: true }),
        0x08 => Some(CartridgeType::RomRam),
        0x09 => Some(CartridgeType::RomRamBattery),
        0x0b => Some(CartridgeType::MMM01 { ram: false, battery: false }),
        0x0c => Some(CartridgeType::MMM01 { ram: true, battery: false }),
        0x0d => Some(CartridgeType::MMM01 { ram: true, battery: true }),
        0x0f => Some(CartridgeType::MBC3 { timer: true, ram: false, battery: true }),
        0x10 => Some(CartridgeType::MBC3 { timer: true, ram: true, battery: true }),
        0x11 => Some(CartridgeType::MBC3 { timer: false, ram: false, battery: false }),
        0x12 => Some(CartridgeType::MBC3 { timer: false, ram: true, battery: false }),
        0x13 => Some(CartridgeType::MBC3 { timer: false, ram: true, battery: true }),
        0x19 => Some(CartridgeType::MBC5 { ram: false, rumble: false, battery: false }),
        0x1a => Some(CartridgeType::MBC5 { ram: true, rumble: false, battery: false }),
        0x1b => Some(CartridgeType::MBC5 { ram: false, rumble: true, battery: true }),
        0x1c => Some(CartridgeType::MBC5 { ram: false, rumble: true, battery: false }),
        0x1d => Some(CartridgeType::MBC5 { ram: true, rumble: true, battery: false }),
        0x1e => Some(CartridgeType::MBC5 { ram: true, rumble: true, battery: true }),
        0x20 => Some(CartridgeType::MBC6),
        0x22 => Some(CartridgeType::MBC7),
        0xfc => Some(CartridgeType::PocketCamera),
        0xfd => Some(CartridgeType::BandaiTama),
        0xfe => Some(CartridgeType::HuC3),
        0xff => Some(CartridgeType::HuC1),
        _ => None,
    }
}

impl CartridgeType {
    /// Decode header byte 0x147; an unassigned byte is `InvalidHardware`.
    pub fn from_byte(value: u8) -> (r: Result<Self, CartridgeError>)
        ensures
            r == (match cartridge_type_of(value) {
                Some(t) => Ok::<CartridgeType, CartridgeError>(t),
                None => Err(CartridgeError::InvalidHardware(value)),
            }),
    {
        match value {
            0x00 => Ok(Self::RomOnly),
            0x01 => Ok(Self::MBC1 { ram: false, battery: false }),
            0x02 => Ok(Self::MBC1 { ram: true, battery: false }),
            0x03 => Ok(Self::MBC1 { ram: true, battery: true }),
            0x05 => Ok(Self::MBC2 { battery: false }),
            0x06 => Ok(Self::MBC2 { battery: true }),
            0x08 => Ok(Self::RomRam),
            0x09 => Ok(Self::RomRamBattery),
            0x0b => Ok(Self::MMM01 { ram: false, battery: false }),
            0x0c => Ok(Self::MMM01 { ram: true, battery: false }),
            0x0d => Ok(Self::MMM01 { ram: true, battery: true }),
            0x0f => Ok(Self::MBC3 { timer: true, ram: false, battery: true }),
            0x10 => Ok(Self::MBC3 { timer: true, ram: true, battery: true }),
            0x11 => Ok(Self::MBC3 { timer: false, ram: false, battery: false }),
            0x12 => Ok(Self::MBC3 { timer: false, ram: true, battery: false }),
            0x13 => Ok(Self::MBC3 { timer: false, ram: true, battery: true }),
            0x19 => Ok(Self::MBC5 { ram: false, rumble: false, battery: false }),
            0x1a => Ok(Self::MBC5 { ram: true, rumble: false, battery: false }),
            0x1b => Ok(Self::MBC5 { ram: false, rumble: true, battery: true }),
            0x1c => Ok(Self::MBC5 { ram: false, rumble: true, battery: false }),
            0x1d => Ok(Self::MBC5 { ram: true, rumble: true, battery: false }),
            0x1e => Ok(Self::MBC5 { ram: true, rumble: true, battery: true }),
            0x20 => Ok(Self::MBC6),
            0x22 => Ok(Self::MBC7),
            0xfc => Ok(Self::PocketCamera),
            0xfd => Ok(Self::BandaiTama),
            0xfe => Ok(Self::HuC3),
            0xff => Ok(Self::HuC1),
            _ => Err(CartridgeError::InvalidHardware(value)),
        }
    }
}

/// The external RAM fitted to the cartridge; the payload is its size in
/// 8-KiB banks.
#[derive(Debug, Clone, Copy, PartialEq, Eq, Structural)]
pub enum RamSize {
    Zero,
    Ram8KiB(u8),
    Ram32KiB(u8),
    Ram128KiB(u8),
    Ram64KiB(u8),
}

/// The RAM size table of header byte 0x149; `None` for an unassigned byte.
pub open spec fn ram_size_of(value: u8) -> Option<RamSize> {
    match value {
        0x00 => Some(RamSize::Zero),
        0x01 => Some(RamSize::Zero),
        0x02 => Some(RamSize::Ram8KiB(1)),
        0x03 => Some(RamSize::Ram32KiB(4)),
        0x04 => Some(RamSize::Ram128KiB(16)),
        0x05 => Some(RamSize::Ram64KiB(8)),
        _ => None,
    }
}

/// The number of 8-KiB external RAM banks of a RAM size class.
pub open spec fn ram_banks(r: RamSize) -> int {
    match r {
        RamSize::Zero => 0,
        RamSize::Ram8KiB(n) => n as int,
        RamSize::Ram32KiB(n) => n as int,
        RamSize::Ram128KiB(n) => n as int,
        RamSize::Ram64KiB(n) => n as int,
    }
}

impl RamSize {
    /// Decode header byte 0x149; an unassigned byte is `InvalidRamSize`.
    pub fn from_byte(value: u8) -> (r: Result<Self, CartridgeError>)
        ensures
            r == (match ram_size_of(value) {
                Some(s) => Ok::<RamSize, CartridgeError>(s),
                None => Err(CartridgeError::InvalidRamSize(value)),
            }),
    {
        match value {
            0x00 | 0x01 => Ok(RamSize::Zero),
            0x02 => Ok(Self::Ram8KiB(1)),
            0x03 => Ok(Self::Ram32KiB(4)),
            0x04 => Ok(Self::Ram128KiB(16)),
            0x05 => Ok(Self::Ram64KiB(8)),
            _ => Err(CartridgeError::InvalidRamSize(value)),
        }
    }

    /// The number of 8-KiB external RAM banks.
    pub fn banks(&self) -> (r: u8)
        ensures
            r == ram_banks(*self),
    {
        match self {
            RamSize::Zero => 0,
            RamSize::Ram8KiB(n) => *n,
            RamSize::Ram32KiB(n) => *n,
            RamSize::Ram128KiB(n) => *n,
            RamSize::Ram64KiB(n) => *n,
        }
    }
}

/// The ROM size table of header byte 0x148, in 16-KiB banks; `None` for an
/// unassigned byte.
pub open spec fn rom_size_of(value: u8) -> Option<usize> {
    match value {
        0x00 => Some(2usize),
        0x01 => Some(4usize),
        0x02 => Some(8usize),
        0x03 => Some(16usize),
        0x04 => Some(32usize),
        0x05 => Some(64usize),
        0x06 => Some(128usize),
        0x07 => Some(256usize),
        0x08 => Some(512usize),
        0x52 => Some(72usize),
        0x53 => Some(80usize),
        0x54 => Some(96usize),
        _ => None,
    }
}

/// Decode header byte 0x148 into a ROM size in 16-KiB banks; an unassigned
/// byte is `InvalidRomSize`.
pub fn get_rom_size(value: u8) -> (r: Result<usize, CartridgeError>)
    ensures
        r == (match rom_size_of(value) {
            Some(s) => Ok::<usize, CartridgeError>(s),
            None => Err(CartridgeError::InvalidRomSize(value)),
        }),
{
    match value {
        0x00 => Ok(2),
        0x01 => Ok(4),
        0x02 => Ok(8),
        0x03 => Ok(16),
        0x04 => Ok(32),
        0x05 => Ok(64),
        0x06 => Ok(128),
        0x07 => Ok(256),
        0x08 => Ok(512),
        0x52 => Ok(72),
        0x53 => Ok(80),
        0x54 => Ok(96),
        _ => Err(CartridgeError::InvalidRomSize(value)),
    }
}

/// The first load-time failure in a ROM image's header, if any: a short
/// image, then an unassigned hardware byte, ROM size byte, RAM size byte.
pub open spec fn header_error(rom: Seq<u8>) -> Option<CartridgeError> {
    if rom.len() < HEADER_SIZE {
        Some(CartridgeError::Truncated)
    } else if cartridge_type_of(rom[CARTRIDGE_TYPE as int]) is None {
        Some(CartridgeError::InvalidHardware(rom[CARTRIDGE_TYPE as int]))
    } else if rom_size_of(rom[ROM_SIZE as int]) is None {
        Some(CartridgeError::InvalidRomSize(rom[ROM_SIZE as int]))
    } else if ram_size_of(rom[RAM_SIZE as int]) is None {
        Some(CartridgeError::InvalidRamSize(rom[RAM_SIZE as int]))
    } else {
        None
    }
}

/// A parsed cartridge: the ROM image and the decoded header fields. The
/// title is kept as the raw header bytes.
#[derive(Debug, Clone)]
pub struct Cartridge {
    pub rom: Vec<u8>,
    pub cartridge_type: CartridgeType,
    pub logo: Vec<u8>,
    pub title: Vec<u8>,
    pub cgb_flag: bool,
    pub rom_size: usize,
    pub ram_size: RamSize,
}

impl Cartridge {
    /// A ROM image long enough to hold the header, with decoded fields that
    /// match its header bytes.
    pub open spec fn wf(self) -> bool {
        &&& self.rom.len() >= HEADER_SIZE
        &&& cartridge_type_of(self.rom[CARTRIDGE_TYPE as int]) == Some(self.cartridge_type)
        &&& rom_size_of(self.rom[ROM_SIZE as int]) == Some(self.rom_size)
        &&& ram_size_of(self.rom[RAM_SIZE as int]) == Some(self.ram_size)
    }

    /// Parse a ROM image. A ROM shorter than the header is `Truncated`; the
    /// hardware byte, then the ROM size byte, then the RAM size byte must
    /// each be assigned, else the matching error names the offending byte.
    pub fn new(rom: Vec<u8>) -> (r: Result<Self, CartridgeError>)
        ensures
            (match header_error(rom@) {
                Some(e) => r == Err::<Cartridge, CartridgeError>(e),
                None => r matches Ok(c) && {
                    &&& c.rom@ == rom@
                    &&& cartridge_type_of(rom@[CARTRIDGE_TYPE as int]) == Some(c.cartridge_type)
                    &&& rom_size_of(rom@[ROM_SIZE as int]) == Some(c.rom_size)
                    &&& ram_size_of(rom@[RAM_SIZE as int]) == Some(c.ram_size)
                    &&& c.logo@ == rom@.subrange(LOGO_START as int, LOGO_END as int)
                    &&& c.title@ == rom@.subrange(TITLE_START as int, TITLE_END as int)
                    &&& c.cgb_flag == (rom@[CGB_FLAG as int] == 0x80 || rom@[CGB_FLAG as int]
                        == 0xc0)
                    &&& c.wf()
                },
            }),
    {
        if rom.len() < HEADER_SIZE {
            return Err(CartridgeError::Truncated);
        }
        let cartridge_type = match CartridgeType::from_byte(rom[CARTRIDGE_TYPE]) {
            Ok(t) => t,
            Err(e) => {
                return Err(e);
            }
        };
        let rom_size = match get_rom_size(rom[ROM_SIZE]) {
            Ok(s) => s,
            Err(e) => {
                return Err(e);
            }
        };
        let ram_size = match RamSize::from_byte(rom[RAM_SIZE]) {
            Ok(s) => s,
            Err(e) => {
                return Err(e);
            }
        };
        let cgb_byte = rom[CGB_FLAG];
        let cgb_flag = cgb_byte == 0x80 || cgb_byte == 0xc0;
        let logo = copy_range(&rom, LOGO_START, LOGO_END);
        let title = copy_range(&rom, TITLE_START, TITLE_END);
        Ok(Cartridge { rom, cartridge_type, title, logo, cgb_flag, ram_size, rom_size })
    }
}

/// Copy the bytes of `v` between two positions into a fresh vector.
pub fn copy_range(v: &Vec<u8>, start: usize, end: usize) -> (r: Vec<u8>)
    requires
        start <= end <= v.len(),
    ensures
        r@ == v@.subrange(start as int, end as int),
{
    let mut out: Vec<u8> = Vec::new();
    let mut i: usize = start;
    while i < end
        invariant
            start <= i <= end <= v.len(),
            out@ == v@.subrange(start as int, i as int),
        decreases end - i,
    {
        out.push(v[i]);
        assert(out@ == v@.subrange(start as int, i + 1));
        i = i + 1;
    }
    out
}

} // verus!
