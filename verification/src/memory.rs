use vstd::prelude::*;

use crate::cartridge::{copy_range, ram_banks, Cartridge, CartridgeType};
use crate::memory::registers::{DIV, DMA, IF, JOYP, LY, STAT, TIMA, TMA};

pub mod regions;
pub mod registers;

verus! {

/// Memory-bank-controller state: the raw bank registers, mutated only by
/// writes to 0x0000-0x7FFF. `rom_bank` is the low ROM bank register,
/// `rom_bank_hi` the ninth ROM bank bit (MBC5), `ram_bank` the RAM bank /
/// upper ROM bank select, `mode1` the MBC1 banking mode.
#[derive(Debug, Copy, Clone, PartialEq, Eq, Structural)]
pub struct Mbc {
    pub rom_bank: u8,
    pub rom_bank_hi: u8,
    pub ram_bank: u8,
    pub ram_enabled: bool,
    pub mode1: bool,
}

impl Default for Mbc {
    /// The power-on banking state: ROM bank 1 selected, RAM disabled.
    fn default() -> (r: Self)
        ensures
            r == (Mbc {
                rom_bank: 1,
                rom_bank_hi: 0,
                ram_bank: 0,
                ram_enabled: false,
                mode1: false,
            }),
    {
        Mbc { rom_bank: 1, rom_bank_hi: 0, ram_bank: 0, ram_enabled: false, mode1: false }
    }
}

/// An MBC1 five-bit ROM bank register maps 0 to 1.
pub open spec fn mbc1_low5(v: u8) -> int {
    if v % 32 == 0 {
        1
    } else {
        (v % 32) as int
    }
}

/// The MBC state after a control write to 0x0000-0x7FFF, following the bank
/// register semantics of the fitted controller.
pub open spec fn mbc_write_spec(m: Mbc, kind: CartridgeType, addr: int, v: u8) -> Mbc {
    if addr < 0x2000 {
        Mbc { ram_enabled: v % 16 == 0x0a, ..m }
    } else if addr < 0x4000 {
        match kind {
            CartridgeType::MBC1 { .. } => Mbc {
                rom_bank: if v % 32 == 0 {
                    1
                } else {
                    (v % 32) as u8
                },
                ..m
            },
            CartridgeType::MBC3 { .. } => Mbc {
                rom_bank: if v % 128 == 0 {
                    1
                } else {
                    (v % 128) as u8
                },
                ..m
            },
            CartridgeType::MBC5 { .. } => if addr < 0x3000 {
                Mbc { rom_bank: v, ..m }
            } else {
                Mbc { rom_bank_hi: (v % 2) as u8, ..m }
            },
            _ => m,
        }
    } else if addr < 0x6000 {
        match kind {
            CartridgeType::MBC1 { .. } => Mbc { ram_bank: (v % 4) as u8, ..m },
            CartridgeType::MBC3 { .. } => Mbc { ram_bank: (v % 16) as u8, ..m },
            CartridgeType::MBC5 { .. } => Mbc { ram_bank: (v % 16) as u8, ..m },
            _ => m,
        }
    } else {
        match kind {
            CartridgeType::MBC1 { .. } => Mbc { mode1: v % 2 == 1, ..m },
            _ => m,
        }
    }
}

/// The ROM bank mapped at 0x4000-0x7FFF.
pub open spec fn high_bank(m: Memory) -> int {
    match m.cartridge.cartridge_type {
        CartridgeType::MBC1 { .. } => (m.mbc.ram_bank % 4) * 32 + mbc1_low5(m.mbc.rom_bank),
        CartridgeType::MBC3 { .. } => if m.mbc.rom_bank % 128 == 0 {
            1
        } else {
            (m.mbc.rom_bank % 128) as int
        },
        CartridgeType::MBC5 { .. } => (m.mbc.rom_bank_hi % 2) * 256 + m.mbc.rom_bank,
        _ => 1,
    }
}

/// The ROM bank mapped at 0x0000-0x3FFF: bank 0, except that MBC1 banking
/// mode 1 maps the bank named by the upper bank bits.
pub open spec fn low_bank(m: Memory) -> int {
    match m.cartridge.cartridge_type {
        CartridgeType::MBC1 { .. } => if m.mbc.mode1 {
            (m.mbc.ram_bank % 4) * 32
        } else {
            0
        },
        _ => 0,
    }
}

/// A byte of ROM storage; an index past the image reads as 0xFF.
pub open spec fn rom_read(rom: Seq<u8>, idx: int) -> u8 {
    if 0 <= idx < rom.len() {
        rom[idx]
    } else {
        0xff
    }
}

/// Whether the selected external RAM bank is addressable; MBC3 bank numbers
/// above 3 select the (unmodeled) clock registers instead of RAM.
pub open spec fn ram_selectable(m: Memory) -> bool {
    match m.cartridge.cartridge_type {
        CartridgeType::MBC3 { .. } => m.mbc.ram_bank < 4,
        _ => true,
    }
}

/// The external RAM index behind a 0xA000-0xBFFF offset, after banking.
pub open spec fn ram_index(m: Memory, off: int) -> int {
    match m.cartridge.cartridge_type {
        CartridgeType::MBC1 { .. } => if m.mbc.mode1 {
            (m.mbc.ram_bank % 4) * 0x2000 + off
        } else {
            off
        },
        CartridgeType::MBC3 { .. } => m.mbc.ram_bank * 0x2000 + off,
        CartridgeType::MBC5 { .. } => (m.mbc.ram_bank % 16) * 0x2000 + off,
        _ => off,
    }
}

/// Whether a write to 0xA000-0xBFFF lands in external RAM.
pub open spec fn ram_writable(m: Memory, off: int) -> bool {
    m.mbc.ram_enabled && ram_selectable(m) && ram_index(m, off) < m.ext_ram.len()
}

/// A byte of external RAM as seen through the bus; disabled or unbacked RAM
/// reads as 0xFF.
pub open spec fn ram_byte(m: Memory, off: int) -> u8 {
    if ram_writable(m, off) {
        m.ext_ram[ram_index(m, off)]
    } else {
        0xff
    }
}

/// The byte a region holds, before the PPU and DMA access gates: ROM through
/// the bank mapping, the echo region through its mirror, DIV from the
/// internal divider counter, everything else from the backing array.
pub open spec fn raw_byte(m: Memory, addr: int) -> u8 {
    if addr < 0x4000 {
        rom_read(m.cartridge.rom@, low_bank(m) * 0x4000 + addr)
    } else if addr < 0x8000 {
        rom_read(m.cartridge.rom@, high_bank(m) * 0x4000 + (addr - 0x4000))
    } else if addr < 0xa000 {
        m.block[addr]
    } else if addr < 0xc000 {
        ram_byte(m, addr - 0xa000)
    } else if addr < 0xe000 {
        m.block[addr]
    } else if addr < 0xfe00 {
        m.block[addr - 0x2000]
    } else if addr < 0xfea0 {
        m.block[addr]
    } else if addr < 0xff00 {
        0xff
    } else if addr == DIV {
        (m.div_counter / 256) as u8
    } else {
        m.block[addr]
    }
}

/// What a CPU read returns: 0xFF while an OAM DMA locks everything but HRAM,
/// 0xFF for VRAM during drawing and for OAM during OAM scan and drawing,
/// else the raw byte of the region.
pub open spec fn read_spec(m: Memory, addr: int) -> u8 {
    if m.dma_active && !(0xff80 <= addr <= 0xfffe) {
        0xff
    } else if 0x8000 <= addr < 0xa000 && !m.vram_accessible {
        0xff
    } else if 0xfe00 <= addr < 0xfea0 && !m.oam_accessible {
        0xff
    } else {
        raw_byte(m, addr)
    }
}

/// The unified 64 KiB bus: the backing array for RAM, OAM and the hardware
/// registers, the cartridge with its MBC state and external RAM, the PPU
/// access gates, the divider counter and the OAM DMA engine.
#[derive(Debug, Clone)]
pub struct Memory {
    pub block: Vec<u8>,
    pub cartridge: Cartridge,
    pub oam_accessible: bool,
    pub vram_accessible: bool,
    pub rom_banks: Vec<Vec<u8>>,
    pub mbc: Mbc,
    pub ext_ram: Vec<u8>,
    pub div_counter: u16,
    pub dma_active: bool,
    pub dma_source: u8,
    pub dma_remaining: u8,
}

/// The fields of `b` equal those of `a` except that the backing array,
/// external RAM, MBC state, divider counter and DMA engine hold the given
/// values. ROM storage is never touched.
pub open spec fn mem_eq(
    a: Memory,
    b: Memory,
    block: Seq<u8>,
    ext: Seq<u8>,
    mbc: Mbc,
    div: u16,
    dma_active: bool,
    dma_source: u8,
    dma_remaining: u8,
) -> bool {
    &&& b.block@ == block
    &&& b.ext_ram@ == ext
    &&& b.mbc == mbc
    &&& b.div_counter == div
    &&& b.dma_active == dma_active
    &&& b.dma_source == dma_source
    &&& b.dma_remaining == dma_remaining
    &&& b.cartridge == a.cartridge
    &&& b.oam_accessible == a.oam_accessible
    &&& b.vram_accessible == a.vram_accessible
    &&& b.rom_banks == a.rom_banks
}

/// Nothing changed.
pub open spec fn mem_same(a: Memory, b: Memory) -> bool {
    mem_eq(
        a,
        b,
        a.block@,
        a.ext_ram@,
        a.mbc,
        a.div_counter,
        a.dma_active,
        a.dma_source,
        a.dma_remaining,
    )
}

/// What a CPU write does. Writes below 0x8000 are MBC control messages and
/// never touch storage; VRAM and OAM writes are dropped while the PPU holds
/// the region; the echo region writes through to work RAM; I/O writes
/// dispatch their side effects (DIV resets the divider, LY is read-only, DMA
/// starts an OAM DMA, STAT and JOYP keep their read-only bits); while an OAM
/// DMA runs, only HRAM writes land.
pub open spec fn write_rel(a: Memory, b: Memory, addr: int, v: u8) -> bool {
    if a.dma_active && !(0xff80 <= addr <= 0xfffe) {
        mem_same(a, b)
    } else if addr < 0x8000 {
        write_touches(a, b, a.block@, a.ext_ram@, mbc_write_spec(a.mbc, a.cartridge.cartridge_type, addr, v))
    } else if addr < 0xa000 {
        write_touches(
            a,
            b,
            if a.vram_accessible {
                a.block@.update(addr, v)
            } else {
                a.block@
            },
            a.ext_ram@,
            a.mbc,
        )
    } else if addr < 0xc000 {
        write_touches(
            a,
            b,
            a.block@,
            if ram_writable(a, addr - 0xa000) {
                a.ext_ram@.update(ram_index(a, addr - 0xa000), v)
            } else {
                a.ext_ram@
            },
            a.mbc,
        )
    } else if addr < 0xe000 {
        write_touches(a, b, a.block@.update(addr, v), a.ext_ram@, a.mbc)
    } else if addr < 0xfe00 {
        write_touches(a, b, a.block@.update(addr - 0x2000, v), a.ext_ram@, a.mbc)
    } else if addr < 0xfea0 {
        write_touches(
            a,
            b,
            if a.oam_accessible {
                a.block@.update(addr, v)
            } else {
                a.block@
            },
            a.ext_ram@,
            a.mbc,
        )
    } else if addr < 0xff00 {
        mem_same(a, b)
    } else if addr == DIV {
        mem_eq(
            a,
            b,
            a.block@,
            a.ext_ram@,
            a.mbc,
            0,
            a.dma_active,
            a.dma_source,
            a.dma_remaining,
        )
    } else if addr == LY {
        mem_same(a, b)
    } else if addr == DMA {
        mem_eq(a, b, a.block@.update(addr, v), a.ext_ram@, a.mbc, a.div_counter, true, v, 160)
    } else if addr == STAT {
        write_touches(a, b, a.block@.update(addr, (v & 0xf8) | (a.block[addr] & 0x07)), a.ext_ram@, a.mbc)
    } else if addr == JOYP {
        write_touches(
            a,
            b,
            a.block@.update(addr, ((v & 0x30) | (a.block[addr] & 0x0f)) | 0xc0),
            a.ext_ram@,
            a.mbc,
        )
    } else {
        write_touches(a, b, a.block@.update(addr, v), a.ext_ram@, a.mbc)
    }
}

/// The fields of `b` equal those of `a` except for the backing array, the
/// external RAM and the MBC state; the divider and the DMA engine are kept.
pub open spec fn write_touches(a: Memory, b: Memory, block: Seq<u8>, ext: Seq<u8>, mbc: Mbc) -> bool {
    mem_eq(a, b, block, ext, mbc, a.div_counter, a.dma_active, a.dma_source, a.dma_remaining)
}

/// The guest addresses whose power-on value is set by `Memory::new`.
pub open spec fn boot_io_reg(i: int) -> bool {
    ||| i == registers::JOYP
    ||| i == registers::SC
    ||| i == registers::TAC
    ||| i == registers::IF
    ||| i == registers::NR10
    ||| i == registers::NR11
    ||| i == registers::NR12
    ||| i == registers::NR13
    ||| i == registers::NR14
    ||| i == registers::NR21
    ||| i == registers::NR23
    ||| i == registers::NR24
    ||| i == registers::NR30
    ||| i == registers::NR31
    ||| i == registers::NR32
    ||| i == registers::NR33
    ||| i == registers::NR34
    ||| i == registers::NR41
    ||| i == registers::NR43
    ||| i == registers::NR44
    ||| i == registers::NR50
    ||| i == registers::NR51
    ||| i == registers::NR52
    ||| i == registers::LCDC
    ||| i == registers::STAT
    ||| i == registers::DMA
    ||| i == registers::BGP
}

impl Memory {
    /// A well-formed bus: the backing array covers the address space and the
    /// external RAM matches the cartridge's RAM size class.
    pub open spec fn wf(self) -> bool {
        &&& self.block.len() == 0x10000
        &&& self.ext_ram.len() == ram_banks(self.cartridge.ram_size) * 0x2000
    }

    /// Build the bus around a cartridge: chunk the ROM into banks, allocate
    /// external RAM, and give the hardware registers their documented
    /// power-on values (DIV reads 0x18, LCDC 0x91, STAT 0x81, BGP 0xFC).
    pub fn new(cartridge: Cartridge) -> (r: Self)
        ensures
            r.wf(),
            r.cartridge == cartridge,
            r.oam_accessible,
            r.vram_accessible,
            !r.dma_active,
            r.div_counter == 0x1800,
            r.mbc == (Mbc {
                rom_bank: 1,
                rom_bank_hi: 0,
                ram_bank: 0,
                ram_enabled: false,
                mode1: false,
            }),
            forall|i: int| 0 <= i < r.ext_ram.len() ==> r.ext_ram[i] == 0,
            forall|i: int| 0 <= i < 0x10000 && !boot_io_reg(i) ==> r.block[i] == 0,
            r.block[JOYP as int] == 0xcf,
            r.block[registers::SC as int] == 0x7e,
            r.block[registers::TAC as int] == 0xf8,
            r.block[IF as int] == 0xe1,
            r.block[registers::NR10 as int] == 0x80,
            r.block[registers::NR11 as int] == 0xbf,
            r.block[registers::NR12 as int] == 0xf3,
            r.block[registers::NR13 as int] == 0xff,
            r.block[registers::NR14 as int] == 0xbf,
            r.block[registers::NR21 as int] == 0x3f,
            r.block[registers::NR23 as int] == 0xff,
            r.block[registers::NR24 as int] == 0xbf,
            r.block[registers::NR30 as int] == 0x7f,
            r.block[registers::NR31 as int] == 0xff,
            r.block[registers::NR32 as int] == 0x9f,
            r.block[registers::NR33 as int] == 0xff,
            r.block[registers::NR34 as int] == 0xbf,
            r.block[registers::NR41 as int] == 0xff,
            r.block[registers::NR43 as int] == 0xff,
            r.block[registers::NR44 as int] == 0xbf,
            r.block[registers::NR50 as int] == 0x77,
            r.block[registers::NR51 as int] == 0xf3,
            r.block[registers::NR52 as int] == 0xf1,
            r.block[registers::LCDC as int] == 0x91,
            r.block[STAT as int] == 0x81,
            r.block[DMA as int] == 0xff,
            r.block[registers::BGP as int] == 0xfc,
            rom_bank_split(r.rom_banks@, r.cartridge.rom@),
    {
        let banks = cartridge.ram_size.banks();
        let ext_len: usize = (banks as usize) * 0x2000;
        let mut mem = Self {
            block: alloc_zeroed(0x10000),
            cartridge,
            oam_accessible: true,
            vram_accessible: true,
            rom_banks: Vec::new(),
            mbc: Mbc::default(),
            ext_ram: alloc_zeroed(ext_len),
            div_counter: 0x1800,
            dma_active: false,
            dma_source: 0,
            dma_remaining: 0,
        };
        mem.setup_mbc();
        mem.block[JOYP] = 0xcf;
        mem.block[registers::SC] = 0x7e;
        mem.block[registers::TAC] = 0xf8;
        mem.block[IF] = 0xe1;
        mem.block[registers::NR10] = 0x80;
        mem.block[registers::NR11] = 0xbf;
        mem.block[registers::NR12] = 0xf3;
        mem.block[registers::NR13] = 0xff;
        mem.block[registers::NR14] = 0xbf;
        mem.block[registers::NR21] = 0x3f;
        mem.block[registers::NR23] = 0xff;
        mem.block[registers::NR24] = 0xbf;
        mem.block[registers::NR30] = 0x7f;
        mem.block[registers::NR31] = 0xff;
        mem.block[registers::NR32] = 0x9f;
        mem.block[registers::NR33] = 0xff;
        mem.block[registers::NR34] = 0xbf;
        mem.block[registers::NR41] = 0xff;
        mem.block[registers::NR43] = 0xff;
        mem.block[registers::NR44] = 0xbf;
        mem.block[registers::NR50] = 0x77;
        mem.block[registers::NR51] = 0xf3;
        mem.block[registers::NR52] = 0xf1;
        mem.block[registers::LCDC] = 0x91;
        mem.block[STAT] = 0x81;
        mem.block[DMA] = 0xff;
        mem.block[registers::BGP] = 0xfc;
        mem
    }

    /// Chunk the cartridge ROM into its 16-KiB banks.
    pub fn setup_mbc(&mut self)
        ensures
            final(self).block == old(self).block,
            final(self).cartridge == old(self).cartridge,
            final(self).ext_ram == old(self).ext_ram,
            final(self).mbc == old(self).mbc,
            final(self).oam_accessible == old(self).oam_accessible,
            final(self).vram_accessible == old(self).vram_accessible,
            final(self).div_counter == old(self).div_counter,
            final(self).dma_active == old(self).dma_active,
            final(self).dma_source == old(self).dma_source,
            final(self).dma_remaining == old(self).dma_remaining,
            rom_bank_split(final(self).rom_banks@, final(self).cartridge.rom@),
    {
        let n = self.cartridge.rom.len() / 0x4000;
        let mut chunks: Vec<Vec<u8>> = Vec::new();
        let mut i: usize = 0;
        while i < n
            invariant
                n == self.cartridge.rom.len() / 0x4000,
                0 <= i <= n,
                chunks.len() == i,
                forall|j: int|
                    0 <= j < i ==> #[trigger] chunks[j]@ == self.cartridge.rom@.subrange(
                        j * 0x4000,
                        j * 0x4000 + 0x4000,
                    ),
            decreases n - i,
        {
            assert((i + 1) * 0x4000 <= self.cartridge.rom.len()) by (nonlinear_arith)
                requires
                    i < n,
                    n == self.cartridge.rom.len() / 0x4000,
            ;
            let bank = copy_range(&self.cartridge.rom, i * 0x4000, i * 0x4000 + 0x4000);
            chunks.push(bank);
            i = i + 1;
        }
        self.rom_banks = chunks;
    }

    /// Read one byte through the bus, honouring the PPU and DMA access gates.
    pub fn read(&mut self, addr: usize) -> (r: u8)
        requires
            old(self).wf(),
            addr < 0x10000,
        ensures
            *final(self) == *old(self),
            r == read_spec(*old(self), addr as int),
    {
        if self.dma_active && !(0xff80 <= addr && addr <= 0xfffe) {
            return 0xff;
        }
        if addr >= 0x8000 && addr < 0xa000 && !self.vram_accessible {
            return 0xff;
        }
        if addr >= 0xfe00 && addr < 0xfea0 && !self.oam_accessible {
            return 0xff;
        }
        self.read_raw(addr)
    }

    /// Read one byte of a region with every gate bypassed, as the OAM DMA
    /// engine does.
    fn read_raw(&self, addr: usize) -> (r: u8)
        requires
            self.wf(),
            addr < 0x10000,
        ensures
            r == raw_byte(*self, addr as int),
    {
        if addr < 0x4000 {
            let idx = self.low_bank_base() + addr;
            if idx < self.cartridge.rom.len() {
                self.cartridge.rom[idx]
            } else {
                0xff
            }
        } else if addr < 0x8000 {
            let idx = self.high_bank_base() + (addr - 0x4000);
            if idx < self.cartridge.rom.len() {
                self.cartridge.rom[idx]
            } else {
                0xff
            }
        } else if addr < 0xa000 {
            self.block[addr]
        } else if addr < 0xc000 {
            let off = addr - 0xa000;
            if self.ram_ok() {
                let idx = self.ram_index_exec(off);
                if idx < self.ext_ram.len() {
                    self.ext_ram[idx]
                } else {
                    0xff
                }
            } else {
                0xff
            }
        } else if addr < 0xe000 {
            self.block[addr]
        } else if addr < 0xfe00 {
            self.block[addr - 0x2000]
        } else if addr < 0xfea0 {
            self.block[addr]
        } else if addr < 0xff00 {
            0xff
        } else if addr == DIV {
            (self.div_counter / 256) as u8
        } else {
            self.block[addr]
        }
    }

    /// The byte offset of the ROM bank mapped at 0x0000.
    fn low_bank_base(&self) -> (r: usize)
        ensures
            r == low_bank(*self) * 0x4000,
    {
        match self.cartridge.cartridge_type {
            CartridgeType::MBC1 { .. } => {
                if self.mbc.mode1 {
                    ((self.mbc.ram_bank % 4) as usize) * 32 * 0x4000
                } else {
                    0
                }
            }
            _ => 0,
        }
    }

    /// The byte offset of the ROM bank mapped at 0x4000.
    fn high_bank_base(&self) -> (r: usize)
        ensures
            r == high_bank(*self) * 0x4000,
    {
        let bank: usize = match self.cartridge.cartridge_type {
            CartridgeType::MBC1 { .. } => {
                let lo: usize = if self.mbc.rom_bank % 32 == 0 {
                    1
                } else {
                    (self.mbc.rom_bank % 32) as usize
                };
                ((self.mbc.ram_bank % 4) as usize) * 32 + lo
            }
            CartridgeType::MBC3 { .. } => {
                if self.mbc.rom_bank % 128 == 0 {
                    1
                } else {
                    (self.mbc.rom_bank % 128) as usize
                }
            }
            CartridgeType::MBC5 { .. } => {
                ((self.mbc.rom_bank_hi % 2) as usize) * 256 + (self.mbc.rom_bank as usize)
            }
            _ => 1,
        };
        bank * 0x4000
    }

    /// Whether external RAM is enabled and the selected bank is RAM at all.
    fn ram_ok(&self) -> (r: bool)
        ensures
            r == (self.mbc.ram_enabled && ram_selectable(*self)),
    {
        let selectable = match self.cartridge.cartridge_type {
            CartridgeType::MBC3 { .. } => self.mbc.ram_bank < 4,
            _ => true,
        };
        self.mbc.ram_enabled && selectable
    }

    /// The external RAM index behind a 0xA000-0xBFFF offset.
    fn ram_index_exec(&self, off: usize) -> (r: usize)
        requires
            off < 0x2000,
        ensures
            r == ram_index(*self, off as int),
    {
        match self.cartridge.cartridge_type {
            CartridgeType::MBC1 { .. } => {
                if self.mbc.mode1 {
                    ((self.mbc.ram_bank % 4) as usize) * 0x2000 + off
                } else {
                    off
                }
            }
            CartridgeType::MBC3 { .. } => (self.mbc.ram_bank as usize) * 0x2000 + off,
            CartridgeType::MBC5 { .. } => ((self.mbc.ram_bank % 16) as usize) * 0x2000 + off,
            _ => off,
        }
    }

    /// Write one byte through the bus; see `write_rel` for the routing.
    pub fn write(&mut self, addr: usize, value: u8)
        requires
            old(self).wf(),
            addr < 0x10000,
        ensures
            final(self).wf(),
            write_rel(*old(self), *final(self), addr as int, value),
    {
        if self.dma_active && !(0xff80 <= addr && addr <= 0xfffe) {
            return ;
        }
        if addr < 0x8000 {
            self.mbc_control(addr, value);
        } else if addr < 0xa000 {
            if self.vram_accessible {
                self.block[addr] = value;
            }
        } else if addr < 0xc000 {
            let off = addr - 0xa000;
            if self.ram_ok() {
                let idx = self.ram_index_exec(off);
                if idx < self.ext_ram.len() {
                    self.ext_ram[idx] = value;
                }
            }
        } else if addr < 0xe000 {
            self.block[addr] = value;
        } else if addr < 0xfe00 {
            self.block[addr - 0x2000] = value;
        } else if addr < 0xfea0 {
            if self.oam_accessible {
                self.block[addr] = value;
            }
        } else if addr < 0xff00 {
        } else if addr == DIV {
            self.div_counter = 0;
        } else if addr == LY {
        } else if addr == DMA {
            self.block[addr] = value;
            self.dma_active = true;
            self.dma_source = value;
            self.dma_remaining = 160;
        } else if addr == STAT {
            let kept = self.block[addr] & 0x07;
            self.block[addr] = (value & 0xf8) | kept;
        } else if addr == JOYP {
            let kept = self.block[addr] & 0x0f;
            self.block[addr] = ((value & 0x30) | kept) | 0xc0;
        } else {
            self.block[addr] = value;
        }
    }

    /// Route a write to 0x0000-0x7FFF to the MBC bank registers.
    fn mbc_control(&mut self, addr: usize, value: u8)
        requires
            addr < 0x8000,
        ensures
            final(self).mbc == mbc_write_spec(
                old(self).mbc,
                old(self).cartridge.cartridge_type,
                addr as int,
                value,
            ),
            final(self).block == old(self).block,
            final(self).cartridge == old(self).cartridge,
            final(self).ext_ram == old(self).ext_ram,
            final(self).rom_banks == old(self).rom_banks,
            final(self).oam_accessible == old(self).oam_accessible,
            final(self).vram_accessible == old(self).vram_accessible,
            final(self).div_counter == old(self).div_counter,
            final(self).dma_active == old(self).dma_active,
            final(self).dma_source == old(self).dma_source,
            final(self).dma_remaining == old(self).dma_remaining,
    {
        if addr < 0x2000 {
            self.mbc.ram_enabled = value % 16 == 0x0a;
        } else if addr < 0x4000 {
            match self.cartridge.cartridge_type {
                CartridgeType::MBC1 { .. } => {
                    self.mbc.rom_bank = if value % 32 == 0 {
                        1
                    } else {
                        value % 32
                    };
                }
                CartridgeType::MBC3 { .. } => {
                    self.mbc.rom_bank = if value % 128 == 0 {
                        1
                    } else {
                        value % 128
                    };
                }
                CartridgeType::MBC5 { .. } => {
                    if addr < 0x3000 {
                        self.mbc.rom_bank = value;
                    } else {
                        self.mbc.rom_bank_hi = value % 2;
                    }
                }
                _ => {}
            }
        } else if addr < 0x6000 {
            match self.cartridge.cartridge_type {
                CartridgeType::MBC1 { .. } => {
                    self.mbc.ram_bank = value % 4;
                }
                CartridgeType::MBC3 { .. } => {
                    self.mbc.ram_bank = value % 16;
                }
                CartridgeType::MBC5 { .. } => {
                    self.mbc.ram_bank = value % 16;
                }
                _ => {}
            }
        } else {
            match self.cartridge.cartridge_type {
                CartridgeType::MBC1 { .. } => {
                    self.mbc.mode1 = value % 2 == 1;
                }
                _ => {}
            }
        }
    }
}

impl Memory {
    /// Write a hardware register directly, as the hardware itself does:
    /// no bus gates and no write side effects.
    pub fn set_reg(&mut self, addr: usize, value: u8)
        requires
            old(self).wf(),
            0xff00 <= addr < 0x10000,
        ensures
            final(self).wf(),
            write_touches(
                *old(self),
                *final(self),
                old(self).block@.update(addr as int, value),
                old(self).ext_ram@,
                old(self).mbc,
            ),
    {
        self.block[addr] = value;
    }

    /// Advance LY to the next scanline, wrapping from 153 back to 0.
    pub fn inc_scanline(&mut self)
        requires
            old(self).wf(),
        ensures
            final(self).wf(),
            write_touches(
                *old(self),
                *final(self),
                old(self).block@.update(
                    LY as int,
                    if old(self).block[LY as int] >= 153 {
                        0u8
                    } else {
                        (old(self).block[LY as int] + 1) as u8
                    },
                ),
                old(self).ext_ram@,
                old(self).mbc,
            ),
    {
        let ly = self.block[LY];
        if ly >= 153 {
            self.block[LY] = 0;
        } else {
            self.block[LY] = ly + 1;
        }
    }

    /// One timer tick: TIMA increments, and on overflow it reloads from TMA
    /// and requests the Timer interrupt in IF.
    pub fn inc_tima(&mut self)
        requires
            old(self).wf(),
        ensures
            final(self).wf(),
            old(self).block[TIMA as int] == 0xff ==> write_touches(
                *old(self),
                *final(self),
                old(self).block@.update(TIMA as int, old(self).block[TMA as int]).update(
                    IF as int,
                    old(self).block[IF as int] | 0x04,
                ),
                old(self).ext_ram@,
                old(self).mbc,
            ),
            old(self).block[TIMA as int] != 0xff ==> write_touches(
                *old(self),
                *final(self),
                old(self).block@.update(TIMA as int, (old(self).block[TIMA as int] + 1) as u8),
                old(self).ext_ram@,
                old(self).mbc,
            ),
    {
        let tima = self.block[TIMA];
        if tima == 0xff {
            let tma = self.block[TMA];
            self.block[TIMA] = tma;
            let f = self.block[IF];
            self.block[IF] = f | 0x04;
        } else {
            self.block[TIMA] = tima + 1;
        }
    }

    /// Advance the internal 16-bit divider by one step of its visible byte.
    pub fn inc_div(&mut self)
        requires
            old(self).wf(),
        ensures
            final(self).wf(),
            mem_eq(
                *old(self),
                *final(self),
                old(self).block@,
                old(self).ext_ram@,
                old(self).mbc,
                old(self).div_counter.wrapping_add(256),
                old(self).dma_active,
                old(self).dma_source,
                old(self).dma_remaining,
            ),
    {
        self.div_counter = self.div_counter.wrapping_add(256);
    }

    /// Advance the internal divider by a number of dots.
    pub fn add_div(&mut self, dots: u16)
        requires
            old(self).wf(),
        ensures
            final(self).wf(),
            mem_eq(
                *old(self),
                *final(self),
                old(self).block@,
                old(self).ext_ram@,
                old(self).mbc,
                old(self).div_counter.wrapping_add(dots),
                old(self).dma_active,
                old(self).dma_source,
                old(self).dma_remaining,
            ),
    {
        self.div_counter = self.div_counter.wrapping_add(dots);
    }

    /// One M-cycle of the OAM DMA engine: count down, and on the last cycle
    /// copy the 160 source-page bytes into OAM and release the bus.
    pub fn dma_step(&mut self)
        requires
            old(self).wf(),
        ensures
            final(self).wf(),
            !old(self).dma_active ==> *final(self) == *old(self),
            old(self).dma_active && old(self).dma_remaining > 1 ==> mem_eq(
                *old(self),
                *final(self),
                old(self).block@,
                old(self).ext_ram@,
                old(self).mbc,
                old(self).div_counter,
                true,
                old(self).dma_source,
                (old(self).dma_remaining - 1) as u8,
            ),
            old(self).dma_active && old(self).dma_remaining <= 1 ==> {
                &&& !final(self).dma_active
                &&& final(self).dma_remaining == 0
                &&& final(self).dma_source == old(self).dma_source
                &&& final(self).div_counter == old(self).div_counter
                &&& final(self).ext_ram == old(self).ext_ram
                &&& final(self).mbc == old(self).mbc
                &&& final(self).cartridge == old(self).cartridge
                &&& final(self).rom_banks == old(self).rom_banks
                &&& final(self).oam_accessible == old(self).oam_accessible
                &&& final(self).vram_accessible == old(self).vram_accessible
                &&& forall|i: int|
                    0xfe00 <= i < 0xfea0 ==> final(self).block@[i] == raw_byte(
                        *old(self),
                        old(self).dma_source * 256 + (i - 0xfe00),
                    )
                &&& forall|i: int|
                    0 <= i < 0x10000 && !(0xfe00 <= i < 0xfea0) ==> final(self).block@[i] == old(
                        self,
                    ).block@[i]
            },
    {
        if !self.dma_active {
            return ;
        }
        if self.dma_remaining > 1 {
            self.dma_remaining = self.dma_remaining - 1;
            return ;
        }
        let src_base: usize = (self.dma_source as usize) * 256;
        let mut buf: Vec<u8> = Vec::new();
        let mut i: usize = 0;
        while i < 160
            invariant
                self.wf(),
                *self == *old(self),
                src_base == self.dma_source * 256,
                0 <= i <= 160,
                buf.len() == i,
                forall|j: int|
                    0 <= j < i ==> buf[j] == raw_byte(*old(self), old(self).dma_source * 256 + j),
            decreases 160 - i,
        {
            let b = self.read_raw(src_base + i);
            buf.push(b);
            i = i + 1;
        }
        let mut j: usize = 0;
        while j < 160
            invariant
                self.wf(),
                buf.len() == 160,
                0 <= j <= 160,
                self.cartridge == old(self).cartridge,
                self.ext_ram == old(self).ext_ram,
                self.mbc == old(self).mbc,
                self.rom_banks == old(self).rom_banks,
                self.oam_accessible == old(self).oam_accessible,
                self.vram_accessible == old(self).vram_accessible,
                self.div_counter == old(self).div_counter,
                self.dma_active == old(self).dma_active,
                self.dma_source == old(self).dma_source,
                self.dma_remaining == old(self).dma_remaining,
                forall|k: int|
                    0 <= k < 160 ==> buf[k] == raw_byte(*old(self), old(self).dma_source * 256 + k),
                forall|k: int|
                    0xfe00 <= k < 0xfe00 + j ==> self.block@[k] == buf[k - 0xfe00],
                forall|k: int|
                    0 <= k < 0x10000 && !(0xfe00 <= k < 0xfe00 + j) ==> self.block@[k] == old(
                        self,
                    ).block@[k],
            decreases 160 - j,
        {
            self.block[0xfe00 + j] = buf[j];
            j = j + 1;
        }
        self.dma_active = false;
        self.dma_remaining = 0;
    }

    /// The currently mapped 32 KiB of cartridge ROM, banks applied.
    pub fn rom(&self) -> (r: Vec<u8>)
        requires
            self.wf(),
        ensures
            r.len() == 0x8000,
            forall|i: int| 0 <= i < 0x8000 ==> r[i] == raw_byte(*self, i),
    {
        let mut out: Vec<u8> = Vec::new();
        let mut i: usize = 0;
        while i < 0x8000
            invariant
                self.wf(),
                0 <= i <= 0x8000,
                out.len() == i,
                forall|j: int| 0 <= j < i ==> out[j] == raw_byte(*self, j),
            decreases 0x8000 - i,
        {
            let b = self.read_raw(i);
            out.push(b);
            i = i + 1;
        }
        out
    }

    /// A copy of video RAM.
    pub fn get_vram(&self) -> (r: Vec<u8>)
        requires
            self.wf(),
        ensures
            r@ == self.block@.subrange(0x8000, 0xa000),
    {
        copy_range(&self.block, 0x8000, 0xa000)
    }

    /// A copy of the 160-byte object attribute memory.
    pub fn get_oam(&self) -> (r: Vec<u8>)
        requires
            self.wf(),
        ensures
            r@ == self.block@.subrange(0xfe00, 0xfea0),
    {
        copy_range(&self.block, 0xfe00, 0xfea0)
    }

    /// A copy of one tile map given as an inclusive address pair.
    pub fn get_tile_map(&self, tile_map_area: [usize; 2]) -> (r: Vec<u8>)
        requires
            self.wf(),
            tile_map_area[0] <= tile_map_area[1] < 0x10000,
        ensures
            r@ == self.block@.subrange(tile_map_area[0] as int, tile_map_area[1] + 1),
    {
        copy_range(&self.block, tile_map_area[0], tile_map_area[1] + 1)
    }

    /// The TAC timer control register.
    pub fn get_tac(&self) -> (r: u8)
        requires
            self.wf(),
        ensures
            r == self.block[registers::TAC as int],
    {
        self.block[registers::TAC]
    }

    /// The interrupt request register IF.
    pub fn get_interrupt_flag(&self) -> (r: u8)
        requires
            self.wf(),
        ensures
            r == self.block[IF as int],
    {
        self.block[IF]
    }

    /// Write the interrupt enable register IE through the bus.
    pub fn set_interrupt_registers(&mut self, value: u8)
        requires
            old(self).wf(),
        ensures
            final(self).wf(),
            write_rel(*old(self), *final(self), 0xffff, value),
    {
        self.write(0xffff, value);
    }

    /// The interrupt enable register IE.
    pub fn get_interrupt_registers(&self) -> (r: u8)
        requires
            self.wf(),
        ensures
            r == self.block[0xffff],
    {
        self.block[0xffff]
    }
}

impl Memory {
    /// The decoded LCDC register.
    pub fn lcd_control(&self) -> (r: crate::io::LcdControl)
        requires
            self.wf(),
        ensures
            r.lcd_ppu_enable == (self.block[registers::LCDC as int] & 0x80 != 0),
            r.window_enable == (self.block[registers::LCDC as int] & 0x20 != 0),
            r.obj_size == (self.block[registers::LCDC as int] & 0x04) / 4,
            r.obj_enable == (self.block[registers::LCDC as int] & 0x02 != 0),
            r.bg_window_enable == (self.block[registers::LCDC as int] & 0x01 != 0),
    {
        crate::io::LcdControl::from_byte(self.block[registers::LCDC])
    }

    /// The decoded STAT register.
    pub fn lcd_status(&self) -> (r: crate::io::LcdStatus)
        requires
            self.wf(),
        ensures
            r.lyc_int_select == (self.block[STAT as int] & 0x40 != 0),
            r.mode_2_int_select == (self.block[STAT as int] & 0x20 != 0),
            r.mode_1_int_select == (self.block[STAT as int] & 0x10 != 0),
            r.mode_0_int_select == (self.block[STAT as int] & 0x08 != 0),
            r.lyu_lc == (self.block[STAT as int] & 0x04 != 0),
            r.ppu_mode == self.block[STAT as int] & 0x03,
    {
        crate::io::LcdStatus::from_byte(self.block[STAT])
    }

    /// The decoded TAC register.
    pub fn timer_control(&self) -> (r: crate::io::TimerControl)
        requires
            self.wf(),
        ensures
            r.enable == (self.block[registers::TAC as int] & 0x04 != 0),
            r.increment == crate::io::tac_period(self.block[registers::TAC as int]),
    {
        crate::io::TimerControl::from_byte(self.block[registers::TAC])
    }

    /// Decode the 16-byte tile at a backing-array offset into 64 grey-level
    /// pixels, row after row.
    fn decode_tile_at(&self, base: usize) -> (r: Vec<u8>)
        requires
            self.wf(),
            base + 16 <= 0x10000,
        ensures
            r.len() == 64,
            forall|k: int|
                0 <= k < 64 ==> #[trigger] r[k] == crate::palette_spec(
                    crate::tile_pixel(self.block@.subrange(base as int, base + 16), k / 8, k % 8),
                ),
    {
        let mut out: Vec<u8> = Vec::new();
        let mut k: usize = 0;
        while k < 64
            invariant
                self.wf(),
                base + 16 <= 0x10000,
                0 <= k <= 64,
                out.len() == k,
                forall|q: int|
                    0 <= q < k ==> #[trigger] out[q] == crate::palette_spec(
                        crate::tile_pixel(
                            self.block@.subrange(base as int, base + 16),
                            q / 8,
                            q % 8,
                        ),
                    ),
            decreases 64 - k,
        {
            let i = k / 8;
            let j = (k % 8) as u8;
            let low = self.block[base + 2 * i];
            let high = self.block[base + 2 * i + 1];
            let pixel = ((low >> j) & 1) | (((high >> j) & 1) << 1);
            out.push(crate::palette(pixel));
            k = k + 1;
        }
        out
    }

    /// Decode the two selected 2-KiB tile data blocks into 128 tiles of 64
    /// grey-level pixels each.
    pub fn get_tile_data(&self, tile_data_area: [[usize; 2]; 2]) -> (r: (Vec<Vec<u8>>, Vec<Vec<
        u8,
    >>))
        requires
            self.wf(),
            tile_data_area[0][0] + 0x800 <= 0x10000,
            tile_data_area[1][0] + 0x800 <= 0x10000,
        ensures
            r.0.len() == 128,
            r.1.len() == 128,
            forall|t: int| 0 <= t < 128 ==> #[trigger] r.0[t]@.len() == 64,
            forall|t: int| 0 <= t < 128 ==> #[trigger] r.1[t]@.len() == 64,
            forall|t: int, k: int|
                0 <= t < 128 && 0 <= k < 64 ==> #[trigger] r.0[t]@[k] == crate::palette_spec(
                    crate::tile_pixel(
                        self.block@.subrange(
                            tile_data_area[0][0] + 16 * t,
                            tile_data_area[0][0] + 16 * t + 16,
                        ),
                        k / 8,
                        k % 8,
                    ),
                ),
            forall|t: int, k: int|
                0 <= t < 128 && 0 <= k < 64 ==> #[trigger] r.1[t]@[k] == crate::palette_spec(
                    crate::tile_pixel(
                        self.block@.subrange(
                            tile_data_area[1][0] + 16 * t,
                            tile_data_area[1][0] + 16 * t + 16,
                        ),
                        k / 8,
                        k % 8,
                    ),
                ),
    {
        let b0 = self.decode_tile_block(tile_data_area[0][0]);
        let b1 = self.decode_tile_block(tile_data_area[1][0]);
        (b0, b1)
    }

    /// Decode the 128 tiles of one 2-KiB tile data block.
    fn decode_tile_block(&self, start: usize) -> (r: Vec<Vec<u8>>)
        requires
            self.wf(),
            start + 0x800 <= 0x10000,
        ensures
            r.len() == 128,
            forall|t: int| 0 <= t < 128 ==> #[trigger] r[t]@.len() == 64,
            forall|t: int, k: int|
                0 <= t < 128 && 0 <= k < 64 ==> #[trigger] r[t]@[k] == crate::palette_spec(
                    crate::tile_pixel(
                        self.block@.subrange(start + 16 * t, start + 16 * t + 16),
                        k / 8,
                        k % 8,
                    ),
                ),
    {
        let mut out: Vec<Vec<u8>> = Vec::new();
        let mut t: usize = 0;
        while t < 128
            invariant
                self.wf(),
                start + 0x800 <= 0x10000,
                0 <= t <= 128,
                out.len() == t,
                forall|q: int| 0 <= q < t ==> #[trigger] out[q]@.len() == 64,
                forall|q: int, k: int|
                    0 <= q < t && 0 <= k < 64 ==> #[trigger] out[q]@[k] == crate::palette_spec(
                        crate::tile_pixel(
                            self.block@.subrange(start + 16 * q, start + 16 * q + 16),
                            k / 8,
                            k % 8,
                        ),
                    ),
            decreases 128 - t,
        {
            let tile = self.decode_tile_at(start + 16 * t);
            out.push(tile);
            t = t + 1;
        }
        out
    }
}

impl Default for Memory {
    /// An empty bus with no cartridge contents: all of memory zero, every
    /// region accessible, the banking state at power-on.
    fn default() -> (r: Self)
        ensures
            r.wf(),
            !r.dma_active,
            r.oam_accessible,
            r.vram_accessible,
    {
        Memory {
            block: alloc_zeroed(0x10000),
            cartridge: Cartridge {
                rom: Vec::new(),
                cartridge_type: CartridgeType::RomOnly,
                logo: Vec::new(),
                title: Vec::new(),
                cgb_flag: false,
                rom_size: 2,
                ram_size: crate::cartridge::RamSize::Zero,
            },
            oam_accessible: true,
            vram_accessible: true,
            rom_banks: Vec::new(),
            mbc: Mbc::default(),
            ext_ram: Vec::new(),
            div_counter: 0,
            dma_active: false,
            dma_source: 0,
            dma_remaining: 0,
        }
    }
}

/// The always-writable plain RAM regions: work RAM and HRAM.
pub open spec fn plain_ram(addr: int) -> bool {
    (0xc000 <= addr < 0xe000) || (0xff80 <= addr <= 0xfffe)
}

/// Whether a write to `addr` lands in backing storage right now: plain RAM
/// and the echo region always, VRAM and OAM when the PPU releases them,
/// external RAM when enabled and backed, and the IE register.
pub open spec fn writable_now(m: Memory, addr: int) -> bool {
    ||| plain_ram(addr)
    ||| (0xe000 <= addr < 0xfe00)
    ||| (0x8000 <= addr < 0xa000 && m.vram_accessible)
    ||| (0xfe00 <= addr < 0xfea0 && m.oam_accessible)
    ||| (0xa000 <= addr < 0xc000 && ram_writable(m, addr - 0xa000))
    ||| addr == 0xffff
}

/// A write to a currently writable address is read back unchanged: storing
/// a byte and loading it again through the bus yields the same byte.
pub proof fn lemma_write_read_roundtrip(a: Memory, b: Memory, addr: int, v: u8)
    requires
        a.wf(),
        !a.dma_active,
        0 <= addr < 0x10000,
        writable_now(a, addr),
        write_rel(a, b, addr, v),
    ensures
        read_spec(b, addr) == v,
{
}

/// Writes through the bus never mutate ROM storage, wherever they land:
/// the cartridge, its ROM image included, is untouched.
pub proof fn lemma_write_preserves_rom(a: Memory, b: Memory, addr: int, v: u8)
    requires
        write_rel(a, b, addr, v),
    ensures
        b.cartridge == a.cartridge,
        b.cartridge.rom@ == a.cartridge.rom@,
{
}

/// The ROM byte a read of the cartridge region returns: the address behind
/// the bank mapping.
pub open spec fn rom_map(m: Memory, addr: int) -> int {
    if addr < 0x4000 {
        low_bank(m) * 0x4000 + addr
    } else {
        high_bank(m) * 0x4000 + (addr - 0x4000)
    }
}

/// MBC write-through: a write to 0x0000-0x7FFF is a control message; it
/// leaves every byte of storage as it was, moves only the bank registers,
/// and a subsequent read from the ROM region returns the byte of the
/// original image that the new bank mapping names.
pub proof fn lemma_mbc_write_through(a: Memory, b: Memory, waddr: int, v: u8, raddr: int)
    requires
        a.wf(),
        !a.dma_active,
        0 <= waddr < 0x8000,
        0 <= raddr < 0x8000,
        write_rel(a, b, waddr, v),
    ensures
        b.cartridge.rom@ == a.cartridge.rom@,
        b.block@ == a.block@,
        b.ext_ram@ == a.ext_ram@,
        b.mbc == mbc_write_spec(a.mbc, a.cartridge.cartridge_type, waddr, v),
        read_spec(b, raddr) == rom_read(a.cartridge.rom@, rom_map(b, raddr)),
{
}

/// The bank list is the ROM image cut into 16-KiB pieces.
pub open spec fn rom_bank_split(banks: Seq<Vec<u8>>, rom: Seq<u8>) -> bool {
    &&& banks.len() == rom.len() / 0x4000
    &&& forall|j: int|
        0 <= j < banks.len() ==> #[trigger] banks[j]@ == rom.subrange(
            j * 0x4000,
            j * 0x4000 + 0x4000,
        )
}

/// A fresh vector of zero bytes.
pub(crate) fn alloc_zeroed(n: usize) -> (r: Vec<u8>)
    ensures
        r.len() == n,
        forall|i: int| 0 <= i < n ==> r[i] == 0,
{
    let mut out: Vec<u8> = Vec::new();
    let mut i: usize = 0;
    while i < n
        invariant
            0 <= i <= n,
            out.len() == i,
            forall|j: int| 0 <= j < i ==> out[j] == 0,
        decreases n - i,
    {
        out.push(0);
        i = i + 1;
    }
    out
}

} // verus!
