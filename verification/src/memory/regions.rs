use vstd::prelude::*;

verus! {

/// Bounds of the fixed regions of the 64 KiB guest address space.
pub const ROM_BANK_0_START: usize = 0x0000;

pub const ROM_BANK_0_END: usize = 0x3fff;

pub const ROM_BANK_1_START: usize = 0x4000;

pub const ROM_BANK_1_END: usize = 0x7fff;

pub const TILE_BLOCK_0_START: usize = 0x8000;

pub const TILE_BLOCK_0_END: usize = 0x87ff;

pub const TILE_BLOCK_1_START: usize = 0x8800;

pub const TILE_BLOCK_1_END: usize = 0x8fff;

pub const TILE_BLOCK_2_START: usize = 0x9000;

pub const TILE_BLOCK_2_END: usize = 0x97ff;

pub const VRAM_START: usize = 0x8000;

pub const VRAM_END: usize = 0x9fff;

pub const EXTERNAL_RAM_START: usize = 0xa000;

pub const EXTERNAL_RAM_END: usize = 0xbfff;

pub const WRAM_1_START: usize = 0xc000;

pub const WRAM_1_END: usize = 0xcfff;

pub const WRAM_2_START: usize = 0xd000;

pub const WRAM_2_END: usize = 0xdfff;

pub const ECHO_RAM_START: usize = 0xe000;

pub const ECHO_RAM_END: usize = 0xfdff;

pub const OAM_START: usize = 0xfe00;

pub const OAM_END: usize = 0xfe9f;

pub const IO_REGISTER_START: usize = 0xff00;

pub const IO_REGISTER_END: usize = 0xff7f;

pub const HRAM_START: usize = 0xff80;

pub const HRAM_END: usize = 0xfffe;

pub const INTERRUPT_FLAG: usize = 0xff0f;

pub const INTERRUPT_ENABLE_REGISTER: usize = 0xffff;

} // verus!
