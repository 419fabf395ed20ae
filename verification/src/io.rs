use vstd::prelude::*;

pub mod joypad;

verus! {

/// I/O ranges of the peripherals.
pub const JOYPAD_INPUT: u16 = 0xff00;

pub const SERIAL_TRANSFER_START: u16 = 0xff01;

pub const SERIAL_TRANSFER_END: u16 = 0xff02;

pub const TIMER_DIVIDER_START: u16 = 0xff04;

pub const TIMER_DIVIDER_END: u16 = 0xff07;

pub const INTERRUPTS: u16 = 0xff0f;

pub const AUDIO_START: u16 = 0xff10;

pub const AUDIO_END: u16 = 0xff26;

pub const WAVE_PATTERN_START: u16 = 0xff30;

pub const WAVE_PATTERN_END: u16 = 0xff3f;

pub const LCD_CONTROL_START: u16 = 0xff40;

pub const LCD_CONTROL_END: u16 = 0xff4b;

pub const VRAM_BANK_SELECT: u16 = 0xff4f;

pub const DISABLE_BOOT_ROM: u16 = 0xff50;

pub const VRAM_DMA_START: u16 = 0xff51;

pub const VRAM_DMA_END: u16 = 0xff55;

pub const BG_OBJ_PALETTE_START: u16 = 0xff68;

pub const BG_OBJ_PALETTE_END: u16 = 0xff6b;

pub const WRAM_BANK_SELECT: u16 = 0xff70;

/// The decoded LCDC register: enables and the address windows the bits
/// select, each window an inclusive address pair.
#[derive(Debug, Copy, Clone)]
pub struct LcdControl {
    pub lcd_ppu_enable: bool,
    pub window_tile_map_area: [usize; 2],
    pub bg_tile_map_area: [usize; 2],
    pub window_enable: bool,
    pub tile_data_area: [[usize; 2]; 2],
    pub obj_size: u8,
    pub obj_enable: bool,
    pub bg_window_enable: bool,
}

impl LcdControl {
    /// Decode an LCDC register byte into its fields: bit 7 LCD enable, bit 6
    /// the window tile map window, bit 5 window enable, bit 4 the tile data
    /// blocks, bit 3 the background tile map window, bit 2 object size,
    /// bit 1 object enable, bit 0 background/window enable.
    pub fn from_byte(value: u8) -> (r: Self)
        ensures
            r.lcd_ppu_enable == (value & 0x80 != 0),
            value & 0x40 == 0 ==> r.window_tile_map_area[0] == 0x9800
                && r.window_tile_map_area[1] == 0x9bff,
            value & 0x40 != 0 ==> r.window_tile_map_area[0] == 0x9c00
                && r.window_tile_map_area[1] == 0x9fff,
            r.window_enable == (value & 0x20 != 0),
            value & 0x10 == 0 ==> r.tile_data_area[0][0] == 0x8800 && r.tile_data_area[0][1]
                == 0x8fff && r.tile_data_area[1][0] == 0x9000 && r.tile_data_area[1][1] == 0x97ff,
            value & 0x10 != 0 ==> r.tile_data_area[0][0] == 0x8000 && r.tile_data_area[0][1]
                == 0x87ff && r.tile_data_area[1][0] == 0x8800 && r.tile_data_area[1][1] == 0x8fff,
            value & 0x08 == 0 ==> r.bg_tile_map_area[0] == 0x9800 && r.bg_tile_map_area[1]
                == 0x9bff,
            value & 0x08 != 0 ==> r.bg_tile_map_area[0] == 0x9c00 && r.bg_tile_map_area[1]
                == 0x9fff,
            r.obj_size == (value & 0x04) / 4,
            r.obj_enable == (value & 0x02 != 0),
            r.bg_window_enable == (value & 0x01 != 0),
    {
        let window_tile_map_area: [usize; 2] = if value & 0x40 != 0 {
            [0x9c00, 0x9fff]
        } else {
            [0x9800, 0x9bff]
        };
        let tile_data_area: [[usize; 2]; 2] = if value & 0x10 != 0 {
            [[0x8000, 0x87ff], [0x8800, 0x8fff]]
        } else {
            [[0x8800, 0x8fff], [0x9000, 0x97ff]]
        };
        let bg_tile_map_area: [usize; 2] = if value & 0x08 != 0 {
            [0x9c00, 0x9fff]
        } else {
            [0x9800, 0x9bff]
        };
        LcdControl {
            lcd_ppu_enable: value & 0x80 != 0,
            window_tile_map_area,
            window_enable: value & 0x20 != 0,
            tile_data_area,
            bg_tile_map_area,
            obj_size: (value & 0x04) / 4,
            obj_enable: value & 0x02 != 0,
            bg_window_enable: value & 0x01 != 0,
        }
    }
}

/// The decoded STAT register: the interrupt source selects, the LYC==LY
/// flag, and the two PPU mode bits.
#[derive(Debug, Copy, Clone)]
pub struct LcdStatus {
    pub lyc_int_select: bool,
    pub mode_2_int_select: bool,
    pub mode_1_int_select: bool,
    pub mode_0_int_select: bool,
    pub lyu_lc: bool,
    pub ppu_mode: u8,
}

impl LcdStatus {
    /// Decode a STAT register byte: bit 6 the LYC select, bits 5..3 the mode
    /// selects, bit 2 the LYC==LY flag, bits 1..0 the PPU mode.
    pub fn from_byte(value: u8) -> (r: Self)
        ensures
            r.lyc_int_select == (value & 0x40 != 0),
            r.mode_2_int_select == (value & 0x20 != 0),
            r.mode_1_int_select == (value & 0x10 != 0),
            r.mode_0_int_select == (value & 0x08 != 0),
            r.lyu_lc == (value & 0x04 != 0),
            r.ppu_mode == value & 0x03,
    {
        LcdStatus {
            lyc_int_select: value & 0x40 != 0,
            mode_2_int_select: value & 0x20 != 0,
            mode_1_int_select: value & 0x10 != 0,
            mode_0_int_select: value & 0x08 != 0,
            lyu_lc: value & 0x04 != 0,
            ppu_mode: value & 0x03,
        }
    }
}

/// The number of M-cycles between TIMA increments selected by the low two
/// bits of TAC: 4096, 262144, 65536 and 16384 Hz.
pub open spec fn tac_period(tac: u8) -> int {
    if tac % 4 == 0 {
        256
    } else if tac % 4 == 1 {
        4
    } else if tac % 4 == 2 {
        16
    } else {
        64
    }
}

/// The decoded TAC register: the timer enable and the selected frequency,
/// given both as the M-cycle period of a TIMA increment and in Hertz.
#[derive(Debug, Copy, Clone)]
pub struct TimerControl {
    pub enable: bool,
    pub increment: u16,
    pub freq_single_speed: usize,
    pub freq_sgb1: usize,
    pub freq_double_speed: usize,
}

impl TimerControl {
    /// Decode a TAC register byte; every byte decodes, only the low three
    /// bits matter.
    pub fn from_byte(value: u8) -> (r: Self)
        ensures
            r.enable == (value & 0x04 != 0),
            r.increment == tac_period(value),
            value % 4 == 0 ==> r.freq_single_speed == 4096 && r.freq_sgb1 == 4194
                && r.freq_double_speed == 8192,
            value % 4 == 1 ==> r.freq_single_speed == 262144 && r.freq_sgb1 == 268400
                && r.freq_double_speed == 524288,
            value % 4 == 2 ==> r.freq_single_speed == 65536 && r.freq_sgb1 == 67110
                && r.freq_double_speed == 131072,
            value % 4 == 3 ==> r.freq_single_speed == 16384 && r.freq_sgb1 == 16780
                && r.freq_double_speed == 32768,
    {
        let enable = value & 0x04 != 0;
        let freq = value % 4;
        if freq == 0 {
            TimerControl {
                enable,
                increment: 256,
                freq_single_speed: 4096,
                freq_sgb1: 4194,
                freq_double_speed: 8192,
            }
        } else if freq == 1 {
            TimerControl {
                enable,
                increment: 4,
                freq_single_speed: 262144,
                freq_sgb1: 268400,
                freq_double_speed: 524288,
            }
        } else if freq == 2 {
            TimerControl {
                enable,
                increment: 16,
                freq_single_speed: 65536,
                freq_sgb1: 67110,
                freq_double_speed: 131072,
            }
        } else {
            TimerControl {
                enable,
                increment: 64,
                freq_single_speed: 16384,
                freq_sgb1: 16780,
                freq_double_speed: 32768,
            }
        }
    }
}

} // verus!
