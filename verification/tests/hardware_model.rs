use gbr::cartridge::{Cartridge, CartridgeType, RamSize};
use gbr::errors::CartridgeError;
use gbr::interrupts::{pending, Interrupt};
use gbr::io::joypad::{Direction, Joypad, JoypadBank};
use gbr::io::{LcdControl, LcdStatus, TimerControl};
use gbr::memory::Memory;

fn flat_rom(len: usize) -> Vec<u8> {
    vec![0u8; len]
}

fn mbc1_rom(banks: usize) -> Vec<u8> {
    let mut rom = vec![0u8; banks * 0x4000];
    rom[0x147] = 0x01;
    rom[0x148] = match banks {
        2 => 0x00,
        4 => 0x01,
        8 => 0x02,
        _ => 0x02,
    };
    for b in 0..banks {
        rom[b * 0x4000] = b as u8;
    }
    rom
}

#[test]
fn test_decode_tile() {}

#[test]
fn decode_tile_maps_bit_pairs_through_palette() {
    let mut tile = vec![0u8; 16];
    tile[0] = 0b0000_0001;
    tile[1] = 0b0000_0011;
    let rows = gbr::decode_tile(&tile);
    assert_eq!(rows.len(), 8);
    // bit 0 of row 0: low bit 1, high bit 1 -> colour 3 -> darkest
    assert_eq!(rows[0][0], 0);
    // bit 1 of row 0: low bit 0, high bit 1 -> colour 2
    assert_eq!(rows[0][1], 85);
    // bit 2 of row 0: both clear -> colour 0 -> lightest
    assert_eq!(rows[0][2], 255);
}

#[test]
fn cartridge_header_errors_name_the_byte() {
    assert!(matches!(Cartridge::new(vec![]), Err(CartridgeError::Truncated)));
    let mut rom = flat_rom(0x8000);
    rom[0x147] = 0x04;
    assert!(matches!(Cartridge::new(rom), Err(CartridgeError::InvalidHardware(0x04))));
    let mut rom = flat_rom(0x8000);
    rom[0x148] = 0x09;
    assert!(matches!(Cartridge::new(rom), Err(CartridgeError::InvalidRomSize(0x09))));
    let mut rom = flat_rom(0x8000);
    rom[0x149] = 0x06;
    assert!(matches!(Cartridge::new(rom), Err(CartridgeError::InvalidRamSize(0x06))));
}

#[test]
fn cartridge_header_decodes() {
    let mut rom = flat_rom(0x8000);
    rom[0x147] = 0x03;
    rom[0x148] = 0x01;
    rom[0x149] = 0x02;
    let c = Cartridge::new(rom).unwrap();
    assert!(matches!(c.cartridge_type, CartridgeType::MBC1 { ram: true, battery: true }));
    assert_eq!(c.rom_size, 4);
    assert!(matches!(c.ram_size, RamSize::Ram8KiB(1)));
}

#[test]
fn mbc1_bank_select_maps_bank_zero_to_one() {
    let rom = mbc1_rom(8);
    let expected5 = rom[5 * 0x4000];
    let expected1 = rom[1 * 0x4000];
    let mut mem = Memory::new(Cartridge::new(rom).unwrap());
    mem.write(0x2100, 0x05);
    assert_eq!(mem.read(0x4000), expected5);
    mem.write(0x2100, 0x00);
    assert_eq!(mem.read(0x4000), expected1);
}

#[test]
fn rom_range_writes_never_stick() {
    let rom = mbc1_rom(2);
    let expected = rom[0x420];
    let mut mem = Memory::new(Cartridge::new(rom).unwrap());
    mem.write(0x0420, 0xaa);
    assert_eq!(mem.read(0x0420), expected);
}

#[test]
fn external_ram_respects_enable_latch() {
    let mut rom = flat_rom(0x8000);
    rom[0x147] = 0x03;
    rom[0x149] = 0x02;
    let mut mem = Memory::new(Cartridge::new(rom).unwrap());
    mem.write(0xa000, 0x55);
    assert_eq!(mem.read(0xa000), 0xff);
    mem.write(0x0000, 0x0a);
    mem.write(0xa000, 0x55);
    assert_eq!(mem.read(0xa000), 0x55);
    mem.write(0x0000, 0x00);
    assert_eq!(mem.read(0xa000), 0xff);
}

#[test]
fn echo_region_mirrors_work_ram() {
    let mut mem = Memory::new(Cartridge::new(flat_rom(0x8000)).unwrap());
    mem.write(0xc123, 0x99);
    assert_eq!(mem.read(0xe123), 0x99);
    mem.write(0xe200, 0x77);
    assert_eq!(mem.read(0xc200), 0x77);
}

#[test]
fn stored_accumulator_reads_back_from_writable_regions() {
    let mut cpu = gbr::cpu::Cpu::default();
    let mut mem = Memory::new(Cartridge::new(flat_rom(0x8000)).unwrap());
    cpu.registers.set_r8(gbr::cpu::R8::A, 0x42);
    gbr::instructions::load::ld_a_immed_n16(0xc123, &mut cpu, &mut mem).unwrap();
    cpu.registers.set_r8(gbr::cpu::R8::A, 0x00);
    gbr::instructions::load::ld_immed_n16_a(0xc123, &mut cpu, &mut mem).unwrap();
    assert_eq!(cpu.registers.a, 0x42);
}

#[test]
fn oam_dma_locks_the_bus_for_160_cycles() {
    let mut mem = Memory::new(Cartridge::new(flat_rom(0x8000)).unwrap());
    let mut i = 0usize;
    while i < 160 {
        mem.write(0xc000 + i, (i % 256) as u8);
        i += 1;
    }
    mem.write(0xff80, 0x5a);
    mem.write(0xff46, 0xc0);
    assert_eq!(mem.read(0xc000), 0xff);
    assert_eq!(mem.read(0x8000), 0xff);
    assert_eq!(mem.read(0xff80), 0x5a);
    let mut k = 0;
    while k < 160 {
        mem.dma_step();
        k += 1;
    }
    assert_eq!(mem.read(0xfe00), 0x00);
    assert_eq!(mem.read(0xfe01), 0x01);
    assert_eq!(mem.read(0xfe9f), 159);
    assert_eq!(mem.read(0xc000), 0x00);
}

#[test]
fn div_register_reads_counter_high_byte_and_resets() {
    let mut mem = Memory::new(Cartridge::new(flat_rom(0x8000)).unwrap());
    assert_eq!(mem.read(0xff04), 0x18);
    mem.write(0xff04, 0x77);
    assert_eq!(mem.read(0xff04), 0x00);
    let mut i = 0;
    while i < 256 {
        mem.inc_div();
        i += 1;
    }
    assert_eq!(mem.read(0xff04), 0x00);
}

#[test]
fn tima_overflow_reloads_and_requests_timer() {
    let mut mem = Memory::new(Cartridge::new(flat_rom(0x8000)).unwrap());
    mem.write(0xff06, 0x42);
    mem.write(0xff05, 0xff);
    mem.write(0xff0f, 0x00);
    mem.inc_tima();
    assert_eq!(mem.read(0xff05), 0x42);
    assert_eq!(mem.read(0xff0f) & 0x04, 0x04);
}

#[test]
fn ly_writes_are_ignored() {
    let mut mem = Memory::new(Cartridge::new(flat_rom(0x8000)).unwrap());
    mem.write(0xff44, 0x55);
    assert_eq!(mem.read(0xff44), 0x00);
}

#[test]
fn stat_low_bits_are_read_only() {
    let mut mem = Memory::new(Cartridge::new(flat_rom(0x8000)).unwrap());
    let before = mem.read(0xff41);
    mem.write(0xff41, 0xff);
    let after = mem.read(0xff41);
    assert_eq!(after & 0x07, before & 0x07);
    assert_eq!(after & 0xf8, 0xf8);
}

#[test]
fn pending_respects_masks_and_master_enable() {
    assert!(pending(0x00, 0xff, true).is_none());
    assert!(pending(0xff, 0xff, false).is_none());
    assert!(matches!(pending(0x01, 0x01, true), Some(Interrupt::VBlank)));
    assert!(matches!(pending(0x1f, 0x12, true), Some(Interrupt::Stat)));
    assert!(matches!(Interrupt::get_interrupt(&0x10), Some(Interrupt::Joypad)));
    assert!(Interrupt::get_interrupt(&0x00).is_none());
    assert_eq!(Interrupt::Timer.vector(), 0x50);
    assert_eq!(Interrupt::Serial.mask(), 0x08);
}

#[test]
fn oam_scan_selects_at_most_ten_sprites() {
    let mut mem = Memory::new(Cartridge::new(flat_rom(0x8000)).unwrap());
    let mut i = 0usize;
    while i < 40 {
        mem.block[0xfe00 + 4 * i] = 16;
        mem.block[0xfe00 + 4 * i + 1] = 8;
        i += 1;
    }
    let mut ppu = gbr::display::Ppu::new();
    ppu.oam_scan(&mut mem, 0);
    assert_eq!(ppu.sprite_buffer.len(), 10);
    ppu.oam_scan(&mut mem, 100);
    assert_eq!(ppu.sprite_buffer.len(), 0);
}

#[test]
fn background_row_renders_through_palette() {
    let mut mem = Memory::new(Cartridge::new(flat_rom(0x8000)).unwrap());
    // tile 0 row 0: all pixels colour 1; boot BGP 0xfc maps 1 to shade 3
    mem.write(0x8000, 0xff);
    mem.write(0x8001, 0x00);
    let mut ppu = gbr::display::Ppu::new();
    ppu.render_scanline(&mut mem, 0);
    assert_eq!(ppu.frame_buffer[0], 3);
    assert_eq!(ppu.frame_buffer[159], 3);
}

#[test]
fn joypad_register_decodes_banks() {
    let mut j = Joypad::new(0x11);
    assert!(matches!(j.active(), Ok(JoypadBank::SelectDPad(Direction::Right))));
    let mut j = Joypad::new(0x00);
    assert!(matches!(j.active(), Ok(JoypadBank::AllReleased)));
    let mut j = Joypad::new(0x1f);
    assert!(j.active().is_err());
}

#[test]
fn io_register_decoders() {
    let lcdc = LcdControl::from_byte(0x91);
    assert!(lcdc.lcd_ppu_enable);
    assert!(lcdc.bg_window_enable);
    assert_eq!(lcdc.tile_data_area[0][0], 0x8000);
    assert_eq!(lcdc.bg_tile_map_area[0], 0x9800);
    let stat = LcdStatus::from_byte(0x45);
    assert!(stat.lyc_int_select);
    assert!(stat.lyu_lc);
    assert_eq!(stat.ppu_mode, 1);
    let tac = TimerControl::from_byte(0x05);
    assert!(tac.enable);
    assert_eq!(tac.increment, 4);
    assert_eq!(tac.freq_single_speed, 262144);
}

#[test]
fn byte_readers_are_little_endian() {
    let bytes = vec![0x01u8, 0x34, 0x12];
    assert_eq!(gbr::get_u8(&bytes, 1).unwrap(), 0x34);
    assert_eq!(gbr::get_i8(&bytes, 2).unwrap(), 0x12);
    assert_eq!(gbr::get_u16(&bytes, 1).unwrap(), 0x1234);
    assert_eq!(gbr::get_i16(&bytes, 1).unwrap(), 0x1234);
    assert!(gbr::get_u16(&bytes, 2).is_err());
    assert!(gbr::get_u8(&bytes, 3).is_err());
    assert_eq!(gbr::extract_bytes(0xbeef), (0xbe, 0xef));
}

#[test]
fn bus_views_expose_the_mapped_regions() {
    let rom = mbc1_rom(4);
    let mut mem = Memory::new(Cartridge::new(rom).unwrap());
    let view = mem.rom();
    assert_eq!(view.len(), 0x8000);
    assert_eq!(view[0], 0);
    assert_eq!(view[0x4000], 1);
    mem.write(0x8123, 0x5c);
    let vram = mem.get_vram();
    assert_eq!(vram.len(), 0x2000);
    assert_eq!(vram[0x123], 0x5c);
    let oam = mem.get_oam();
    assert_eq!(oam.len(), 160);
    let map = mem.get_tile_map([0x9800, 0x9bff]);
    assert_eq!(map.len(), 0x400);
    let (b0, b1) = mem.get_tile_data([[0x8000, 0x87ff], [0x8800, 0x8fff]]);
    assert_eq!(b0.len(), 128);
    assert_eq!(b1.len(), 128);
    assert_eq!(b0[0].len(), 64);
    let lcdc = mem.lcd_control();
    assert!(lcdc.lcd_ppu_enable);
    let stat = mem.lcd_status();
    assert_eq!(stat.ppu_mode, 1);
    let tac = mem.timer_control();
    assert!(!tac.enable);
    mem.set_interrupt_registers(0x1f);
    assert_eq!(mem.get_interrupt_registers(), 0x1f);
    assert_eq!(mem.get_interrupt_flag(), 0xe1);
}

#[test]
fn window_overrides_background_and_counts_lines() {
    let mut mem = Memory::new(Cartridge::new(flat_rom(0x8000)).unwrap());
    // window on (bit 5), window map at 0x9C00 (bit 6), tiles at 0x8000
    mem.write(0xff40, 0xf1);
    mem.write(0xff47, 0xe4);
    mem.write(0xff4a, 0x00);
    mem.write(0xff4b, 0x07);
    // tile 0 row 0: every pixel colour 2
    mem.write(0x8000, 0x00);
    mem.write(0x8001, 0xff);
    let mut ppu = gbr::display::Ppu::new();
    ppu.render_scanline(&mut mem, 0);
    assert_eq!(ppu.frame_buffer[0], 2);
    assert_eq!(ppu.frame_buffer[159], 2);
    assert_eq!(ppu.window_line, 1);
}

#[test]
fn opaque_sprite_wins_over_background_colour_zero() {
    let mut mem = Memory::new(Cartridge::new(flat_rom(0x8000)).unwrap());
    // objects on, identity palettes
    mem.write(0xff40, 0x93);
    mem.write(0xff47, 0xe4);
    mem.write(0xff48, 0xe4);
    // sprite 0 at the top-left corner, tile 1
    mem.write(0xfe00, 16);
    mem.write(0xfe01, 8);
    mem.write(0xfe02, 1);
    mem.write(0xfe03, 0);
    // tile 1 row 0: every pixel colour 3
    mem.write(0x8010, 0xff);
    mem.write(0x8011, 0xff);
    let mut ppu = gbr::display::Ppu::new();
    ppu.oam_scan(&mut mem, 0);
    assert_eq!(ppu.sprite_buffer.len(), 1);
    ppu.render_scanline(&mut mem, 0);
    assert_eq!(ppu.frame_buffer[0], 3);
    assert_eq!(ppu.frame_buffer[7], 3);
    assert_eq!(ppu.frame_buffer[8], 0);
}

#[test]
fn daa_adjusts_after_addition() {
    let mut cpu = gbr::cpu::Cpu::default();
    cpu.registers.set_r8(gbr::cpu::R8::A, 0x15);
    gbr::instructions::arithmetic_8bit::add_a_n8(0x27, &mut cpu).unwrap();
    assert_eq!(cpu.registers.a, 0x3c);
    gbr::instructions::misc::daa(&mut cpu).unwrap();
    assert_eq!(cpu.registers.a, 0x42);
    assert!(!cpu.registers.flags.carry);
}
