use gbr::display::PpuMode;
use gbr::errors::SystemError;
use gbr::system::System;

fn boot_rom() -> Vec<u8> {
    vec![0u8; 0x8000]
}

#[test]
fn boot_register_state() {
    let sys = System::new(boot_rom()).unwrap();
    assert_eq!(sys.cpu.registers.af, 0x01b0);
    assert_eq!(sys.cpu.registers.bc, 0x0013);
    assert_eq!(sys.cpu.registers.de, 0x00d8);
    assert_eq!(sys.cpu.registers.hl, 0x014d);
    assert_eq!(sys.cpu.registers.sp, 0xfffe);
    assert_eq!(sys.cpu.registers.pc, 0x0100);
    let mut sys = sys;
    assert_eq!(sys.mem.read(0xff40), 0x91);
    assert_eq!(sys.mem.read(0xff04), 0x18);
    let stat = sys.mem.read(0xff41);
    let mode_bits = match sys.ppu.mode {
        PpuMode::HorizontalBlank => 0,
        PpuMode::VerticalBlank => 1,
        PpuMode::OAMScan => 2,
        PpuMode::Drawing => 3,
    };
    assert_eq!(stat & 0x03, mode_bits);
}

#[test]
fn truncated_rom_is_refused() {
    assert!(matches!(System::new(vec![0u8; 16]), Err(SystemError::CartridgeError)));
}

#[test]
fn timer_overflow_after_four_nop_cycles() {
    let mut sys = System::new(boot_rom()).unwrap();
    sys.mem.write(0xff07, 0x05);
    sys.mem.write(0xff06, 0x42);
    sys.mem.write(0xff05, 0xff);
    sys.mem.write(0xff0f, 0x00);
    let mut i = 0;
    while i < 4 {
        sys.step().unwrap();
        i += 1;
    }
    assert_eq!(sys.mem.read(0xff05), 0x42);
    assert_eq!(sys.mem.read(0xff0f) & 0x04, 0x04);
}

#[test]
fn vblank_entry_raises_interrupt_and_services_it() {
    let mut sys = System::new(boot_rom()).unwrap();
    sys.mem.write(0xff0f, 0x00);
    let mut guard = 0u32;
    while sys.mem.read(0xff44) < 144 && guard < 100000 {
        sys.step().unwrap();
        guard += 1;
    }
    assert_eq!(sys.mem.read(0xff44), 144);
    assert!(matches!(sys.ppu.mode, PpuMode::VerticalBlank));
    assert_eq!(sys.mem.read(0xff0f) & 0x01, 0x01);
    // now enable and let the service routine dispatch to 0x40
    sys.mem.write(0xffff, 0x01);
    sys.cpu.ime = true;
    let cycles = sys.step().unwrap();
    assert_eq!(cycles, 5);
    assert_eq!(sys.cpu.registers.pc, 0x0040);
    assert!(!sys.cpu.ime);
    assert_eq!(sys.mem.read(0xff0f) & 0x01, 0x00);
}

#[test]
fn masked_interrupts_are_never_serviced() {
    let mut sys = System::new(boot_rom()).unwrap();
    sys.mem.write(0xff0f, 0x04);
    sys.mem.write(0xffff, 0x01);
    sys.cpu.ime = true;
    let pc = sys.cpu.registers.pc;
    let cycles = sys.step().unwrap();
    assert_eq!(cycles, 1);
    assert_eq!(sys.cpu.registers.pc, pc + 1);
    assert!(sys.cpu.ime);
}

#[test]
fn ei_nop_di_leaves_ime_clear() {
    let mut rom = boot_rom();
    rom[0x100] = 0xfb;
    rom[0x101] = 0x00;
    rom[0x102] = 0xf3;
    let mut sys = System::new(rom).unwrap();
    sys.mem.write(0xff0f, 0x00);
    sys.step().unwrap();
    assert!(!sys.cpu.ime);
    sys.step().unwrap();
    assert!(sys.cpu.ime);
    sys.step().unwrap();
    assert!(!sys.cpu.ime);
    assert!(!sys.cpu.ime_pending);
}

#[test]
fn illegal_opcode_stops_the_simulation() {
    let mut rom = boot_rom();
    rom[0x100] = 0xd3;
    let mut sys = System::new(rom).unwrap();
    assert!(matches!(sys.step(), Err(SystemError::IllegalInstruction(0xd3, 0x0100))));
}

#[test]
fn halt_wakes_on_pending_interrupt_without_service() {
    let mut rom = boot_rom();
    rom[0x100] = 0x76;
    let mut sys = System::new(rom).unwrap();
    sys.mem.write(0xff0f, 0x00);
    sys.step().unwrap();
    assert!(sys.cpu.halted);
    sys.step().unwrap();
    assert!(sys.cpu.halted);
    sys.mem.write(0xff0f, 0x04);
    sys.mem.write(0xffff, 0x04);
    sys.step().unwrap();
    assert!(!sys.cpu.halted);
    assert!(!sys.cpu.ime);
    assert_eq!(sys.mem.read(0xff0f) & 0x04, 0x04);
}

#[test]
fn dots_stay_coupled_to_machine_cycles() {
    let mut sys = System::new(boot_rom()).unwrap();
    let mut i = 0;
    while i < 100 {
        sys.step().unwrap();
        i += 1;
    }
    assert_eq!(sys.clock.dots, sys.clock.m_cycles.wrapping_mul(4));
}

#[test]
fn frame_is_published_after_scanline_wrap() {
    let mut sys = System::new(boot_rom()).unwrap();
    let mut guard = 0u32;
    while !sys.frame_ready() && guard < 200000 {
        sys.step().unwrap();
        guard += 1;
    }
    assert!(sys.frame_ready());
    let frame = sys.take_frame();
    assert_eq!(frame.len(), 160 * 144);
    assert!(!sys.frame_ready());
}

#[test]
fn clock_tick_advances_divider() {
    let mut sys = System::new(boot_rom()).unwrap();
    let before = sys.mem.read(0xff04);
    let mut clock = sys.clock;
    let mut i = 0;
    while i < 64 {
        clock.tick(&mut sys.mem);
        i += 1;
    }
    assert_eq!(sys.mem.read(0xff04), before + 1);
}

#[test]
fn small_program_runs_through_the_bus() {
    let mut rom = boot_rom();
    // LD A,0x42 ; LD HL,0xC000 ; LD [HL],A ; LD B,A
    rom[0x100] = 0x3e;
    rom[0x101] = 0x42;
    rom[0x102] = 0x21;
    rom[0x103] = 0x00;
    rom[0x104] = 0xc0;
    rom[0x105] = 0x77;
    rom[0x106] = 0x47;
    let mut sys = System::new(rom).unwrap();
    let mut i = 0;
    while i < 4 {
        sys.step().unwrap();
        i += 1;
    }
    assert_eq!(sys.cpu.registers.a, 0x42);
    assert_eq!(sys.cpu.registers.hl, 0xc000);
    assert_eq!(sys.cpu.registers.b, 0x42);
    assert_eq!(sys.mem.read(0xc000), 0x42);
    assert_eq!(sys.cpu.registers.pc, 0x107);
}

#[test]
fn cb_prefix_dispatches() {
    let mut rom = boot_rom();
    // LD A,0xF0 ; SWAP A ; SET 0,A
    rom[0x100] = 0x3e;
    rom[0x101] = 0xf0;
    rom[0x102] = 0xcb;
    rom[0x103] = 0x37;
    rom[0x104] = 0xcb;
    rom[0x105] = 0xc7;
    let mut sys = System::new(rom).unwrap();
    let mut i = 0;
    while i < 3 {
        sys.step().unwrap();
        i += 1;
    }
    assert_eq!(sys.cpu.registers.a, 0x0f | 0x01);
    assert_eq!(sys.cpu.registers.pc, 0x106);
}

#[test]
fn halt_with_pending_interrupt_and_ime_clear_does_not_halt() {
    let mut rom = boot_rom();
    rom[0x100] = 0x76;
    let mut sys = System::new(rom).unwrap();
    sys.mem.write(0xff0f, 0x04);
    sys.mem.write(0xffff, 0x04);
    sys.step().unwrap();
    assert!(!sys.cpu.halted);
    assert_eq!(sys.cpu.registers.pc, 0x101);
}

#[test]
fn stop_halts_until_a_button_is_held() {
    let mut rom = boot_rom();
    rom[0x100] = 0x10;
    let mut sys = System::new(rom).unwrap();
    sys.step().unwrap();
    assert!(sys.cpu.stopped);
    assert_eq!(sys.cpu.registers.pc, 0x102);
    assert_eq!(sys.mem.read(0xff04), 0x00);
    let mut i = 0;
    while i < 5 {
        sys.step().unwrap();
        assert!(sys.cpu.stopped);
        assert_eq!(sys.cpu.registers.pc, 0x102);
        i += 1;
    }
    sys.mem.set_reg(0xff00, 0xc7);
    sys.step().unwrap();
    assert!(!sys.cpu.stopped);
    sys.step().unwrap();
    assert_eq!(sys.cpu.registers.pc, 0x103);
}

#[test]
fn halt_bug_reads_the_following_byte_twice() {
    let mut rom = boot_rom();
    rom[0x100] = 0x76;
    rom[0x101] = 0x3e;
    rom[0x102] = 0x12;
    let mut sys = System::new(rom).unwrap();
    sys.mem.write(0xff0f, 0x04);
    sys.mem.write(0xffff, 0x04);
    sys.step().unwrap();
    assert!(!sys.cpu.halted);
    assert!(sys.cpu.halt_bug);
    assert_eq!(sys.cpu.registers.pc, 0x101);
    sys.step().unwrap();
    // the byte after HALT served as both the opcode and its own operand,
    // and PC advanced past it only once
    assert_eq!(sys.cpu.registers.a, 0x3e);
    assert_eq!(sys.cpu.registers.pc, 0x102);
    assert!(!sys.cpu.halt_bug);
}
