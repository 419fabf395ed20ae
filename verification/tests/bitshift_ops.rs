use gbr::cartridge::Cartridge;
use gbr::cpu::{Cpu, Flags, R8};
use gbr::instructions::bitshift::{
    rl_hl, rl_r8, rla, rlc_hl, rlc_r8, rlca, rr_hl, rr_r8, rra, sla_hl, sla_r8, sra_hl, sra_r8,
    srl_hl, srl_r8, swap_hl, swap_r8,
};
use gbr::memory::Memory;

#[test]
fn test_rl_r8() {
    let mut cpu = Cpu::default();
    cpu.registers.b = 254;
    rl_r8(R8::B, &mut cpu).unwrap();
    assert_eq!(cpu.registers.b, 0xfd);
    assert_eq!(
        cpu.registers.flags,
        Flags { zero: false, subtraction: false, half_carry: false, carry: true }
    );
}

#[test]
fn test_rl_hl() {
    let mut mem = Memory::new(Cartridge::new(vec![0; 0xffff]).unwrap());
    let mut cpu = Cpu::default();
    cpu.registers.hl = 0xc420;
    let hl = cpu.registers.hl;
    mem.write(hl as usize, 0xfe);
    rl_hl(&mut cpu, &mut mem).unwrap();
    assert_eq!(mem.read(hl as usize), 0xfd);
    assert_eq!(
        cpu.registers.flags,
        Flags { zero: false, subtraction: false, half_carry: false, carry: true }
    );
}

#[test]
fn test_rla() {
    let mut cpu = Cpu::default();
    cpu.registers.set_r8(R8::A, 254);
    rla(&mut cpu).unwrap();
    assert_eq!(cpu.registers.a, 0xfd);
    assert_eq!(
        cpu.registers.flags,
        Flags { zero: false, subtraction: false, half_carry: false, carry: true }
    );
}

#[test]
fn test_rlc_r8() {
    let mut cpu = Cpu::default();
    cpu.registers.set_r8(R8::B, 0x7f);
    rlc_r8(R8::B, &mut cpu).unwrap();
    assert_eq!(cpu.registers.get_r8(R8::B), 0xfe);
    assert_eq!(
        cpu.registers.flags,
        Flags { zero: false, subtraction: false, half_carry: false, carry: false }
    );
}

#[test]
fn test_rlc_hl() {
    let mut mem = Memory::new(Cartridge::new(vec![0; 0xffff]).unwrap());
    let mut cpu = Cpu::default();
    cpu.registers.hl = 0xc420;
    let hl = cpu.registers.hl;
    mem.write(hl as usize, 0x7f);
    rlc_hl(&mut cpu, &mut mem).unwrap();
    let byte = mem.read(hl as usize);
    assert_eq!(byte, 0xfe);
    assert_eq!(
        cpu.registers.flags,
        Flags { zero: false, subtraction: false, half_carry: false, carry: false }
    );

    mem.write(hl as usize, 0xff);
    rlc_hl(&mut cpu, &mut mem).unwrap();
    let byte = mem.read(hl as usize);
    assert_eq!(byte, 0xff);
    assert_eq!(
        cpu.registers.flags,
        Flags { zero: false, subtraction: false, half_carry: false, carry: true }
    );
}

#[test]
fn test_rlca() {
    let mut cpu = Cpu::default();
    cpu.registers.a = 0x7f;
    rlca(&mut cpu).unwrap();
    assert_eq!(cpu.registers.a, 0xfe);
    assert_eq!(
        cpu.registers.flags,
        Flags { zero: false, subtraction: false, half_carry: false, carry: false }
    );
}

#[test]
fn test_rr_r8() {
    let mut cpu = Cpu::default();
    cpu.registers.b = 0x3f;
    rr_r8(R8::B, &mut cpu).unwrap();
    assert_eq!(cpu.registers.b, 0x9f);
    assert_eq!(
        cpu.registers.flags,
        Flags { zero: false, subtraction: false, half_carry: false, carry: true }
    );
}

#[test]
fn test_rr_hl() {
    let mut mem = Memory::new(Cartridge::new(vec![0; 0xffff]).unwrap());
    let mut cpu = Cpu::default();
    cpu.registers.hl = 0xc420;
    let hl = cpu.registers.hl;
    mem.write(hl as usize, 0x3f);
    rr_hl(&mut cpu, &mut mem).unwrap();
    let byte = mem.read(hl as usize);
    assert_eq!(byte, 0x9f);
    assert_eq!(
        cpu.registers.flags,
        Flags { zero: false, subtraction: false, half_carry: false, carry: true }
    );
}

#[test]
fn test_rra() {
    let mut cpu = Cpu::default();
    cpu.registers.a = 0x3f;
    rra(&mut cpu).unwrap();
    assert_eq!(cpu.registers.a, 0x9f);
    assert_eq!(
        cpu.registers.flags,
        Flags { zero: false, subtraction: false, half_carry: false, carry: true }
    );
}

#[test]
fn test_sla_r8() {
    let mut cpu = Cpu::default();
    cpu.registers.b = 0x3f;
    sla_r8(R8::B, &mut cpu).unwrap();
    assert_eq!(cpu.registers.b, 0x7e);
    assert_eq!(
        cpu.registers.flags,
        Flags { zero: false, subtraction: false, half_carry: false, carry: false }
    );
}

#[test]
fn test_sla_hl() {
    let mut mem = Memory::new(Cartridge::new(vec![0; 0xffff]).unwrap());
    let mut cpu = Cpu::default();
    cpu.registers.hl = 0xc420;
    let hl = cpu.registers.hl;
    mem.write(hl as usize, 0x3f);
    sla_hl(&mut cpu, &mut mem).unwrap();
    let byte = mem.read(hl as usize);
    assert_eq!(byte, 0x7e);
    assert_eq!(
        cpu.registers.flags,
        Flags { zero: false, subtraction: false, half_carry: false, carry: false }
    );
}

#[test]
fn test_sra_r8() {
    let mut cpu = Cpu::default();
    cpu.registers.b = 0x81;
    sra_r8(R8::B, &mut cpu).unwrap();
    assert_eq!(cpu.registers.b, 0xc0);
    assert_eq!(
        cpu.registers.flags,
        Flags { zero: false, subtraction: false, half_carry: false, carry: true }
    );
}

#[test]
fn test_sra_hl() {
    let mut mem = Memory::new(Cartridge::new(vec![0; 0xffff]).unwrap());
    let mut cpu = Cpu::default();
    cpu.registers.hl = 0xc420;
    let hl = cpu.registers.hl;
    mem.write(hl as usize, 0x81);
    sra_hl(&mut cpu, &mut mem).unwrap();
    assert_eq!(mem.read(hl as usize), 0xc0);
    assert_eq!(
        cpu.registers.flags,
        Flags { zero: false, subtraction: false, half_carry: false, carry: true }
    );
}

#[test]
fn test_srl_r8() {
    let mut cpu = Cpu::default();
    cpu.registers.b = 0x80;
    srl_r8(R8::B, &mut cpu).unwrap();
    assert_eq!(cpu.registers.b, 0x40);
    assert_eq!(
        cpu.registers.flags,
        Flags { zero: false, subtraction: false, half_carry: false, carry: false }
    );
}

#[test]
fn test_srl_hl() {
    let mut mem = Memory::new(Cartridge::new(vec![0; 0xffff]).unwrap());
    let mut cpu = Cpu::default();
    cpu.registers.hl = 0xc420;
    let hl = cpu.registers.hl;
    mem.write(hl as usize, 0x80);
    srl_hl(&mut cpu, &mut mem).unwrap();
    assert_eq!(mem.read(hl as usize), 0x40);
    assert_eq!(
        cpu.registers.flags,
        Flags { zero: false, subtraction: false, half_carry: false, carry: false }
    );
}

#[test]
fn test_swap_r8() {
    let mut cpu = Cpu::default();
    cpu.registers.b = 0xf0;
    swap_r8(R8::B, &mut cpu).unwrap();
    assert_eq!(cpu.registers.b, 0xf);
    assert_eq!(
        cpu.registers.flags,
        Flags { zero: false, subtraction: false, half_carry: false, carry: false }
    );
}

#[test]
fn test_swap_hl() {
    let mut mem = Memory::new(Cartridge::new(vec![0; 0xffff]).unwrap());
    let mut cpu = Cpu::default();
    cpu.registers.hl = 0xc420;
    let hl = cpu.registers.hl;
    mem.write(hl as usize, 0xf0);
    swap_hl(&mut cpu, &mut mem).unwrap();
    assert_eq!(mem.read(hl as usize), 0xf);
    assert_eq!(
        cpu.registers.flags,
        Flags { zero: false, subtraction: false, half_carry: false, carry: false }
    );
}
