#![allow(dead_code)]

use nes_emu::bus::Bus;
use nes_emu::cartridge::Cartridge;
use nes_emu::cartridge::Mirroring;
use nes_emu::cpu::CPU;
use nes_emu::errors::EmuError;

fn empty_cartridge() -> Cartridge {
    Cartridge { prg_rom: vec![], chr_rom: vec![], mirroring: Mirroring::Horizontal, mapper: 0 }
}

fn run_cpu_cycles(cpu: &mut CPU, cycles: u32, bus: &mut Bus) {
    let mut i: u32 = 0;
    while i < cycles {
        cpu.step(bus).unwrap();
        i += 1;
    }
}

#[test]
fn adc_imm_test() {
    let mut cpu = CPU::new(false);
    let mut bus = Bus::new(empty_cartridge());
    bus.write(0x0000, 0x69).unwrap();
    bus.write(0x0001, 0x24).unwrap();
    bus.write(0x0002, 0x69).unwrap();
    bus.write(0x0003, 0x32).unwrap();
    run_cpu_cycles(&mut cpu, 4, &mut bus);
    assert_eq!(cpu.r_a, 0x56);
}

#[test]
fn adc_abs_test() {
    let mut cpu = CPU::new(false);
    let mut bus = Bus::new(empty_cartridge());
    bus.write(0x0000, 0x6D).unwrap();
    bus.write(0x0001, 0x00).unwrap();
    bus.write(0x0002, 0x04).unwrap();
    bus.write(0x0003, 0x6D).unwrap();
    bus.write(0x0004, 0x00).unwrap();
    bus.write(0x0005, 0x05).unwrap();

    bus.write(0x400, 0x69).unwrap();
    bus.write(0x500, 0x43).unwrap();

    run_cpu_cycles(&mut cpu, 8, &mut bus);

    assert_eq!(cpu.r_a, 0xAC);
}

#[test]
fn sbc_imm_test() {
    let mut cpu = CPU::new(false);
    let mut bus = Bus::new(empty_cartridge());
    cpu.r_a = 0x69;
    bus.write(0x0000, 0xE9).unwrap();
    bus.write(0x0001, 0x42).unwrap();

    run_cpu_cycles(&mut cpu, 2, &mut bus);

    assert_eq!(cpu.r_a, 0x27);
}

#[test]
fn adc_imm_chain_flags() {
    let mut cpu = CPU::new(false);
    let mut bus = Bus::new(empty_cartridge());
    bus.write(0x0000, 0x69).unwrap();
    bus.write(0x0001, 0x24).unwrap();
    bus.write(0x0002, 0x69).unwrap();
    bus.write(0x0003, 0x32).unwrap();
    run_cpu_cycles(&mut cpu, 4, &mut bus);
    assert_eq!(cpu.r_a, 0x56);
    assert!(!cpu.f_c);
    assert!(!cpu.f_z);
    assert!(!cpu.f_n);
    assert!(!cpu.f_v);
}

#[test]
fn sbc_imm_sets_carry() {
    let mut cpu = CPU::new(false);
    let mut bus = Bus::new(empty_cartridge());
    cpu.r_a = 0x69;
    bus.write(0x0000, 0xE9).unwrap();
    bus.write(0x0001, 0x42).unwrap();
    run_cpu_cycles(&mut cpu, 2, &mut bus);
    assert_eq!(cpu.r_a, 0x27);
    assert!(cpu.f_c);
}

#[test]
fn jsr_rts_round_trip() {
    let mut cpu = CPU::new(false);
    let mut bus = Bus::new(empty_cartridge());
    // At 0x0600: JSR 0x0700. At 0x0700: LDA #0x33; RTS.
    bus.write(0x0600, 0x20).unwrap();
    bus.write(0x0601, 0x00).unwrap();
    bus.write(0x0602, 0x07).unwrap();
    bus.write(0x0700, 0xA9).unwrap();
    bus.write(0x0701, 0x33).unwrap();
    bus.write(0x0702, 0x60).unwrap();
    cpu.pc = 0x0600;
    cpu.sp = 0xFD;
    // JSR takes 6 cycles, LDA immediate 2, RTS 6.
    run_cpu_cycles(&mut cpu, 14, &mut bus);
    assert_eq!(cpu.pc, 0x0603);
    assert_eq!(cpu.r_a, 0x33);
    assert_eq!(cpu.sp, 0xFD);
}

#[test]
fn nmi_vector() {
    let mut prg = vec![0u8; 0x8000];
    prg[0x7FFA] = 0x34;
    prg[0x7FFB] = 0x12;
    let cartridge = Cartridge {
        prg_rom: prg,
        chr_rom: vec![],
        mirroring: Mirroring::Horizontal,
        mapper: 0,
    };
    let mut cpu = CPU::new(false);
    let mut bus = Bus::new(cartridge);
    cpu.pc = 0x8000;
    cpu.set_status_byte(0x24);
    cpu.sp = 0xFD;
    cpu.non_maskable_interrupt(&mut bus);
    assert_eq!(cpu.pc, 0x1234);
    assert_eq!(cpu.sp, 0xFA);
    assert_eq!(bus.read(0x01FD).unwrap(), 0x80);
    assert_eq!(bus.read(0x01FC).unwrap(), 0x00);
    assert_eq!(bus.read(0x01FB).unwrap(), 0x24);
}

#[test]
fn indirect_jmp_page_bug() {
    let mut cpu = CPU::new(false);
    let mut bus = Bus::new(empty_cartridge());
    bus.write(0x02FF, 0x40).unwrap();
    bus.write(0x0200, 0x80).unwrap();
    bus.write(0x0000, 0x6C).unwrap();
    bus.write(0x0001, 0xFF).unwrap();
    bus.write(0x0002, 0x02).unwrap();
    cpu.step(&mut bus).unwrap();
    assert_eq!(cpu.pc, 0x8040);
}

#[test]
fn reset_state() {
    let mut prg = vec![0u8; 0x8000];
    prg[0x7FFC] = 0x00;
    prg[0x7FFD] = 0x06;
    let cartridge = Cartridge {
        prg_rom: prg,
        chr_rom: vec![],
        mirroring: Mirroring::Horizontal,
        mapper: 0,
    };
    let mut cpu = CPU::new(false);
    let mut bus = Bus::new(cartridge);
    cpu.f_i = true;
    cpu.reset(&mut bus);
    assert_eq!(cpu.sp, 0xFD);
    assert!(!cpu.f_i);
    assert!(cpu.f_u);
    assert_eq!(cpu.pc, 0x0600);
    assert_eq!(cpu.skip_cycles, 8);
    assert_eq!(cpu.cycles, 0);
}

#[test]
fn branch_not_taken_costs_base() {
    let mut cpu = CPU::new(false);
    let mut bus = Bus::new(empty_cartridge());
    bus.write(0x0000, 0xF0).unwrap();
    bus.write(0x0001, 0x10).unwrap();
    cpu.f_z = false;
    cpu.step(&mut bus).unwrap();
    assert_eq!(cpu.skip_cycles, 1);
    assert_eq!(cpu.pc, 0x0002);
}

#[test]
fn branch_taken_same_page_costs_one_extra() {
    let mut cpu = CPU::new(false);
    let mut bus = Bus::new(empty_cartridge());
    bus.write(0x0000, 0xF0).unwrap();
    bus.write(0x0001, 0x10).unwrap();
    cpu.f_z = true;
    cpu.step(&mut bus).unwrap();
    assert_eq!(cpu.skip_cycles, 2);
    assert_eq!(cpu.pc, 0x0012);
}

#[test]
fn branch_taken_page_cross_costs_two_extra() {
    let mut cpu = CPU::new(false);
    let mut bus = Bus::new(empty_cartridge());
    bus.write(0x00F0, 0xF0).unwrap();
    bus.write(0x00F1, 0x20).unwrap();
    cpu.pc = 0x00F0;
    cpu.f_z = true;
    cpu.step(&mut bus).unwrap();
    assert_eq!(cpu.skip_cycles, 3);
    assert_eq!(cpu.pc, 0x0112);
}

#[test]
fn backward_branch_sign_extends() {
    let mut cpu = CPU::new(false);
    let mut bus = Bus::new(empty_cartridge());
    bus.write(0x0010, 0xD0).unwrap();
    bus.write(0x0011, 0xFC).unwrap();
    cpu.pc = 0x0010;
    cpu.f_z = false;
    cpu.step(&mut bus).unwrap();
    assert_eq!(cpu.pc, 0x000E);
}

#[test]
fn bad_opcode_faults() {
    let mut cpu = CPU::new(false);
    let mut bus = Bus::new(empty_cartridge());
    bus.write(0x0000, 0xFF).unwrap();
    assert_eq!(cpu.step(&mut bus), Err(EmuError::BadOpcode(0xFF)));
}

#[test]
fn status_byte_round_trip() {
    let mut cpu = CPU::new(false);
    cpu.set_status_byte(0xA5);
    assert_eq!(cpu.status_byte(), 0xA5);
    assert!(cpu.f_c);
    assert!(!cpu.f_z);
    assert!(cpu.f_i);
    assert!(cpu.f_u);
    assert!(cpu.f_n);
}

#[test]
fn php_pla_stack_discipline() {
    let mut cpu = CPU::new(false);
    let mut bus = Bus::new(empty_cartridge());
    // LDA #0x80; PHA; LDA #0x00; PLA
    bus.write(0x0000, 0xA9).unwrap();
    bus.write(0x0001, 0x80).unwrap();
    bus.write(0x0002, 0x48).unwrap();
    bus.write(0x0003, 0xA9).unwrap();
    bus.write(0x0004, 0x00).unwrap();
    bus.write(0x0005, 0x68).unwrap();
    cpu.sp = 0xFD;
    run_cpu_cycles(&mut cpu, 2 + 3 + 2 + 4, &mut bus);
    assert_eq!(cpu.r_a, 0x80);
    assert!(cpu.f_n);
    assert!(!cpu.f_z);
    assert_eq!(cpu.sp, 0xFD);
}

#[test]
fn trace_line_format() {
    let mut cpu = CPU::new(true);
    let mut bus = Bus::new(empty_cartridge());
    bus.write(0x0000, 0x69).unwrap();
    bus.write(0x0001, 0x24).unwrap();
    cpu.step(&mut bus).unwrap();
    assert_eq!(cpu.trace_log.len(), 1);
    let line = String::from_utf8(cpu.trace_log[0].clone()).unwrap();
    let expected = format!("{:47} A:00 X:00 Y:00 P:00 SP:00", "0000  69 24     ADC");
    assert_eq!(line, expected);
}
