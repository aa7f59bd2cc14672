use nes_emu::bus::Bus;
use nes_emu::cartridge::Cartridge;

use nes_emu::cartridge::Mirroring;
use nes_emu::errors::CartridgeError;
use nes_emu::cpu_opcodes::AddressingMode;
use nes_emu::cpu_opcodes::Instruction;
use nes_emu::cpu_opcodes::Opcode;
use nes_emu::errors::EmuError;
use nes_emu::frame::Frame;
use nes_emu::nes::NES;

fn ines_image(prg_banks: u8, chr_banks: u8, flags6: u8, flags7: u8) -> Vec<u8> {
    let mut data = vec![0x4E, 0x45, 0x53, 0x1A, prg_banks, chr_banks, flags6, flags7];
    data.resize(16, 0);
    let body = 16384 * prg_banks as usize + 8192 * chr_banks as usize;
    data.resize(16 + body, 0);
    data
}

#[test]
fn cartridge_load_slices_prg_and_chr() {
    let mut data = ines_image(1, 1, 0x00, 0x00);
    data[16] = 0xAA;
    data[16 + 16384] = 0xBB;
    let cartridge = Cartridge::load(&data).unwrap();
    assert_eq!(cartridge.prg_rom.len(), 16384);
    assert_eq!(cartridge.chr_rom.len(), 8192);
    assert_eq!(cartridge.prg_rom[0], 0xAA);
    assert_eq!(cartridge.chr_rom[0], 0xBB);
    assert_eq!(cartridge.mirroring, Mirroring::Horizontal);
    assert_eq!(cartridge.mapper, 0);
}

#[test]
fn cartridge_load_reads_mirroring_bits() {
    let data = ines_image(1, 0, 0x01, 0x00);
    assert_eq!(Cartridge::load(&data).unwrap().mirroring, Mirroring::Vertical);
    let data = ines_image(1, 0, 0x08, 0x00);
    assert_eq!(Cartridge::load(&data).unwrap().mirroring, Mirroring::FourScreen);
}

#[test]
fn cartridge_load_skips_trainer() {
    let mut data = vec![0x4E, 0x45, 0x53, 0x1A, 1, 0, 0x04, 0x00];
    data.resize(16, 0);
    data.resize(16 + 512, 0x77);
    let mut prg = vec![0u8; 16384];
    prg[0] = 0xCC;
    data.extend_from_slice(&prg);
    let cartridge = Cartridge::load(&data).unwrap();
    assert_eq!(cartridge.prg_rom[0], 0xCC);
}

#[test]
fn cartridge_load_rejects_bad_magic() {
    let mut data = ines_image(1, 0, 0x00, 0x00);
    data[0] = 0x4D;
    assert!(matches!(Cartridge::load(&data), Err(CartridgeError::BadHeader)));
    assert!(matches!(Cartridge::load(&vec![0u8; 4]), Err(CartridgeError::BadHeader)));
}

#[test]
fn cartridge_load_rejects_nonzero_mapper() {
    let data = ines_image(1, 0, 0x10, 0x00);
    assert!(matches!(Cartridge::load(&data), Err(CartridgeError::UnsupportedMapper)));
    let data = ines_image(1, 0, 0x00, 0x40);
    assert!(matches!(Cartridge::load(&data), Err(CartridgeError::UnsupportedMapper)));
}

#[test]
fn cartridge_load_rejects_short_payload() {
    let mut data = ines_image(1, 0, 0x00, 0x00);
    data.truncate(16 + 1000);
    assert!(matches!(Cartridge::load(&data), Err(CartridgeError::Truncated)));
}

fn empty_bus() -> Bus {
    Bus::new(Cartridge {
        prg_rom: vec![],
        chr_rom: vec![],
        mirroring: Mirroring::Horizontal,
        mapper: 0,
    })
}

#[test]
fn ram_is_mirrored_every_2k() {
    let mut bus = empty_bus();
    bus.write(0x0005, 0xAB).unwrap();
    assert_eq!(bus.read(0x0005).unwrap(), 0xAB);
    assert_eq!(bus.read(0x0805).unwrap(), 0xAB);
    assert_eq!(bus.read(0x1005).unwrap(), 0xAB);
    assert_eq!(bus.read(0x1805).unwrap(), 0xAB);
    bus.write(0x1FFF, 0x11).unwrap();
    assert_eq!(bus.read(0x07FF).unwrap(), 0x11);
}

#[test]
fn write_only_ppu_registers_refuse_reads() {
    let mut bus = empty_bus();
    assert_eq!(bus.read(0x2000), Err(EmuError::ReadWriteOnly(0x2000)));
    assert_eq!(bus.read(0x2006), Err(EmuError::ReadWriteOnly(0x2006)));
    assert_eq!(bus.read(0x2008), Err(EmuError::ReadWriteOnly(0x2008)));
    assert_eq!(bus.read(0x4014), Err(EmuError::ReadWriteOnly(0x4014)));
}

#[test]
fn prg_rom_window_mirrors_16k_images() {
    let mut prg = vec![0u8; 0x4000];
    prg[0x0000] = 0x12;
    prg[0x3FFF] = 0x34;
    let mut bus = Bus::new(Cartridge {
        prg_rom: prg,
        chr_rom: vec![],
        mirroring: Mirroring::Horizontal,
        mapper: 0,
    });
    assert_eq!(bus.read(0x8000).unwrap(), 0x12);
    assert_eq!(bus.read(0xC000).unwrap(), 0x12);
    assert_eq!(bus.read(0xBFFF).unwrap(), 0x34);
    assert_eq!(bus.read(0xFFFF).unwrap(), 0x34);
}

#[test]
fn writes_to_rom_fault() {
    let mut bus = empty_bus();
    assert_eq!(bus.write(0x8000, 1), Err(EmuError::WriteToRom(0x8000)));
}

#[test]
fn unmapped_addresses_read_zero_and_drop_writes() {
    let mut bus = empty_bus();
    assert_eq!(bus.read(0x5000).unwrap(), 0);
    bus.write(0x5000, 0x99).unwrap();
    assert_eq!(bus.read(0x5000).unwrap(), 0);
}

#[test]
fn ppu_data_port_reads_chr_through_buffer() {
    let mut chr = vec![0u8; 8192];
    chr[0x0001] = 0xAB;
    chr[0x0021] = 0xCD;
    let mut bus = Bus::new(Cartridge {
        prg_rom: vec![],
        chr_rom: chr,
        mirroring: Mirroring::Horizontal,
        mapper: 0,
    });
    // Latch the address 0x0001: high byte first, then low byte.
    bus.write(0x2006, 0x00).unwrap();
    bus.write(0x2006, 0x01).unwrap();
    // The control register is 0, so the address steps by 32 per access.
    assert_eq!(bus.read(0x2007).unwrap(), 0x00);
    assert_eq!(bus.read(0x2007).unwrap(), 0xAB);
    assert_eq!(bus.read(0x2007).unwrap(), 0xCD);
}

#[test]
fn ppu_nametable_write_read_round_trip() {
    let mut bus = empty_bus();
    bus.write(0x2006, 0x20).unwrap();
    bus.write(0x2006, 0x05).unwrap();
    bus.write(0x2007, 0x5A).unwrap();
    bus.write(0x2006, 0x20).unwrap();
    bus.write(0x2006, 0x05).unwrap();
    assert_eq!(bus.read(0x2007).unwrap(), 0x5A);
}

#[test]
fn decode_table_spot_checks() {
    let i = Instruction::from_u8(0x69);
    assert_eq!(i.opcode, Opcode::ADC);
    assert_eq!(i.addr_mode, AddressingMode::Immediate);
    assert_eq!(i.cycles, 2);
    let i = Instruction::from_u8(0x6C);
    assert_eq!(i.opcode, Opcode::JMPI);
    assert_eq!(i.addr_mode, AddressingMode::Indirect);
    assert_eq!(i.cycles, 5);
    let i = Instruction::from_u8(0x9D);
    assert_eq!(i.opcode, Opcode::STA);
    assert_eq!(i.addr_mode, AddressingMode::AbsoluteX);
    assert_eq!(i.cycles, 5);
    assert_eq!(Instruction::from_u8(0x02).opcode, Opcode::UnknownOperation);
}

#[test]
fn mnemonic_decode_spot_checks() {
    assert_eq!(Opcode::from_u8(0xEA), Opcode::NOP);
    assert_eq!(Opcode::from_u8(0x00), Opcode::BRK);
    assert_eq!(Opcode::from_u8(0x20), Opcode::JSR);
    assert_eq!(Opcode::from_u8(0x40), Opcode::RTI);
    assert_eq!(Opcode::from_u8(0x60), Opcode::RTS);
    assert_eq!(Opcode::from_u8(0x4C), Opcode::JMP);
    assert_eq!(Opcode::from_u8(0xAA), Opcode::TAX);
    assert_eq!(Opcode::from_u8(0x9A), Opcode::TXS);
}

#[test]
fn frame_set_pixel_writes_three_bytes() {
    let mut frame = Frame::default();
    assert_eq!(frame.data.len(), 256 * 240 * 3);
    frame.set_pixel(2, 1, (0x10, 0x20, 0x30));
    let first = 1 * 3 * 256 + 2 * 3;
    assert_eq!(frame.data[first], 0x10);
    assert_eq!(frame.data[first + 1], 0x20);
    assert_eq!(frame.data[first + 2], 0x30);
}

#[test]
fn nes_session_owns_a_fresh_cpu() {
    let nes = NES::new();
    assert_eq!(nes.cpu.pc, 0);
    assert_eq!(nes.cpu.cycles, 0);
    assert!(!nes.cpu.trace_enabled);
}
