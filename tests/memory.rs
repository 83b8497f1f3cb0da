use rust_nes_emulator::controller::Controller;
use rust_nes_emulator::cpu_bus::CpuBus;
use rust_nes_emulator::cpu_state::CpuState;
use rust_nes_emulator::error::NesError;
use rust_nes_emulator::ppu_state::PpuState;
use rust_nes_emulator::ram::RAM;
use rust_nes_emulator::rom::ROM;

fn empty_bus() -> CpuBus {
    CpuBus::new(CpuState::new(), PpuState::new(), Controller::new(), ROM::new_empty())
}

#[test]
fn bus_test_all_index_valid() {
    let mut mem = empty_bus();
    for i in 0..0x800u16 {
        mem.write_byte(i, (i / 8) as u8).unwrap();
    }
    for i in 0..0x800u16 {
        assert_eq!((i / 8) as u8, mem.read_byte(i).unwrap());
        assert_eq!((i / 8) as u8, mem.read_byte(i + 0x800).unwrap());
        assert_eq!((i / 8) as u8, mem.read_byte(i + 0x1000).unwrap());
        assert_eq!((i / 8) as u8, mem.read_byte(i + 0x1800).unwrap());
    }
}

#[test]
fn test_all_ram_index_valid() {
    let mut mem = empty_bus();
    for i in 0..0x800u16 {
        mem.write_byte(i, (i / 8) as u8).unwrap();
    }
    for i in 0..0x800u16 {
        assert_eq!((i / 8) as u8, mem.read_byte(i).unwrap());
        assert_eq!((i / 8) as u8, mem.read_byte(i + 0x800).unwrap());
        assert_eq!((i / 8) as u8, mem.read_byte(i + 0x1000).unwrap());
        assert_eq!((i / 8) as u8, mem.read_byte(i + 0x1800).unwrap());
    }
}

#[test]
fn ram_test_all_index_valid() {
    let mut ram = RAM::new();
    for i in 0..0x800u16 {
        ram.write(i, (i / 8) as u8);
    }
    for i in 0..0x800u16 {
        assert_eq!((i / 8) as u8, ram.read(i));
        assert_eq!((i / 8) as u8, ram.read(i + 0x800));
        assert_eq!((i / 8) as u8, ram.read(i + 0x1000));
        assert_eq!((i / 8) as u8, ram.read(i + 0x1800));
    }
}

#[test]
fn ram_mirroring_of_high_address() {
    let mut mem = empty_bus();
    mem.write_byte(0x1FFF, 0x5A).unwrap();
    for k in 0..4u16 {
        assert_eq!(0x5A, mem.read_byte(0x07FF + k * 0x800).unwrap());
    }
}

#[test]
fn write_to_program_rom_is_illegal() {
    let mut mem = empty_bus();
    assert_eq!(Err(NesError::IllegalWrite(0x8000)), mem.write_byte(0x8000, 1));
    assert_eq!(Err(NesError::IllegalWrite(0x4020)), mem.write_byte(0x4020, 1));
}

#[test]
fn read_from_unmapped_or_write_only_is_illegal() {
    let mut mem = empty_bus();
    assert_eq!(Err(NesError::IllegalRead(0x5000)), mem.read_byte(0x5000));
    assert_eq!(Err(NesError::IllegalRead(0x2000)), mem.read_byte(0x2000));
    assert_eq!(Err(NesError::IllegalWrite(0x2002)), mem.write_byte(0x2002, 0));
}

#[test]
fn program_rom_single_bank_is_mirrored() {
    let mut raw = vec![0x4E, 0x45, 0x53, 0x1A, 0x01, 0x01, 0x00, 0x00, 0, 0, 0, 0, 0, 0, 0, 0];
    let mut prg = vec![0u8; 0x4000];
    prg[0] = 0x11;
    prg[0x3FFF] = 0x22;
    raw.extend(prg);
    raw.extend(vec![0u8; 0x2000]);
    let rom = ROM::new(raw).unwrap();
    let mut mem = CpuBus::new(CpuState::new(), PpuState::new(), Controller::new(), rom);
    assert_eq!(0x11, mem.read_byte(0x8000).unwrap());
    assert_eq!(0x11, mem.read_byte(0xC000).unwrap());
    assert_eq!(0x22, mem.read_byte(0xFFFF).unwrap());
}

#[test]
fn read_two_page_bytes_wraps_within_page() {
    let mut mem = empty_bus();
    mem.write_byte(0x00FF, 0x34).unwrap();
    mem.write_byte(0x0000, 0x12).unwrap();
    mem.write_byte(0x0100, 0x99).unwrap();
    assert_eq!(0x1234, mem.read_two_page_bytes(0x00FF).unwrap());
    assert_eq!(0x9934, mem.read_two_bytes(0x00FF).unwrap());
}

#[test]
fn oam_dma_copies_a_ram_page() {
    let mut mem = empty_bus();
    for i in 0..256u16 {
        mem.write_byte(0x0200 + i, i as u8).unwrap();
    }
    mem.write_byte(0x2003, 0x10).unwrap();
    mem.write_byte(0x4014, 0x02).unwrap();
    assert_eq!(0, mem.ppu_state.oam_data[0x10]);
    assert_eq!(0xEF, mem.ppu_state.oam_data[0xFF]);
    assert_eq!(0xF0, mem.ppu_state.oam_data[0x00]);
    assert_eq!(513, mem.cpu_state.dma_cycles);
    assert_eq!(Err(NesError::IllegalRead(0x2000)), mem.write_byte(0x4014, 0x20));
}
