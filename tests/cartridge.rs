use rust_nes_emulator::error::NesError;
use rust_nes_emulator::rom::{Mirroring, ROM, test_rom};

const PRG_ROM_PAGE_SIZE: usize = 0x4000;
const CHR_ROM_PAGE_SIZE: usize = 0x2000;

struct TestRom {
    header: Vec<u8>,
    trainer: Option<Vec<u8>>,
    pgp_rom: Vec<u8>,
    chr_rom: Vec<u8>,
}

fn create_rom(rom: TestRom) -> Vec<u8> {
    let mut result = Vec::new();
    result.extend(&rom.header);
    if let Some(t) = rom.trainer {
        result.extend(t);
    }
    result.extend(&rom.pgp_rom);
    result.extend(&rom.chr_rom);
    result
}

#[test]
fn test() {
    let test_rom = create_rom(TestRom {
        header: vec![0x4E, 0x45, 0x53, 0x1A, 0x02, 0x01, 0x31, 00, 00, 00, 00, 00, 00, 00, 00, 00],
        trainer: None,
        pgp_rom: vec![1; 2 * PRG_ROM_PAGE_SIZE],
        chr_rom: vec![2; 1 * CHR_ROM_PAGE_SIZE],
    });
    let rom: ROM = ROM::new(test_rom).unwrap();
    assert_eq!(rom.chr_rom, vec![2; 1 * CHR_ROM_PAGE_SIZE]);
    assert_eq!(rom.prg_rom, vec![1; 2 * PRG_ROM_PAGE_SIZE]);
    assert_eq!(rom.mapper, 3);
    assert_eq!(rom.mirroring, Mirroring::Vertical);
}

#[test]
fn test_with_trainer() {
    let test_rom = create_rom(TestRom {
        header: vec![
            0x4E, 0x45, 0x53, 0x1A, 0x02, 0x01, 0x31 | 0b100, 00, 00, 00, 00, 00, 00, 00, 00, 00,
        ],
        trainer: Some(vec![0; 512]),
        pgp_rom: vec![1; 2 * PRG_ROM_PAGE_SIZE],
        chr_rom: vec![2; 1 * CHR_ROM_PAGE_SIZE],
    });
    let rom: ROM = ROM::new(test_rom).unwrap();
    assert_eq!(rom.chr_rom, vec![2; 1 * CHR_ROM_PAGE_SIZE]);
    assert_eq!(rom.prg_rom, vec![1; 2 * PRG_ROM_PAGE_SIZE]);
    assert_eq!(rom.mapper, 3);
    assert_eq!(rom.mirroring, Mirroring::Vertical);
}

#[test]
fn test_nes2_is_not_supported() {
    let test_rom = create_rom(TestRom {
        header: vec![0x4E, 0x45, 0x53, 0x1A, 0x01, 0x01, 0x31, 0x8, 00, 00, 00, 00, 00, 00, 00, 00],
        trainer: None,
        pgp_rom: vec![1; 1 * PRG_ROM_PAGE_SIZE],
        chr_rom: vec![2; 1 * CHR_ROM_PAGE_SIZE],
    });
    let rom = ROM::new(test_rom);
    match rom {
        Result::Ok(_) => assert!(false, "should not load rom"),
        Result::Err(e) => assert_eq!(e.message(), "Currently do not support NES2.0 format"),
    }
}

#[test]
fn rom_test_initialization() {
    let rom = ROM::new_empty();
    assert_eq!(0, rom.mapper)
}

#[test]
fn bad_magic_is_rejected() {
    let mut raw = vec![0x4E, 0x45, 0x53, 0x00, 0x01, 0x01, 0, 0, 0, 0, 0, 0, 0, 0, 0, 0];
    raw.extend(vec![0u8; 0x6000]);
    assert_eq!(Some(NesError::BadHeader), ROM::new(raw).err());
    assert_eq!(Some(NesError::BadHeader), ROM::new(vec![0x4E, 0x45]).err());
}

#[test]
fn truncated_image_is_rejected() {
    let mut raw = vec![0x4E, 0x45, 0x53, 0x1A, 0x01, 0x01, 0, 0, 0, 0, 0, 0, 0, 0, 0, 0];
    raw.extend(vec![0u8; 0x4000]);
    assert_eq!(Some(NesError::BadHeader), ROM::new(raw).err());
}

#[test]
fn four_screen_and_sizes_are_unsupported() {
    let mut raw = vec![0x4E, 0x45, 0x53, 0x1A, 0x01, 0x01, 0x08, 0, 0, 0, 0, 0, 0, 0, 0, 0];
    raw.extend(vec![0u8; 0x6000]);
    assert_eq!(Some(NesError::UnsupportedMirroring), ROM::new(raw).err());
    let mut raw = vec![0x4E, 0x45, 0x53, 0x1A, 0x03, 0x01, 0x00, 0, 0, 0, 0, 0, 0, 0, 0, 0];
    raw.extend(vec![0u8; 0xE000]);
    assert_eq!(Some(NesError::UnsupportedRomSize), ROM::new(raw).err());
}

#[test]
fn mapper_and_horizontal_mirroring_from_flags() {
    let mut raw = vec![0x4E, 0x45, 0x53, 0x1A, 0x01, 0x01, 0x20, 0x10, 0, 0, 0, 0, 0, 0, 0, 0];
    raw.extend(vec![7u8; 0x4000]);
    raw.extend(vec![9u8; 0x2000]);
    let rom = ROM::new(raw).unwrap();
    assert_eq!(0x12, rom.mapper);
    assert_eq!(Mirroring::Horizontal, rom.mirroring);
    assert_eq!(0x4000, rom.prg_rom.len());
    assert_eq!(9, rom.chr_rom[0]);
}

#[test]
fn test_rom_shape() {
    let rom = test_rom();
    assert_eq!(3, rom.mapper);
    assert_eq!(Mirroring::Vertical, rom.mirroring);
    assert_eq!(0x8000, rom.prg_rom.len());
}
