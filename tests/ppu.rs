use rust_nes_emulator::cpu_action::CpuAction;
use rust_nes_emulator::controller::Controller;
use rust_nes_emulator::cpu_bus::CpuBus;
use rust_nes_emulator::cpu_state::CpuState;
use rust_nes_emulator::nes::ActionNES;
use rust_nes_emulator::ppu_registers::{PpuAddr, PpuControl, PpuScroll, PpuStatus};
use rust_nes_emulator::ppu_state::{PpuState, mirror_vram_addr};
use rust_nes_emulator::rom::{Mirroring, ROM, test_rom};

#[test]
fn ppu_state_test_write_ppuctrl() {
    let mut ctrl = PpuControl::from_bits_retain(0);
    ctrl.write(0b0000_0011);
    assert_eq!(0b0000_0011, ctrl.bits());
}

#[test]
fn registers_test_write_ppuctrl() {
    let mut ctrl = PpuControl::from_bits_retain(0);
    ctrl.write(0b0000_0011);
    assert_eq!(0b0000_0011, ctrl.bits());
    assert_eq!(0x2C00, ctrl.get_name_table_addr());
}

#[test]
fn control_register_fields() {
    let ctrl = PpuControl::from_bits_retain(0b1011_1100);
    assert_eq!(32, ctrl.get_vram_addr_inc_value());
    assert_eq!(0x1000, ctrl.get_sprite_pattern_addr());
    assert_eq!(0x1000, ctrl.get_background_pattern_addr());
    assert_eq!((8, 16), ctrl.get_sprite_size());
    assert!(ctrl.is_generate_nmi());
    assert!(!ctrl.is_master_slave_select());
}

#[test]
fn address_latch_two_writes_and_increment() {
    let mut a = PpuAddr::new();
    a.write(0xFF);
    a.write(0xFE);
    assert_eq!(0x3FFE, a.read());
    a.increment(32);
    assert_eq!(0x001E, a.read());
    let mut s = PpuScroll::new();
    s.write(5);
    s.write(7);
    assert_eq!((5, 7), s.read());
}

#[test]
fn nametable_mirroring() {
    assert_eq!(0x000, mirror_vram_addr(Mirroring::Horizontal, 0x2000));
    assert_eq!(0x005, mirror_vram_addr(Mirroring::Horizontal, 0x2405));
    assert_eq!(0x405, mirror_vram_addr(Mirroring::Horizontal, 0x2805));
    assert_eq!(0x405, mirror_vram_addr(Mirroring::Vertical, 0x2405));
    assert_eq!(0x005, mirror_vram_addr(Mirroring::Vertical, 0x2805));
    assert_eq!(0x405, mirror_vram_addr(Mirroring::Vertical, 0x3C05));
}

fn bus() -> CpuBus {
    CpuBus::new(CpuState::new(), PpuState::new(), Controller::new(), test_rom())
}

#[test]
fn ppudata_read_is_buffered() {
    let mut b = bus();
    // Write 0x2005 = 0xAB through PPUADDR/PPUDATA.
    b.write_byte(0x2006, 0x20).unwrap();
    b.write_byte(0x2006, 0x05).unwrap();
    b.write_byte(0x2007, 0xAB).unwrap();
    b.write_byte(0x2007, 0xCD).unwrap();
    // Read it back: first read returns the stale buffer, the second the byte at 0x2005.
    b.read_byte(0x2002).unwrap();
    b.write_byte(0x2006, 0x20).unwrap();
    b.write_byte(0x2006, 0x05).unwrap();
    assert_eq!(0, b.read_byte(0x2007).unwrap());
    assert_eq!(0xAB, b.read_byte(0x2007).unwrap());
    assert_eq!(0xCD, b.read_byte(0x2007).unwrap());
}

#[test]
fn palette_reads_are_immediate_and_mirrored() {
    let mut b = bus();
    b.write_byte(0x2006, 0x3F).unwrap();
    b.write_byte(0x2006, 0x10).unwrap();
    b.write_byte(0x2007, 0x2A).unwrap();
    b.write_byte(0x2006, 0x3F).unwrap();
    b.write_byte(0x2006, 0x00).unwrap();
    assert_eq!(0x2A, b.read_byte(0x2007).unwrap());
}

#[test]
fn status_read_clears_vblank() {
    let mut b = bus();
    b.ppu_state.ppustatus.set_vblank_started(true);
    assert_eq!(0x80, b.read_byte(0x2002).unwrap());
    assert_eq!(0x00, b.read_byte(0x2002).unwrap());
    assert_eq!(0x00, b.read_byte(0x200A).unwrap());
}

#[test]
fn oam_data_port() {
    let mut b = bus();
    b.write_byte(0x2003, 0xFF).unwrap();
    b.write_byte(0x2004, 0x11).unwrap();
    b.write_byte(0x2004, 0x22).unwrap();
    assert_eq!(0x11, b.ppu_state.oam_data[0xFF]);
    assert_eq!(0x22, b.ppu_state.oam_data[0x00]);
    b.write_byte(0x2003, 0x00).unwrap();
    assert_eq!(0x22, b.read_byte(0x2004).unwrap());
}

#[test]
fn dot_clock_and_vblank() {
    let mut p = PpuState::new();
    p.ppuctrl.write(0x80);
    // 240 full scanlines plus a dot: still before vblank.
    assert!(!p.increment_cycle_counter(120 * 341));
    assert!(!p.increment_cycle_counter(120 * 341 + 100));
    assert_eq!(240, p.cur_scanline);
    assert_eq!(100, p.cycle_counter);
    assert!(!p.nmi_interrupt_poll);
    assert!(!p.increment_cycle_counter(300));
    assert_eq!(241, p.cur_scanline);
    assert_eq!(59, p.cycle_counter);
    assert!(p.ppustatus.is_vblank_started());
    assert!(p.nmi_interrupt_poll);
    // Finish the frame.
    assert!(p.increment_cycle_counter(21 * 341));
    assert_eq!(0, p.cur_scanline);
    assert_eq!(59, p.cycle_counter);
    assert!(!p.ppustatus.is_vblank_started());
    assert!(!p.nmi_interrupt_poll);
}

#[test]
fn nmi_enable_during_vblank_latches() {
    let mut p = PpuState::new();
    p.ppustatus.set_vblank_started(true);
    p.write_ppuctrl(0x80);
    assert!(p.nmi_interrupt_poll);
    let mut q = PpuState::new();
    q.write_ppuctrl(0x80);
    assert!(!q.nmi_interrupt_poll);
}

#[test]
fn sprite_zero_hit_is_set() {
    let mut p = PpuState::new();
    p.write_ppumask(0x10);
    p.oam_data[0] = 3;
    p.oam_data[3] = 10;
    p.increment_cycle_counter(4 * 341);
    assert_eq!(PpuStatus::SPRITE_ZERO_HIT, p.ppustatus.bits() & PpuStatus::SPRITE_ZERO_HIT);
}

fn nes_with_program(vector: u16, nmi: u16, program: &[u8]) -> ActionNES {
    let mut raw = vec![0x4E, 0x45, 0x53, 0x1A, 0x01, 0x01, 0x00, 0x00, 0, 0, 0, 0, 0, 0, 0, 0];
    let mut prg = vec![0xEAu8; 0x4000];
    for (i, b) in program.iter().enumerate() {
        prg[i] = *b;
    }
    prg[0x3FFA] = (nmi & 0xFF) as u8;
    prg[0x3FFB] = (nmi >> 8) as u8;
    prg[0x3FFC] = (vector & 0xFF) as u8;
    prg[0x3FFD] = (vector >> 8) as u8;
    raw.extend(prg);
    raw.extend(vec![0u8; 0x2000]);
    let mut nes = ActionNES::new();
    nes.load_from_bytes(raw).unwrap();
    nes
}

#[test]
fn reset_loads_vector() {
    let mut nes = nes_with_program(0x8000, 0x9000, &[]);
    nes.reset().unwrap();
    let s = nes.peek_cpu_state();
    assert_eq!(0x8000, s.program_counter);
    assert_eq!(0xFD, s.stack_pointer);
    assert_eq!(7, s.cycle_counter);
    assert_eq!(21, nes.peek_ppu_state().cycle_counter);
}

#[test]
fn ppu_advances_three_dots_per_cycle() {
    let mut nes = nes_with_program(0x8000, 0x9000, &[]);
    nes.reset().unwrap();
    let mut total: u64 = 0;
    for _ in 0..100 {
        total += nes.next_cpu_instruction().unwrap().meta.cycles as u64;
    }
    assert_eq!(200, total);
    let p = nes.peek_ppu_state();
    assert_eq!(21 + 3 * 200, p.cur_scanline as u64 * 341 + p.cycle_counter as u64);
}

#[test]
fn frame_takes_about_29781_cycles_and_nmi_is_serviced() {
    // LDA #$80 ; STA $2000 ; JMP $8005. NMI handler at $8008: NOP ; JMP $8009.
    let mut nes = nes_with_program(
        0x8000,
        0x8008,
        &[0xA9, 0x80, 0x8D, 0x00, 0x20, 0x4C, 0x05, 0x80, 0xEA, 0x4C, 0x09, 0x80],
    );
    nes.reset().unwrap();
    let start = nes.peek_cpu_state().cycle_counter;
    nes.next_ppu_frame().unwrap();
    let used = nes.peek_cpu_state().cycle_counter - start;
    // The frame started 21 dots in: at least ceil((89342 - 21) / 3) cycles.
    assert!(used >= 29774 && used <= 29777, "used {}", used);
    assert_eq!(0, nes.peek_ppu_state().cur_scanline);
    let position = |nes: &ActionNES| {
        let p = nes.peek_ppu_state();
        p.cur_scanline as u64 * 341 + p.cycle_counter as u64
    };
    let start = nes.peek_cpu_state().cycle_counter;
    let before = position(&nes);
    nes.next_ppu_frame().unwrap();
    let used = nes.peek_cpu_state().cycle_counter - start;
    assert_eq!(3 * used, 262 * 341 + position(&nes) - before);
    assert!(used >= 29778 && used <= 29784, "used {}", used);
    // Run into vblank: the NMI is serviced before the next instruction.
    let mut steps = 0;
    while !nes.peek_ppu_state().nmi_interrupt_poll {
        nes.next_cpu_instruction().unwrap();
        steps += 1;
        assert!(steps < 20000);
    }
    let sp = nes.peek_cpu_state().stack_pointer;
    nes.next_cpu_instruction().unwrap();
    let s = nes.peek_cpu_state();
    assert_eq!(sp.wrapping_sub(3), s.stack_pointer);
    assert_eq!(0x8009, s.program_counter);
    assert!(!nes.peek_ppu_state().nmi_interrupt_poll);
}

#[test]
fn render_frame_has_full_size() {
    let nes = nes_with_program(0x8000, 0x9000, &[]);
    let frame = nes.render_frame();
    assert_eq!(256 * 240, frame.data.len());
    assert_eq!(3 * 256 * 240, frame.to_rgb_bytes().len());
}

#[test]
fn action_from_parts() {
    let action = CpuAction::new(CpuState::new(), PpuState::new(), Controller::new(), ROM::new_empty());
    assert_eq!(0x600, action.bus.cpu_state.program_counter);
}

#[test]
fn render_background_and_sprite_pixels() {
    let mut raw = vec![0x4E, 0x45, 0x53, 0x1A, 0x01, 0x01, 0x00, 0x00, 0, 0, 0, 0, 0, 0, 0, 0];
    raw.extend(vec![0xEAu8; 0x4000]);
    let mut chr = vec![0u8; 0x2000];
    // Tile 1: top row, leftmost pixel has colour index 1; second pixel index 2.
    chr[16] = 0x80;
    chr[16 + 8] = 0x40;
    raw.extend(chr);
    let mut nes = ActionNES::new();
    nes.load_from_bytes(raw).unwrap();
    let ppu = &mut nes.action.bus.ppu_state;
    ppu.palette_table[0] = 0x0F;
    ppu.palette_table[0x11] = 0x30;
    ppu.palette_table[0x12] = 0x16;
    ppu.oam_data[0] = 20;
    ppu.oam_data[1] = 1;
    ppu.oam_data[2] = 0;
    ppu.oam_data[3] = 10;
    let frame = nes.render_frame();
    // Backdrop colour 0x0F everywhere the sprite does not cover.
    assert_eq!((0x05, 0x05, 0x05), frame.data[0]);
    assert_eq!((0xFF, 0xFF, 0xFF), frame.data[256 * 20 + 10]);
    assert_eq!((0xFF, 0x22, 0x00), frame.data[256 * 20 + 11]);
    assert_eq!((0x05, 0x05, 0x05), frame.data[256 * 20 + 12]);
    // Flipped horizontally the two pixels land at the right end of the tile.
    nes.action.bus.ppu_state.oam_data[2] = 0x40;
    let frame = nes.render_frame();
    assert_eq!((0xFF, 0xFF, 0xFF), frame.data[256 * 20 + 17]);
    assert_eq!((0xFF, 0x22, 0x00), frame.data[256 * 20 + 16]);
    // Behind the background: not drawn.
    nes.action.bus.ppu_state.oam_data[2] = 0x20;
    let frame = nes.render_frame();
    assert_eq!((0x05, 0x05, 0x05), frame.data[256 * 20 + 10]);
}

#[test]
fn vblank_starts_at_dot_one_of_scanline_241() {
    let mut p = PpuState::new();
    p.ppuctrl.write(0x80);
    p.increment_cycle_counter(120 * 341);
    p.increment_cycle_counter(120 * 341 + 340);
    assert_eq!((240, 340), (p.cur_scanline, p.cycle_counter));
    p.increment_cycle_counter(1);
    assert_eq!((241, 0), (p.cur_scanline, p.cycle_counter));
    assert!(!p.ppustatus.is_vblank_started());
    assert!(!p.nmi_interrupt_poll);
    p.increment_cycle_counter(1);
    assert!(p.ppustatus.is_vblank_started());
    assert!(p.nmi_interrupt_poll);
}
