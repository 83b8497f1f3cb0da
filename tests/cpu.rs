use rust_nes_emulator::controller::Controller;
use rust_nes_emulator::cpu::CPU;
use rust_nes_emulator::cpu_action::CpuAction;
use rust_nes_emulator::ppu_state::PpuState;
use rust_nes_emulator::rom::ROM;
use rust_nes_emulator::cpu_state::{CpuState, CpuStatus};
use rust_nes_emulator::error::NesError;
use rust_nes_emulator::execute::{adc, sbc};
use rust_nes_emulator::instructions::{AddressingMode, Opcode, Param};
use rust_nes_emulator::decode::decode_opcode;

fn status(cpu: &CPU) -> CpuStatus {
    cpu.action.bus.cpu_state.status
}

fn mem(cpu: &CPU, addr: u16) -> u8 {
    cpu.action.bus.cpu_state.ram.read(addr)
}

#[test]
pub fn test_lda_sta() {
    let mut cpu = CPU::new();
    let program = vec![
        0xA9, 0x01, 0x8D, 0x00, 0x02, 0xA9, 0x05, 0x8D, 0x01, 0x02, 0xA9, 0x08, 0x8D, 0x02, 0x02,
        0x00,
    ];
    cpu.run_program(program).unwrap();
    let s = &cpu.action.bus.cpu_state;
    assert_eq!(0x08, s.reg_a, "Register A: {:x}", s.reg_a);
    assert_eq!(0x00, s.reg_x, "Register X: {:x}", s.reg_x);
    assert_eq!(0x00, s.reg_y, "Register Y: {:x}", s.reg_y);
    assert_eq!(0xfd, s.stack_pointer, "Stack Pointer: {:x}", s.stack_pointer);
    assert_eq!([mem(&cpu, 0x200), mem(&cpu, 0x201), mem(&cpu, 0x202)], [0x01, 0x05, 0x08]);
}

#[test]
pub fn test_lda_tax_inx_adc_brk() {
    let mut cpu = CPU::new();
    let program = vec![0xA9, 0xC0, 0xAA, 0xE8, 0x69, 0xC4, 0x00];
    cpu.run_program(program).unwrap();
    let s = &cpu.action.bus.cpu_state;
    assert_eq!(0x84, s.reg_a);
    assert_eq!(0xc1, s.reg_x);
    assert_eq!(0x00, s.reg_y);
    assert!(status(&cpu).contains(CpuStatus::NEGATIVE | CpuStatus::ALWAYS));
    assert!(status(&cpu).contains(CpuStatus::CARRY));
    assert!(!status(&cpu).contains(CpuStatus::OVERFLOW));
    assert!(!status(&cpu).contains(CpuStatus::ZERO));
}

#[test]
pub fn test_adc_overflow_1() {
    let mut cpu = CPU::new();
    let program = vec![0x18, 0xA9, 0x7f, 0x69, 0x01, 0x00];
    cpu.run_program(program).unwrap();
    let s = &cpu.action.bus.cpu_state;
    assert_eq!(0x80, s.reg_a);
    assert_eq!(0x00, s.reg_x);
    assert_eq!(0x00, s.reg_y);
    assert!(status(&cpu).contains(0b11100000), "CPU Status: {:b}", status(&cpu).bits());
    assert!(!status(&cpu).contains(CpuStatus::ZERO));
    assert!(!status(&cpu).contains(CpuStatus::CARRY));
}

#[test]
pub fn test_cpx_1() {
    let mut cpu = CPU::new();
    let program = vec![0xa2, 0x08, 0xca, 0x8e, 0x00, 0x02, 0xe0, 0x03, 0x8e, 0x01, 0x02, 0x00];
    cpu.run_program(program).unwrap();
    let s = &cpu.action.bus.cpu_state;
    assert_eq!(0x00, s.reg_a, "Register A: {:x}", s.reg_a);
    assert_eq!(0x07, s.reg_x, "Register X: {:x}", s.reg_x);
    assert_eq!(0x00, s.reg_y, "Register Y: {:x}", s.reg_y);
    assert_eq!(0xfd, s.stack_pointer, "Stack Pointer: {:x}", s.stack_pointer);
    assert!(status(&cpu).contains(0b00100001), "CPU Status: {:b}", status(&cpu).bits());
    assert_eq!([mem(&cpu, 0x200), mem(&cpu, 0x201), mem(&cpu, 0x202)], [0x07, 0x7, 0x00]);
}

#[test]
pub fn test_bne_1() {
    let mut cpu = CPU::new();
    let program =
        vec![0xa2, 0x08, 0xca, 0x8e, 0x00, 0x02, 0xe0, 0x03, 0xd0, 0xf8, 0x8e, 0x01, 0x02, 0x00];
    cpu.run_program(program).unwrap();
    let s = &cpu.action.bus.cpu_state;
    assert_eq!(0x00, s.reg_a, "Register A: {:x}", s.reg_a);
    assert_eq!(0x03, s.reg_x, "Register X: {:x}", s.reg_x);
    assert_eq!(0x00, s.reg_y, "Register Y: {:x}", s.reg_y);
    assert_eq!(0xfd, s.stack_pointer, "Stack Pointer: {:x}", s.stack_pointer);
    assert!(status(&cpu).contains(0b00100011), "CPU Status: {:b}", status(&cpu).bits());
    assert_eq!([mem(&cpu, 0x200), mem(&cpu, 0x201), mem(&cpu, 0x202)], [0x03, 0x3, 0x00]);
}

#[test]
fn cpu_state_test_initialization() {
    let cpu_state = CpuState::new();
    assert_eq!(0, cpu_state.reg_a)
}

#[test]
fn initial_state_values() {
    let s = CpuState::new();
    assert_eq!(0xFD, s.stack_pointer);
    assert_eq!(0x600, s.program_counter);
    assert_eq!(CpuStatus::ALWAYS | CpuStatus::INT_DISABLE, s.status.bits());
}

#[test]
fn adc_and_sbc_of_complement_agree() {
    for a in [0u8, 1, 0x7F, 0x80, 0xFF, 0x42] {
        for m in [0u8, 1, 0x7F, 0x80, 0xFF, 0xC4] {
            for c in [false, true] {
                let mut x = CpuState::new();
                x.reg_a = a;
                x.status.set(CpuStatus::CARRY, c);
                let mut y = CpuState::new();
                y.reg_a = a;
                y.status.set(CpuStatus::CARRY, c);
                adc(&mut x, m);
                sbc(&mut y, m ^ 0xFF);
                assert_eq!(x.reg_a, y.reg_a);
                assert_eq!(x.status.bits(), y.status.bits());
            }
        }
    }
}

#[test]
fn sbc_exact_result() {
    let mut s = CpuState::new();
    s.reg_a = 0x50;
    s.status.set(CpuStatus::CARRY, true);
    sbc(&mut s, 0xF0);
    assert_eq!(0x60, s.reg_a);
    assert!(!s.status.contains(CpuStatus::CARRY));
    assert!(!s.status.contains(CpuStatus::OVERFLOW));
}

#[test]
fn branch_back_across_a_page() {
    let mut s = CpuState::new();
    s.program_counter = 0x0602;
    rust_nes_emulator::execute::bne(&mut s, 0xF0);
    assert_eq!(0x05F2, s.program_counter);
    assert!(s.branch_flag);
    assert!(s.page_cross_flag);
    let mut t = CpuState::new();
    t.program_counter = 0x0610;
    rust_nes_emulator::execute::bne(&mut t, 0x05);
    assert_eq!(0x0615, t.program_counter);
    assert!(!t.page_cross_flag);
}

#[test]
fn taken_branch_cycles() {
    // BNE back over a page boundary: 2 + 1 + 1 cycles.
    let mut cpu = CPU::new();
    cpu.action.bus.cpu_state.ram.write(0x0600, 0xD0);
    cpu.action.bus.cpu_state.ram.write(0x0601, 0xF0);
    cpu.action.bus.cpu_state.program_counter = 0x0600;
    let ins = cpu.action.next_cpu_instruction().unwrap();
    assert_eq!(4, ins.meta.cycles);
    assert_eq!(0x05F2, cpu.action.bus.cpu_state.program_counter);
    // Same page: 2 + 1.
    cpu.action.bus.cpu_state.ram.write(0x05F2, 0xD0);
    cpu.action.bus.cpu_state.ram.write(0x05F3, 0x02);
    let ins = cpu.action.next_cpu_instruction().unwrap();
    assert_eq!(3, ins.meta.cycles);
    assert_eq!(0x05F6, cpu.action.bus.cpu_state.program_counter);
}

#[test]
fn jsr_and_rts_round_trip() {
    let mut cpu = CPU::new();
    // JSR $0610 ; BRK ; ... at $0610: LDX #$07 ; RTS
    let mut program = vec![0x20, 0x10, 0x06, 0x00];
    program.resize(0x10, 0xEA);
    program.extend([0xA2, 0x07, 0x60]);
    cpu.run_program(program).unwrap();
    let s = &cpu.action.bus.cpu_state;
    assert_eq!(0x07, s.reg_x);
    assert_eq!(0xFD, s.stack_pointer);
    assert_eq!(0x0603, s.program_counter);
    assert_eq!(0x06, s.ram.read(0x01FD));
    assert_eq!(0x02, s.ram.read(0x01FC));
}

#[test]
fn php_plp_and_stack() {
    let mut cpu = CPU::new();
    // SEC ; PHP ; CLC ; PLP ; LDA #$33 ; PHA ; LDA #$00 ; PLA ; BRK
    let program = vec![0x38, 0x08, 0x18, 0x28, 0xA9, 0x33, 0x48, 0xA9, 0x00, 0x68, 0x00];
    cpu.run_program(program).unwrap();
    let s = &cpu.action.bus.cpu_state;
    assert!(s.status.contains(CpuStatus::CARRY));
    assert_eq!(0x33, s.reg_a);
    assert_eq!(0xFD, s.stack_pointer);
    assert_eq!(0x33, s.ram.read(0x01FD));
}

#[test]
fn indirect_x_uses_zero_page_wrap() {
    let mut cpu = CPU::new();
    // LDX #$01 ; LDA ($FE,X) ; BRK   -> pointer at $FF (low) and $00 (high)
    cpu.action.bus.cpu_state.ram.write(0x00FF, 0x00);
    cpu.action.bus.cpu_state.ram.write(0x0000, 0x03);
    cpu.action.bus.cpu_state.ram.write(0x0300, 0x5C);
    cpu.run_program(vec![0xA2, 0x01, 0xA1, 0xFE, 0x00]).unwrap();
    assert_eq!(0x5C, cpu.action.bus.cpu_state.reg_a);
}

#[test]
fn indexed_read_page_cross_costs_a_cycle() {
    let mut cpu = CPU::new();
    // LDX #$01 ; LDA $02FF,X
    cpu.action.bus.cpu_state.ram.write(0x0600, 0xA2);
    cpu.action.bus.cpu_state.ram.write(0x0601, 0x01);
    cpu.action.bus.cpu_state.ram.write(0x0602, 0xBD);
    cpu.action.bus.cpu_state.ram.write(0x0603, 0xFF);
    cpu.action.bus.cpu_state.ram.write(0x0604, 0x02);
    cpu.action.next_cpu_instruction().unwrap();
    let ins = cpu.action.next_cpu_instruction().unwrap();
    assert_eq!(Opcode::LDA, ins.opcode);
    assert_eq!(Param::Address(0x0300), ins.param);
    assert_eq!(AddressingMode::AbsoluteIndexX, ins.meta.mode);
    assert_eq!(5, ins.meta.cycles);
    assert_eq!(3, ins.meta.length);
    assert_eq!(2 + 5, cpu.action.bus.cpu_state.cycle_counter);
}

#[test]
fn ror_uses_bit_seven_for_carry_in() {
    let mut cpu = CPU::new();
    // SEC ; LDA #$02 ; ROR A ; BRK
    cpu.run_program(vec![0x38, 0xA9, 0x02, 0x6A, 0x00]).unwrap();
    let s = &cpu.action.bus.cpu_state;
    assert_eq!(0x81, s.reg_a);
    assert!(!s.status.contains(CpuStatus::CARRY));
    assert!(s.status.contains(CpuStatus::NEGATIVE));
}

#[test]
fn iny_dey_work_on_y() {
    let mut cpu = CPU::new();
    // LDX #$10 ; LDY #$05 ; INY ; INY ; DEY ; BRK
    cpu.run_program(vec![0xA2, 0x10, 0xA0, 0x05, 0xC8, 0xC8, 0x88, 0x00]).unwrap();
    let s = &cpu.action.bus.cpu_state;
    assert_eq!(0x06, s.reg_y);
    assert_eq!(0x10, s.reg_x);
}

#[test]
fn memory_shift_and_increment() {
    let mut cpu = CPU::new();
    // LDA #$81 ; STA $10 ; ASL $10 ; INC $10 ; LSR $10 ; DEC $11 ; BRK
    cpu.run_program(vec![0xA9, 0x81, 0x85, 0x10, 0x06, 0x10, 0xE6, 0x10, 0x46, 0x10, 0xC6, 0x11, 0x00])
        .unwrap();
    let s = &cpu.action.bus.cpu_state;
    assert_eq!(0x01, s.ram.read(0x10));
    assert_eq!(0xFF, s.ram.read(0x11));
    assert!(s.status.contains(CpuStatus::NEGATIVE));
    assert!(s.status.contains(CpuStatus::CARRY));
}

#[test]
fn illegal_opcode_is_reported() {
    assert_eq!(Err(NesError::IllegalOpcode(0x02)), decode_opcode(0x02));
    assert_eq!(Ok((Opcode::LDA, AddressingMode::Immediate, 2)), decode_opcode(0xA9));
    assert_eq!(Ok((Opcode::JMP, AddressingMode::IndirectJump, 5)), decode_opcode(0x6C));
    let mut cpu = CPU::new();
    assert_eq!(Err(NesError::IllegalOpcode(0xFF)), cpu.run_program(vec![0xFF]));
}

#[test]
fn store_to_program_rom_fails() {
    let mut cpu = CPU::new();
    // STA $8000
    assert_eq!(Err(NesError::IllegalWrite(0x8000)), cpu.run_program(vec![0x8D, 0x00, 0x80, 0x00]));
}

#[test]
fn brk_pushes_state_and_jumps_through_vector() {
    let mut raw = vec![0x4E, 0x45, 0x53, 0x1A, 0x01, 0x01, 0x00, 0x00, 0, 0, 0, 0, 0, 0, 0, 0];
    let mut prg = vec![0xEAu8; 0x4000];
    prg[0x3FFE] = 0x34;
    prg[0x3FFF] = 0xC2;
    raw.extend(prg);
    raw.extend(vec![0u8; 0x2000]);
    let rom = ROM::new(raw).unwrap();
    let mut cpu = CpuAction::new(CpuState::new(), PpuState::new(), Controller::new(), rom);
    // SEC ; BRK at $0601
    cpu.bus.write_byte(0x0600, 0x38).unwrap();
    cpu.bus.write_byte(0x0601, 0x00).unwrap();
    cpu.next_cpu_instruction().unwrap();
    let ins = cpu.next_cpu_instruction().unwrap();
    assert_eq!(Opcode::BRK, ins.opcode);
    assert_eq!(7, ins.meta.cycles);
    let s = &cpu.bus.cpu_state;
    assert_eq!(0xC234, s.program_counter);
    assert_eq!(0xFA, s.stack_pointer);
    assert_eq!(0x06, s.ram.read(0x01FD));
    assert_eq!(0x03, s.ram.read(0x01FC));
    assert_eq!(0x25 | 0x10, s.ram.read(0x01FB));
    assert!(s.status.contains(CpuStatus::INT_DISABLE));
    assert!(!s.status.contains(CpuStatus::BRK));
}
