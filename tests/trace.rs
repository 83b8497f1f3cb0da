use rust_nes_emulator::controller::Controller;
use rust_nes_emulator::cpu_action::CpuAction;
use rust_nes_emulator::cpu_state::CpuState;
use rust_nes_emulator::instructions::Opcode;
use rust_nes_emulator::ppu_state::PpuState;
use rust_nes_emulator::rom::test_rom;
use rust_nes_emulator::trace::trace_cpu;
use rust_nes_emulator::tracer::TraceNes;

fn run_with_trace(cpu: &mut CpuAction) -> Vec<String> {
    let mut result: Vec<String> = vec![];
    for _ in 0..100 {
        if let Ok(s) = trace_cpu(&cpu.bus) {
            result.push(s);
        }
        match cpu.next_cpu_instruction() {
            Ok(ins) if ins.opcode != Opcode::BRK => {}
            _ => break,
        }
    }
    result
}

#[test]
fn test_format_trace_cpu() {
    let mut cpu = CpuAction::new(CpuState::new(), PpuState::new(), Controller::new(), test_rom());
    cpu.bus.write_byte(100, 0xa2).unwrap();
    cpu.bus.write_byte(101, 0x01).unwrap();
    cpu.bus.write_byte(102, 0xca).unwrap();
    cpu.bus.write_byte(103, 0x88).unwrap();
    cpu.bus.write_byte(104, 0x00).unwrap();
    cpu.bus.cpu_state.program_counter = 0x64;
    cpu.bus.cpu_state.reg_a = 1;
    cpu.bus.cpu_state.reg_x = 2;
    cpu.bus.cpu_state.reg_y = 3;
    let result = run_with_trace(&mut cpu);
    assert_eq!(
        "0064  A2 01     LDX #$01                        A:01 X:02 Y:03 P:24 SP:FD",
        result[0]
    );
    assert_eq!(
        "0066  CA        DEX                             A:01 X:01 Y:03 P:24 SP:FD",
        result[1]
    );
    assert_eq!(
        "0067  88        DEY                             A:01 X:00 Y:03 P:26 SP:FD",
        result[2]
    );
}

#[test]
fn test_format_mem_access() {
    let mut cpu = CpuAction::new(CpuState::new(), PpuState::new(), Controller::new(), test_rom());
    // ORA ($33), Y
    cpu.bus.write_byte(100, 0x11).unwrap();
    cpu.bus.write_byte(101, 0x33).unwrap();
    // data
    cpu.bus.write_byte(0x33, 00).unwrap();
    cpu.bus.write_byte(0x34, 04).unwrap();
    // target cell
    cpu.bus.write_byte(0x400, 0xAA).unwrap();
    cpu.bus.cpu_state.program_counter = 0x64;
    cpu.bus.cpu_state.reg_y = 0;
    let result = run_with_trace(&mut cpu);
    assert_eq!(
        "0064  11 33     ORA ($33),Y = 0400 @ 0400 = AA  A:00 X:00 Y:00 P:24 SP:FD",
        result[0]
    );
}

#[test]
fn trace_of_jumps_and_branches() {
    let mut cpu = CpuAction::new(CpuState::new(), PpuState::new(), Controller::new(), test_rom());
    // JMP $0605 at $0600, BNE -2 at $0605, JMP ($02FF) at $0607, STA $0200,X at $060A
    for (i, b) in [0x4C, 0x05, 0x06, 0xEA, 0xEA, 0xD0, 0xFE, 0x6C, 0xFF, 0x02, 0x9D, 0x00, 0x02]
        .iter()
        .enumerate()
    {
        cpu.bus.write_byte(0x600 + i as u16, *b).unwrap();
    }
    cpu.bus.write_byte(0x02FF, 0x34).unwrap();
    cpu.bus.write_byte(0x0200, 0x12).unwrap();
    assert_eq!(
        "0600  4C 05 06  JMP $0605                       A:00 X:00 Y:00 P:24 SP:FD",
        trace_cpu(&cpu.bus).unwrap()
    );
    cpu.bus.cpu_state.program_counter = 0x605;
    assert_eq!(
        "0605  D0 FE     BNE $0605                       A:00 X:00 Y:00 P:24 SP:FD",
        trace_cpu(&cpu.bus).unwrap()
    );
    cpu.bus.cpu_state.program_counter = 0x607;
    assert_eq!(
        "0607  6C FF 02  JMP ($02FF) = 1234              A:00 X:00 Y:00 P:24 SP:FD",
        trace_cpu(&cpu.bus).unwrap()
    );
    cpu.bus.cpu_state.program_counter = 0x60A;
    assert_eq!(
        "060A  9D 00 02  STA $0200,X @ 0200 = 12         A:00 X:00 Y:00 P:24 SP:FD",
        trace_cpu(&cpu.bus).unwrap()
    );
}

#[test]
fn trace_nes_records_clock() {
    let mut raw = vec![0x4E, 0x45, 0x53, 0x1A, 0x01, 0x01, 0x00, 0x00, 0, 0, 0, 0, 0, 0, 0, 0];
    let mut prg = vec![0xEAu8; 0x4000];
    prg[0x3FFC] = 0x00;
    prg[0x3FFD] = 0xC0;
    raw.extend(prg);
    raw.extend(vec![0u8; 0x2000]);
    let mut t = TraceNes::new(2);
    t.nes.load_from_bytes(raw).unwrap();
    t.nes.reset().unwrap();
    t.next_cpu_instruction().unwrap();
    assert_eq!(
        "C000  EA        NOP                             A:00 X:00 Y:00 P:24 SP:FD PPU:  0, 21 CYC:7",
        t.program_trace[0]
    );
    t.next_cpu_instruction().unwrap();
    t.next_cpu_instruction().unwrap();
    assert_eq!(2, t.program_trace.len());
    assert_eq!(
        "C002  EA        NOP                             A:00 X:00 Y:00 P:24 SP:FD PPU:  0, 33 CYC:11",
        t.program_trace[1]
    );
}

#[test]
fn trace_nes_frame_keeps_last_lines() {
    let mut raw = vec![0x4E, 0x45, 0x53, 0x1A, 0x01, 0x01, 0x00, 0x00, 0, 0, 0, 0, 0, 0, 0, 0];
    let mut prg = vec![0xEAu8; 0x4000];
    // JMP $C000 at $C001 keeps the program in a loop.
    prg[1] = 0x4C;
    prg[2] = 0x00;
    prg[3] = 0xC0;
    prg[0x3FFC] = 0x00;
    prg[0x3FFD] = 0xC0;
    raw.extend(prg);
    raw.extend(vec![0u8; 0x2000]);
    let mut t = TraceNes::new(3);
    t.nes.load_from_bytes(raw).unwrap();
    t.nes.reset().unwrap();
    t.next_ppu_frame().unwrap();
    assert_eq!(3, t.program_trace.len());
    assert_eq!(0, t.nes.peek_ppu_state().cur_scanline);
    assert!(t.program_trace[2].contains("JMP $C000") || t.program_trace[2].contains("NOP"));
}

#[test]
fn trace_of_ppu_register_operands() {
    let mut cpu = CpuAction::new(CpuState::new(), PpuState::new(), Controller::new(), test_rom());
    // LDA $2002 ; STA $2000
    for (i, b) in [0xAD, 0x02, 0x20, 0x8D, 0x00, 0x20].iter().enumerate() {
        cpu.bus.write_byte(0x600 + i as u16, *b).unwrap();
    }
    assert_eq!(
        "0600  AD 02 20  LDA $2002                       A:00 X:00 Y:00 P:24 SP:FD",
        trace_cpu(&cpu.bus).unwrap()
    );
    cpu.bus.cpu_state.program_counter = 0x603;
    assert_eq!(
        "0603  8D 00 20  STA $2000                       A:00 X:00 Y:00 P:24 SP:FD",
        trace_cpu(&cpu.bus).unwrap()
    );
}

#[test]
fn trace_nes_runs_ppu_register_writes_and_setup() {
    let mut raw = vec![0x4E, 0x45, 0x53, 0x1A, 0x01, 0x01, 0x00, 0x00, 0, 0, 0, 0, 0, 0, 0, 0];
    let mut prg = vec![0xEAu8; 0x4000];
    // At $C004: LDA #$80 ; STA $2000 ; LDA $2002
    for (i, b) in [0xA9, 0x80, 0x8D, 0x00, 0x20, 0xAD, 0x02, 0x20].iter().enumerate() {
        prg[4 + i] = *b;
    }
    prg[0x3FFC] = 0x08;
    prg[0x3FFD] = 0xC0;
    raw.extend(prg);
    raw.extend(vec![0u8; 0x2000]);
    let mut t = TraceNes::new(10);
    t.nes.load_from_bytes(raw).unwrap();
    t.setup().unwrap();
    assert_eq!(0xC004, t.nes.peek_cpu_state().program_counter);
    assert_eq!(7, t.nes.peek_cpu_state().cycle_counter);
    assert_eq!(21, t.nes.peek_ppu_state().cycle_counter);
    for _ in 0..3 {
        t.next_cpu_instruction().unwrap();
    }
    assert_eq!(0x80, t.nes.peek_ppu_state().ppuctrl.bits());
    assert_eq!(3, t.program_trace.len());
    assert_eq!(
        "C006  8D 00 20  STA $2000                       A:80 X:00 Y:00 P:A4 SP:FD PPU:  0, 27 CYC:9",
        t.program_trace[1]
    );
    assert!(t.program_trace[2].starts_with("C009  AD 02 20  LDA $2002"));
}
