use vstd::prelude::*;
use crate::controller::Controller;
use crate::cpu_bus::{
    BusModel, CpuBus, OAM_DMA_CYCLES, page_next, read_spec, read_word_spec, with_pc, write_spec,
};
use crate::decode::{lemma_base_cycles, lemma_branch_entries, opcode_table};
use crate::cpu_state::{CpuModel, CpuState, CpuStatus, flag, push_spec, set_bit, stack_cell};
use crate::error::NesError;
use crate::execute::{
    brk_spec, execute_instruction, execute_spec, hi, lo, page_of, rmw_value, service_interrupt, service_spec, word,
};
use crate::instructions::{AddressingMode, Instruction, InstructionMetaData, Opcode, Param};
use crate::interrupt::{Interrupt, nmi_interrupt};
use crate::parse::{decode_param_spec, fetch_byte, fetch_word, parse_instruction, parse_spec};
use crate::ppu_state::{
    DOTS_PER_SCANLINE, PpuModel, PpuState, SCANLINES_PER_FRAME, frame_dots, frame_position, lemma_clock_any,
    ppu_advance,
};
use crate::rom::ROM;

verus! {

/// Whether `op` is a memory read that pays a cycle for crossing a page in indexed modes.
pub open spec fn pays_page_cross(op: Opcode) -> bool {
    op == Opcode::ADC || op == Opcode::AND || op == Opcode::CMP || op == Opcode::EOR
        || op == Opcode::LDA || op == Opcode::LDX || op == Opcode::LDY || op == Opcode::ORA
        || op == Opcode::SBC
}

/// Whether `op` is a conditional branch.
pub open spec fn is_branch(op: Opcode) -> bool {
    op == Opcode::BPL || op == Opcode::BMI || op == Opcode::BVC || op == Opcode::BVS
        || op == Opcode::BCC || op == Opcode::BCS || op == Opcode::BNE || op == Opcode::BEQ
}

/// Cycles beyond the base count: one for an indexed read that crossed a page; one for a
/// taken branch and one more if it crossed a page.
pub open spec fn extra_cycles(c: CpuModel, op: Opcode, mode: AddressingMode) -> u8 {
    if pays_page_cross(op) && (mode == AddressingMode::AbsoluteIndexX
        || mode == AddressingMode::AbsoluteIndexY || mode == AddressingMode::IndirectY) {
        if c.page_cross { 1 } else { 0 }
    } else if is_branch(op) {
        if c.branch && c.page_cross { 2 } else if c.branch { 1 } else { 0 }
    } else {
        0
    }
}

/// Servicing interrupt `i`: push PC high, PC low and the status (break flag per `i`),
/// set interrupt-disable per `i`, and continue at the address stored at its vector.
pub open spec fn interrupt_spec(m: BusModel, rom: ROM, i: Interrupt) -> (BusModel, Result<(), NesError>) {
    service_spec(
        m,
        rom,
        m.cpu.pc,
        set_bit(m.cpu.p, CpuStatus::BRK, i.is_set_b_flag),
        i.is_hardware_interrupt,
        i.vector,
    )
}

/// Accounting `cycles` CPU cycles: the cycle counter grows by them (modulo 2^64), a DMA
/// stall is consumed, and the PPU advances by three dots per cycle.
pub open spec fn count_spec(m: BusModel, cycles: u16) -> BusModel {
    BusModel {
        cpu: CpuModel { cycles: m.cpu.cycles.wrapping_add(cycles as u64), stall: 0, ..m.cpu },
        ppu: ppu_advance(m.ppu, 3 * cycles),
        ..m
    }
}

/// The interrupt poll at the start of a step: a pending NMI is consumed and serviced.
pub open spec fn poll_spec(m: BusModel, rom: ROM) -> (BusModel, Result<(), NesError>) {
    if m.ppu.nmi {
        interrupt_spec(BusModel { ppu: PpuModel { nmi: false, ..m.ppu }, ..m }, rom, nmi_interrupt())
    } else {
        (m, Ok(()))
    }
}

/// One CPU step: interrupt poll, fetch, decode, operand fetch, execution, then cycle
/// accounting and the PPU advance. On an error the bus is left as far as it got.
#[verifier::opaque]
pub open spec fn step_spec(m: BusModel, rom: ROM) -> (BusModel, Result<Instruction, NesError>) {
    let (m0, r0) = poll_spec(m, rom);
    match r0 {
        Err(e) => (m0, Err(e)),
        Ok(_) => {
            let (m1, r1) = parse_spec(m0, rom);
            match r1 {
                Err(e) => (m1, Err(e)),
                Ok(ins) => {
                    let (m2, r2) = execute_spec(m1, rom, ins);
                    match r2 {
                        Err(e) => (m2, Err(e)),
                        Ok(_) => {
                            let cycles = (ins.meta.cycles + extra_cycles(m2.cpu, ins.opcode, ins.meta.mode)
                                + m2.cpu.stall) as u16;
                            (
                                count_spec(m2, cycles),
                                Ok(Instruction { meta: InstructionMetaData { cycles: cycles, ..ins.meta }, ..ins }),
                            )
                        },
                    }
                },
            }
        },
    }
}

/// The CPU executor: drives the bus one instruction at a time.
pub struct CpuAction {
    pub bus: CpuBus,
}

impl CpuAction {
    pub open spec fn wf(&self) -> bool {
        self.bus.wf()
    }

    pub fn new(cpu_state: CpuState, ppu_state: PpuState, controller: Controller, rom: ROM) -> (r: CpuAction)
        requires
            cpu_state.wf(),
            ppu_state.wf(),
            controller.wf(),
            rom.wf(),
            cpu_state.dma_cycles <= OAM_DMA_CYCLES,
        ensures
            r.wf(),
            r.bus@.cpu == cpu_state@,
            r.bus@.ppu == ppu_state@,
            r.bus@.pad == controller@,
            r.bus.rom == rom,
    {
        CpuAction { bus: CpuBus::new(cpu_state, ppu_state, controller, rom) }
    }

    /// Executes the next instruction, servicing a pending NMI first, and returns its record.
    pub fn next_cpu_instruction(&mut self) -> (r: Result<Instruction, NesError>)
        requires
            old(self).wf(),
        ensures
            final(self).wf(),
            final(self).bus.rom == old(self).bus.rom,
            (final(self).bus@, r) == step_spec(old(self).bus@, old(self).bus.rom),
            r matches Ok(ins) ==> {
                &&& 2 <= ins.meta.cycles <= 522
                &&& final(self).bus@.cpu.cycles == old(self).bus@.cpu.cycles.wrapping_add(ins.meta.cycles as u64)
                &&& frame_position(final(self).bus@.ppu) == (frame_position(old(self).bus@.ppu) + 3
                    * ins.meta.cycles) % frame_dots()
            },
    {
        proof {
            lemma_step_clock(self.bus@, self.bus.rom);
            reveal(step_spec);
        }
        if self.bus.ppu_state.nmi_interrupt_poll {
            self.bus.ppu_state.nmi_interrupt_poll = false;
            self.execute_interrupt(Interrupt::nmi())?;
        }
        let ins = parse_instruction(&mut self.bus)?;
        execute_instruction(&mut self.bus, &ins)?;
        let extra = self.compute_extra_cycles(ins.opcode, ins.meta.mode);
        let cycles: u16 = ins.meta.cycles + extra as u16 + self.bus.cpu_state.dma_cycles;
        self.increment_cycle_counters(cycles);
        Ok(Instruction { opcode: ins.opcode, param: ins.param, meta: InstructionMetaData { cycles, ..ins.meta } })
    }

    /// Adds `cycles` to the CPU cycle counter, consumes a DMA stall and advances the
    /// PPU by three dots per cycle; returns whether the PPU completed a frame.
    pub fn increment_cycle_counters(&mut self, cycles: u16) -> (r: bool)
        requires
            old(self).wf(),
            cycles <= 0x5555,
        ensures
            final(self).wf(),
            final(self).bus.rom == old(self).bus.rom,
            final(self).bus@ == count_spec(old(self).bus@, cycles),
    {
        self.bus.cpu_state.cycle_counter = self.bus.cpu_state.cycle_counter.wrapping_add(cycles as u64);
        self.bus.cpu_state.dma_cycles = 0;
        self.bus.ppu_state.increment_cycle_counter(3 * cycles)
    }

    /// Pushes the return state and jumps through the interrupt's vector.
    pub fn execute_interrupt(&mut self, interrupt: Interrupt) -> (r: Result<(), NesError>)
        requires
            old(self).wf(),
        ensures
            final(self).wf(),
            final(self).bus.rom == old(self).bus.rom,
            (final(self).bus@, r) == interrupt_spec(old(self).bus@, old(self).bus.rom, interrupt),
    {
        let pc = self.bus.cpu_state.program_counter;
        let mut status = self.bus.cpu_state.status;
        status.set(CpuStatus::BRK, interrupt.is_set_b_flag);
        service_interrupt(&mut self.bus, pc, status.bits, interrupt.is_hardware_interrupt, interrupt.vector)
    }

    /// The extra cycles of the instruction just executed.
    pub fn compute_extra_cycles(&self, opcode: Opcode, mode: AddressingMode) -> (r: u8)
        ensures
            r == extra_cycles(self.bus@.cpu, opcode, mode),
    {
        let page_cross = self.bus.cpu_state.page_cross_flag;
        let branch = self.bus.cpu_state.branch_flag;
        if (opcode == Opcode::ADC || opcode == Opcode::AND || opcode == Opcode::CMP
            || opcode == Opcode::EOR || opcode == Opcode::LDA || opcode == Opcode::LDX
            || opcode == Opcode::LDY || opcode == Opcode::ORA || opcode == Opcode::SBC)
            && (mode == AddressingMode::AbsoluteIndexX || mode == AddressingMode::AbsoluteIndexY
            || mode == AddressingMode::IndirectY) {
            if page_cross { 1 } else { 0 }
        } else if opcode == Opcode::BPL || opcode == Opcode::BMI || opcode == Opcode::BVC
            || opcode == Opcode::BVS || opcode == Opcode::BCC || opcode == Opcode::BCS
            || opcode == Opcode::BNE || opcode == Opcode::BEQ {
            if branch && page_cross { 2 } else if branch { 1 } else { 0 }
        } else {
            0
        }
    }
}


/// A pending NMI is serviced, once, at the start of the next step and before its
/// instruction is fetched: PC high, PC low and the status (break clear) are pushed,
/// interrupt-disable is set, the latch is consumed and execution continues at the word
/// stored at `0xFFFA`.
pub proof fn lemma_nmi_service(m: BusModel, rom: ROM)
    requires
        m.ppu.nmi,
        m.cpu.ram.len() == 0x800,
        rom.wf(),
    ensures
        ({
            let (m0, r0) = poll_spec(m, rom);
            let c = m.cpu;
            &&& r0 == Ok::<(), NesError>(())
            &&& !m0.ppu.nmi
            &&& m0.cpu.s == c.s.wrapping_sub(3)
            &&& m0.cpu.ram == c.ram.update(stack_cell(c.s), hi(c.pc)).update(
                stack_cell(c.s.wrapping_sub(1)),
                lo(c.pc),
            ).update(stack_cell(c.s.wrapping_sub(2)), set_bit(c.p, CpuStatus::BRK, false))
            &&& m0.cpu.pc == word(
                rom.prg_rom@[rom.prg_index(0xFFFB)],
                rom.prg_rom@[rom.prg_index(0xFFFA)],
            )
            &&& flag(m0.cpu, CpuStatus::INT_DISABLE)
        }),
{
    let c = m.cpu;
    let p = c.p;
    assert(set_bit(p, 0x04, true) & 0x04 == 0x04) by (bit_vector);
    assert(0xFFFAu16.wrapping_add(1) == 0xFFFBu16);
}




/// Whether `a` agrees with `b` on the PPU's scanline and dot and on the CPU cycle
/// counter, and keeps a DMA stall
/// within its bound when `b` does.
pub open spec fn same_clock(a: BusModel, b: BusModel) -> bool {
    &&& a.ppu.dot == b.ppu.dot
    &&& a.ppu.scanline == b.ppu.scanline
    &&& a.cpu.cycles == b.cpu.cycles
    &&& (b.cpu.stall <= OAM_DMA_CYCLES ==> a.cpu.stall <= OAM_DMA_CYCLES)
}

proof fn lemma_read_keeps_clock(m: BusModel, rom: ROM, a: u16)
    ensures
        same_clock(read_spec(m, rom, a).0, m),
{
}

proof fn lemma_write_keeps_clock(m: BusModel, rom: ROM, a: u16, v: u8)
    ensures
        same_clock(write_spec(m, rom, a, v).0, m),
{
}

proof fn lemma_read_word_keeps_clock(m: BusModel, rom: ROM, a: u16, b: u16)
    ensures
        same_clock(read_word_spec(m, rom, a, b).0, m),
{
    lemma_read_keeps_clock(m, rom, a);
    lemma_read_keeps_clock(read_spec(m, rom, a).0, rom, b);
}

proof fn lemma_decode_param_keeps_clock(m: BusModel, rom: ROM, mode: AddressingMode)
    ensures
        same_clock(decode_param_spec(m, rom, mode).0, m),
{
    let pc = m.cpu.pc;
    lemma_read_keeps_clock(with_pc(m, pc.wrapping_add(1)), rom, pc);
    lemma_read_word_keeps_clock(with_pc(m, pc.wrapping_add(2)), rom, pc, pc.wrapping_add(1));
    let (m1b, rb) = fetch_byte(m, rom);
    let (m1w, rw) = fetch_word(m, rom);
    if let Ok(p) = rw {
        lemma_read_word_keeps_clock(m1w, rom, p, page_next(p));
    }
    if let Ok(b) = rb {
        let z = b.wrapping_add(m.cpu.x) as u16;
        lemma_read_word_keeps_clock(m1b, rom, z, page_next(z));
        lemma_read_word_keeps_clock(m1b, rom, b as u16, page_next(b as u16));
    }
}

proof fn lemma_service_keeps_clock(m: BusModel, rom: ROM, ret: u16, pushed: u8, set_i: bool, vector: u16)
    ensures
        same_clock(service_spec(m, rom, ret, pushed, set_i, vector).0, m),
{
    let c1 = push_spec(push_spec(push_spec(m.cpu, hi(ret)), lo(ret)), pushed);
    let c2 = CpuModel { p: set_bit(c1.p, CpuStatus::INT_DISABLE, set_i), ..c1 };
    lemma_read_word_keeps_clock(BusModel { cpu: c2, ..m }, rom, vector, vector.wrapping_add(1));
}

proof fn lemma_execute_keeps_clock(m: BusModel, rom: ROM, ins: Instruction)
    ensures
        same_clock(execute_spec(m, rom, ins).0, m),
{
    lemma_service_keeps_clock(m, rom, m.cpu.pc.wrapping_add(1), set_bit(m.cpu.p, CpuStatus::BRK, true), true, 0xFFFE);
    if let Param::Address(a) = ins.param {
        lemma_read_keeps_clock(m, rom, a);
        let (m1, r1) = read_spec(m, rom, a);
        if let Ok(v) = r1 {
            lemma_write_keeps_clock(m1, rom, a, rmw_value(m.cpu, ins.opcode, v));
        }
        lemma_write_keeps_clock(m, rom, a, m.cpu.a);
        lemma_write_keeps_clock(m, rom, a, m.cpu.x);
        lemma_write_keeps_clock(m, rom, a, m.cpu.y);
    }
}

/// Each successful step takes at least two cycles, and the PPU position moves on by three
/// dots per cycle modulo a frame (a frame is completed when it passes the end).
pub proof fn lemma_step_clock(m: BusModel, rom: ROM)
    requires
        m.ppu.scanline < SCANLINES_PER_FRAME,
        m.ppu.dot < DOTS_PER_SCANLINE,
        m.cpu.stall <= OAM_DMA_CYCLES,
    ensures
        step_spec(m, rom).1 matches Ok(ins) ==> {
            &&& 2 <= ins.meta.cycles <= 522
            &&& step_spec(m, rom).0.cpu.cycles == m.cpu.cycles.wrapping_add(ins.meta.cycles as u64)
            &&& frame_position(step_spec(m, rom).0.ppu) == (frame_position(m.ppu) + 3 * ins.meta.cycles) % frame_dots()
            &&& step_spec(m, rom).0.ppu.scanline < SCANLINES_PER_FRAME
            &&& step_spec(m, rom).0.ppu.dot < DOTS_PER_SCANLINE
        },
{
    reveal(step_spec);
    let (m0, r0) = poll_spec(m, rom);
    let mp = BusModel { ppu: PpuModel { nmi: false, ..m.ppu }, ..m };
    lemma_service_keeps_clock(mp, rom, mp.cpu.pc, set_bit(mp.cpu.p, CpuStatus::BRK, false), true, 0xFFFA);
    assert(same_clock(m0, m));
    if r0 is Ok {
        let pc = m0.cpu.pc;
        lemma_read_keeps_clock(with_pc(m0, pc.wrapping_add(1)), rom, pc);
        let (m1a, ra) = fetch_byte(m0, rom);
        if let Ok(raw) = ra {
            lemma_base_cycles(raw);
            if let Some((op, mode, base)) = opcode_table(raw) {
                lemma_decode_param_keeps_clock(m1a, rom, mode);
            }
        }
        let (m1, r1) = parse_spec(m0, rom);
        assert(same_clock(m1, m));
        if let Ok(ins) = r1 {
            lemma_execute_keeps_clock(m1, rom, ins);
            let (m2, r2) = execute_spec(m1, rom, ins);
            if r2 is Ok {
                assert(same_clock(m2, m));
                let cycles = (ins.meta.cycles + extra_cycles(m2.cpu, ins.opcode, ins.meta.mode) + m2.cpu.stall) as u16;
                assert(ins.meta.cycles >= 2 && ins.meta.cycles <= 7);
                assert(cycles >= 2 && cycles <= 522);
                lemma_clock_any(m2.ppu, 3 * cycles);
            }
        }
    }
}


/// A step keeps a DMA stall within its bound: count accounting consumes it.
pub proof fn lemma_stall_bound(m: BusModel, rom: ROM)
    ensures
        step_spec(m, rom).1 is Ok ==> step_spec(m, rom).0.cpu.stall == 0,
{
    reveal(step_spec);
}


/// A taken branch costs its two base cycles, one more for being taken, and one more
/// when it crosses a page.
pub proof fn lemma_branch_cycles(m: CpuModel, v: u8, raw: u8)
    requires
        opcode_table(raw) matches Some(t) && is_branch(t.0),
    ensures
        ({
            let (op, mode, base) = opcode_table(raw).unwrap();
            let after = crate::execute::branch_spec(m, v, true);
            base as int + extra_cycles(after, op, mode) == 3 + if after.page_cross { 1int } else { 0 }
        }),
{
}


/// Whether the branch `op` is taken under the status of `c`.
pub open spec fn branch_condition(op: Opcode, c: CpuModel) -> bool {
    match op {
        Opcode::BPL => !flag(c, CpuStatus::NEGATIVE),
        Opcode::BMI => flag(c, CpuStatus::NEGATIVE),
        Opcode::BVC => !flag(c, CpuStatus::OVERFLOW),
        Opcode::BVS => flag(c, CpuStatus::OVERFLOW),
        Opcode::BCC => !flag(c, CpuStatus::CARRY),
        Opcode::BCS => flag(c, CpuStatus::CARRY),
        Opcode::BNE => !flag(c, CpuStatus::ZERO),
        _ => flag(c, CpuStatus::ZERO),
    }
}

/// A whole step on a branch, for any program counter: with no NMI pending, no DMA stall,
/// and the opcode and offset fetched without error (reads in RAM or ROM never fail), the
/// step succeeds; when taken the program counter is `q + offset` (modulo 2^16, `q` the
/// address after the instruction) and it costs `2 + 1` cycles, plus one when the target is
/// in another page; when not taken it costs 2 cycles and continues at `q`. The cycle
/// counter grows by the cycles taken.
pub proof fn lemma_branch_step(m: BusModel, rom: ROM)
    requires
        !m.ppu.nmi,
        m.ppu.scanline < SCANLINES_PER_FRAME,
        m.ppu.dot < DOTS_PER_SCANLINE,
        m.cpu.stall == 0,
        fetch_byte(m, rom).1 matches Ok(b) && opcode_table(b) matches Some(t) && is_branch(t.0),
        fetch_byte(fetch_byte(m, rom).0, rom).1 is Ok,
    ensures
        ({
            let (m1, r) = step_spec(m, rom);
            let op = opcode_table(fetch_byte(m, rom).1->Ok_0).unwrap().0;
            let d = fetch_byte(fetch_byte(m, rom).0, rom).1->Ok_0;
            let q = m.cpu.pc.wrapping_add(2);
            let t = q.wrapping_add(crate::execute::sign_extend(d));
            &&& r matches Ok(ins) && ins.opcode == op && if branch_condition(op, m.cpu) {
                m1.cpu.pc == t && ins.meta.cycles == 3 + if page_of(t) != page_of(q) { 1int } else { 0 }
            } else {
                m1.cpu.pc == q && ins.meta.cycles == 2
            }
            &&& r matches Ok(ins) ==> m1.cpu.cycles == m.cpu.cycles.wrapping_add(ins.meta.cycles as u64)
        }),
{
    lemma_step_clock(m, rom);
    reveal(step_spec);
    let pc = m.cpu.pc;
    let (m1a, ra) = fetch_byte(m, rom);
    let raw = ra->Ok_0;
    lemma_branch_entries(raw);
    let (op, mode, base) = opcode_table(raw).unwrap();
    let (m2, rd) = fetch_byte(m1a, rom);
    let d = rd->Ok_0;
    let (m0, r0) = poll_spec(m, rom);
    assert(m0 == m && r0 is Ok);
    assert(m1a.cpu == (CpuModel { pc: pc.wrapping_add(1), ..m.cpu }));
    assert(m2.cpu == (CpuModel { pc: pc.wrapping_add(1).wrapping_add(1), ..m.cpu }));
    assert(decode_param_spec(m1a, rom, mode) == (m2, Ok::<Param, NesError>(Param::Value(d))));
    let (m1, r1) = parse_spec(m, rom);
    assert(m1 == m2);
    let ins = r1->Ok_0;
    assert(ins.opcode == op && ins.param == Param::Value(d) && ins.meta.cycles == 2 && ins.meta.mode == mode);
    assert(pc.wrapping_add(1).wrapping_add(1) == pc.wrapping_add(2));
    let c3 = crate::execute::branch_spec(m2.cpu, d, branch_condition(op, m.cpu));
    assert(crate::execute::value_op_spec(m2.cpu, op, d) == c3);
    let (m3, r3) = execute_spec(m1, rom, ins);
    assert(m3 == BusModel { cpu: c3, ..m2 } && r3 is Ok);
}

/// A whole step with an NMI pending: the interrupt is serviced first (see
/// `lemma_nmi_service`) and the instruction that then runs is the first one of the
/// handler: its opcode is the byte read at the word stored at `0xFFFA`, wherever the
/// handler lies, and for a handler in program ROM that byte is the ROM's.
pub proof fn lemma_nmi_step(m: BusModel, rom: ROM)
    requires
        m.ppu.nmi,
        m.cpu.ram.len() == 0x800,
        rom.wf(),
    ensures
        ({
            let w = word(rom.prg_rom@[rom.prg_index(0xFFFB)], rom.prg_rom@[rom.prg_index(0xFFFA)]);
            let m0 = poll_spec(m, rom).0;
            &&& m0.cpu.pc == w
            &&& (step_spec(m, rom).1 matches Ok(ins) ==> read_spec(with_pc(m0, w.wrapping_add(1)), rom, w).1
                == Ok::<u8, NesError>(ins.meta.raw_opcode))
            &&& (w >= 0x8000 ==> (step_spec(m, rom).1 matches Ok(ins) ==> ins.meta.raw_opcode
                == rom.prg_rom@[rom.prg_index(w)]))
        }),
{
    reveal(step_spec);
    lemma_nmi_service(m, rom);
}

} // verus!
