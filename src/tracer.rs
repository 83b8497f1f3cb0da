use vstd::prelude::*;
use vstd::string::*;
use crate::cpu_action::step_spec;
use crate::error::NesError;
use crate::instructions::Instruction;
use crate::nes::{ActionNES, MAX_FRAME_STEPS, frame_completes, frame_spec, lemma_frame_completes};
use crate::trace::{peek_word_opt, trace_cpu, trace_spec};
use crate::cpu_bus::BusModel;
use crate::cpu_state::CpuModel;
use crate::ppu_state::{PpuModel, frame_position};
use crate::rom::ROM;

verus! {

/// The decimal digit `d` (below 10).
pub open spec fn decimal_digit(d: nat) -> Seq<char> {
    if d == 0 { "0"@ } else if d == 1 { "1"@ } else if d == 2 { "2"@ } else if d == 3 { "3"@ }
    else if d == 4 { "4"@ } else if d == 5 { "5"@ } else if d == 6 { "6"@ } else if d == 7 { "7"@ }
    else if d == 8 { "8"@ } else { "9"@ }
}

/// The decimal notation of `n`.
pub open spec fn decimal(n: nat) -> Seq<char>
    decreases n,
{
    if n < 10 { decimal_digit(n) } else { decimal(n / 10) + decimal_digit(n % 10) }
}

/// The decimal notation of `n` right-aligned in three columns.
pub open spec fn decimal3(n: nat) -> Seq<char> {
    if n < 10 { "  "@ + decimal(n) } else if n < 100 { " "@ + decimal(n) } else { decimal(n) }
}

/// The clock part of a trace line: PPU scanline and dot, then the CPU cycle count.
pub open spec fn clock_text(scanline: nat, dot: nat, cycles: nat) -> Seq<char> {
    " PPU:"@ + decimal3(scanline) + ","@ + decimal3(dot) + " CYC:"@ + decimal(cycles)
}

/// The last `n` elements of `s` (all of them when it is shorter).
pub open spec fn last_n<T>(s: Seq<T>, n: nat) -> Seq<T> {
    if s.len() <= n { s } else { s.subrange(s.len() - n, s.len() as int) }
}

fn digit(d: u64) -> (r: &'static str)
    requires
        d < 10,
    ensures
        r@ == decimal_digit(d as nat),
{
    if d == 0 { "0" } else if d == 1 { "1" } else if d == 2 { "2" } else if d == 3 { "3" }
    else if d == 4 { "4" } else if d == 5 { "5" } else if d == 6 { "6" } else if d == 7 { "7" }
    else if d == 8 { "8" } else { "9" }
}

fn push_decimal(s: &mut String, n: u64)
    ensures
        final(s)@ == old(s)@ + decimal(n as nat),
    decreases n,
{
    if n >= 10 {
        push_decimal(s, n / 10);
    }
    s.append(digit(n % 10));
    proof {
        if n >= 10 {
            assert(s@ =~= old(s)@ + decimal(n as nat));
        }
    }
}

fn push_decimal3(s: &mut String, n: u64)
    ensures
        final(s)@ == old(s)@ + decimal3(n as nat),
{
    let ghost start = s@;
    if n < 10 {
        s.append("  ");
    } else if n < 100 {
        s.append(" ");
    }
    push_decimal(s, n);
    proof {
        if n < 100 {
            assert(s@ =~= start + decimal3(n as nat));
        }
    }
}

/// The texts of a sequence of trace lines.
pub open spec fn trace_views(v: Seq<String>) -> Seq<Seq<char>> {
    v.map_values(|l: String| l@)
}

/// The trace line a step from `m` records: the instruction's line with the PPU position
/// and cycle count, or none when no line can be made.
pub open spec fn step_line(m: BusModel, rom: ROM) -> Seq<Seq<char>> {
    match trace_spec(m, rom) {
        Ok(t) => seq![t + clock_text(m.ppu.scanline as nat, m.ppu.dot as nat, m.cpu.cycles as nat)],
        Err(_) => Seq::empty(),
    }
}

/// The trace lines that the steps of `frame_spec` record, in order (including the line of
/// a step that fails).
pub open spec fn frame_lines(m: BusModel, rom: ROM, fuel: nat) -> Seq<Seq<char>>
    decreases fuel,
{
    if fuel == 0 {
        Seq::empty()
    } else {
        let (m1, r) = step_spec(m, rom);
        match r {
            Err(_) => step_line(m, rom),
            Ok(_) => if frame_position(m1.ppu) < frame_position(m.ppu) {
                step_line(m, rom)
            } else {
                step_line(m, rom) + frame_lines(m1, rom, (fuel - 1) as nat)
            },
        }
    }
}

proof fn lemma_views_last_n(s: Seq<String>, n: nat)
    ensures
        trace_views(last_n(s, n)) == last_n(trace_views(s), n),
{
    assert(trace_views(last_n(s, n)) =~= last_n(trace_views(s), n));
}

proof fn lemma_views_push(s: Seq<String>, l: String)
    ensures
        trace_views(s.push(l)) == trace_views(s) + seq![l@],
{
    assert(trace_views(s.push(l)) =~= trace_views(s) + seq![l@]);
}

proof fn lemma_last_n_append(s: Seq<Seq<char>>, t: Seq<Seq<char>>, n: nat)
    ensures
        last_n(last_n(s, n) + t, n) == last_n(s + t, n),
{
    assert(last_n(last_n(s, n) + t, n) =~= last_n(s + t, n));
}

/// A console that records a trace line for every instruction it executes.
pub struct TraceNes {
    pub nes: ActionNES,
    /// The most recent trace lines, oldest first.
    pub program_trace: Vec<String>,
    /// How many lines are kept.
    pub trace_length: usize,
}

impl TraceNes {
    pub open spec fn wf(&self) -> bool {
        self.nes.wf() && self.program_trace@.len() <= self.trace_length
    }

    pub fn new(trace_length: usize) -> (r: TraceNes)
        ensures
            r.wf(),
            r.program_trace@.len() == 0,
            r.trace_length == trace_length,
    {
        TraceNes { nes: ActionNES::new(), program_trace: Vec::new(), trace_length }
    }

    /// The trace line of the next instruction, with the PPU position and cycle count.
    pub fn log_trace(&self) -> (r: Result<String, NesError>)
        requires
            self.wf(),
        ensures
            match r {
                Ok(s) => trace_spec(self.nes.action.bus@, self.nes.action.bus.rom) matches Ok(t)
                    && s@ == t + clock_text(
                        self.nes.action.bus@.ppu.scanline as nat,
                        self.nes.action.bus@.ppu.dot as nat,
                        self.nes.action.bus@.cpu.cycles as nat,
                    ),
                Err(e) => trace_spec(self.nes.action.bus@, self.nes.action.bus.rom) == Err::<Seq<char>, NesError>(e),
            },
    {
        let mut line = trace_cpu(&self.nes.action.bus)?;
        let ghost head = line@;
        line.append(" PPU:");
        push_decimal3(&mut line, self.nes.action.bus.ppu_state.cur_scanline as u64);
        line.append(",");
        push_decimal3(&mut line, self.nes.action.bus.ppu_state.cycle_counter as u64);
        line.append(" CYC:");
        push_decimal(&mut line, self.nes.action.bus.cpu_state.cycle_counter);
        assert(line@ =~= head + clock_text(
            self.nes.action.bus@.ppu.scanline as nat,
            self.nes.action.bus@.ppu.dot as nat,
            self.nes.action.bus@.cpu.cycles as nat,
        ));
        Ok(line)
    }

    /// Appends a line, dropping the oldest ones beyond `trace_length`.
    pub fn push_to_trace(&mut self, trace_line: String)
        ensures
            final(self).program_trace@ == last_n(old(self).program_trace@.push(trace_line), old(self).trace_length as nat),
            final(self).program_trace@.len() <= final(self).trace_length,
            final(self).trace_length == old(self).trace_length,
            final(self).nes == old(self).nes,
    {
        let ghost all = self.program_trace@.push(trace_line);
        self.program_trace.push(trace_line);
        while self.program_trace.len() > self.trace_length
            invariant
                self.trace_length == old(self).trace_length,
                self.nes == old(self).nes,
                all == old(self).program_trace@.push(trace_line),
                self.program_trace@.len() <= all.len(),
                all.len() > self.trace_length ==> self.program_trace@.len() >= self.trace_length,
                all.len() <= self.trace_length ==> self.program_trace@.len() == all.len(),
                self.program_trace@ == all.subrange(all.len() - self.program_trace@.len(), all.len() as int),
            decreases self.program_trace@.len(),
        {
            self.program_trace.remove(0);
            assert(self.program_trace@ =~= all.subrange(all.len() - self.program_trace@.len(), all.len() as int));
        }
        assert(self.program_trace@ =~= last_n(all, self.trace_length as nat));
    }

    /// Executes one instruction, recording its trace line first. Tracing never changes
    /// what the step does: when no line can be made (the opcode byte cannot be peeked or
    /// is not official) the step still runs and no line is recorded.
    pub fn next_cpu_instruction(&mut self) -> (r: Result<Instruction, NesError>)
        requires
            old(self).wf(),
        ensures
            final(self).wf(),
            final(self).nes.action.bus.rom == old(self).nes.action.bus.rom,
            (final(self).nes.action.bus@, r) == step_spec(old(self).nes.action.bus@, old(self).nes.action.bus.rom),
            final(self).trace_length == old(self).trace_length,
            trace_views(final(self).program_trace@) == last_n(
                trace_views(old(self).program_trace@) + step_line(old(self).nes.action.bus@, old(self).nes.action.bus.rom),
                old(self).trace_length as nat,
            ),
    {
        let ghost old_trace = self.program_trace@;
        let ghost n = self.trace_length as nat;
        let line = self.log_trace();
        let instruction = self.nes.next_cpu_instruction();
        match line {
            Ok(l) => {
                self.push_to_trace(l);
                proof {
                    lemma_views_last_n(old_trace.push(l), n);
                    lemma_views_push(old_trace, l);
                }
            },
            Err(_) => {
                assert(trace_views(old_trace) + Seq::<Seq<char>>::empty() =~= trace_views(old_trace));
            },
        }
        instruction
    }

    /// Executes instructions, tracing each, until the PPU completes a frame.
    pub fn next_ppu_frame(&mut self) -> (r: Result<(), NesError>)
        requires
            old(self).wf(),
        ensures
            final(self).wf(),
            (final(self).nes.action.bus@, r) == frame_spec(
                old(self).nes.action.bus@,
                old(self).nes.action.bus.rom,
                MAX_FRAME_STEPS as nat,
            ),
            r is Ok ==> frame_completes(old(self).nes.action.bus@, old(self).nes.action.bus.rom, MAX_FRAME_STEPS as nat),
            final(self).trace_length == old(self).trace_length,
            trace_views(final(self).program_trace@) == last_n(
                trace_views(old(self).program_trace@) + frame_lines(
                    old(self).nes.action.bus@,
                    old(self).nes.action.bus.rom,
                    MAX_FRAME_STEPS as nat,
                ),
                old(self).trace_length as nat,
            ),
    {
        proof {
            lemma_frame_completes(self.nes.action.bus@, self.nes.action.bus.rom, MAX_FRAME_STEPS as nat);
            assert(trace_views(self.program_trace@) + Seq::<Seq<char>>::empty() =~= trace_views(self.program_trace@));
        }
        let ghost done: Seq<Seq<char>> = Seq::empty();
        let ghost rom = self.nes.action.bus.rom;
        let ghost n = self.trace_length as nat;
        let ghost start = trace_views(self.program_trace@);
        proof {
            assert(done + frame_lines(self.nes.action.bus@, rom, MAX_FRAME_STEPS as nat) =~= frame_lines(
                self.nes.action.bus@,
                rom,
                MAX_FRAME_STEPS as nat,
            ));
        }
        let mut fuel: u32 = MAX_FRAME_STEPS;
        while fuel > 0
            invariant
                self.wf(),
                self.trace_length == old(self).trace_length,
                n == self.trace_length as nat,
                rom == old(self).nes.action.bus.rom,
                start == trace_views(old(self).program_trace@),
                frame_lines(old(self).nes.action.bus@, rom, MAX_FRAME_STEPS as nat) == done + frame_lines(
                    self.nes.action.bus@,
                    rom,
                    fuel as nat,
                ),
                trace_views(self.program_trace@) == last_n(start + done, n),
                self.nes.action.bus.rom == old(self).nes.action.bus.rom,
                frame_spec(self.nes.action.bus@, self.nes.action.bus.rom, fuel as nat) == frame_spec(
                    old(self).nes.action.bus@,
                    old(self).nes.action.bus.rom,
                    MAX_FRAME_STEPS as nat,
                ),
                frame_completes(self.nes.action.bus@, self.nes.action.bus.rom, fuel as nat) == frame_completes(
                    old(self).nes.action.bus@,
                    old(self).nes.action.bus.rom,
                    MAX_FRAME_STEPS as nat,
                ),
                frame_spec(old(self).nes.action.bus@, old(self).nes.action.bus.rom, MAX_FRAME_STEPS as nat).1 is Ok
                    ==> frame_completes(old(self).nes.action.bus@, old(self).nes.action.bus.rom, MAX_FRAME_STEPS as nat),
            decreases fuel,
        {
            let before = self.nes.action.bus.ppu_state.cur_scanline as u32 * 341
                + self.nes.action.bus.ppu_state.cycle_counter as u32;
            let ghost m = self.nes.action.bus@;
            let ghost line = step_line(m, rom);
            let step = self.next_cpu_instruction();
            proof {
                lemma_last_n_append(start + done, line, n);
                assert(start + done + line =~= start + (done + line));
                assert(done + line + frame_lines(self.nes.action.bus@, rom, (fuel - 1) as nat) =~= done + (line
                    + frame_lines(self.nes.action.bus@, rom, (fuel - 1) as nat)));
                done = done + line;
            }
            if let Err(e) = step {
                return Err(e);
            }
            let after = self.nes.action.bus.ppu_state.cur_scanline as u32 * 341
                + self.nes.action.bus.ppu_state.cycle_counter as u32;
            if after < before {
                return Ok(());
            }
            fuel = fuel - 1;
        }
        Ok(())
    }

    /// Prepares a loaded console for comparison with the reference log of the CPU test
    /// cartridge: the program counter is set to the reset vector minus 4, the CPU cycle
    /// counter to 7 and the PPU dot to 21.
    pub fn setup(&mut self) -> (r: Result<(), NesError>)
        requires
            old(self).wf(),
        ensures
            final(self).wf(),
            final(self).nes.action.bus.rom == old(self).nes.action.bus.rom,
            final(self).program_trace@ == old(self).program_trace@,
            final(self).trace_length == old(self).trace_length,
            match peek_word_opt(old(self).nes.action.bus@, old(self).nes.action.bus.rom, 0xFFFC, 0xFFFD) {
                Some(w) => r is Ok && final(self).nes.action.bus@ == (BusModel {
                    cpu: CpuModel { pc: w.wrapping_sub(4), cycles: 7, ..old(self).nes.action.bus@.cpu },
                    ppu: PpuModel { dot: 21, ..old(self).nes.action.bus@.ppu },
                    ..old(self).nes.action.bus@
                }),
                None => r is Err && final(self).nes == old(self).nes,
            },
    {
        assert(0xFFFCu16.wrapping_add(1) == 0xFFFDu16);
        let vector = self.nes.action.bus.peek_two_bytes(0xFFFC)?;
        self.nes.action.bus.cpu_state.program_counter = vector.wrapping_sub(4);
        self.nes.action.bus.cpu_state.cycle_counter = 7;
        self.nes.action.bus.ppu_state.cycle_counter = 21;
        Ok(())
    }
}

} // verus!
