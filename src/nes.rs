use vstd::prelude::*;
use crate::controller::Controller;
use crate::cpu_action::{CpuAction, count_spec, lemma_stall_bound, lemma_step_clock, step_spec};
use crate::cpu_bus::{BusModel, OAM_DMA_CYCLES, read_word_spec, with_pc};
use crate::cpu_state::{CpuModel, CpuState, initial_status, STACK_POINTER_INIT};
use crate::error::NesError;
use crate::frame::{Frame, rendered_frame};
use crate::instructions::Instruction;
use crate::ppu_state::{DOTS_PER_SCANLINE, PpuState, SCANLINES_PER_FRAME, frame_dots, frame_position};
use crate::rom::{ROM, chr_start, image_end, load_error, mapper_of, mirroring_of, prg_start};

verus! {

/// An upper bound on the instructions of one frame: every instruction takes at least two
/// CPU cycles, that is six dots, and a frame has 262 x 341 dots.
pub const MAX_FRAME_STEPS: u32 = 14891;

/// Running instructions until one of them completes a frame (the PPU position wraps),
/// for at most `fuel` instructions.
pub open spec fn frame_spec(m: BusModel, rom: ROM, fuel: nat) -> (BusModel, Result<(), NesError>)
    decreases fuel,
{
    if fuel == 0 {
        (m, Ok(()))
    } else {
        let (m1, r) = step_spec(m, rom);
        match r {
            Err(e) => (m1, Err(e)),
            Ok(_) => if frame_position(m1.ppu) < frame_position(m.ppu) {
                (m1, Ok(()))
            } else {
                frame_spec(m1, rom, (fuel - 1) as nat)
            },
        }
    }
}

/// Whether running as `frame_spec` does ends because a frame was completed (rather than
/// by an error or by running out of `fuel`).
pub open spec fn frame_completes(m: BusModel, rom: ROM, fuel: nat) -> bool
    decreases fuel,
{
    if fuel == 0 {
        false
    } else {
        let (m1, r) = step_spec(m, rom);
        match r {
            Err(_) => false,
            Ok(_) => if frame_position(m1.ppu) < frame_position(m.ppu) {
                true
            } else {
                frame_completes(m1, rom, (fuel - 1) as nat)
            },
        }
    }
}

/// Enough steps always complete the frame: every step takes at least six dots.
pub proof fn lemma_frame_completes(m: BusModel, rom: ROM, fuel: nat)
    requires
        m.ppu.scanline < SCANLINES_PER_FRAME,
        m.ppu.dot < DOTS_PER_SCANLINE,
        m.cpu.stall <= OAM_DMA_CYCLES,
        6 * fuel > frame_dots() - frame_position(m.ppu),
    ensures
        frame_spec(m, rom, fuel).1 is Ok ==> frame_completes(m, rom, fuel),
    decreases fuel,
{
    if fuel > 0 {
        lemma_step_clock(m, rom);
        let (m1, r) = step_spec(m, rom);
        if let Ok(ins) = r {
            if frame_position(m1.ppu) >= frame_position(m.ppu) {
                let x = frame_position(m.ppu) + 3 * ins.meta.cycles;
                assert(frame_position(m1.ppu) == x % frame_dots());
                if x >= frame_dots() {
                    assert(x % frame_dots() == x - frame_dots()) by (nonlinear_arith)
                        requires
                            89342 <= x < 2 * 89342;
                } else {
                    assert(x % frame_dots() == x) by (nonlinear_arith)
                        requires
                            0 <= x < 89342;
                }
                lemma_stall_bound(m, rom);
                lemma_frame_completes(m1, rom, (fuel - 1) as nat);
            }
        }
    }
}

/// The reset sequence: registers, stack pointer and status reset, the program counter
/// loaded from the reset vector at `0xFFFC`, the cycle counter set to 7 and the PPU
/// advanced by the matching 21 dots.
pub open spec fn reset_spec(m: BusModel, rom: ROM) -> (BusModel, Result<(), NesError>) {
    let c = CpuModel { a: 0, x: 0, y: 0, s: STACK_POINTER_INIT, p: initial_status(), ..m.cpu };
    let (m1, r) = read_word_spec(BusModel { cpu: c, ..m }, rom, 0xFFFC, 0xFFFD);
    match r {
        Err(e) => (m1, Err(e)),
        Ok(w) => {
            let m2 = with_pc(m1, w);
            (count_spec(BusModel { cpu: CpuModel { cycles: 0, ..m2.cpu }, ..m2 }, 7), Ok(()))
        },
    }
}

/// The console: CPU, PPU, controller and cartridge, driven one instruction or one frame
/// at a time by a host.
pub struct ActionNES {
    pub action: CpuAction,
}

impl ActionNES {
    pub open spec fn wf(&self) -> bool {
        self.action.wf()
    }

    /// A powered-on console with an empty cartridge.
    pub fn new() -> (r: ActionNES)
        ensures
            r.wf(),
            r.action.bus@.cpu.pc == crate::cpu_state::PROGRAM_COUNTER_INIT,
            r.action.bus@.cpu.s == STACK_POINTER_INIT,
            r.action.bus@.cpu.p == initial_status(),
            r.action.bus@.cpu.cycles == 0,
            r.action.bus@.ppu.scanline == 0 && r.action.bus@.ppu.dot == 0 && !r.action.bus@.ppu.nmi,
            r.action.bus.rom.mapper == 0,
    {
        ActionNES {
            action: CpuAction::new(CpuState::new(), PpuState::new(), Controller::new(), ROM::new_empty()),
        }
    }

    /// Inserts a cartridge.
    pub fn set_rom(&mut self, rom: ROM)
        requires
            old(self).wf(),
            rom.wf(),
        ensures
            final(self).wf(),
            final(self).action.bus.rom == rom,
            final(self).action.bus@ == old(self).action.bus@,
    {
        self.action.bus.rom = rom;
    }

    /// Loads a cartridge image and inserts it.
    pub fn load_from_bytes(&mut self, raw: Vec<u8>) -> (r: Result<(), NesError>)
        requires
            old(self).wf(),
        ensures
            final(self).wf(),
            final(self).action.bus@ == old(self).action.bus@,
            load_error(raw@) matches Some(e) ==> r == Err::<(), NesError>(e) && final(self).action.bus.rom == old(self).action.bus.rom,
            load_error(raw@) is None ==> (r is Ok && final(self).action.bus.rom.mirroring == mirroring_of(raw@)
                && final(self).action.bus.rom.mapper == mapper_of(raw@)
                && final(self).action.bus.rom.prg_rom@ == raw@.subrange(prg_start(raw@), chr_start(raw@))
                && final(self).action.bus.rom.chr_rom@ == raw@.subrange(chr_start(raw@), image_end(raw@))),
    {
        let rom = ROM::new(raw)?;
        self.set_rom(rom);
        Ok(())
    }

    /// Resets the console as the reset line does.
    pub fn reset(&mut self) -> (r: Result<(), NesError>)
        requires
            old(self).wf(),
        ensures
            final(self).wf(),
            final(self).action.bus.rom == old(self).action.bus.rom,
            (final(self).action.bus@, r) == reset_spec(old(self).action.bus@, old(self).action.bus.rom),
    {
        self.action.bus.cpu_state.reset();
        let target = self.action.bus.read_two_bytes(0xFFFC)?;
        self.action.bus.cpu_state.program_counter = target;
        self.action.bus.cpu_state.cycle_counter = 0;
        self.action.increment_cycle_counters(7);
        Ok(())
    }

    /// Executes one instruction.
    pub fn next_cpu_instruction(&mut self) -> (r: Result<Instruction, NesError>)
        requires
            old(self).wf(),
        ensures
            final(self).wf(),
            final(self).action.bus.rom == old(self).action.bus.rom,
            (final(self).action.bus@, r) == step_spec(old(self).action.bus@, old(self).action.bus.rom),
    {
        self.action.next_cpu_instruction()
    }

    /// Executes instructions until the PPU completes a frame.
    pub fn next_ppu_frame(&mut self) -> (r: Result<(), NesError>)
        requires
            old(self).wf(),
        ensures
            final(self).wf(),
            final(self).action.bus.rom == old(self).action.bus.rom,
            (final(self).action.bus@, r) == frame_spec(
                old(self).action.bus@,
                old(self).action.bus.rom,
                MAX_FRAME_STEPS as nat,
            ),
            r is Ok ==> frame_completes(old(self).action.bus@, old(self).action.bus.rom, MAX_FRAME_STEPS as nat),
    {
        proof {
            lemma_frame_completes(self.action.bus@, self.action.bus.rom, MAX_FRAME_STEPS as nat);
        }
        let mut fuel: u32 = MAX_FRAME_STEPS;
        while fuel > 0
            invariant
                self.wf(),
                self.action.bus.rom == old(self).action.bus.rom,
                frame_spec(self.action.bus@, self.action.bus.rom, fuel as nat) == frame_spec(
                    old(self).action.bus@,
                    old(self).action.bus.rom,
                    MAX_FRAME_STEPS as nat,
                ),
                frame_completes(self.action.bus@, self.action.bus.rom, fuel as nat) == frame_completes(
                    old(self).action.bus@,
                    old(self).action.bus.rom,
                    MAX_FRAME_STEPS as nat,
                ),
                frame_spec(old(self).action.bus@, old(self).action.bus.rom, MAX_FRAME_STEPS as nat).1 is Ok
                    ==> frame_completes(old(self).action.bus@, old(self).action.bus.rom, MAX_FRAME_STEPS as nat),
            decreases fuel,
        {
            let before = self.frame_position();
            self.action.next_cpu_instruction()?;
            let after = self.frame_position();
            if after < before {
                return Ok(());
            }
            fuel = fuel - 1;
        }
        Ok(())
    }

    fn frame_position(&self) -> (r: u32)
        requires
            self.wf(),
        ensures
            r == frame_position(self.action.bus@.ppu),
    {
        self.action.bus.ppu_state.cur_scanline as u32 * 341 + self.action.bus.ppu_state.cycle_counter as u32
    }

    /// Presses or releases the buttons of `key` on the gamepad.
    pub fn update_controller(&mut self, key: u8, pressed: bool)
        requires
            old(self).wf(),
        ensures
            final(self).wf(),
            final(self).action.bus.rom == old(self).action.bus.rom,
            final(self).action.bus@ == (BusModel {
                pad: crate::controller::ControllerView {
                    buttons: if pressed {
                        old(self).action.bus@.pad.buttons | key
                    } else {
                        old(self).action.bus@.pad.buttons & !key
                    },
                    ..old(self).action.bus@.pad
                },
                ..old(self).action.bus@
            }),
    {
        self.action.bus.controller.set_buttons(key, pressed);
    }

    /// Renders the current PPU state into a new frame.
    pub fn render_frame(&self) -> (r: Frame)
        requires
            self.wf(),
        ensures
            r.wf(),
            r.data@ == rendered_frame(self.action.bus@.ppu, self.action.bus.rom),
    {
        let mut frame = Frame::new();
        frame.render(&self.action.bus.ppu_state, &self.action.bus.rom);
        frame
    }

    /// The CPU state.
    pub fn peek_cpu_state(&self) -> (r: &CpuState)
        ensures
            *r == self.action.bus.cpu_state,
    {
        &self.action.bus.cpu_state
    }

    /// The PPU state.
    pub fn peek_ppu_state(&self) -> (r: &PpuState)
        ensures
            *r == self.action.bus.ppu_state,
    {
        &self.action.bus.ppu_state
    }
}

} // verus!
