use vstd::prelude::*;
use crate::controller::Controller;
use crate::cpu_action::{CpuAction, step_spec};
use crate::cpu_bus::{BusModel, peek_spec};
use crate::cpu_state::{CpuModel, CpuState, PROGRAM_COUNTER_INIT};
use crate::error::NesError;
use crate::ppu_state::PpuState;
use crate::ram::ram_index;
use crate::rom::ROM;

verus! {

/// Largest program that fits in RAM from `0x0600` on.
pub const MAX_PROGRAM_LEN: usize = 0x200;

/// Most instructions a program run executes.
pub const MAX_PROGRAM_STEPS: u32 = 0x10000;

/// RAM with `program` copied in from `0x0600` on.
pub open spec fn loaded_ram(ram: Seq<u8>, program: Seq<u8>) -> Seq<u8> {
    Seq::new(ram.len(), |j: int| if 0x600 <= j < 0x600 + program.len() { program[j - 0x600] } else { ram[j] })
}

/// Running from the program counter until a BRK is fetched (it is not run), the program counter leaves
/// `0x0600..end`, an error occurs, or `fuel` instructions have run.
pub open spec fn run_spec(m: BusModel, rom: ROM, end: int, fuel: nat) -> (BusModel, Result<(), NesError>)
    decreases fuel,
{
    if fuel == 0 || m.cpu.pc < 0x600 || m.cpu.pc >= end {
        (m, Ok(()))
    } else if peek_spec(m, rom, m.cpu.pc) == Ok::<u8, NesError>(0x00) {
        (m, Ok(()))
    } else {
        let (m1, r) = step_spec(m, rom);
        match r {
            Err(e) => (m1, Err(e)),
            Ok(_) => run_spec(m1, rom, end, (fuel - 1) as nat),
        }
    }
}

/// A CPU with RAM, a PPU, a controller and an empty cartridge, for running small programs
/// placed in RAM at `0x0600`.
pub struct CPU {
    pub action: CpuAction,
}

impl CPU {
    pub open spec fn wf(&self) -> bool {
        self.action.wf()
    }

    pub fn new() -> (r: CPU)
        ensures
            r.wf(),
            r.action.bus@.cpu.pc == PROGRAM_COUNTER_INIT,
            r.action.bus@.cpu.s == crate::cpu_state::STACK_POINTER_INIT,
            r.action.bus@.cpu.p == crate::cpu_state::initial_status(),
            r.action.bus@.cpu.a == 0 && r.action.bus@.cpu.x == 0 && r.action.bus@.cpu.y == 0,
            r.action.bus@.cpu.ram == Seq::new(0x800, |i: int| 0u8),
    {
        let cpu_state = CpuState::new();
        assert(cpu_state@.ram =~= Seq::new(0x800, |i: int| 0u8));
        CPU { action: CpuAction::new(cpu_state, PpuState::new(), Controller::new(), ROM::new_empty()) }
    }

    /// Copies `program` into RAM at `0x0600`, points the program counter there and runs it
    /// until it reaches a BRK, which ends the run without being executed, or the program
    /// counter leaves the program. A run is cut off after `MAX_PROGRAM_STEPS` instructions
    /// and then also returns `Ok`: callers that need to tell a finished program from a
    /// cut-off one look at the program counter (a finished run stops on a BRK byte or
    /// outside the program).
    pub fn run_program(&mut self, program: Vec<u8>) -> (r: Result<(), NesError>)
        requires
            old(self).wf(),
            program@.len() <= MAX_PROGRAM_LEN,
        ensures
            final(self).wf(),
            (final(self).action.bus@, r) == run_spec(
                BusModel {
                    cpu: CpuModel {
                        ram: loaded_ram(old(self).action.bus@.cpu.ram, program@),
                        pc: PROGRAM_COUNTER_INIT,
                        ..old(self).action.bus@.cpu
                    },
                    ..old(self).action.bus@
                },
                old(self).action.bus.rom,
                0x600 + program@.len() as int,
                MAX_PROGRAM_STEPS as nat,
            ),
    {
        let ghost m0 = self.action.bus@;
        let n = program.len();
        let mut i: usize = 0;
        while i < n
            invariant
                self.wf(),
                n == program@.len(),
                n <= MAX_PROGRAM_LEN,
                i <= n,
                self.action.bus.rom == old(self).action.bus.rom,
                self.action.bus@ == (BusModel {
                    cpu: CpuModel { ram: self.action.bus@.cpu.ram, ..m0.cpu },
                    ..m0
                }),
                self.action.bus@.cpu.ram == loaded_ram(m0.cpu.ram, program@.subrange(0, i as int)),
            decreases n - i,
        {
            let addr: u16 = 0x600 + i as u16;
            assert(addr & 0x7FF == addr) by (bit_vector)
                requires
                    0x600 <= addr < 0x800;
            self.action.bus.cpu_state.ram.write(addr, program[i]);
            i = i + 1;
            assert(self.action.bus@.cpu.ram =~= loaded_ram(m0.cpu.ram, program@.subrange(0, i as int)));
        }
        assert(program@.subrange(0, n as int) =~= program@);
        self.action.bus.cpu_state.program_counter = PROGRAM_COUNTER_INIT;
        let end: u32 = 0x600 + n as u32;
        let mut fuel: u32 = MAX_PROGRAM_STEPS;
        while fuel > 0
            invariant
                self.wf(),
                end == 0x600 + program@.len(),
                self.action.bus.rom == old(self).action.bus.rom,
                run_spec(self.action.bus@, self.action.bus.rom, end as int, fuel as nat) == run_spec(
                    BusModel {
                        cpu: CpuModel {
                            ram: loaded_ram(old(self).action.bus@.cpu.ram, program@),
                            pc: PROGRAM_COUNTER_INIT,
                            ..old(self).action.bus@.cpu
                        },
                        ..old(self).action.bus@
                    },
                    old(self).action.bus.rom,
                    0x600 + program@.len() as int,
                    MAX_PROGRAM_STEPS as nat,
                ),
            decreases fuel,
        {
            let pc = self.action.bus.cpu_state.program_counter;
            if pc < 0x600 || pc as u32 >= end {
                return Ok(());
            }
            match self.action.bus.peek_byte(pc) {
                Ok(b) => {
                    if b == 0x00 {
                        return Ok(());
                    }
                },
                Err(_) => {},
            }
            self.action.next_cpu_instruction()?;
            fuel = fuel - 1;
        }
        Ok(())
    }
}

} // verus!
