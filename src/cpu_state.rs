use vstd::prelude::*;
use crate::ram::{RAM, ram_index};

verus! {

/// Stack pointer value after power-on and reset.
pub const STACK_POINTER_INIT: u8 = 0xFD;

/// Program counter value of a fresh CPU (where test programs are loaded).
pub const PROGRAM_COUNTER_INIT: u16 = 0x600;

/// Base address of the hardware stack page.
pub const STACK_BASE: u16 = 0x100;

/// The processor status register `P` as a set of bit flags.
#[derive(Debug, Clone, Copy, PartialEq, Eq, Structural)]
pub struct CpuStatus {
    pub bits: u8,
}

/// `bits` with the flags of `mask` switched on or off.
pub open spec fn set_bit(bits: u8, mask: u8, on: bool) -> u8 {
    if on {
        bits | mask
    } else {
        bits & !mask
    }
}

/// Whether all flags of `mask` are on in `bits`.
pub open spec fn has_bits(bits: u8, mask: u8) -> bool {
    bits & mask == mask
}

impl CpuStatus {
    pub const CARRY: u8 = 0b0000_0001;
    pub const ZERO: u8 = 0b0000_0010;
    pub const INT_DISABLE: u8 = 0b0000_0100;
    pub const DECIMAL: u8 = 0b0000_1000;
    pub const BRK: u8 = 0b0001_0000;
    pub const ALWAYS: u8 = 0b0010_0000;
    pub const OVERFLOW: u8 = 0b0100_0000;
    pub const NEGATIVE: u8 = 0b1000_0000;

    pub fn from_bits(bits: u8) -> (r: CpuStatus)
        ensures
            r.bits == bits,
    {
        CpuStatus { bits }
    }

    pub fn bits(&self) -> (r: u8)
        ensures
            r == self.bits,
    {
        self.bits
    }

    pub fn contains(&self, mask: u8) -> (r: bool)
        ensures
            r == has_bits(self.bits, mask),
    {
        self.bits & mask == mask
    }

    pub fn set(&mut self, mask: u8, on: bool)
        ensures
            final(self).bits == set_bit(old(self).bits, mask, on),
    {
        if on {
            self.bits = self.bits | mask;
        } else {
            self.bits = self.bits & !mask;
        }
    }

    pub fn insert(&mut self, mask: u8)
        ensures
            final(self).bits == set_bit(old(self).bits, mask, true),
    {
        self.bits = self.bits | mask;
    }

    pub fn remove(&mut self, mask: u8)
        ensures
            final(self).bits == set_bit(old(self).bits, mask, false),
    {
        self.bits = self.bits & !mask;
    }
}

/// Registers, status, stack pointer, latches, cycle counter and internal RAM of the CPU.
pub struct CpuState {
    pub ram: RAM,
    pub reg_a: u8,
    pub reg_x: u8,
    pub reg_y: u8,
    pub status: CpuStatus,
    pub stack_pointer: u8,
    pub program_counter: u16,
    /// Set by indexed addressing and by branches when a page boundary was crossed.
    pub page_cross_flag: bool,
    /// Set by a branch instruction when the branch was taken.
    pub branch_flag: bool,
    pub cycle_counter: u64,
    /// Cycles the CPU is stalled by a pending OAM DMA, charged to the current instruction.
    pub dma_cycles: u16,
}

/// The mathematical value of a `CpuState`.
pub struct CpuModel {
    pub ram: Seq<u8>,
    pub a: u8,
    pub x: u8,
    pub y: u8,
    pub p: u8,
    pub s: u8,
    pub pc: u16,
    pub page_cross: bool,
    pub branch: bool,
    pub cycles: u64,
    pub stall: u16,
}

impl View for CpuState {
    type V = CpuModel;

    open spec fn view(&self) -> CpuModel {
        CpuModel {
            ram: self.ram@,
            a: self.reg_a,
            x: self.reg_x,
            y: self.reg_y,
            p: self.status.bits,
            s: self.stack_pointer,
            pc: self.program_counter,
            page_cross: self.page_cross_flag,
            branch: self.branch_flag,
            cycles: self.cycle_counter,
            stall: self.dma_cycles,
        }
    }
}

/// The status value of a CPU after power-on or reset: always-set and interrupt-disable.
pub open spec fn initial_status() -> u8 {
    CpuStatus::ALWAYS | CpuStatus::INT_DISABLE
}

/// The RAM cell that holds the stack slot for stack pointer `sp`.
pub open spec fn stack_cell(sp: u8) -> int {
    ram_index((STACK_BASE + sp as u16) as u16)
}

/// `bits` with N set from bit 7 of `v` and Z set from `v == 0`.
pub open spec fn with_nz(bits: u8, v: u8) -> u8 {
    set_bit(set_bit(bits, CpuStatus::NEGATIVE, v >= 0x80), CpuStatus::ZERO, v == 0)
}

/// Whether the flag(s) of `mask` are set in the model's status.
pub open spec fn flag(m: CpuModel, mask: u8) -> bool {
    has_bits(m.p, mask)
}

/// The model with N and Z set from `v`.
pub open spec fn nz_spec(m: CpuModel, v: u8) -> CpuModel {
    CpuModel { p: with_nz(m.p, v), ..m }
}

/// The state after pushing `value`.
pub open spec fn push_spec(m: CpuModel, value: u8) -> CpuModel {
    CpuModel { ram: m.ram.update(stack_cell(m.s), value), s: m.s.wrapping_sub(1), ..m }
}

/// The state after popping one byte.
pub open spec fn pop_state_spec(m: CpuModel) -> CpuModel {
    CpuModel { s: m.s.wrapping_add(1), ..m }
}

/// The byte that a pop returns.
pub open spec fn pop_value_spec(m: CpuModel) -> u8 {
    m.ram[stack_cell(m.s.wrapping_add(1))]
}

impl CpuState {
    pub open spec fn wf(&self) -> bool {
        self.ram.wf()
    }

    pub fn new() -> (r: CpuState)
        ensures
            r.wf(),
            forall|i: int| 0 <= i < 0x800 ==> r.ram@[i] == 0u8,
            r.reg_a == 0 && r.reg_x == 0 && r.reg_y == 0,
            r.status.bits == initial_status(),
            r.stack_pointer == STACK_POINTER_INIT,
            r.program_counter == PROGRAM_COUNTER_INIT,
            !r.page_cross_flag && !r.branch_flag,
            r.cycle_counter == 0,
            r.dma_cycles == 0,
    {
        CpuState {
            ram: RAM::new(),
            reg_a: 0,
            reg_x: 0,
            reg_y: 0,
            status: CpuStatus { bits: CpuStatus::ALWAYS | CpuStatus::INT_DISABLE },
            stack_pointer: STACK_POINTER_INIT,
            program_counter: PROGRAM_COUNTER_INIT,
            page_cross_flag: false,
            branch_flag: false,
            cycle_counter: 0,
            dma_cycles: 0,
        }
    }

    /// Resets the registers, the stack pointer and the status; RAM, the program
    /// counter, the latches and the cycle counter are kept.
    pub fn reset(&mut self)
        requires
            old(self).wf(),
        ensures
            final(self).wf(),
            final(self)@ == (CpuModel {
                a: 0,
                x: 0,
                y: 0,
                s: STACK_POINTER_INIT,
                p: initial_status(),
                ..old(self)@
            }),
    {
        self.reg_a = 0;
        self.reg_x = 0;
        self.reg_y = 0;
        self.stack_pointer = STACK_POINTER_INIT;
        self.status = CpuStatus { bits: CpuStatus::ALWAYS | CpuStatus::INT_DISABLE };
    }

    /// Sets N and Z from `result`.
    pub fn set_nz(&mut self, result: u8)
        requires
            old(self).wf(),
        ensures
            final(self).wf(),
            final(self)@ == nz_spec(old(self)@, result),
    {
        self.status.set(CpuStatus::NEGATIVE, result >= 0x80);
        self.status.set(CpuStatus::ZERO, result == 0);
    }

    /// Writes `value` at the stack slot, then moves the stack pointer down.
    pub fn push_to_stack(&mut self, value: u8)
        requires
            old(self).wf(),
        ensures
            final(self).wf(),
            final(self)@ == push_spec(old(self)@, value),
    {
        let stack_addr: u16 = STACK_BASE + self.stack_pointer as u16;
        self.ram.write(stack_addr, value);
        self.stack_pointer = self.stack_pointer.wrapping_sub(1);
    }

    /// Moves the stack pointer up, then reads the stack slot.
    pub fn pop_from_stack(&mut self) -> (r: u8)
        requires
            old(self).wf(),
        ensures
            final(self).wf(),
            final(self)@ == pop_state_spec(old(self)@),
            r == pop_value_spec(old(self)@),
    {
        self.stack_pointer = self.stack_pointer.wrapping_add(1);
        let stack_addr: u16 = STACK_BASE + self.stack_pointer as u16;
        self.ram.read(stack_addr)
    }
}

} // verus!
