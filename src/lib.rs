//! The core of an emulator for a 6502-based console with a tile-oriented picture
//! processing unit: the CPU interpreter, the PPU state machine and frame renderer, the
//! CPU memory bus, the gamepad and the mapper-0 cartridge, each with its contracts.

pub mod error;
pub mod ram;
pub mod cpu_state;
pub mod execute;
pub mod instructions;
pub mod decode;
pub mod rom;
pub mod controller;
pub mod ppu_registers;
pub mod ppu_state;
pub mod cpu_bus;
pub mod interrupt;
pub mod parse;
pub mod cpu_action;
pub mod nes;
pub mod cpu;
pub mod palette;
pub mod frame;
pub mod trace;
pub mod tracer;
