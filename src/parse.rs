use vstd::prelude::*;
use crate::cpu_bus::{BusModel, CpuBus, page_next, read_spec, read_word_spec, with_pc};
use crate::cpu_state::CpuModel;
use crate::decode::{decode_opcode, opcode_table};
use crate::error::NesError;
use crate::execute::{page_of, word};
use crate::instructions::{AddressingMode, Instruction, InstructionMetaData, Param};
use crate::rom::ROM;

verus! {

/// Reading the byte at the program counter and moving past it.
pub open spec fn fetch_byte(m: BusModel, rom: ROM) -> (BusModel, Result<u8, NesError>) {
    read_spec(with_pc(m, m.cpu.pc.wrapping_add(1)), rom, m.cpu.pc)
}

/// Reading the little-endian word at the program counter and moving past it.
pub open spec fn fetch_word(m: BusModel, rom: ROM) -> (BusModel, Result<u16, NesError>) {
    read_word_spec(with_pc(m, m.cpu.pc.wrapping_add(2)), rom, m.cpu.pc, m.cpu.pc.wrapping_add(1))
}

/// An indexed address `base + index`, recording whether it left the base's page.
pub open spec fn indexed(m: BusModel, base: u16, index: u8) -> (BusModel, Result<Param, NesError>) {
    let a = base.wrapping_add(index as u16);
    (BusModel { cpu: CpuModel { page_cross: page_of(a) != page_of(base), ..m.cpu }, ..m }, Ok(Param::Address(a)))
}

/// Forming the operand of addressing mode `mode`.
pub open spec fn decode_param_spec(m: BusModel, rom: ROM, mode: AddressingMode) -> (BusModel, Result<Param, NesError>) {
    match mode {
        AddressingMode::Implicit => (m, Ok(Param::Implied)),
        AddressingMode::Accumulator => (m, Ok(Param::Value(m.cpu.a))),
        AddressingMode::Immediate | AddressingMode::Relative => {
            let (m1, r) = fetch_byte(m, rom);
            (m1, match r { Ok(b) => Ok(Param::Value(b)), Err(e) => Err(e) })
        },
        AddressingMode::Absolute | AddressingMode::AbsoluteJump => {
            let (m1, r) = fetch_word(m, rom);
            (m1, match r { Ok(w) => Ok(Param::Address(w)), Err(e) => Err(e) })
        },
        AddressingMode::IndirectJump => {
            let (m1, r) = fetch_word(m, rom);
            match r {
                Err(e) => (m1, Err(e)),
                Ok(p) => {
                    let (m2, r2) = read_word_spec(m1, rom, p, page_next(p));
                    (m2, match r2 { Ok(w) => Ok(Param::Address(w)), Err(e) => Err(e) })
                },
            }
        },
        AddressingMode::ZeroPage => {
            let (m1, r) = fetch_byte(m, rom);
            (m1, match r { Ok(b) => Ok(Param::Address(b as u16)), Err(e) => Err(e) })
        },
        AddressingMode::ZeroPageIndexX => {
            let (m1, r) = fetch_byte(m, rom);
            (m1, match r { Ok(b) => Ok(Param::Address(b.wrapping_add(m.cpu.x) as u16)), Err(e) => Err(e) })
        },
        AddressingMode::ZeroPageIndexY => {
            let (m1, r) = fetch_byte(m, rom);
            (m1, match r { Ok(b) => Ok(Param::Address(b.wrapping_add(m.cpu.y) as u16)), Err(e) => Err(e) })
        },
        AddressingMode::AbsoluteIndexX => {
            let (m1, r) = fetch_word(m, rom);
            match r {
                Err(e) => (m1, Err(e)),
                Ok(base) => indexed(m1, base, m.cpu.x),
            }
        },
        AddressingMode::AbsoluteIndexY => {
            let (m1, r) = fetch_word(m, rom);
            match r {
                Err(e) => (m1, Err(e)),
                Ok(base) => indexed(m1, base, m.cpu.y),
            }
        },
        AddressingMode::IndirectX => {
            let (m1, r) = fetch_byte(m, rom);
            match r {
                Err(e) => (m1, Err(e)),
                Ok(b) => {
                    let p = b.wrapping_add(m.cpu.x) as u16;
                    let (m2, r2) = read_word_spec(m1, rom, p, page_next(p));
                    (m2, match r2 { Ok(w) => Ok(Param::Address(w)), Err(e) => Err(e) })
                },
            }
        },
        AddressingMode::IndirectY => {
            let (m1, r) = fetch_byte(m, rom);
            match r {
                Err(e) => (m1, Err(e)),
                Ok(b) => {
                    let (m2, r2) = read_word_spec(m1, rom, b as u16, page_next(b as u16));
                    match r2 {
                        Err(e) => (m2, Err(e)),
                        Ok(base) => indexed(m2, base, m.cpu.y),
                    }
                },
            }
        },
    }
}

/// Reads the operand bytes that `mode` calls for at the program counter and forms the
/// instruction's parameter; indexed modes record whether a page was crossed.
pub fn decode_param(cpu_bus: &mut CpuBus, mode: AddressingMode) -> (r: Result<Param, NesError>)
    requires
        old(cpu_bus).wf(),
    ensures
        final(cpu_bus).wf(),
        final(cpu_bus).rom == old(cpu_bus).rom,
        (final(cpu_bus)@, r) == decode_param_spec(old(cpu_bus)@, old(cpu_bus).rom, mode),
{
    match mode {
        AddressingMode::Implicit => Ok(Param::Implied),
        AddressingMode::Accumulator => Ok(Param::Value(cpu_bus.cpu_state.reg_a)),
        AddressingMode::Immediate | AddressingMode::Relative => {
            let b = cpu_bus.read_byte_from_pc()?;
            Ok(Param::Value(b))
        },
        AddressingMode::Absolute | AddressingMode::AbsoluteJump => {
            let w = cpu_bus.read_two_bytes_from_pc()?;
            Ok(Param::Address(w))
        },
        AddressingMode::IndirectJump => {
            let p = cpu_bus.read_two_bytes_from_pc()?;
            let w = cpu_bus.read_two_page_bytes(p)?;
            Ok(Param::Address(w))
        },
        AddressingMode::ZeroPage => {
            let b = cpu_bus.read_byte_from_pc()?;
            Ok(Param::Address(b as u16))
        },
        AddressingMode::ZeroPageIndexX => {
            let x = cpu_bus.cpu_state.reg_x;
            let b = cpu_bus.read_byte_from_pc()?;
            Ok(Param::Address(b.wrapping_add(x) as u16))
        },
        AddressingMode::ZeroPageIndexY => {
            let y = cpu_bus.cpu_state.reg_y;
            let b = cpu_bus.read_byte_from_pc()?;
            Ok(Param::Address(b.wrapping_add(y) as u16))
        },
        AddressingMode::AbsoluteIndexX => {
            let x = cpu_bus.cpu_state.reg_x;
            let base = cpu_bus.read_two_bytes_from_pc()?;
            Ok(index_address(cpu_bus, base, x))
        },
        AddressingMode::AbsoluteIndexY => {
            let y = cpu_bus.cpu_state.reg_y;
            let base = cpu_bus.read_two_bytes_from_pc()?;
            Ok(index_address(cpu_bus, base, y))
        },
        AddressingMode::IndirectX => {
            let x = cpu_bus.cpu_state.reg_x;
            let b = cpu_bus.read_byte_from_pc()?;
            let w = cpu_bus.read_two_page_bytes(b.wrapping_add(x) as u16)?;
            Ok(Param::Address(w))
        },
        AddressingMode::IndirectY => {
            let y = cpu_bus.cpu_state.reg_y;
            let b = cpu_bus.read_byte_from_pc()?;
            let base = cpu_bus.read_two_page_bytes(b as u16)?;
            Ok(index_address(cpu_bus, base, y))
        },
    }
}

fn index_address(cpu_bus: &mut CpuBus, base: u16, index: u8) -> (r: Param)
    requires
        old(cpu_bus).wf(),
    ensures
        final(cpu_bus).wf(),
        final(cpu_bus).rom == old(cpu_bus).rom,
        (final(cpu_bus)@, Ok::<Param, NesError>(r)) == indexed(old(cpu_bus)@, base, index),
{
    let a = base.wrapping_add(index as u16);
    cpu_bus.cpu_state.page_cross_flag = a / 256 != base / 256;
    Param::Address(a)
}

/// Fetching, decoding and forming the operand of the instruction at the program
/// counter; the record's cycle count is the base count.
pub open spec fn parse_spec(m: BusModel, rom: ROM) -> (BusModel, Result<Instruction, NesError>) {
    let start = m.cpu.pc;
    let (m1, r1) = fetch_byte(m, rom);
    match r1 {
        Err(e) => (m1, Err(e)),
        Ok(raw) => match opcode_table(raw) {
            None => (m1, Err(NesError::IllegalOpcode(raw))),
            Some((op, mode, base)) => {
                let (m2, r2) = decode_param_spec(m1, rom, mode);
                match r2 {
                    Err(e) => (m2, Err(e)),
                    Ok(param) => (
                        m2,
                        Ok(Instruction {
                            opcode: op,
                            param: param,
                            meta: InstructionMetaData {
                                cycles: base as u16,
                                mode: mode,
                                raw_opcode: raw,
                                length: m2.cpu.pc.wrapping_sub(start),
                            },
                        }),
                    ),
                }
            },
        },
    }
}

/// Fetches the opcode at the program counter, decodes it and reads its operand.
pub fn parse_instruction(cpu_bus: &mut CpuBus) -> (r: Result<Instruction, NesError>)
    requires
        old(cpu_bus).wf(),
    ensures
        final(cpu_bus).wf(),
        final(cpu_bus).rom == old(cpu_bus).rom,
        (final(cpu_bus)@, r) == parse_spec(old(cpu_bus)@, old(cpu_bus).rom),
{
    let start = cpu_bus.cpu_state.program_counter;
    let raw = cpu_bus.read_byte_from_pc()?;
    let (opcode, mode, base) = decode_opcode(raw)?;
    let param = decode_param(cpu_bus, mode)?;
    let length = cpu_bus.cpu_state.program_counter.wrapping_sub(start);
    Ok(Instruction {
        opcode,
        param,
        meta: InstructionMetaData { cycles: base as u16, mode, raw_opcode: raw, length },
    })
}


/// Indirect-X addressing, for any program counter: with operand byte `p` fetched (the
/// fetch may have side effects of its own), the effective address has its low byte at
/// zero-page `(p + x) & 0xFF` and its high byte at zero-page `(p + x + 1) & 0xFF`, and the
/// program counter moves past the operand; a failing fetch fails the operand.
pub proof fn lemma_indirect_x(m: BusModel, rom: ROM)
    requires
        m.cpu.ram.len() == 0x800,
    ensures
        ({
            let (m1, r) = fetch_byte(m, rom);
            decode_param_spec(m, rom, AddressingMode::IndirectX) == match r {
                Ok(p) => (
                    m1,
                    Ok::<Param, NesError>(Param::Address(word(
                        m.cpu.ram[((p as int + m.cpu.x as int + 1) % 256)],
                        m.cpu.ram[((p as int + m.cpu.x as int) % 256)],
                    ))),
                ),
                Err(e) => (m1, Err::<Param, NesError>(e)),
            }
        }),
        fetch_byte(m, rom).0.cpu.pc == m.cpu.pc.wrapping_add(1),
{
    let (m1, r) = fetch_byte(m, rom);
    assert(m1.cpu.ram == m.cpu.ram && m1.cpu.x == m.cpu.x);
    if let Ok(p) = r {
        let z = p.wrapping_add(m.cpu.x) as u16;
        let n = page_next(z);
        assert(z < 256);
        assert(n == (z + 1) % 256);
        assert(z & 0x7FF == z) by (bit_vector)
            requires
                z < 256;
        assert(n & 0x7FF == n) by (bit_vector)
            requires
                n < 256;
    }
}

} // verus!
