use vstd::prelude::*;
use vstd::string::*;
use crate::cpu_bus::{CpuBus, BusModel, page_next, peek_spec};
use crate::decode::{decode_opcode, opcode_table};
use crate::error::NesError;
use crate::execute::{sign_extend, word};
use crate::instructions::{AddressingMode, Opcode};
use crate::rom::ROM;

verus! {

/// Column at which the register part of a trace line starts.
pub const TRACE_REGISTER_COLUMN: usize = 47;

/// The upper-case hexadecimal digit for `d` (below 16).
pub open spec fn hex_digit_spec(d: u8) -> Seq<char> {
    match d {
        0 => "0"@,
        1 => "1"@,
        2 => "2"@,
        3 => "3"@,
        4 => "4"@,
        5 => "5"@,
        6 => "6"@,
        7 => "7"@,
        8 => "8"@,
        9 => "9"@,
        10 => "A"@,
        11 => "B"@,
        12 => "C"@,
        13 => "D"@,
        14 => "E"@,
        _ => "F"@,
    }
}

/// Two hexadecimal digits of a byte.
pub open spec fn hex2(b: u8) -> Seq<char> {
    hex_digit_spec(b / 16) + hex_digit_spec(b % 16)
}

/// Four hexadecimal digits of a word.
pub open spec fn hex4(w: u16) -> Seq<char> {
    hex2((w / 256) as u8) + hex2((w % 256) as u8)
}

/// `s` padded with spaces on the right to `width` characters.
pub open spec fn pad_to(s: Seq<char>, width: int) -> Seq<char> {
    if s.len() >= width { s } else { s + Seq::new((width - s.len()) as nat, |i: int| ' ') }
}

/// Number of bytes an instruction in `mode` takes.
pub open spec fn mode_length(mode: AddressingMode) -> int {
    match mode {
        AddressingMode::Implicit | AddressingMode::Accumulator => 1,
        AddressingMode::Absolute | AddressingMode::AbsoluteJump | AddressingMode::IndirectJump
        | AddressingMode::AbsoluteIndexX | AddressingMode::AbsoluteIndexY => 3,
        _ => 2,
    }
}

/// The byte at `a` when it can be read without side effects.
pub open spec fn peek_opt(m: BusModel, rom: ROM, a: u16) -> Option<u8> {
    match peek_spec(m, rom, a) {
        Ok(b) => Some(b),
        Err(_) => None,
    }
}

/// Two hexadecimal digits of a byte, or `??` when it cannot be read.
pub open spec fn hex2_opt(b: Option<u8>) -> Seq<char> {
    match b {
        Some(v) => hex2(v),
        None => "??"@,
    }
}

/// Four hexadecimal digits of a word, or `????` when it cannot be read.
pub open spec fn hex4_opt(w: Option<u16>) -> Seq<char> {
    match w {
        Some(v) => hex4(v),
        None => "????"@,
    }
}

/// ` = XX` for the byte at the effective address, or nothing when it cannot be read
/// without side effects (a PPU register or an unmapped address).
pub open spec fn stored_text(v: Option<u8>) -> Seq<char> {
    match v {
        Some(b) => " = "@ + hex2(b),
        None => Seq::empty(),
    }
}

/// The instruction bytes in hexadecimal, separated by spaces.
pub open spec fn dump_text(len: int, b0: u8, b1: Option<u8>, b2: Option<u8>) -> Seq<char> {
    if len == 1 {
        hex2(b0)
    } else if len == 2 {
        hex2(b0) + " "@ + hex2_opt(b1)
    } else {
        hex2(b0) + " "@ + hex2_opt(b1) + " "@ + hex2_opt(b2)
    }
}

/// `w - y` when `w` is known.
pub open spec fn minus_index(w: Option<u16>, y: u8) -> Option<u16> {
    match w {
        Some(a) => Some(a.wrapping_sub(y as u16)),
        None => None,
    }
}

/// The operand column of a trace line: the raw operand `arg`, the effective `address`
/// and the byte `stored` there, in the notation of each addressing mode.
pub open spec fn operand_text(
    mode: AddressingMode,
    arg: u16,
    address: Option<u16>,
    stored: Option<u8>,
    x: u8,
    y: u8,
    pc: u16,
) -> Seq<char> {
    match mode {
        AddressingMode::Implicit => Seq::empty(),
        AddressingMode::Accumulator => "A"@,
        AddressingMode::Immediate => "#$"@ + hex2(arg as u8),
        AddressingMode::ZeroPage => "$"@ + hex2(arg as u8) + stored_text(stored),
        AddressingMode::ZeroPageIndexX => "$"@ + hex2(arg as u8) + ",X @ "@ + hex2((arg as u8).wrapping_add(x))
            + stored_text(stored),
        AddressingMode::ZeroPageIndexY => "$"@ + hex2(arg as u8) + ",Y @ "@ + hex2((arg as u8).wrapping_add(y))
            + stored_text(stored),
        AddressingMode::IndirectX => "($"@ + hex2(arg as u8) + ",X) @ "@ + hex2((arg as u8).wrapping_add(x)) + " = "@
            + hex4_opt(address) + stored_text(stored),
        AddressingMode::IndirectY => "($"@ + hex2(arg as u8) + "),Y = "@ + hex4_opt(minus_index(address, y))
            + " @ "@ + hex4_opt(address) + stored_text(stored),
        AddressingMode::Relative => "$"@ + hex4(pc.wrapping_add(2).wrapping_add(sign_extend(arg as u8))),
        AddressingMode::IndirectJump => "($"@ + hex4(arg) + ") = "@ + hex4_opt(address),
        AddressingMode::AbsoluteJump => "$"@ + hex4(arg),
        AddressingMode::Absolute => "$"@ + hex4(arg) + stored_text(stored),
        AddressingMode::AbsoluteIndexX => "$"@ + hex4(arg) + ",X @ "@ + hex4(arg.wrapping_add(x as u16))
            + stored_text(stored),
        AddressingMode::AbsoluteIndexY => "$"@ + hex4(arg) + ",Y @ "@ + hex4(arg.wrapping_add(y as u16))
            + stored_text(stored),
    }
}

/// Whether the operand column of `mode` shows the byte at the effective address.
pub open spec fn shows_stored(mode: AddressingMode) -> bool {
    match mode {
        AddressingMode::ZeroPage | AddressingMode::ZeroPageIndexX | AddressingMode::ZeroPageIndexY
        | AddressingMode::IndirectX | AddressingMode::IndirectY | AddressingMode::Absolute
        | AddressingMode::AbsoluteIndexX | AddressingMode::AbsoluteIndexY => true,
        _ => false,
    }
}

/// A trace line: address, bytes, mnemonic and operand, then the registers from column 47.
pub open spec fn trace_text(
    pc: u16,
    dump: Seq<char>,
    name: Seq<char>,
    operand: Seq<char>,
    a: u8,
    x: u8,
    y: u8,
    p: u8,
    s: u8,
) -> Seq<char> {
    let head = hex4(pc) + "  "@ + pad_to(dump, 8) + " "@ + " "@ + name;
    let listing = if operand.len() == 0 { head } else { head + " "@ + operand };
    pad_to(listing, TRACE_REGISTER_COLUMN as int) + " A:"@ + hex2(a) + " X:"@ + hex2(x) + " Y:"@ + hex2(y) + " P:"@
        + hex2(p) + " SP:"@ + hex2(s)
}

/// A little-endian word peeked from `lo_addr` and `hi_addr`, when both can be read.
pub open spec fn peek_word_opt(m: BusModel, rom: ROM, lo_addr: u16, hi_addr: u16) -> Option<u16> {
    match (peek_opt(m, rom, lo_addr), peek_opt(m, rom, hi_addr)) {
        (Some(l), Some(h)) => Some(word(h, l)),
        _ => None,
    }
}

/// The effective address of operand `arg` in `mode`, found without side effects; `None`
/// for modes without an address and for pointers that cannot be read.
pub open spec fn peek_address(m: BusModel, rom: ROM, mode: AddressingMode, arg: u16) -> Option<u16> {
    match mode {
        AddressingMode::ZeroPage | AddressingMode::Absolute | AddressingMode::AbsoluteJump => Some(arg),
        AddressingMode::ZeroPageIndexX => Some((arg as u8).wrapping_add(m.cpu.x) as u16),
        AddressingMode::ZeroPageIndexY => Some((arg as u8).wrapping_add(m.cpu.y) as u16),
        AddressingMode::AbsoluteIndexX => Some(arg.wrapping_add(m.cpu.x as u16)),
        AddressingMode::AbsoluteIndexY => Some(arg.wrapping_add(m.cpu.y as u16)),
        AddressingMode::IndirectJump => peek_word_opt(m, rom, arg, page_next(arg)),
        AddressingMode::IndirectX => {
            let p = (arg as u8).wrapping_add(m.cpu.x) as u16;
            peek_word_opt(m, rom, p, page_next(p))
        },
        AddressingMode::IndirectY => match peek_word_opt(m, rom, arg, page_next(arg)) {
            Some(base) => Some(base.wrapping_add(m.cpu.y as u16)),
            None => None,
        },
        _ => None,
    }
}

/// The byte shown at the effective address, when the mode shows one and it can be read.
pub open spec fn stored_of(m: BusModel, rom: ROM, mode: AddressingMode, address: Option<u16>) -> Option<u8> {
    if shows_stored(mode) {
        match address {
            Some(a) => peek_opt(m, rom, a),
            None => None,
        }
    } else {
        None
    }
}

/// The raw operand formed from the operand bytes of an instruction of `len` bytes.
pub open spec fn arg_of(len: int, b1: Option<u8>, b2: Option<u8>) -> u16 {
    if len == 3 {
        match (b1, b2) {
            (Some(l), Some(h)) => word(h, l),
            _ => 0,
        }
    } else if len == 2 {
        match b1 {
            Some(l) => l as u16,
            None => 0,
        }
    } else {
        0
    }
}

/// The trace line of the decoded instruction `op` / `mode` with opcode byte `raw` at the
/// program counter. Operand bytes that cannot be read show as `??` and leave the operand
/// column empty.
#[verifier::opaque]
pub open spec fn trace_line_spec(m: BusModel, rom: ROM, raw: u8, op: Opcode, mode: AddressingMode) -> Seq<char> {
    let pc = m.cpu.pc;
    let len = mode_length(mode);
    let b1 = if len >= 2 { peek_opt(m, rom, pc.wrapping_add(1)) } else { None };
    let b2 = if len == 3 { peek_opt(m, rom, pc.wrapping_add(2)) } else { None };
    let known = (len < 2 || b1 is Some) && (len < 3 || b2 is Some);
    let arg = arg_of(len, b1, b2);
    let address = peek_address(m, rom, mode, arg);
    let operand = if known {
        operand_text(mode, arg, address, stored_of(m, rom, mode, address), m.cpu.x, m.cpu.y, pc)
    } else {
        Seq::empty()
    };
    trace_text(pc, dump_text(len, raw, b1, b2), op.name_spec(), operand, m.cpu.a, m.cpu.x, m.cpu.y, m.cpu.p, m.cpu.s)
}

/// The trace line of the instruction at the program counter, computed from memory
/// without side effects. It fails only when the opcode byte cannot be read without side
/// effects or is not an official opcode.
pub open spec fn trace_spec(m: BusModel, rom: ROM) -> Result<Seq<char>, NesError> {
    match peek_spec(m, rom, m.cpu.pc) {
        Err(e) => Err(e),
        Ok(raw) => match opcode_table(raw) {
            None => Err(NesError::IllegalOpcode(raw)),
            Some((op, mode, _)) => Ok(trace_line_spec(m, rom, raw, op, mode)),
        },
    }
}

fn hex_digit(d: u8) -> (r: &'static str)
    ensures
        r@ == hex_digit_spec(d),
{
    match d {
        0 => "0",
        1 => "1",
        2 => "2",
        3 => "3",
        4 => "4",
        5 => "5",
        6 => "6",
        7 => "7",
        8 => "8",
        9 => "9",
        10 => "A",
        11 => "B",
        12 => "C",
        13 => "D",
        14 => "E",
        _ => "F",
    }
}

fn push_hex2(s: &mut String, b: u8)
    ensures
        final(s)@ == old(s)@ + hex2(b),
{
    s.append(hex_digit(b / 16));
    s.append(hex_digit(b % 16));
}

fn push_hex4(s: &mut String, w: u16)
    ensures
        final(s)@ == old(s)@ + hex4(w),
{
    push_hex2(s, (w / 256) as u8);
    push_hex2(s, (w % 256) as u8);
}

fn pad_string(s: &mut String, width: usize)
    ensures
        final(s)@ == pad_to(old(s)@, width as int),
{
    let ghost start = s@;
    let mut len = s.as_str().unicode_len();
    if len >= width {
        return;
    }
    while len < width
        invariant
            len <= width,
            start.len() < width,
            s@.len() == len,
            s@ == start + Seq::new((len - start.len()) as nat, |i: int| ' '),
        decreases width - len,
    {
        proof {
            reveal_strlit(" ");
        }
        s.append(" ");
        len = len + 1;
        assert(s@ =~= start + Seq::new((len - start.len()) as nat, |i: int| ' '));
    }
}

fn push_hex2_opt(s: &mut String, b: Option<u8>)
    ensures
        final(s)@ == old(s)@ + hex2_opt(b),
{
    match b {
        Some(v) => push_hex2(s, v),
        None => s.append("??"),
    }
}

fn push_hex4_opt(s: &mut String, w: Option<u16>)
    ensures
        final(s)@ == old(s)@ + hex4_opt(w),
{
    match w {
        Some(v) => push_hex4(s, v),
        None => s.append("????"),
    }
}

fn push_stored(s: &mut String, v: Option<u8>)
    ensures
        final(s)@ == old(s)@ + stored_text(v),
{
    match v {
        Some(b) => {
            s.append(" = ");
            push_hex2(s, b);
        },
        None => {
            assert(s@ =~= old(s)@ + Seq::<char>::empty());
        },
    }
}

fn probe(bus: &CpuBus, a: u16) -> (r: Option<u8>)
    requires
        bus.wf(),
    ensures
        r == peek_opt(bus@, bus.rom, a),
{
    match bus.peek_byte(a) {
        Ok(b) => Some(b),
        Err(_) => None,
    }
}

fn probe_word(bus: &CpuBus, lo_addr: u16, hi_addr: u16) -> (r: Option<u16>)
    requires
        bus.wf(),
    ensures
        r == peek_word_opt(bus@, bus.rom, lo_addr, hi_addr),
{
    match (probe(bus, lo_addr), probe(bus, hi_addr)) {
        (Some(l), Some(h)) => Some(h as u16 * 256 + l as u16),
        _ => None,
    }
}

fn next_in_page(a: u16) -> (r: u16)
    ensures
        r == page_next(a),
{
    (a / 256) * 256 + (a % 256 + 1) % 256
}

fn effective_address(bus: &CpuBus, mode: AddressingMode, arg: u16) -> (r: Option<u16>)
    requires
        bus.wf(),
    ensures
        r == peek_address(bus@, bus.rom, mode, arg),
{
    let x = bus.cpu_state.reg_x;
    let y = bus.cpu_state.reg_y;
    match mode {
        AddressingMode::ZeroPage | AddressingMode::Absolute | AddressingMode::AbsoluteJump => Some(arg),
        AddressingMode::ZeroPageIndexX => Some((arg as u8).wrapping_add(x) as u16),
        AddressingMode::ZeroPageIndexY => Some((arg as u8).wrapping_add(y) as u16),
        AddressingMode::AbsoluteIndexX => Some(arg.wrapping_add(x as u16)),
        AddressingMode::AbsoluteIndexY => Some(arg.wrapping_add(y as u16)),
        AddressingMode::IndirectJump => probe_word(bus, arg, next_in_page(arg)),
        AddressingMode::IndirectX => {
            let p = (arg as u8).wrapping_add(x) as u16;
            probe_word(bus, p, next_in_page(p))
        },
        AddressingMode::IndirectY => match probe_word(bus, arg, next_in_page(arg)) {
            Some(base) => Some(base.wrapping_add(y as u16)),
            None => None,
        },
        _ => None,
    }
}

#[verifier::rlimit(50)]
fn operand_string(
    mode: AddressingMode,
    arg: u16,
    address: Option<u16>,
    stored: Option<u8>,
    x: u8,
    y: u8,
    pc: u16,
) -> (r: String)
    ensures
        r@ == operand_text(mode, arg, address, stored, x, y, pc),
{
    match mode {
        AddressingMode::Implicit => String::new(),
        AddressingMode::Accumulator => String::from_str("A"),
        AddressingMode::Immediate => {
            let mut s = String::from_str("#$");
            push_hex2(&mut s, arg as u8);
            s
        },
        AddressingMode::ZeroPage => {
            let mut s = String::from_str("$");
            push_hex2(&mut s, arg as u8);
            push_stored(&mut s, stored);
            s
        },
        AddressingMode::ZeroPageIndexX => {
            let mut s = String::from_str("$");
            push_hex2(&mut s, arg as u8);
            s.append(",X @ ");
            push_hex2(&mut s, (arg as u8).wrapping_add(x));
            push_stored(&mut s, stored);
            s
        },
        AddressingMode::ZeroPageIndexY => {
            let mut s = String::from_str("$");
            push_hex2(&mut s, arg as u8);
            s.append(",Y @ ");
            push_hex2(&mut s, (arg as u8).wrapping_add(y));
            push_stored(&mut s, stored);
            s
        },
        AddressingMode::IndirectX => {
            let mut s = String::from_str("($");
            push_hex2(&mut s, arg as u8);
            s.append(",X) @ ");
            push_hex2(&mut s, (arg as u8).wrapping_add(x));
            s.append(" = ");
            push_hex4_opt(&mut s, address);
            push_stored(&mut s, stored);
            s
        },
        AddressingMode::IndirectY => {
            let mut s = String::from_str("($");
            push_hex2(&mut s, arg as u8);
            s.append("),Y = ");
            let base = match address {
                Some(a) => Some(a.wrapping_sub(y as u16)),
                None => None,
            };
            push_hex4_opt(&mut s, base);
            s.append(" @ ");
            push_hex4_opt(&mut s, address);
            push_stored(&mut s, stored);
            s
        },
        AddressingMode::Relative => {
            let mut s = String::from_str("$");
            let offset: u16 = if (arg as u8) < 0x80 { arg as u8 as u16 } else { arg as u8 as u16 + 0xFF00 };
            push_hex4(&mut s, pc.wrapping_add(2).wrapping_add(offset));
            s
        },
        AddressingMode::IndirectJump => {
            let mut s = String::from_str("($");
            push_hex4(&mut s, arg);
            s.append(") = ");
            push_hex4_opt(&mut s, address);
            s
        },
        AddressingMode::AbsoluteJump => {
            let mut s = String::from_str("$");
            push_hex4(&mut s, arg);
            s
        },
        AddressingMode::Absolute => {
            let mut s = String::from_str("$");
            push_hex4(&mut s, arg);
            push_stored(&mut s, stored);
            s
        },
        AddressingMode::AbsoluteIndexX => {
            let mut s = String::from_str("$");
            push_hex4(&mut s, arg);
            s.append(",X @ ");
            push_hex4(&mut s, arg.wrapping_add(x as u16));
            push_stored(&mut s, stored);
            s
        },
        AddressingMode::AbsoluteIndexY => {
            let mut s = String::from_str("$");
            push_hex4(&mut s, arg);
            s.append(",Y @ ");
            push_hex4(&mut s, arg.wrapping_add(y as u16));
            push_stored(&mut s, stored);
            s
        },
    }
}

fn trace_line(bus: &CpuBus, raw: u8, op: Opcode, mode: AddressingMode) -> (r: String)
    requires
        bus.wf(),
    ensures
        r@ == trace_line_spec(bus@, bus.rom, raw, op, mode),
{
    reveal(trace_line_spec);
    let pc = bus.cpu_state.program_counter;
    let len: usize = match mode {
        AddressingMode::Implicit | AddressingMode::Accumulator => 1,
        AddressingMode::Absolute | AddressingMode::AbsoluteJump | AddressingMode::IndirectJump
        | AddressingMode::AbsoluteIndexX | AddressingMode::AbsoluteIndexY => 3,
        _ => 2,
    };
    let b1 = if len >= 2 { probe(bus, pc.wrapping_add(1)) } else { None };
    let b2 = if len == 3 { probe(bus, pc.wrapping_add(2)) } else { None };
    let known = (len < 2 || b1.is_some()) && (len < 3 || b2.is_some());
    let arg: u16 = if len == 3 {
        match (b1, b2) {
            (Some(l), Some(h)) => h as u16 * 256 + l as u16,
            _ => 0,
        }
    } else if len == 2 {
        match b1 {
            Some(l) => l as u16,
            None => 0,
        }
    } else {
        0
    };
    let address = effective_address(bus, mode, arg);
    let shows = match mode {
        AddressingMode::ZeroPage | AddressingMode::ZeroPageIndexX | AddressingMode::ZeroPageIndexY
        | AddressingMode::IndirectX | AddressingMode::IndirectY | AddressingMode::Absolute
        | AddressingMode::AbsoluteIndexX | AddressingMode::AbsoluteIndexY => true,
        _ => false,
    };
    let stored = if shows {
        match address {
            Some(a) => probe(bus, a),
            None => None,
        }
    } else {
        None
    };
    let mut dump = String::new();
    push_hex2(&mut dump, raw);
    if len >= 2 {
        dump.append(" ");
        push_hex2_opt(&mut dump, b1);
    }
    if len == 3 {
        dump.append(" ");
        push_hex2_opt(&mut dump, b2);
    }
    pad_string(&mut dump, 8);
    let operand = if known {
        operand_string(mode, arg, address, stored, bus.cpu_state.reg_x, bus.cpu_state.reg_y, pc)
    } else {
        String::new()
    };
    let mut s = String::new();
    push_hex4(&mut s, pc);
    s.append("  ");
    s.append(dump.as_str());
    s.append(" ");
    s.append(" ");
    s.append(op.name());
    if operand.as_str().unicode_len() > 0 {
        s.append(" ");
        s.append(operand.as_str());
    }
    pad_string(&mut s, TRACE_REGISTER_COLUMN);
    s.append(" A:");
    push_hex2(&mut s, bus.cpu_state.reg_a);
    s.append(" X:");
    push_hex2(&mut s, bus.cpu_state.reg_x);
    s.append(" Y:");
    push_hex2(&mut s, bus.cpu_state.reg_y);
    s.append(" P:");
    push_hex2(&mut s, bus.cpu_state.status.bits);
    s.append(" SP:");
    push_hex2(&mut s, bus.cpu_state.stack_pointer);
    s
}

/// The trace line of the instruction at the program counter, read without side effects:
/// `PC  BYTES  MNEMONIC OPERAND` padded to column 47, then `A:.. X:.. Y:.. P:.. SP:..`.
/// It fails only when the opcode byte cannot be peeked or is not an official opcode.
pub fn trace_cpu(bus: &CpuBus) -> (r: Result<String, NesError>)
    requires
        bus.wf(),
    ensures
        match r {
            Ok(s) => trace_spec(bus@, bus.rom) == Ok::<Seq<char>, NesError>(s@),
            Err(e) => trace_spec(bus@, bus.rom) == Err::<Seq<char>, NesError>(e),
        },
{
    let raw = bus.peek_byte(bus.cpu_state.program_counter)?;
    let (op, mode, _) = decode_opcode(raw)?;
    Ok(trace_line(bus, raw, op, mode))
}

} // verus!
