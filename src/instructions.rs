use vstd::prelude::*;

verus! {

/// The 56 official instruction mnemonics.
#[derive(Debug, Clone, Copy, PartialEq, Eq, Structural)]
pub enum Opcode {
    ADC,
    AND,
    ASL,
    BIT,
    BPL,
    BMI,
    BVC,
    BVS,
    BCC,
    BCS,
    BNE,
    BEQ,
    BRK,
    CMP,
    CPX,
    CPY,
    DEC,
    EOR,
    CLC,
    SEC,
    CLI,
    SEI,
    CLV,
    CLD,
    SED,
    INC,
    JMP,
    JSR,
    LDA,
    LDX,
    LDY,
    LSR,
    NOP,
    ORA,
    TAX,
    TXA,
    DEX,
    INX,
    TAY,
    TYA,
    DEY,
    INY,
    ROL,
    ROR,
    RTI,
    RTS,
    SBC,
    TXS,
    TSX,
    PHA,
    PLA,
    PHP,
    PLP,
    STA,
    STX,
    STY,
}

impl Opcode {
    /// The three-letter mnemonic.
    pub open spec fn name_spec(&self) -> Seq<char> {
        match self {
            Opcode::ADC => "ADC"@,
            Opcode::AND => "AND"@,
            Opcode::ASL => "ASL"@,
            Opcode::BIT => "BIT"@,
            Opcode::BPL => "BPL"@,
            Opcode::BMI => "BMI"@,
            Opcode::BVC => "BVC"@,
            Opcode::BVS => "BVS"@,
            Opcode::BCC => "BCC"@,
            Opcode::BCS => "BCS"@,
            Opcode::BNE => "BNE"@,
            Opcode::BEQ => "BEQ"@,
            Opcode::BRK => "BRK"@,
            Opcode::CMP => "CMP"@,
            Opcode::CPX => "CPX"@,
            Opcode::CPY => "CPY"@,
            Opcode::DEC => "DEC"@,
            Opcode::EOR => "EOR"@,
            Opcode::CLC => "CLC"@,
            Opcode::SEC => "SEC"@,
            Opcode::CLI => "CLI"@,
            Opcode::SEI => "SEI"@,
            Opcode::CLV => "CLV"@,
            Opcode::CLD => "CLD"@,
            Opcode::SED => "SED"@,
            Opcode::INC => "INC"@,
            Opcode::JMP => "JMP"@,
            Opcode::JSR => "JSR"@,
            Opcode::LDA => "LDA"@,
            Opcode::LDX => "LDX"@,
            Opcode::LDY => "LDY"@,
            Opcode::LSR => "LSR"@,
            Opcode::NOP => "NOP"@,
            Opcode::ORA => "ORA"@,
            Opcode::TAX => "TAX"@,
            Opcode::TXA => "TXA"@,
            Opcode::DEX => "DEX"@,
            Opcode::INX => "INX"@,
            Opcode::TAY => "TAY"@,
            Opcode::TYA => "TYA"@,
            Opcode::DEY => "DEY"@,
            Opcode::INY => "INY"@,
            Opcode::ROL => "ROL"@,
            Opcode::ROR => "ROR"@,
            Opcode::RTI => "RTI"@,
            Opcode::RTS => "RTS"@,
            Opcode::SBC => "SBC"@,
            Opcode::TXS => "TXS"@,
            Opcode::TSX => "TSX"@,
            Opcode::PHA => "PHA"@,
            Opcode::PLA => "PLA"@,
            Opcode::PHP => "PHP"@,
            Opcode::PLP => "PLP"@,
            Opcode::STA => "STA"@,
            Opcode::STX => "STX"@,
            Opcode::STY => "STY"@,
        }
    }

    /// The three-letter mnemonic.
    pub fn name(&self) -> (r: &'static str)
        ensures
            r@ == self.name_spec(),
    {
        match self {
            Opcode::ADC => "ADC",
            Opcode::AND => "AND",
            Opcode::ASL => "ASL",
            Opcode::BIT => "BIT",
            Opcode::BPL => "BPL",
            Opcode::BMI => "BMI",
            Opcode::BVC => "BVC",
            Opcode::BVS => "BVS",
            Opcode::BCC => "BCC",
            Opcode::BCS => "BCS",
            Opcode::BNE => "BNE",
            Opcode::BEQ => "BEQ",
            Opcode::BRK => "BRK",
            Opcode::CMP => "CMP",
            Opcode::CPX => "CPX",
            Opcode::CPY => "CPY",
            Opcode::DEC => "DEC",
            Opcode::EOR => "EOR",
            Opcode::CLC => "CLC",
            Opcode::SEC => "SEC",
            Opcode::CLI => "CLI",
            Opcode::SEI => "SEI",
            Opcode::CLV => "CLV",
            Opcode::CLD => "CLD",
            Opcode::SED => "SED",
            Opcode::INC => "INC",
            Opcode::JMP => "JMP",
            Opcode::JSR => "JSR",
            Opcode::LDA => "LDA",
            Opcode::LDX => "LDX",
            Opcode::LDY => "LDY",
            Opcode::LSR => "LSR",
            Opcode::NOP => "NOP",
            Opcode::ORA => "ORA",
            Opcode::TAX => "TAX",
            Opcode::TXA => "TXA",
            Opcode::DEX => "DEX",
            Opcode::INX => "INX",
            Opcode::TAY => "TAY",
            Opcode::TYA => "TYA",
            Opcode::DEY => "DEY",
            Opcode::INY => "INY",
            Opcode::ROL => "ROL",
            Opcode::ROR => "ROR",
            Opcode::RTI => "RTI",
            Opcode::RTS => "RTS",
            Opcode::SBC => "SBC",
            Opcode::TXS => "TXS",
            Opcode::TSX => "TSX",
            Opcode::PHA => "PHA",
            Opcode::PLA => "PLA",
            Opcode::PHP => "PHP",
            Opcode::PLP => "PLP",
            Opcode::STA => "STA",
            Opcode::STX => "STX",
            Opcode::STY => "STY",
        }
    }
}

/// The operand that an addressing mode produces for an instruction.
#[derive(Debug, Clone, Copy, PartialEq, Eq, Structural)]
pub enum Param {
    Value(u8),
    Address(u16),
    /// The instruction takes no operand.
    Implied,
}

/// How an instruction's operand is formed from the bytes after the opcode.
#[derive(Debug, Clone, Copy, PartialEq, Eq, Structural)]
pub enum AddressingMode {
    /// No operand.
    Implicit,
    /// The operand is the accumulator.
    Accumulator,
    /// The operand is the next byte.
    Immediate,
    /// A pointer whose 16-bit target (read with the page-wrap quirk) is the jump target.
    IndirectJump,
    /// The next byte is a signed branch offset.
    Relative,
    /// The next two bytes are the address.
    Absolute,
    /// The next two bytes are the jump target.
    AbsoluteJump,
    /// The next byte is a zero-page address.
    ZeroPage,
    /// The next byte plus X, wrapped to the zero page.
    ZeroPageIndexX,
    /// The next byte plus Y, wrapped to the zero page.
    ZeroPageIndexY,
    /// The next two bytes plus X.
    AbsoluteIndexX,
    /// The next two bytes plus Y.
    AbsoluteIndexY,
    /// The 16-bit pointer found at the zero-page address next byte plus X.
    IndirectX,
    /// The 16-bit pointer found at the zero-page address next byte, plus Y.
    IndirectY,
}

/// Facts about an executed instruction for trace consumers.
#[derive(Debug, Clone, Copy, PartialEq, Eq, Structural)]
pub struct InstructionMetaData {
    /// Total cycles taken, including the extra cycles.
    pub cycles: u16,
    pub mode: AddressingMode,
    /// The opcode byte.
    pub raw_opcode: u8,
    /// Number of bytes the instruction took (opcode and operand bytes).
    pub length: u16,
}

/// A decoded and executed instruction.
#[derive(Debug, Clone, Copy, PartialEq, Eq, Structural)]
pub struct Instruction {
    pub opcode: Opcode,
    pub param: Param,
    pub meta: InstructionMetaData,
}

} // verus!
