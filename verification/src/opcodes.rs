//! Operations, addressing modes, the instruction descriptor and the decode table.

use crate::flags::{flag_set, test_flag, StatusFlag};
use vstd::prelude::*;

verus! {

/// How an instruction finds its operand.
#[derive(Clone, Copy, Debug, PartialEq, Eq, Structural)]
pub enum AddrMode {
    Implied,
    Accumulator,
    Immediate,
    Absolute,
    AbsoluteIndexedX,
    AbsoluteIndexedY,
    Zeropage,
    ZeropageIndexedX,
    ZeropageIndexedY,
    Relative,
    Indirect,
    IndexedIndirectX,
    IndirectIndexedY,
}

/// What an instruction does.
#[derive(Clone, Copy, Debug, PartialEq, Eq, Structural)]
pub enum Op {
    // Load and store
    LDA,
    LDX,
    LDY,
    STA,
    STX,
    STY,
    // Register transfers
    TAX,
    TAY,
    TXA,
    TYA,
    // Stack operations
    TSX,
    TXS,
    PHA,
    PHP,
    PLA,
    PLP,
    // Logical
    AND,
    EOR,
    ORA,
    BIT,
    // Arithmetic
    ADC,
    SBC,
    CMP,
    CPX,
    CPY,
    // Increments and decrements
    INC,
    INX,
    INY,
    DEC,
    DEX,
    DEY,
    // Shifts
    ASL,
    LSR,
    ROL,
    ROR,
    // Jumps and calls
    JMP,
    JSR,
    RTS,
    // Branches
    BCC,
    BCS,
    BEQ,
    BMI,
    BNE,
    BPL,
    BVC,
    BVS,
    // Status flag changes
    CLC,
    CLD,
    CLI,
    CLV,
    SEC,
    SED,
    SEI,
    // System functions
    BRK,
    NOP,
    RTI,
    // Undocumented
    HLT,
    SLO,
    ANC,
    RLA,
    SRE,
    RRA,
    ALR,
    SAX,
    XAA,
    AHX,
    TAS,
    SHY,
    SHX,
    ARR,
    LAX,
    LAS,
    DCP,
    AXS,
    ISC,
}

impl AddrMode {
    /// Whether the mode yields an address at all.
    pub open spec fn spec_has_address(self) -> bool {
        !(self is Implied || self is Accumulator || self is Immediate)
    }

    /// Whether the mode yields an address at all.
    #[verifier::when_used_as_spec(spec_has_address)]
    pub fn has_address(self) -> (yes: bool)
        ensures
            yes == self.spec_has_address(),
    {
        match self {
            AddrMode::Implied | AddrMode::Accumulator | AddrMode::Immediate => false,
            _ => true,
        }
    }

    /// The bus cycles that the addressing phase of the mode takes.
    pub open spec fn spec_fetch_cycles(self) -> u8 {
        match self {
            AddrMode::Implied | AddrMode::Accumulator | AddrMode::Immediate | AddrMode::Relative => 0,
            AddrMode::Zeropage => 1,
            AddrMode::ZeropageIndexedX
            | AddrMode::ZeropageIndexedY
            | AddrMode::Absolute
            | AddrMode::AbsoluteIndexedX
            | AddrMode::AbsoluteIndexedY => 2,
            AddrMode::IndirectIndexedY => 3,
            AddrMode::Indirect | AddrMode::IndexedIndirectX => 4,
        }
    }

    /// The bus cycles that the addressing phase of the mode takes.
    #[verifier::when_used_as_spec(spec_fetch_cycles)]
    pub fn fetch_cycles(self) -> (n: u8)
        ensures
            n == self.spec_fetch_cycles(),
    {
        match self {
            AddrMode::Implied | AddrMode::Accumulator | AddrMode::Immediate | AddrMode::Relative => 0,
            AddrMode::Zeropage => 1,
            AddrMode::ZeropageIndexedX
            | AddrMode::ZeropageIndexedY
            | AddrMode::Absolute
            | AddrMode::AbsoluteIndexedX
            | AddrMode::AbsoluteIndexedY => 2,
            AddrMode::IndirectIndexedY => 3,
            AddrMode::Indirect | AddrMode::IndexedIndirectX => 4,
        }
    }

    /// The four characters that a disassembler appends to a mnemonic.
    pub open spec fn suffix_text(self) -> Seq<char> {
        match self {
            AddrMode::Implied => "    "@,
            AddrMode::Accumulator => "_acc"@,
            AddrMode::Immediate => "_imm"@,
            AddrMode::Absolute => "_abs"@,
            AddrMode::AbsoluteIndexedX => "_abx"@,
            AddrMode::AbsoluteIndexedY => "_aby"@,
            AddrMode::Zeropage => "_zp "@,
            AddrMode::ZeropageIndexedX => "_zpx"@,
            AddrMode::ZeropageIndexedY => "_zpy"@,
            AddrMode::Relative => "_rel"@,
            AddrMode::Indirect => "_ind"@,
            AddrMode::IndexedIndirectX => "_izx"@,
            AddrMode::IndirectIndexedY => "_izy"@,
        }
    }

    /// The suffix that a disassembler appends to a mnemonic.
    pub fn suffix(&self) -> (text: &'static str)
        ensures
            text@ == self.suffix_text(),
    {
        match self {
            AddrMode::Implied => "    ",
            AddrMode::Accumulator => "_acc",
            AddrMode::Immediate => "_imm",
            AddrMode::Absolute => "_abs",
            AddrMode::AbsoluteIndexedX => "_abx",
            AddrMode::AbsoluteIndexedY => "_aby",
            AddrMode::Zeropage => "_zp ",
            AddrMode::ZeropageIndexedX => "_zpx",
            AddrMode::ZeropageIndexedY => "_zpy",
            AddrMode::Relative => "_rel",
            AddrMode::Indirect => "_ind",
            AddrMode::IndexedIndirectX => "_izx",
            AddrMode::IndirectIndexedY => "_izy",
        }
    }
}

impl Op {
    /// Whether the operation stores a register without reading its operand.
    pub open spec fn spec_is_store(self) -> bool {
        self is STA || self is STX || self is STY || self is SAX || self is AHX || self is TAS
            || self is SHY || self is SHX
    }

    /// Whether the operation stores a register without reading its operand.
    #[verifier::when_used_as_spec(spec_is_store)]
    pub fn is_store(self) -> (yes: bool)
        ensures
            yes == self.spec_is_store(),
    {
        match self {
            Op::STA | Op::STX | Op::STY | Op::SAX | Op::AHX | Op::TAS | Op::SHY | Op::SHX => true,
            _ => false,
        }
    }

    /// Whether the operation pushes without reading anything.
    pub open spec fn spec_is_push(self) -> bool {
        self is PHA || self is PHP || self is JSR
    }

    /// Whether the operation pushes without reading anything.
    #[verifier::when_used_as_spec(spec_is_push)]
    pub fn is_push(self) -> (yes: bool)
        ensures
            yes == self.spec_is_push(),
    {
        match self {
            Op::PHA | Op::PHP | Op::JSR => true,
            _ => false,
        }
    }

    /// Whether the operation is a branch whose condition holds under the
    /// status byte `p`. No other operation is ever taken.
    pub open spec fn spec_branch_taken(self, p: u8) -> bool {
        match self {
            Op::BCC => !flag_set(p, StatusFlag::Carry),
            Op::BCS => flag_set(p, StatusFlag::Carry),
            Op::BNE => !flag_set(p, StatusFlag::Zero),
            Op::BEQ => flag_set(p, StatusFlag::Zero),
            Op::BPL => !flag_set(p, StatusFlag::Negative),
            Op::BMI => flag_set(p, StatusFlag::Negative),
            Op::BVC => !flag_set(p, StatusFlag::Overflow),
            Op::BVS => flag_set(p, StatusFlag::Overflow),
            _ => false,
        }
    }

    /// Whether the operation is a branch whose condition holds under `p`.
    #[verifier::when_used_as_spec(spec_branch_taken)]
    pub fn branch_taken(self, p: u8) -> (taken: bool)
        ensures
            taken == self.spec_branch_taken(p),
    {
        match self {
            Op::BCC => !test_flag(p, StatusFlag::Carry),
            Op::BCS => test_flag(p, StatusFlag::Carry),
            Op::BNE => !test_flag(p, StatusFlag::Zero),
            Op::BEQ => test_flag(p, StatusFlag::Zero),
            Op::BPL => !test_flag(p, StatusFlag::Negative),
            Op::BMI => test_flag(p, StatusFlag::Negative),
            Op::BVC => !test_flag(p, StatusFlag::Overflow),
            Op::BVS => test_flag(p, StatusFlag::Overflow),
            _ => false,
        }
    }

    /// The three letters of the mnemonic.
    pub open spec fn mnemonic_text(self) -> Seq<char> {
        match self {
            Op::LDA => "LDA"@,
            Op::LDX => "LDX"@,
            Op::LDY => "LDY"@,
            Op::STA => "STA"@,
            Op::STX => "STX"@,
            Op::STY => "STY"@,
            Op::TAX => "TAX"@,
            Op::TAY => "TAY"@,
            Op::TXA => "TXA"@,
            Op::TYA => "TYA"@,
            Op::TSX => "TSX"@,
            Op::TXS => "TXS"@,
            Op::PHA => "PHA"@,
            Op::PHP => "PHP"@,
            Op::PLA => "PLA"@,
            Op::PLP => "PLP"@,
            Op::AND => "AND"@,
            Op::EOR => "EOR"@,
            Op::ORA => "ORA"@,
            Op::BIT => "BIT"@,
            Op::ADC => "ADC"@,
            Op::SBC => "SBC"@,
            Op::CMP => "CMP"@,
            Op::CPX => "CPX"@,
            Op::CPY => "CPY"@,
            Op::INC => "INC"@,
            Op::INX => "INX"@,
            Op::INY => "INY"@,
            Op::DEC => "DEC"@,
            Op::DEX => "DEX"@,
            Op::DEY => "DEY"@,
            Op::ASL => "ASL"@,
            Op::LSR => "LSR"@,
            Op::ROL => "ROL"@,
            Op::ROR => "ROR"@,
            Op::JMP => "JMP"@,
            Op::JSR => "JSR"@,
            Op::RTS => "RTS"@,
            Op::BCC => "BCC"@,
            Op::BCS => "BCS"@,
            Op::BEQ => "BEQ"@,
            Op::BMI => "BMI"@,
            Op::BNE => "BNE"@,
            Op::BPL => "BPL"@,
            Op::BVC => "BVC"@,
            Op::BVS => "BVS"@,
            Op::CLC => "CLC"@,
            Op::CLD => "CLD"@,
            Op::CLI => "CLI"@,
            Op::CLV => "CLV"@,
            Op::SEC => "SEC"@,
            Op::SED => "SED"@,
            Op::SEI => "SEI"@,
            Op::BRK => "BRK"@,
            Op::NOP => "NOP"@,
            Op::RTI => "RTI"@,
            Op::HLT => "HLT"@,
            Op::SLO => "SLO"@,
            Op::ANC => "ANC"@,
            Op::RLA => "RLA"@,
            Op::SRE => "SRE"@,
            Op::RRA => "RRA"@,
            Op::ALR => "ALR"@,
            Op::SAX => "SAX"@,
            Op::XAA => "XAA"@,
            Op::AHX => "AHX"@,
            Op::TAS => "TAS"@,
            Op::SHY => "SHY"@,
            Op::SHX => "SHX"@,
            Op::ARR => "ARR"@,
            Op::LAX => "LAX"@,
            Op::LAS => "LAS"@,
            Op::DCP => "DCP"@,
            Op::AXS => "AXS"@,
            Op::ISC => "ISC"@,
        }
    }

    /// The mnemonic of the operation.
    pub fn mnemonic(&self) -> (text: &'static str)
        ensures
            text@ == self.mnemonic_text(),
    {
        match self {
            Op::LDA => "LDA",
            Op::LDX => "LDX",
            Op::LDY => "LDY",
            Op::STA => "STA",
            Op::STX => "STX",
            Op::STY => "STY",
            Op::TAX => "TAX",
            Op::TAY => "TAY",
            Op::TXA => "TXA",
            Op::TYA => "TYA",
            Op::TSX => "TSX",
            Op::TXS => "TXS",
            Op::PHA => "PHA",
            Op::PHP => "PHP",
            Op::PLA => "PLA",
            Op::PLP => "PLP",
            Op::AND => "AND",
            Op::EOR => "EOR",
            Op::ORA => "ORA",
            Op::BIT => "BIT",
            Op::ADC => "ADC",
            Op::SBC => "SBC",
            Op::CMP => "CMP",
            Op::CPX => "CPX",
            Op::CPY => "CPY",
            Op::INC => "INC",
            Op::INX => "INX",
            Op::INY => "INY",
            Op::DEC => "DEC",
            Op::DEX => "DEX",
            Op::DEY => "DEY",
            Op::ASL => "ASL",
            Op::LSR => "LSR",
            Op::ROL => "ROL",
            Op::ROR => "ROR",
            Op::JMP => "JMP",
            Op::JSR => "JSR",
            Op::RTS => "RTS",
            Op::BCC => "BCC",
            Op::BCS => "BCS",
            Op::BEQ => "BEQ",
            Op::BMI => "BMI",
            Op::BNE => "BNE",
            Op::BPL => "BPL",
            Op::BVC => "BVC",
            Op::BVS => "BVS",
            Op::CLC => "CLC",
            Op::CLD => "CLD",
            Op::CLI => "CLI",
            Op::CLV => "CLV",
            Op::SEC => "SEC",
            Op::SED => "SED",
            Op::SEI => "SEI",
            Op::BRK => "BRK",
            Op::NOP => "NOP",
            Op::RTI => "RTI",
            Op::HLT => "HLT",
            Op::SLO => "SLO",
            Op::ANC => "ANC",
            Op::RLA => "RLA",
            Op::SRE => "SRE",
            Op::RRA => "RRA",
            Op::ALR => "ALR",
            Op::SAX => "SAX",
            Op::XAA => "XAA",
            Op::AHX => "AHX",
            Op::TAS => "TAS",
            Op::SHY => "SHY",
            Op::SHX => "SHX",
            Op::ARR => "ARR",
            Op::LAX => "LAX",
            Op::LAS => "LAS",
            Op::DCP => "DCP",
            Op::AXS => "AXS",
            Op::ISC => "ISC",
        }
    }
}

/// The decoded form of the instruction in flight. It is rebuilt at every
/// opcode fetch.
#[derive(Clone, Copy, Debug, PartialEq, Eq, Structural)]
pub struct Instruction {
    pub opcode: Op,
    pub addr_mode: AddrMode,
    pub is_rmw: bool,
    /// Bus cycles of the whole instruction as the decode table gives them.
    pub total_cycles: u8,
    /// Bus cycles left in the addressing phase.
    pub cycles_to_fetch: u8,
    /// Bus cycles left in the execute phase.
    pub cycles_to_run: u8,
    /// Bus cycles left in the read-modify-write phase.
    pub cycles_to_rmw: u8,
    /// The effective address, once the addressing phase is over.
    pub operand_addr: u16,
    /// The byte read from the effective address by a read-modify-write instruction.
    pub rmw_buffer: u8,
}

impl Instruction {
    /// The descriptor with its three countdowns primed for an instruction of
    /// `total_cycles` bus cycles: one cycle is the opcode fetch, the
    /// addressing mode takes its share, a read-modify-write instruction
    /// spends two on reading and writing back, the rest is left to execute.
    pub open spec fn with_cycles(self, total_cycles: u8, is_rmw: bool) -> Instruction {
        let fetch = self.addr_mode.fetch_cycles();
        let rmw: u8 = if is_rmw {
            2
        } else {
            0
        };
        let spent = 1 + fetch + rmw;
        Instruction {
            is_rmw,
            total_cycles,
            cycles_to_fetch: fetch,
            cycles_to_rmw: rmw,
            cycles_to_run: if total_cycles >= spent {
                (total_cycles - spent) as u8
            } else {
                0
            },
            ..self
        }
    }

    /// The descriptor of a `NOP` that has run to completion.
    pub fn new() -> (instruction: Instruction)
        ensures
            instruction == (Instruction {
                opcode: Op::NOP,
                addr_mode: AddrMode::Implied,
                is_rmw: false,
                total_cycles: 0,
                cycles_to_fetch: 0,
                cycles_to_run: 0,
                cycles_to_rmw: 0,
                operand_addr: 0,
                rmw_buffer: 0,
            }),
    {
        Instruction {
            opcode: Op::NOP,
            addr_mode: AddrMode::Implied,
            is_rmw: false,
            total_cycles: 0,
            cycles_to_fetch: 0,
            cycles_to_run: 0,
            cycles_to_rmw: 0,
            operand_addr: 0,
            rmw_buffer: 0,
        }
    }

    /// Primes the countdowns for the addressing mode that the descriptor holds.
    pub fn calculate_cycles(&mut self, total_cycles: u8, is_rmw: bool)
        ensures
            *final(self) == old(self).with_cycles(total_cycles, is_rmw),
    {
        let fetch = self.addr_mode.fetch_cycles();
        let rmw: u8 = if is_rmw {
            2
        } else {
            0
        };
        let spent: u8 = 1 + fetch + rmw;
        self.is_rmw = is_rmw;
        self.total_cycles = total_cycles;
        self.cycles_to_fetch = fetch;
        self.cycles_to_rmw = rmw;
        self.cycles_to_run = if total_cycles >= spent {
            total_cycles - spent
        } else {
            0
        };
    }
}

/// The decode table: for each opcode byte the operation, the bus cycles of
/// the instruction without penalties, whether it reads, modifies and writes
/// back a memory operand, and the addressing mode.
pub const DECODE_TABLE: [(Op, u8, bool, AddrMode); 256] = [
    /* 00 */ (Op::BRK, 7, false, AddrMode::Implied),
    /* 01 */ (Op::ORA, 6, false, AddrMode::IndexedIndirectX),
    /* 02 */ (Op::HLT, 1, false, AddrMode::Implied),
    /* 03 */ (Op::SLO, 8, true, AddrMode::IndexedIndirectX),
    /* 04 */ (Op::NOP, 3, false, AddrMode::Zeropage),
    /* 05 */ (Op::ORA, 3, false, AddrMode::Zeropage),
    /* 06 */ (Op::ASL, 5, true, AddrMode::Zeropage),
    /* 07 */ (Op::SLO, 5, true, AddrMode::Zeropage),
    /* 08 */ (Op::PHP, 3, false, AddrMode::Implied),
    /* 09 */ (Op::ORA, 2, false, AddrMode::Immediate),
    /* 0A */ (Op::ASL, 2, false, AddrMode::Accumulator),
    /* 0B */ (Op::ANC, 2, false, AddrMode::Immediate),
    /* 0C */ (Op::NOP, 4, false, AddrMode::Absolute),
    /* 0D */ (Op::ORA, 4, false, AddrMode::Absolute),
    /* 0E */ (Op::ASL, 6, true, AddrMode::Absolute),
    /* 0F */ (Op::SLO, 6, true, AddrMode::Absolute),
    /* 10 */ (Op::BPL, 2, false, AddrMode::Relative),
    /* 11 */ (Op::ORA, 5, false, AddrMode::IndirectIndexedY),
    /* 12 */ (Op::HLT, 1, false, AddrMode::Implied),
    /* 13 */ (Op::SLO, 8, true, AddrMode::IndirectIndexedY),
    /* 14 */ (Op::NOP, 4, false, AddrMode::ZeropageIndexedX),
    /* 15 */ (Op::ORA, 4, false, AddrMode::ZeropageIndexedX),
    /* 16 */ (Op::ASL, 6, true, AddrMode::ZeropageIndexedX),
    /* 17 */ (Op::SLO, 6, true, AddrMode::ZeropageIndexedX),
    /* 18 */ (Op::CLC, 2, false, AddrMode::Implied),
    /* 19 */ (Op::ORA, 4, false, AddrMode::AbsoluteIndexedY),
    /* 1A */ (Op::NOP, 2, false, AddrMode::Implied),
    /* 1B */ (Op::SLO, 7, true, AddrMode::AbsoluteIndexedY),
    /* 1C */ (Op::NOP, 4, false, AddrMode::AbsoluteIndexedX),
    /* 1D */ (Op::ORA, 4, false, AddrMode::AbsoluteIndexedX),
    /* 1E */ (Op::ASL, 7, true, AddrMode::AbsoluteIndexedX),
    /* 1F */ (Op::SLO, 7, true, AddrMode::AbsoluteIndexedX),
    /* 20 */ (Op::JSR, 6, false, AddrMode::Absolute),
    /* 21 */ (Op::AND, 6, false, AddrMode::IndexedIndirectX),
    /* 22 */ (Op::HLT, 1, false, AddrMode::Implied),
    /* 23 */ (Op::RLA, 8, true, AddrMode::IndexedIndirectX),
    /* 24 */ (Op::BIT, 3, false, AddrMode::Zeropage),
    /* 25 */ (Op::AND, 3, false, AddrMode::Zeropage),
    /* 26 */ (Op::ROL, 5, true, AddrMode::Zeropage),
    /* 27 */ (Op::RLA, 5, true, AddrMode::Zeropage),
    /* 28 */ (Op::PLP, 4, false, AddrMode::Implied),
    /* 29 */ (Op::AND, 2, false, AddrMode::Immediate),
    /* 2A */ (Op::ROL, 2, false, AddrMode::Accumulator),
    /* 2B */ (Op::ANC, 2, false, AddrMode::Immediate),
    /* 2C */ (Op::BIT, 4, false, AddrMode::Absolute),
    /* 2D */ (Op::AND, 4, false, AddrMode::Absolute),
    /* 2E */ (Op::ROL, 6, true, AddrMode::Absolute),
    /* 2F */ (Op::RLA, 6, true, AddrMode::Absolute),
    /* 30 */ (Op::BMI, 2, false, AddrMode::Relative),
    /* 31 */ (Op::AND, 5, false, AddrMode::IndirectIndexedY),
    /* 32 */ (Op::HLT, 1, false, AddrMode::Implied),
    /* 33 */ (Op::RLA, 8, true, AddrMode::IndirectIndexedY),
    /* 34 */ (Op::NOP, 4, false, AddrMode::ZeropageIndexedX),
    /* 35 */ (Op::AND, 4, false, AddrMode::ZeropageIndexedX),
    /* 36 */ (Op::ROL, 6, true, AddrMode::ZeropageIndexedX),
    /* 37 */ (Op::RLA, 6, true, AddrMode::ZeropageIndexedX),
    /* 38 */ (Op::SEC, 2, false, AddrMode::Implied),
    /* 39 */ (Op::AND, 4, false, AddrMode::AbsoluteIndexedY),
    /* 3A */ (Op::NOP, 2, false, AddrMode::Implied),
    /* 3B */ (Op::RLA, 7, true, AddrMode::AbsoluteIndexedY),
    /* 3C */ (Op::NOP, 4, false, AddrMode::AbsoluteIndexedX),
    /* 3D */ (Op::AND, 4, false, AddrMode::AbsoluteIndexedX),
    /* 3E */ (Op::ROL, 7, true, AddrMode::AbsoluteIndexedX),
    /* 3F */ (Op::RLA, 7, true, AddrMode::AbsoluteIndexedX),
    /* 40 */ (Op::RTI, 6, false, AddrMode::Implied),
    /* 41 */ (Op::EOR, 6, false, AddrMode::IndexedIndirectX),
    /* 42 */ (Op::HLT, 1, false, AddrMode::Implied),
    /* 43 */ (Op::SRE, 8, true, AddrMode::IndexedIndirectX),
    /* 44 */ (Op::NOP, 3, false, AddrMode::Zeropage),
    /* 45 */ (Op::EOR, 3, false, AddrMode::Zeropage),
    /* 46 */ (Op::LSR, 5, true, AddrMode::Zeropage),
    /* 47 */ (Op::SRE, 5, true, AddrMode::Zeropage),
    /* 48 */ (Op::PHA, 3, false, AddrMode::Implied),
    /* 49 */ (Op::EOR, 2, false, AddrMode::Immediate),
    /* 4A */ (Op::LSR, 2, false, AddrMode::Accumulator),
    /* 4B */ (Op::ALR, 2, false, AddrMode::Immediate),
    /* 4C */ (Op::JMP, 3, false, AddrMode::Absolute),
    /* 4D */ (Op::EOR, 4, false, AddrMode::Absolute),
    /* 4E */ (Op::LSR, 6, true, AddrMode::Absolute),
    /* 4F */ (Op::SRE, 6, true, AddrMode::Absolute),
    /* 50 */ (Op::BVC, 2, false, AddrMode::Relative),
    /* 51 */ (Op::EOR, 5, false, AddrMode::IndirectIndexedY),
    /* 52 */ (Op::HLT, 1, false, AddrMode::Implied),
    /* 53 */ (Op::SRE, 8, true, AddrMode::IndirectIndexedY),
    /* 54 */ (Op::NOP, 4, false, AddrMode::ZeropageIndexedX),
    /* 55 */ (Op::EOR, 4, false, AddrMode::ZeropageIndexedX),
    /* 56 */ (Op::LSR, 6, true, AddrMode::ZeropageIndexedX),
    /* 57 */ (Op::SRE, 6, true, AddrMode::ZeropageIndexedX),
    /* 58 */ (Op::CLI, 2, false, AddrMode::Implied),
    /* 59 */ (Op::EOR, 4, false, AddrMode::AbsoluteIndexedY),
    /* 5A */ (Op::NOP, 2, false, AddrMode::Implied),
    /* 5B */ (Op::SRE, 7, true, AddrMode::AbsoluteIndexedY),
    /* 5C */ (Op::NOP, 4, false, AddrMode::AbsoluteIndexedX),
    /* 5D */ (Op::EOR, 4, false, AddrMode::AbsoluteIndexedX),
    /* 5E */ (Op::LSR, 7, true, AddrMode::AbsoluteIndexedX),
    /* 5F */ (Op::SRE, 7, true, AddrMode::AbsoluteIndexedX),
    /* 60 */ (Op::RTS, 6, false, AddrMode::Implied),
    /* 61 */ (Op::ADC, 6, false, AddrMode::IndexedIndirectX),
    /* 62 */ (Op::HLT, 1, false, AddrMode::Implied),
    /* 63 */ (Op::RRA, 8, true, AddrMode::IndexedIndirectX),
    /* 64 */ (Op::NOP, 3, false, AddrMode::Zeropage),
    /* 65 */ (Op::ADC, 3, false, AddrMode::Zeropage),
    /* 66 */ (Op::ROR, 5, true, AddrMode::Zeropage),
    /* 67 */ (Op::RRA, 5, true, AddrMode::Zeropage),
    /* 68 */ (Op::PLA, 4, false, AddrMode::Implied),
    /* 69 */ (Op::ADC, 2, false, AddrMode::Immediate),
    /* 6A */ (Op::ROR, 2, false, AddrMode::Accumulator),
    /* 6B */ (Op::ARR, 2, false, AddrMode::Immediate),
    /* 6C */ (Op::JMP, 5, false, AddrMode::Indirect),
    /* 6D */ (Op::ADC, 4, false, AddrMode::Absolute),
    /* 6E */ (Op::ROR, 6, true, AddrMode::Absolute),
    /* 6F */ (Op::RRA, 6, true, AddrMode::Absolute),
    /* 70 */ (Op::BVS, 2, false, AddrMode::Relative),
    /* 71 */ (Op::ADC, 5, false, AddrMode::IndirectIndexedY),
    /* 72 */ (Op::HLT, 1, false, AddrMode::Implied),
    /* 73 */ (Op::RRA, 8, true, AddrMode::IndirectIndexedY),
    /* 74 */ (Op::NOP, 4, false, AddrMode::ZeropageIndexedX),
    /* 75 */ (Op::ADC, 4, false, AddrMode::ZeropageIndexedX),
    /* 76 */ (Op::ROR, 6, true, AddrMode::ZeropageIndexedX),
    /* 77 */ (Op::RRA, 6, true, AddrMode::ZeropageIndexedX),
    /* 78 */ (Op::SEI, 2, false, AddrMode::Implied),
    /* 79 */ (Op::ADC, 4, false, AddrMode::AbsoluteIndexedY),
    /* 7A */ (Op::NOP, 2, false, AddrMode::Implied),
    /* 7B */ (Op::RRA, 7, true, AddrMode::AbsoluteIndexedY),
    /* 7C */ (Op::NOP, 4, false, AddrMode::AbsoluteIndexedX),
    /* 7D */ (Op::ADC, 4, false, AddrMode::AbsoluteIndexedX),
    /* 7E */ (Op::ROR, 7, true, AddrMode::AbsoluteIndexedX),
    /* 7F */ (Op::RRA, 7, true, AddrMode::AbsoluteIndexedX),
    /* 80 */ (Op::NOP, 2, false, AddrMode::Immediate),
    /* 81 */ (Op::STA, 6, false, AddrMode::IndexedIndirectX),
    /* 82 */ (Op::NOP, 2, false, AddrMode::Immediate),
    /* 83 */ (Op::SAX, 6, false, AddrMode::IndexedIndirectX),
    /* 84 */ (Op::STY, 3, false, AddrMode::Zeropage),
    /* 85 */ (Op::STA, 3, false, AddrMode::Zeropage),
    /* 86 */ (Op::STX, 3, false, AddrMode::Zeropage),
    /* 87 */ (Op::SAX, 3, false, AddrMode::Zeropage),
    /* 88 */ (Op::DEY, 2, false, AddrMode::Implied),
    /* 89 */ (Op::NOP, 2, false, AddrMode::Immediate),
    /* 8A */ (Op::TXA, 2, false, AddrMode::Implied),
    /* 8B */ (Op::XAA, 2, false, AddrMode::Immediate),
    /* 8C */ (Op::STY, 4, false, AddrMode::Absolute),
    /* 8D */ (Op::STA, 4, false, AddrMode::Absolute),
    /* 8E */ (Op::STX, 4, false, AddrMode::Absolute),
    /* 8F */ (Op::SAX, 4, false, AddrMode::Absolute),
    /* 90 */ (Op::BCC, 2, false, AddrMode::Relative),
    /* 91 */ (Op::STA, 6, false, AddrMode::IndirectIndexedY),
    /* 92 */ (Op::HLT, 1, false, AddrMode::Implied),
    /* 93 */ (Op::AHX, 6, false, AddrMode::IndirectIndexedY),
    /* 94 */ (Op::STY, 4, false, AddrMode::ZeropageIndexedX),
    /* 95 */ (Op::STA, 4, false, AddrMode::ZeropageIndexedX),
    /* 96 */ (Op::STX, 4, false, AddrMode::ZeropageIndexedY),
    /* 97 */ (Op::SAX, 4, false, AddrMode::ZeropageIndexedY),
    /* 98 */ (Op::TYA, 2, false, AddrMode::Implied),
    /* 99 */ (Op::STA, 5, false, AddrMode::AbsoluteIndexedY),
    /* 9A */ (Op::TXS, 2, false, AddrMode::Implied),
    /* 9B */ (Op::TAS, 5, false, AddrMode::AbsoluteIndexedY),
    /* 9C */ (Op::SHY, 5, false, AddrMode::AbsoluteIndexedX),
    /* 9D */ (Op::STA, 5, false, AddrMode::AbsoluteIndexedX),
    /* 9E */ (Op::SHX, 5, false, AddrMode::AbsoluteIndexedY),
    /* 9F */ (Op::AHX, 5, false, AddrMode::AbsoluteIndexedY),
    /* A0 */ (Op::LDY, 2, false, AddrMode::Immediate),
    /* A1 */ (Op::LDA, 6, false, AddrMode::IndexedIndirectX),
    /* A2 */ (Op::LDX, 2, false, AddrMode::Immediate),
    /* A3 */ (Op::LAX, 6, false, AddrMode::IndexedIndirectX),
    /* A4 */ (Op::LDY, 3, false, AddrMode::Zeropage),
    /* A5 */ (Op::LDA, 3, false, AddrMode::Zeropage),
    /* A6 */ (Op::LDX, 3, false, AddrMode::Zeropage),
    /* A7 */ (Op::LAX, 3, false, AddrMode::Zeropage),
    /* A8 */ (Op::TAY, 2, false, AddrMode::Implied),
    /* A9 */ (Op::LDA, 2, false, AddrMode::Immediate),
    /* AA */ (Op::TAX, 2, false, AddrMode::Implied),
    /* AB */ (Op::LAX, 2, false, AddrMode::Immediate),
    /* AC */ (Op::LDY, 4, false, AddrMode::Absolute),
    /* AD */ (Op::LDA, 4, false, AddrMode::Absolute),
    /* AE */ (Op::LDX, 4, false, AddrMode::Absolute),
    /* AF */ (Op::LAX, 4, false, AddrMode::Absolute),
    /* B0 */ (Op::BCS, 2, false, AddrMode::Relative),
    /* B1 */ (Op::LDA, 5, false, AddrMode::IndirectIndexedY),
    /* B2 */ (Op::HLT, 1, false, AddrMode::Implied),
    /* B3 */ (Op::LAX, 5, false, AddrMode::IndirectIndexedY),
    /* B4 */ (Op::LDY, 4, false, AddrMode::ZeropageIndexedX),
    /* B5 */ (Op::LDA, 4, false, AddrMode::ZeropageIndexedX),
    /* B6 */ (Op::LDX, 4, false, AddrMode::ZeropageIndexedY),
    /* B7 */ (Op::LAX, 4, false, AddrMode::ZeropageIndexedY),
    /* B8 */ (Op::CLV, 2, false, AddrMode::Implied),
    /* B9 */ (Op::LDA, 4, false, AddrMode::AbsoluteIndexedY),
    /* BA */ (Op::TSX, 2, false, AddrMode::Implied),
    /* BB */ (Op::LAS, 4, false, AddrMode::AbsoluteIndexedY),
    /* BC */ (Op::LDY, 4, false, AddrMode::AbsoluteIndexedX),
    /* BD */ (Op::LDA, 4, false, AddrMode::AbsoluteIndexedX),
    /* BE */ (Op::LDX, 4, false, AddrMode::AbsoluteIndexedY),
    /* BF */ (Op::LAX, 4, false, AddrMode::AbsoluteIndexedY),
    /* C0 */ (Op::CPY, 2, false, AddrMode::Immediate),
    /* C1 */ (Op::CMP, 6, false, AddrMode::IndexedIndirectX),
    /* C2 */ (Op::NOP, 2, false, AddrMode::Immediate),
    /* C3 */ (Op::DCP, 8, true, AddrMode::IndexedIndirectX),
    /* C4 */ (Op::CPY, 3, false, AddrMode::Zeropage),
    /* C5 */ (Op::CMP, 3, false, AddrMode::Zeropage),
    /* C6 */ (Op::DEC, 5, true, AddrMode::Zeropage),
    /* C7 */ (Op::DCP, 5, true, AddrMode::Zeropage),
    /* C8 */ (Op::INY, 2, false, AddrMode::Implied),
    /* C9 */ (Op::CMP, 2, false, AddrMode::Immediate),
    /* CA */ (Op::DEX, 2, false, AddrMode::Implied),
    /* CB */ (Op::AXS, 2, false, AddrMode::Immediate),
    /* CC */ (Op::CPY, 4, false, AddrMode::Absolute),
    /* CD */ (Op::CMP, 4, false, AddrMode::Absolute),
    /* CE */ (Op::DEC, 6, true, AddrMode::Absolute),
    /* CF */ (Op::DCP, 6, true, AddrMode::Absolute),
    /* D0 */ (Op::BNE, 2, false, AddrMode::Relative),
    /* D1 */ (Op::CMP, 5, false, AddrMode::IndirectIndexedY),
    /* D2 */ (Op::HLT, 1, false, AddrMode::Implied),
    /* D3 */ (Op::DCP, 8, true, AddrMode::IndirectIndexedY),
    /* D4 */ (Op::NOP, 4, false, AddrMode::ZeropageIndexedX),
    /* D5 */ (Op::CMP, 4, false, AddrMode::ZeropageIndexedX),
    /* D6 */ (Op::DEC, 6, true, AddrMode::ZeropageIndexedX),
    /* D7 */ (Op::DCP, 6, true, AddrMode::ZeropageIndexedX),
    /* D8 */ (Op::CLD, 2, false, AddrMode::Implied),
    /* D9 */ (Op::CMP, 4, false, AddrMode::AbsoluteIndexedY),
    /* DA */ (Op::NOP, 2, false, AddrMode::Implied),
    /* DB */ (Op::DCP, 7, true, AddrMode::AbsoluteIndexedY),
    /* DC */ (Op::NOP, 4, false, AddrMode::AbsoluteIndexedX),
    /* DD */ (Op::CMP, 4, false, AddrMode::AbsoluteIndexedX),
    /* DE */ (Op::DEC, 7, true, AddrMode::AbsoluteIndexedX),
    /* DF */ (Op::DCP, 7, true, AddrMode::AbsoluteIndexedX),
    /* E0 */ (Op::CPX, 2, false, AddrMode::Immediate),
    /* E1 */ (Op::SBC, 6, false, AddrMode::IndexedIndirectX),
    /* E2 */ (Op::NOP, 2, false, AddrMode::Immediate),
    /* E3 */ (Op::ISC, 8, true, AddrMode::IndexedIndirectX),
    /* E4 */ (Op::CPX, 3, false, AddrMode::Zeropage),
    /* E5 */ (Op::SBC, 3, false, AddrMode::Zeropage),
    /* E6 */ (Op::INC, 5, true, AddrMode::Zeropage),
    /* E7 */ (Op::ISC, 5, true, AddrMode::Zeropage),
    /* E8 */ (Op::INX, 2, false, AddrMode::Implied),
    /* E9 */ (Op::SBC, 2, false, AddrMode::Immediate),
    /* EA */ (Op::NOP, 2, false, AddrMode::Implied),
    /* EB */ (Op::SBC, 2, false, AddrMode::Immediate),
    /* EC */ (Op::CPX, 4, false, AddrMode::Absolute),
    /* ED */ (Op::SBC, 4, false, AddrMode::Absolute),
    /* EE */ (Op::INC, 6, true, AddrMode::Absolute),
    /* EF */ (Op::ISC, 6, true, AddrMode::Absolute),
    /* F0 */ (Op::BEQ, 2, false, AddrMode::Relative),
    /* F1 */ (Op::SBC, 5, false, AddrMode::IndirectIndexedY),
    /* F2 */ (Op::HLT, 1, false, AddrMode::Implied),
    /* F3 */ (Op::ISC, 8, true, AddrMode::IndirectIndexedY),
    /* F4 */ (Op::NOP, 4, false, AddrMode::ZeropageIndexedX),
    /* F5 */ (Op::SBC, 4, false, AddrMode::ZeropageIndexedX),
    /* F6 */ (Op::INC, 6, true, AddrMode::ZeropageIndexedX),
    /* F7 */ (Op::ISC, 6, true, AddrMode::ZeropageIndexedX),
    /* F8 */ (Op::SED, 2, false, AddrMode::Implied),
    /* F9 */ (Op::SBC, 4, false, AddrMode::AbsoluteIndexedY),
    /* FA */ (Op::NOP, 2, false, AddrMode::Implied),
    /* FB */ (Op::ISC, 7, true, AddrMode::AbsoluteIndexedY),
    /* FC */ (Op::NOP, 4, false, AddrMode::AbsoluteIndexedX),
    /* FD */ (Op::SBC, 4, false, AddrMode::AbsoluteIndexedX),
    /* FE */ (Op::INC, 7, true, AddrMode::AbsoluteIndexedX),
    /* FF */ (Op::ISC, 7, true, AddrMode::AbsoluteIndexedX),
];

/// The entry of the decode table for `opcode`.
pub open spec fn decode(opcode: u8) -> (Op, u8, bool, AddrMode) {
    DECODE_TABLE[opcode as int]
}

/// Decodes an opcode byte. Every byte decodes.
pub fn get_instruction(opcode: u8) -> (entry: Option<(Op, u8, bool, AddrMode)>)
    ensures
        entry == Some(decode(opcode)),
{
    Some(DECODE_TABLE[opcode as usize])
}

/// The descriptor that an opcode fetch builds from the byte `opcode`.
pub open spec fn decoded(previous: Instruction, opcode: u8) -> Instruction {
    let entry = decode(opcode);
    (Instruction { opcode: entry.0, addr_mode: entry.3, is_rmw: entry.2, ..previous }).with_cycles(
        entry.1,
        entry.2,
    )
}

/// The cycle counts of the table leave room for every phase: the opcode
/// fetch, the addressing phase and the two read-modify-write cycles never
/// add up to more than the instruction has, so the countdowns of a decoded
/// instruction sum to its cycle count.
pub proof fn law_decoded_cycles_add_up(previous: Instruction, opcode: u8)
    ensures
        ({
            let d = decoded(previous, opcode);
            1 + d.cycles_to_fetch + d.cycles_to_rmw + d.cycles_to_run == decode(opcode).1
        }),
{
}

/// A read-modify-write entry of the table always has a memory operand, and
/// leaves at least one cycle to execute after the write-back.
pub proof fn law_rmw_has_memory_operand(previous: Instruction, opcode: u8)
    requires
        decode(opcode).2,
    ensures
        decode(opcode).3.has_address(),
        !(decode(opcode).3 is Relative),
        decoded(previous, opcode).cycles_to_rmw == 2,
        decoded(previous, opcode).cycles_to_run >= 1,
{
}

/// Only a jump or a halt is left without an execute cycle of its own.
pub proof fn law_execute_phase(previous: Instruction, opcode: u8)
    ensures
        decoded(previous, opcode).cycles_to_run == 0 ==> decode(opcode).0 is JMP || decode(
            opcode,
        ).0 is HLT,
{
}

} // verus!
