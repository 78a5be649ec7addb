//! The opcode table: what each opcode byte does, how long it is and how many
//! cycles it takes.
use crate::cpu::AddressingMode;
use vstd::prelude::*;

verus! {

#[derive(Clone, Copy, Debug, PartialEq, Eq, Structural)]
#[allow(clippy::upper_case_acronyms)]
pub enum Instruction {
    /// Add with carry
    ADC,
    /// Logical AND
    AND,
    /// Arithmetic shift left
    ASL,
    /// Branch if carry clear
    BCC,
    /// Branch if carry set
    BCS,
    /// Branch if equal
    BEQ,
    /// Bit test
    BIT,
    /// Branch if minus
    BMI,
    /// Branch if not equal
    BNE,
    /// Branch if positive
    BPL,
    /// Break
    BRK,
    /// Branch if overflow clear
    BVC,
    /// Branch if overflow set
    BVS,
    /// Clear carry
    CLC,
    /// Clear decimal mode
    CLD,
    /// Clear interrupt disable
    CLI,
    /// Clear overflow
    CLV,
    /// Compare with A
    CMP,
    /// Compare with X
    CPX,
    /// Compare with Y
    CPY,
    /// Decrement memory
    DEC,
    /// Decrement X
    DEX,
    /// Decrement Y
    DEY,
    /// Exclusive OR
    EOR,
    /// Increment memory
    INC,
    /// Increment X
    INX,
    /// Increment Y
    INY,
    /// Jump
    JMP,
    /// Jump to subroutine
    JSR,
    /// Load A
    LDA,
    /// Load X
    LDX,
    /// Load Y
    LDY,
    /// Logical shift right
    LSR,
    /// No operation
    NOP,
    /// Logical inclusive OR
    ORA,
    /// Push A
    PHA,
    /// Push processor status
    PHP,
    /// Pull A
    PLA,
    /// Pull processor status
    PLP,
    /// Rotate left
    ROL,
    /// Rotate right
    ROR,
    /// Return from interrupt
    RTI,
    /// Return from subroutine
    RTS,
    /// Subtract with carry
    SBC,
    /// Set carry
    SEC,
    /// Set decimal mode
    SED,
    /// Set interrupt disable
    SEI,
    /// Store A
    STA,
    /// Store X
    STX,
    /// Store Y
    STY,
    /// Transfer A to X
    TAX,
    /// Transfer A to Y
    TAY,
    /// Transfer stack pointer to X
    TSX,
    /// Transfer X to A
    TXA,
    /// Transfer X to stack pointer
    TXS,
    /// Transfer Y to A
    TYA,
    /// AND, then shift A right
    ALR,
    /// AND, then copy N into C
    ANC,
    /// AND, then rotate A right
    ARR,
    /// X = (A AND X) - operand
    AXS,
    /// Load A and X
    LAX,
    /// Store A AND X
    SAX,
    /// Decrement memory, then compare
    DCP,
    /// Increment memory, then subtract
    ISC,
    /// Rotate memory left, then AND
    RLA,
    /// Rotate memory right, then add
    RRA,
    /// Shift memory left, then OR
    SLO,
    /// Shift memory right, then exclusive OR
    SRE,
    /// Read an immediate byte and ignore it
    SKB,
    /// Read memory and ignore it
    IGN,
}

/// One entry of the opcode table.
#[derive(Clone, Copy, Debug, PartialEq, Eq, Structural)]
pub struct Opcode {
    pub code: u8,
    pub instruction: Instruction,
    /// length in bytes, opcode included
    pub bytes: u8,
    /// base cycle count
    pub cycles: u8,
    pub addressing_mode: AddressingMode,
}

/// The opcode table; `None` for bytes that are no instruction.
pub open spec fn opcode_of(code: u8) -> Option<Opcode> {
    match code {
        0x69 => Some(Opcode { code: 0x69, instruction: Instruction::ADC, bytes: 2, cycles: 2, addressing_mode: AddressingMode::Immediate }),
        0x65 => Some(Opcode { code: 0x65, instruction: Instruction::ADC, bytes: 2, cycles: 3, addressing_mode: AddressingMode::ZeroPage }),
        0x75 => Some(Opcode { code: 0x75, instruction: Instruction::ADC, bytes: 2, cycles: 4, addressing_mode: AddressingMode::ZeroPageX }),
        0x6d => Some(Opcode { code: 0x6d, instruction: Instruction::ADC, bytes: 3, cycles: 4, addressing_mode: AddressingMode::Absolute }),
        0x7d => Some(Opcode { code: 0x7d, instruction: Instruction::ADC, bytes: 3, cycles: 4, addressing_mode: AddressingMode::AbsoluteX }),
        0x79 => Some(Opcode { code: 0x79, instruction: Instruction::ADC, bytes: 3, cycles: 4, addressing_mode: AddressingMode::AbsoluteY }),
        0x61 => Some(Opcode { code: 0x61, instruction: Instruction::ADC, bytes: 2, cycles: 6, addressing_mode: AddressingMode::IndirectX }),
        0x71 => Some(Opcode { code: 0x71, instruction: Instruction::ADC, bytes: 2, cycles: 5, addressing_mode: AddressingMode::IndirectY }),
        0x29 => Some(Opcode { code: 0x29, instruction: Instruction::AND, bytes: 2, cycles: 2, addressing_mode: AddressingMode::Immediate }),
        0x25 => Some(Opcode { code: 0x25, instruction: Instruction::AND, bytes: 2, cycles: 3, addressing_mode: AddressingMode::ZeroPage }),
        0x35 => Some(Opcode { code: 0x35, instruction: Instruction::AND, bytes: 2, cycles: 4, addressing_mode: AddressingMode::ZeroPageX }),
        0x2d => Some(Opcode { code: 0x2d, instruction: Instruction::AND, bytes: 3, cycles: 4, addressing_mode: AddressingMode::Absolute }),
        0x3d => Some(Opcode { code: 0x3d, instruction: Instruction::AND, bytes: 3, cycles: 4, addressing_mode: AddressingMode::AbsoluteX }),
        0x39 => Some(Opcode { code: 0x39, instruction: Instruction::AND, bytes: 3, cycles: 4, addressing_mode: AddressingMode::AbsoluteY }),
        0x21 => Some(Opcode { code: 0x21, instruction: Instruction::AND, bytes: 2, cycles: 6, addressing_mode: AddressingMode::IndirectX }),
        0x31 => Some(Opcode { code: 0x31, instruction: Instruction::AND, bytes: 2, cycles: 5, addressing_mode: AddressingMode::IndirectY }),
        0x0a => Some(Opcode { code: 0x0a, instruction: Instruction::ASL, bytes: 1, cycles: 2, addressing_mode: AddressingMode::Accumulator }),
        0x06 => Some(Opcode { code: 0x06, instruction: Instruction::ASL, bytes: 2, cycles: 5, addressing_mode: AddressingMode::ZeroPage }),
        0x16 => Some(Opcode { code: 0x16, instruction: Instruction::ASL, bytes: 2, cycles: 6, addressing_mode: AddressingMode::ZeroPageX }),
        0x0e => Some(Opcode { code: 0x0e, instruction: Instruction::ASL, bytes: 3, cycles: 6, addressing_mode: AddressingMode::Absolute }),
        0x1e => Some(Opcode { code: 0x1e, instruction: Instruction::ASL, bytes: 3, cycles: 7, addressing_mode: AddressingMode::AbsoluteX }),
        0x90 => Some(Opcode { code: 0x90, instruction: Instruction::BCC, bytes: 2, cycles: 2, addressing_mode: AddressingMode::Relative }),
        0xb0 => Some(Opcode { code: 0xb0, instruction: Instruction::BCS, bytes: 2, cycles: 2, addressing_mode: AddressingMode::Relative }),
        0xf0 => Some(Opcode { code: 0xf0, instruction: Instruction::BEQ, bytes: 2, cycles: 2, addressing_mode: AddressingMode::Relative }),
        0x24 => Some(Opcode { code: 0x24, instruction: Instruction::BIT, bytes: 2, cycles: 3, addressing_mode: AddressingMode::ZeroPage }),
        0x2c => Some(Opcode { code: 0x2c, instruction: Instruction::BIT, bytes: 3, cycles: 4, addressing_mode: AddressingMode::Absolute }),
        0x30 => Some(Opcode { code: 0x30, instruction: Instruction::BMI, bytes: 2, cycles: 2, addressing_mode: AddressingMode::Relative }),
        0xd0 => Some(Opcode { code: 0xd0, instruction: Instruction::BNE, bytes: 2, cycles: 2, addressing_mode: AddressingMode::Relative }),
        0x10 => Some(Opcode { code: 0x10, instruction: Instruction::BPL, bytes: 2, cycles: 2, addressing_mode: AddressingMode::Relative }),
        0x00 => Some(Opcode { code: 0x00, instruction: Instruction::BRK, bytes: 1, cycles: 7, addressing_mode: AddressingMode::NoneAddressing }),
        0x50 => Some(Opcode { code: 0x50, instruction: Instruction::BVC, bytes: 2, cycles: 2, addressing_mode: AddressingMode::Relative }),
        0x70 => Some(Opcode { code: 0x70, instruction: Instruction::BVS, bytes: 2, cycles: 2, addressing_mode: AddressingMode::Relative }),
        0x18 => Some(Opcode { code: 0x18, instruction: Instruction::CLC, bytes: 1, cycles: 2, addressing_mode: AddressingMode::NoneAddressing }),
        0xd8 => Some(Opcode { code: 0xd8, instruction: Instruction::CLD, bytes: 1, cycles: 2, addressing_mode: AddressingMode::NoneAddressing }),
        0x58 => Some(Opcode { code: 0x58, instruction: Instruction::CLI, bytes: 1, cycles: 2, addressing_mode: AddressingMode::NoneAddressing }),
        0xb8 => Some(Opcode { code: 0xb8, instruction: Instruction::CLV, bytes: 1, cycles: 2, addressing_mode: AddressingMode::NoneAddressing }),
        0xc9 => Some(Opcode { code: 0xc9, instruction: Instruction::CMP, bytes: 2, cycles: 2, addressing_mode: AddressingMode::Immediate }),
        0xc5 => Some(Opcode { code: 0xc5, instruction: Instruction::CMP, bytes: 2, cycles: 3, addressing_mode: AddressingMode::ZeroPage }),
        0xd5 => Some(Opcode { code: 0xd5, instruction: Instruction::CMP, bytes: 2, cycles: 4, addressing_mode: AddressingMode::ZeroPageX }),
        0xcd => Some(Opcode { code: 0xcd, instruction: Instruction::CMP, bytes: 3, cycles: 4, addressing_mode: AddressingMode::Absolute }),
        0xdd => Some(Opcode { code: 0xdd, instruction: Instruction::CMP, bytes: 3, cycles: 4, addressing_mode: AddressingMode::AbsoluteX }),
        0xd9 => Some(Opcode { code: 0xd9, instruction: Instruction::CMP, bytes: 3, cycles: 4, addressing_mode: AddressingMode::AbsoluteY }),
        0xc1 => Some(Opcode { code: 0xc1, instruction: Instruction::CMP, bytes: 2, cycles: 6, addressing_mode: AddressingMode::IndirectX }),
        0xd1 => Some(Opcode { code: 0xd1, instruction: Instruction::CMP, bytes: 2, cycles: 5, addressing_mode: AddressingMode::IndirectY }),
        0xe0 => Some(Opcode { code: 0xe0, instruction: Instruction::CPX, bytes: 2, cycles: 2, addressing_mode: AddressingMode::Immediate }),
        0xe4 => Some(Opcode { code: 0xe4, instruction: Instruction::CPX, bytes: 2, cycles: 3, addressing_mode: AddressingMode::ZeroPage }),
        0xec => Some(Opcode { code: 0xec, instruction: Instruction::CPX, bytes: 3, cycles: 4, addressing_mode: AddressingMode::Absolute }),
        0xc0 => Some(Opcode { code: 0xc0, instruction: Instruction::CPY, bytes: 2, cycles: 2, addressing_mode: AddressingMode::Immediate }),
        0xc4 => Some(Opcode { code: 0xc4, instruction: Instruction::CPY, bytes: 2, cycles: 3, addressing_mode: AddressingMode::ZeroPage }),
        0xcc => Some(Opcode { code: 0xcc, instruction: Instruction::CPY, bytes: 3, cycles: 4, addressing_mode: AddressingMode::Absolute }),
        0xc6 => Some(Opcode { code: 0xc6, instruction: Instruction::DEC, bytes: 2, cycles: 5, addressing_mode: AddressingMode::ZeroPage }),
        0xd6 => Some(Opcode { code: 0xd6, instruction: Instruction::DEC, bytes: 2, cycles: 6, addressing_mode: AddressingMode::ZeroPageX }),
        0xce => Some(Opcode { code: 0xce, instruction: Instruction::DEC, bytes: 3, cycles: 6, addressing_mode: AddressingMode::Absolute }),
        0xde => Some(Opcode { code: 0xde, instruction: Instruction::DEC, bytes: 3, cycles: 7, addressing_mode: AddressingMode::AbsoluteX }),
        0xca => Some(Opcode { code: 0xca, instruction: Instruction::DEX, bytes: 1, cycles: 2, addressing_mode: AddressingMode::NoneAddressing }),
        0x88 => Some(Opcode { code: 0x88, instruction: Instruction::DEY, bytes: 1, cycles: 2, addressing_mode: AddressingMode::NoneAddressing }),
        0x49 => Some(Opcode { code: 0x49, instruction: Instruction::EOR, bytes: 2, cycles: 2, addressing_mode: AddressingMode::Immediate }),
        0x45 => Some(Opcode { code: 0x45, instruction: Instruction::EOR, bytes: 2, cycles: 3, addressing_mode: AddressingMode::ZeroPage }),
        0x55 => Some(Opcode { code: 0x55, instruction: Instruction::EOR, bytes: 2, cycles: 4, addressing_mode: AddressingMode::ZeroPageX }),
        0x4d => Some(Opcode { code: 0x4d, instruction: Instruction::EOR, bytes: 3, cycles: 4, addressing_mode: AddressingMode::Absolute }),
        0x5d => Some(Opcode { code: 0x5d, instruction: Instruction::EOR, bytes: 3, cycles: 4, addressing_mode: AddressingMode::AbsoluteX }),
        0x59 => Some(Opcode { code: 0x59, instruction: Instruction::EOR, bytes: 3, cycles: 4, addressing_mode: AddressingMode::AbsoluteY }),
        0x41 => Some(Opcode { code: 0x41, instruction: Instruction::EOR, bytes: 2, cycles: 6, addressing_mode: AddressingMode::IndirectX }),
        0x51 => Some(Opcode { code: 0x51, instruction: Instruction::EOR, bytes: 2, cycles: 5, addressing_mode: AddressingMode::IndirectY }),
        0xe6 => Some(Opcode { code: 0xe6, instruction: Instruction::INC, bytes: 2, cycles: 5, addressing_mode: AddressingMode::ZeroPage }),
        0xf6 => Some(Opcode { code: 0xf6, instruction: Instruction::INC, bytes: 2, cycles: 6, addressing_mode: AddressingMode::ZeroPageX }),
        0xee => Some(Opcode { code: 0xee, instruction: Instruction::INC, bytes: 3, cycles: 6, addressing_mode: AddressingMode::Absolute }),
        0xfe => Some(Opcode { code: 0xfe, instruction: Instruction::INC, bytes: 3, cycles: 7, addressing_mode: AddressingMode::AbsoluteX }),
        0xe8 => Some(Opcode { code: 0xe8, instruction: Instruction::INX, bytes: 1, cycles: 2, addressing_mode: AddressingMode::NoneAddressing }),
        0xc8 => Some(Opcode { code: 0xc8, instruction: Instruction::INY, bytes: 1, cycles: 2, addressing_mode: AddressingMode::NoneAddressing }),
        0x4c => Some(Opcode { code: 0x4c, instruction: Instruction::JMP, bytes: 3, cycles: 3, addressing_mode: AddressingMode::Absolute }),
        0x6c => Some(Opcode { code: 0x6c, instruction: Instruction::JMP, bytes: 3, cycles: 5, addressing_mode: AddressingMode::Indirect }),
        0x20 => Some(Opcode { code: 0x20, instruction: Instruction::JSR, bytes: 3, cycles: 6, addressing_mode: AddressingMode::Absolute }),
        0xa9 => Some(Opcode { code: 0xa9, instruction: Instruction::LDA, bytes: 2, cycles: 2, addressing_mode: AddressingMode::Immediate }),
        0xa5 => Some(Opcode { code: 0xa5, instruction: Instruction::LDA, bytes: 2, cycles: 3, addressing_mode: AddressingMode::ZeroPage }),
        0xb5 => Some(Opcode { code: 0xb5, instruction: Instruction::LDA, bytes: 2, cycles: 4, addressing_mode: AddressingMode::ZeroPageX }),
        0xad => Some(Opcode { code: 0xad, instruction: Instruction::LDA, bytes: 3, cycles: 4, addressing_mode: AddressingMode::Absolute }),
        0xbd => Some(Opcode { code: 0xbd, instruction: Instruction::LDA, bytes: 3, cycles: 4, addressing_mode: AddressingMode::AbsoluteX }),
        0xb9 => Some(Opcode { code: 0xb9, instruction: Instruction::LDA, bytes: 3, cycles: 4, addressing_mode: AddressingMode::AbsoluteY }),
        0xa1 => Some(Opcode { code: 0xa1, instruction: Instruction::LDA, bytes: 2, cycles: 6, addressing_mode: AddressingMode::IndirectX }),
        0xb1 => Some(Opcode { code: 0xb1, instruction: Instruction::LDA, bytes: 2, cycles: 5, addressing_mode: AddressingMode::IndirectY }),
        0xa2 => Some(Opcode { code: 0xa2, instruction: Instruction::LDX, bytes: 2, cycles: 2, addressing_mode: AddressingMode::Immediate }),
        0xa6 => Some(Opcode { code: 0xa6, instruction: Instruction::LDX, bytes: 2, cycles: 3, addressing_mode: AddressingMode::ZeroPage }),
        0xb6 => Some(Opcode { code: 0xb6, instruction: Instruction::LDX, bytes: 2, cycles: 4, addressing_mode: AddressingMode::ZeroPageY }),
        0xae => Some(Opcode { code: 0xae, instruction: Instruction::LDX, bytes: 3, cycles: 4, addressing_mode: AddressingMode::Absolute }),
        0xbe => Some(Opcode { code: 0xbe, instruction: Instruction::LDX, bytes: 3, cycles: 4, addressing_mode: AddressingMode::AbsoluteY }),
        0xa0 => Some(Opcode { code: 0xa0, instruction: Instruction::LDY, bytes: 2, cycles: 2, addressing_mode: AddressingMode::Immediate }),
        0xa4 => Some(Opcode { code: 0xa4, instruction: Instruction::LDY, bytes: 2, cycles: 3, addressing_mode: AddressingMode::ZeroPage }),
        0xb4 => Some(Opcode { code: 0xb4, instruction: Instruction::LDY, bytes: 2, cycles: 4, addressing_mode: AddressingMode::ZeroPageX }),
        0xac => Some(Opcode { code: 0xac, instruction: Instruction::LDY, bytes: 3, cycles: 4, addressing_mode: AddressingMode::Absolute }),
        0xbc => Some(Opcode { code: 0xbc, instruction: Instruction::LDY, bytes: 3, cycles: 4, addressing_mode: AddressingMode::AbsoluteX }),
        0x4a => Some(Opcode { code: 0x4a, instruction: Instruction::LSR, bytes: 1, cycles: 2, addressing_mode: AddressingMode::Accumulator }),
        0x46 => Some(Opcode { code: 0x46, instruction: Instruction::LSR, bytes: 2, cycles: 5, addressing_mode: AddressingMode::ZeroPage }),
        0x56 => Some(Opcode { code: 0x56, instruction: Instruction::LSR, bytes: 2, cycles: 6, addressing_mode: AddressingMode::ZeroPageX }),
        0x4e => Some(Opcode { code: 0x4e, instruction: Instruction::LSR, bytes: 3, cycles: 6, addressing_mode: AddressingMode::Absolute }),
        0x5e => Some(Opcode { code: 0x5e, instruction: Instruction::LSR, bytes: 3, cycles: 7, addressing_mode: AddressingMode::AbsoluteX }),
        0xea => Some(Opcode { code: 0xea, instruction: Instruction::NOP, bytes: 1, cycles: 2, addressing_mode: AddressingMode::NoneAddressing }),
        0x09 => Some(Opcode { code: 0x09, instruction: Instruction::ORA, bytes: 2, cycles: 2, addressing_mode: AddressingMode::Immediate }),
        0x05 => Some(Opcode { code: 0x05, instruction: Instruction::ORA, bytes: 2, cycles: 3, addressing_mode: AddressingMode::ZeroPage }),
        0x15 => Some(Opcode { code: 0x15, instruction: Instruction::ORA, bytes: 2, cycles: 4, addressing_mode: AddressingMode::ZeroPageX }),
        0x0d => Some(Opcode { code: 0x0d, instruction: Instruction::ORA, bytes: 3, cycles: 4, addressing_mode: AddressingMode::Absolute }),
        0x1d => Some(Opcode { code: 0x1d, instruction: Instruction::ORA, bytes: 3, cycles: 4, addressing_mode: AddressingMode::AbsoluteX }),
        0x19 => Some(Opcode { code: 0x19, instruction: Instruction::ORA, bytes: 3, cycles: 4, addressing_mode: AddressingMode::AbsoluteY }),
        0x01 => Some(Opcode { code: 0x01, instruction: Instruction::ORA, bytes: 2, cycles: 6, addressing_mode: AddressingMode::IndirectX }),
        0x11 => Some(Opcode { code: 0x11, instruction: Instruction::ORA, bytes: 2, cycles: 5, addressing_mode: AddressingMode::IndirectY }),
        0x48 => Some(Opcode { code: 0x48, instruction: Instruction::PHA, bytes: 1, cycles: 3, addressing_mode: AddressingMode::NoneAddressing }),
        0x08 => Some(Opcode { code: 0x08, instruction: Instruction::PHP, bytes: 1, cycles: 3, addressing_mode: AddressingMode::NoneAddressing }),
        0x68 => Some(Opcode { code: 0x68, instruction: Instruction::PLA, bytes: 1, cycles: 4, addressing_mode: AddressingMode::NoneAddressing }),
        0x28 => Some(Opcode { code: 0x28, instruction: Instruction::PLP, bytes: 1, cycles: 4, addressing_mode: AddressingMode::NoneAddressing }),
        0x2a => Some(Opcode { code: 0x2a, instruction: Instruction::ROL, bytes: 1, cycles: 2, addressing_mode: AddressingMode::Accumulator }),
        0x26 => Some(Opcode { code: 0x26, instruction: Instruction::ROL, bytes: 2, cycles: 5, addressing_mode: AddressingMode::ZeroPage }),
        0x36 => Some(Opcode { code: 0x36, instruction: Instruction::ROL, bytes: 2, cycles: 6, addressing_mode: AddressingMode::ZeroPageX }),
        0x2e => Some(Opcode { code: 0x2e, instruction: Instruction::ROL, bytes: 3, cycles: 6, addressing_mode: AddressingMode::Absolute }),
        0x3e => Some(Opcode { code: 0x3e, instruction: Instruction::ROL, bytes: 3, cycles: 7, addressing_mode: AddressingMode::AbsoluteX }),
        0x6a => Some(Opcode { code: 0x6a, instruction: Instruction::ROR, bytes: 1, cycles: 2, addressing_mode: AddressingMode::Accumulator }),
        0x66 => Some(Opcode { code: 0x66, instruction: Instruction::ROR, bytes: 2, cycles: 5, addressing_mode: AddressingMode::ZeroPage }),
        0x76 => Some(Opcode { code: 0x76, instruction: Instruction::ROR, bytes: 2, cycles: 6, addressing_mode: AddressingMode::ZeroPageX }),
        0x6e => Some(Opcode { code: 0x6e, instruction: Instruction::ROR, bytes: 3, cycles: 6, addressing_mode: AddressingMode::Absolute }),
        0x7e => Some(Opcode { code: 0x7e, instruction: Instruction::ROR, bytes: 3, cycles: 7, addressing_mode: AddressingMode::AbsoluteX }),
        0x40 => Some(Opcode { code: 0x40, instruction: Instruction::RTI, bytes: 1, cycles: 6, addressing_mode: AddressingMode::NoneAddressing }),
        0x60 => Some(Opcode { code: 0x60, instruction: Instruction::RTS, bytes: 1, cycles: 6, addressing_mode: AddressingMode::NoneAddressing }),
        0xe9 => Some(Opcode { code: 0xe9, instruction: Instruction::SBC, bytes: 2, cycles: 2, addressing_mode: AddressingMode::Immediate }),
        0xe5 => Some(Opcode { code: 0xe5, instruction: Instruction::SBC, bytes: 2, cycles: 3, addressing_mode: AddressingMode::ZeroPage }),
        0xf5 => Some(Opcode { code: 0xf5, instruction: Instruction::SBC, bytes: 2, cycles: 4, addressing_mode: AddressingMode::ZeroPageX }),
        0xed => Some(Opcode { code: 0xed, instruction: Instruction::SBC, bytes: 3, cycles: 4, addressing_mode: AddressingMode::Absolute }),
        0xfd => Some(Opcode { code: 0xfd, instruction: Instruction::SBC, bytes: 3, cycles: 4, addressing_mode: AddressingMode::AbsoluteX }),
        0xf9 => Some(Opcode { code: 0xf9, instruction: Instruction::SBC, bytes: 3, cycles: 4, addressing_mode: AddressingMode::AbsoluteY }),
        0xe1 => Some(Opcode { code: 0xe1, instruction: Instruction::SBC, bytes: 2, cycles: 6, addressing_mode: AddressingMode::IndirectX }),
        0xf1 => Some(Opcode { code: 0xf1, instruction: Instruction::SBC, bytes: 2, cycles: 5, addressing_mode: AddressingMode::IndirectY }),
        0x38 => Some(Opcode { code: 0x38, instruction: Instruction::SEC, bytes: 1, cycles: 2, addressing_mode: AddressingMode::NoneAddressing }),
        0xf8 => Some(Opcode { code: 0xf8, instruction: Instruction::SED, bytes: 1, cycles: 2, addressing_mode: AddressingMode::NoneAddressing }),
        0x78 => Some(Opcode { code: 0x78, instruction: Instruction::SEI, bytes: 1, cycles: 2, addressing_mode: AddressingMode::NoneAddressing }),
        0x85 => Some(Opcode { code: 0x85, instruction: Instruction::STA, bytes: 2, cycles: 3, addressing_mode: AddressingMode::ZeroPage }),
        0x95 => Some(Opcode { code: 0x95, instruction: Instruction::STA, bytes: 2, cycles: 4, addressing_mode: AddressingMode::ZeroPageX }),
        0x8d => Some(Opcode { code: 0x8d, instruction: Instruction::STA, bytes: 3, cycles: 4, addressing_mode: AddressingMode::Absolute }),
        0x9d => Some(Opcode { code: 0x9d, instruction: Instruction::STA, bytes: 3, cycles: 5, addressing_mode: AddressingMode::AbsoluteX }),
        0x99 => Some(Opcode { code: 0x99, instruction: Instruction::STA, bytes: 3, cycles: 5, addressing_mode: AddressingMode::AbsoluteY }),
        0x81 => Some(Opcode { code: 0x81, instruction: Instruction::STA, bytes: 2, cycles: 6, addressing_mode: AddressingMode::IndirectX }),
        0x91 => Some(Opcode { code: 0x91, instruction: Instruction::STA, bytes: 2, cycles: 6, addressing_mode: AddressingMode::IndirectY }),
        0x86 => Some(Opcode { code: 0x86, instruction: Instruction::STX, bytes: 2, cycles: 3, addressing_mode: AddressingMode::ZeroPage }),
        0x96 => Some(Opcode { code: 0x96, instruction: Instruction::STX, bytes: 2, cycles: 4, addressing_mode: AddressingMode::ZeroPageY }),
        0x8e => Some(Opcode { code: 0x8e, instruction: Instruction::STX, bytes: 3, cycles: 4, addressing_mode: AddressingMode::Absolute }),
        0x84 => Some(Opcode { code: 0x84, instruction: Instruction::STY, bytes: 2, cycles: 3, addressing_mode: AddressingMode::ZeroPage }),
        0x94 => Some(Opcode { code: 0x94, instruction: Instruction::STY, bytes: 2, cycles: 4, addressing_mode: AddressingMode::ZeroPageX }),
        0x8c => Some(Opcode { code: 0x8c, instruction: Instruction::STY, bytes: 3, cycles: 4, addressing_mode: AddressingMode::Absolute }),
        0xaa => Some(Opcode { code: 0xaa, instruction: Instruction::TAX, bytes: 1, cycles: 2, addressing_mode: AddressingMode::NoneAddressing }),
        0xa8 => Some(Opcode { code: 0xa8, instruction: Instruction::TAY, bytes: 1, cycles: 2, addressing_mode: AddressingMode::NoneAddressing }),
        0xba => Some(Opcode { code: 0xba, instruction: Instruction::TSX, bytes: 1, cycles: 2, addressing_mode: AddressingMode::NoneAddressing }),
        0x8a => Some(Opcode { code: 0x8a, instruction: Instruction::TXA, bytes: 1, cycles: 2, addressing_mode: AddressingMode::NoneAddressing }),
        0x9a => Some(Opcode { code: 0x9a, instruction: Instruction::TXS, bytes: 1, cycles: 2, addressing_mode: AddressingMode::NoneAddressing }),
        0x98 => Some(Opcode { code: 0x98, instruction: Instruction::TYA, bytes: 1, cycles: 2, addressing_mode: AddressingMode::NoneAddressing }),
        0x4b => Some(Opcode { code: 0x4b, instruction: Instruction::ALR, bytes: 2, cycles: 2, addressing_mode: AddressingMode::Immediate }),
        0x0b => Some(Opcode { code: 0x0b, instruction: Instruction::ANC, bytes: 2, cycles: 2, addressing_mode: AddressingMode::Immediate }),
        0x2b => Some(Opcode { code: 0x2b, instruction: Instruction::ANC, bytes: 2, cycles: 2, addressing_mode: AddressingMode::Immediate }),
        0x6b => Some(Opcode { code: 0x6b, instruction: Instruction::ARR, bytes: 2, cycles: 2, addressing_mode: AddressingMode::Immediate }),
        0xcb => Some(Opcode { code: 0xcb, instruction: Instruction::AXS, bytes: 2, cycles: 2, addressing_mode: AddressingMode::Immediate }),
        0xa7 => Some(Opcode { code: 0xa7, instruction: Instruction::LAX, bytes: 2, cycles: 3, addressing_mode: AddressingMode::ZeroPage }),
        0xb7 => Some(Opcode { code: 0xb7, instruction: Instruction::LAX, bytes: 2, cycles: 4, addressing_mode: AddressingMode::ZeroPageY }),
        0xaf => Some(Opcode { code: 0xaf, instruction: Instruction::LAX, bytes: 3, cycles: 4, addressing_mode: AddressingMode::Absolute }),
        0xbf => Some(Opcode { code: 0xbf, instruction: Instruction::LAX, bytes: 3, cycles: 4, addressing_mode: AddressingMode::AbsoluteY }),
        0xa3 => Some(Opcode { code: 0xa3, instruction: Instruction::LAX, bytes: 2, cycles: 6, addressing_mode: AddressingMode::IndirectX }),
        0xb3 => Some(Opcode { code: 0xb3, instruction: Instruction::LAX, bytes: 2, cycles: 5, addressing_mode: AddressingMode::IndirectY }),
        0x87 => Some(Opcode { code: 0x87, instruction: Instruction::SAX, bytes: 2, cycles: 3, addressing_mode: AddressingMode::ZeroPage }),
        0x97 => Some(Opcode { code: 0x97, instruction: Instruction::SAX, bytes: 2, cycles: 4, addressing_mode: AddressingMode::ZeroPageY }),
        0x8f => Some(Opcode { code: 0x8f, instruction: Instruction::SAX, bytes: 3, cycles: 4, addressing_mode: AddressingMode::Absolute }),
        0x83 => Some(Opcode { code: 0x83, instruction: Instruction::SAX, bytes: 2, cycles: 6, addressing_mode: AddressingMode::IndirectX }),
        0xc7 => Some(Opcode { code: 0xc7, instruction: Instruction::DCP, bytes: 2, cycles: 5, addressing_mode: AddressingMode::ZeroPage }),
        0xd7 => Some(Opcode { code: 0xd7, instruction: Instruction::DCP, bytes: 2, cycles: 6, addressing_mode: AddressingMode::ZeroPageX }),
        0xcf => Some(Opcode { code: 0xcf, instruction: Instruction::DCP, bytes: 3, cycles: 6, addressing_mode: AddressingMode::Absolute }),
        0xdf => Some(Opcode { code: 0xdf, instruction: Instruction::DCP, bytes: 3, cycles: 7, addressing_mode: AddressingMode::AbsoluteX }),
        0xdb => Some(Opcode { code: 0xdb, instruction: Instruction::DCP, bytes: 3, cycles: 7, addressing_mode: AddressingMode::AbsoluteY }),
        0xc3 => Some(Opcode { code: 0xc3, instruction: Instruction::DCP, bytes: 2, cycles: 8, addressing_mode: AddressingMode::IndirectX }),
        0xd3 => Some(Opcode { code: 0xd3, instruction: Instruction::DCP, bytes: 2, cycles: 8, addressing_mode: AddressingMode::IndirectY }),
        0xe7 => Some(Opcode { code: 0xe7, instruction: Instruction::ISC, bytes: 2, cycles: 5, addressing_mode: AddressingMode::ZeroPage }),
        0xf7 => Some(Opcode { code: 0xf7, instruction: Instruction::ISC, bytes: 2, cycles: 6, addressing_mode: AddressingMode::ZeroPageX }),
        0xef => Some(Opcode { code: 0xef, instruction: Instruction::ISC, bytes: 3, cycles: 6, addressing_mode: AddressingMode::Absolute }),
        0xff => Some(Opcode { code: 0xff, instruction: Instruction::ISC, bytes: 3, cycles: 7, addressing_mode: AddressingMode::AbsoluteX }),
        0xfb => Some(Opcode { code: 0xfb, instruction: Instruction::ISC, bytes: 3, cycles: 7, addressing_mode: AddressingMode::AbsoluteY }),
        0xe3 => Some(Opcode { code: 0xe3, instruction: Instruction::ISC, bytes: 2, cycles: 8, addressing_mode: AddressingMode::IndirectX }),
        0xf3 => Some(Opcode { code: 0xf3, instruction: Instruction::ISC, bytes: 2, cycles: 8, addressing_mode: AddressingMode::IndirectY }),
        0x27 => Some(Opcode { code: 0x27, instruction: Instruction::RLA, bytes: 2, cycles: 5, addressing_mode: AddressingMode::ZeroPage }),
        0x37 => Some(Opcode { code: 0x37, instruction: Instruction::RLA, bytes: 2, cycles: 6, addressing_mode: AddressingMode::ZeroPageX }),
        0x2f => Some(Opcode { code: 0x2f, instruction: Instruction::RLA, bytes: 3, cycles: 6, addressing_mode: AddressingMode::Absolute }),
        0x3f => Some(Opcode { code: 0x3f, instruction: Instruction::RLA, bytes: 3, cycles: 7, addressing_mode: AddressingMode::AbsoluteX }),
        0x3b => Some(Opcode { code: 0x3b, instruction: Instruction::RLA, bytes: 3, cycles: 7, addressing_mode: AddressingMode::AbsoluteY }),
        0x23 => Some(Opcode { code: 0x23, instruction: Instruction::RLA, bytes: 2, cycles: 8, addressing_mode: AddressingMode::IndirectX }),
        0x33 => Some(Opcode { code: 0x33, instruction: Instruction::RLA, bytes: 2, cycles: 8, addressing_mode: AddressingMode::IndirectY }),
        0x67 => Some(Opcode { code: 0x67, instruction: Instruction::RRA, bytes: 2, cycles: 5, addressing_mode: AddressingMode::ZeroPage }),
        0x77 => Some(Opcode { code: 0x77, instruction: Instruction::RRA, bytes: 2, cycles: 6, addressing_mode: AddressingMode::ZeroPageX }),
        0x6f => Some(Opcode { code: 0x6f, instruction: Instruction::RRA, bytes: 3, cycles: 6, addressing_mode: AddressingMode::Absolute }),
        0x7f => Some(Opcode { code: 0x7f, instruction: Instruction::RRA, bytes: 3, cycles: 7, addressing_mode: AddressingMode::AbsoluteX }),
        0x7b => Some(Opcode { code: 0x7b, instruction: Instruction::RRA, bytes: 3, cycles: 7, addressing_mode: AddressingMode::AbsoluteY }),
        0x63 => Some(Opcode { code: 0x63, instruction: Instruction::RRA, bytes: 2, cycles: 8, addressing_mode: AddressingMode::IndirectX }),
        0x73 => Some(Opcode { code: 0x73, instruction: Instruction::RRA, bytes: 2, cycles: 8, addressing_mode: AddressingMode::IndirectY }),
        0x07 => Some(Opcode { code: 0x07, instruction: Instruction::SLO, bytes: 2, cycles: 5, addressing_mode: AddressingMode::ZeroPage }),
        0x17 => Some(Opcode { code: 0x17, instruction: Instruction::SLO, bytes: 2, cycles: 6, addressing_mode: AddressingMode::ZeroPageX }),
        0x0f => Some(Opcode { code: 0x0f, instruction: Instruction::SLO, bytes: 3, cycles: 6, addressing_mode: AddressingMode::Absolute }),
        0x1f => Some(Opcode { code: 0x1f, instruction: Instruction::SLO, bytes: 3, cycles: 7, addressing_mode: AddressingMode::AbsoluteX }),
        0x1b => Some(Opcode { code: 0x1b, instruction: Instruction::SLO, bytes: 3, cycles: 7, addressing_mode: AddressingMode::AbsoluteY }),
        0x03 => Some(Opcode { code: 0x03, instruction: Instruction::SLO, bytes: 2, cycles: 8, addressing_mode: AddressingMode::IndirectX }),
        0x13 => Some(Opcode { code: 0x13, instruction: Instruction::SLO, bytes: 2, cycles: 8, addressing_mode: AddressingMode::IndirectY }),
        0x47 => Some(Opcode { code: 0x47, instruction: Instruction::SRE, bytes: 2, cycles: 5, addressing_mode: AddressingMode::ZeroPage }),
        0x57 => Some(Opcode { code: 0x57, instruction: Instruction::SRE, bytes: 2, cycles: 6, addressing_mode: AddressingMode::ZeroPageX }),
        0x4f => Some(Opcode { code: 0x4f, instruction: Instruction::SRE, bytes: 3, cycles: 6, addressing_mode: AddressingMode::Absolute }),
        0x5f => Some(Opcode { code: 0x5f, instruction: Instruction::SRE, bytes: 3, cycles: 7, addressing_mode: AddressingMode::AbsoluteX }),
        0x5b => Some(Opcode { code: 0x5b, instruction: Instruction::SRE, bytes: 3, cycles: 7, addressing_mode: AddressingMode::AbsoluteY }),
        0x43 => Some(Opcode { code: 0x43, instruction: Instruction::SRE, bytes: 2, cycles: 8, addressing_mode: AddressingMode::IndirectX }),
        0x53 => Some(Opcode { code: 0x53, instruction: Instruction::SRE, bytes: 2, cycles: 8, addressing_mode: AddressingMode::IndirectY }),
        0x80 => Some(Opcode { code: 0x80, instruction: Instruction::SKB, bytes: 2, cycles: 2, addressing_mode: AddressingMode::Immediate }),
        0x82 => Some(Opcode { code: 0x82, instruction: Instruction::SKB, bytes: 2, cycles: 2, addressing_mode: AddressingMode::Immediate }),
        0x89 => Some(Opcode { code: 0x89, instruction: Instruction::SKB, bytes: 2, cycles: 2, addressing_mode: AddressingMode::Immediate }),
        0xc2 => Some(Opcode { code: 0xc2, instruction: Instruction::SKB, bytes: 2, cycles: 2, addressing_mode: AddressingMode::Immediate }),
        0xe2 => Some(Opcode { code: 0xe2, instruction: Instruction::SKB, bytes: 2, cycles: 2, addressing_mode: AddressingMode::Immediate }),
        0x0c => Some(Opcode { code: 0x0c, instruction: Instruction::IGN, bytes: 3, cycles: 4, addressing_mode: AddressingMode::Absolute }),
        0x1c => Some(Opcode { code: 0x1c, instruction: Instruction::IGN, bytes: 3, cycles: 4, addressing_mode: AddressingMode::AbsoluteX }),
        0x3c => Some(Opcode { code: 0x3c, instruction: Instruction::IGN, bytes: 3, cycles: 4, addressing_mode: AddressingMode::AbsoluteX }),
        0x5c => Some(Opcode { code: 0x5c, instruction: Instruction::IGN, bytes: 3, cycles: 4, addressing_mode: AddressingMode::AbsoluteX }),
        0x7c => Some(Opcode { code: 0x7c, instruction: Instruction::IGN, bytes: 3, cycles: 4, addressing_mode: AddressingMode::AbsoluteX }),
        0xdc => Some(Opcode { code: 0xdc, instruction: Instruction::IGN, bytes: 3, cycles: 4, addressing_mode: AddressingMode::AbsoluteX }),
        0xfc => Some(Opcode { code: 0xfc, instruction: Instruction::IGN, bytes: 3, cycles: 4, addressing_mode: AddressingMode::AbsoluteX }),
        0x04 => Some(Opcode { code: 0x04, instruction: Instruction::IGN, bytes: 2, cycles: 3, addressing_mode: AddressingMode::ZeroPage }),
        0x44 => Some(Opcode { code: 0x44, instruction: Instruction::IGN, bytes: 2, cycles: 3, addressing_mode: AddressingMode::ZeroPage }),
        0x64 => Some(Opcode { code: 0x64, instruction: Instruction::IGN, bytes: 2, cycles: 3, addressing_mode: AddressingMode::ZeroPage }),
        0x14 => Some(Opcode { code: 0x14, instruction: Instruction::IGN, bytes: 2, cycles: 4, addressing_mode: AddressingMode::ZeroPageX }),
        0x34 => Some(Opcode { code: 0x34, instruction: Instruction::IGN, bytes: 2, cycles: 4, addressing_mode: AddressingMode::ZeroPageX }),
        0x54 => Some(Opcode { code: 0x54, instruction: Instruction::IGN, bytes: 2, cycles: 4, addressing_mode: AddressingMode::ZeroPageX }),
        0x74 => Some(Opcode { code: 0x74, instruction: Instruction::IGN, bytes: 2, cycles: 4, addressing_mode: AddressingMode::ZeroPageX }),
        0xd4 => Some(Opcode { code: 0xd4, instruction: Instruction::IGN, bytes: 2, cycles: 4, addressing_mode: AddressingMode::ZeroPageX }),
        0xf4 => Some(Opcode { code: 0xf4, instruction: Instruction::IGN, bytes: 2, cycles: 4, addressing_mode: AddressingMode::ZeroPageX }),
        _ => None,
    }
}

/// Looks an opcode byte up in the table.
#[verifier::rlimit(50)]
pub fn decode(code: u8) -> (r: Option<Opcode>)
    ensures
        r == opcode_of(code),
{
    match code {
        0x69 => Some(Opcode { code: 0x69, instruction: Instruction::ADC, bytes: 2, cycles: 2, addressing_mode: AddressingMode::Immediate }),
        0x65 => Some(Opcode { code: 0x65, instruction: Instruction::ADC, bytes: 2, cycles: 3, addressing_mode: AddressingMode::ZeroPage }),
        0x75 => Some(Opcode { code: 0x75, instruction: Instruction::ADC, bytes: 2, cycles: 4, addressing_mode: AddressingMode::ZeroPageX }),
        0x6d => Some(Opcode { code: 0x6d, instruction: Instruction::ADC, bytes: 3, cycles: 4, addressing_mode: AddressingMode::Absolute }),
        0x7d => Some(Opcode { code: 0x7d, instruction: Instruction::ADC, bytes: 3, cycles: 4, addressing_mode: AddressingMode::AbsoluteX }),
        0x79 => Some(Opcode { code: 0x79, instruction: Instruction::ADC, bytes: 3, cycles: 4, addressing_mode: AddressingMode::AbsoluteY }),
        0x61 => Some(Opcode { code: 0x61, instruction: Instruction::ADC, bytes: 2, cycles: 6, addressing_mode: AddressingMode::IndirectX }),
        0x71 => Some(Opcode { code: 0x71, instruction: Instruction::ADC, bytes: 2, cycles: 5, addressing_mode: AddressingMode::IndirectY }),
        0x29 => Some(Opcode { code: 0x29, instruction: Instruction::AND, bytes: 2, cycles: 2, addressing_mode: AddressingMode::Immediate }),
        0x25 => Some(Opcode { code: 0x25, instruction: Instruction::AND, bytes: 2, cycles: 3, addressing_mode: AddressingMode::ZeroPage }),
        0x35 => Some(Opcode { code: 0x35, instruction: Instruction::AND, bytes: 2, cycles: 4, addressing_mode: AddressingMode::ZeroPageX }),
        0x2d => Some(Opcode { code: 0x2d, instruction: Instruction::AND, bytes: 3, cycles: 4, addressing_mode: AddressingMode::Absolute }),
        0x3d => Some(Opcode { code: 0x3d, instruction: Instruction::AND, bytes: 3, cycles: 4, addressing_mode: AddressingMode::AbsoluteX }),
        0x39 => Some(Opcode { code: 0x39, instruction: Instruction::AND, bytes: 3, cycles: 4, addressing_mode: AddressingMode::AbsoluteY }),
        0x21 => Some(Opcode { code: 0x21, instruction: Instruction::AND, bytes: 2, cycles: 6, addressing_mode: AddressingMode::IndirectX }),
        0x31 => Some(Opcode { code: 0x31, instruction: Instruction::AND, bytes: 2, cycles: 5, addressing_mode: AddressingMode::IndirectY }),
        0x0a => Some(Opcode { code: 0x0a, instruction: Instruction::ASL, bytes: 1, cycles: 2, addressing_mode: AddressingMode::Accumulator }),
        0x06 => Some(Opcode { code: 0x06, instruction: Instruction::ASL, bytes: 2, cycles: 5, addressing_mode: AddressingMode::ZeroPage }),
        0x16 => Some(Opcode { code: 0x16, instruction: Instruction::ASL, bytes: 2, cycles: 6, addressing_mode: AddressingMode::ZeroPageX }),
        0x0e => Some(Opcode { code: 0x0e, instruction: Instruction::ASL, bytes: 3, cycles: 6, addressing_mode: AddressingMode::Absolute }),
        0x1e => Some(Opcode { code: 0x1e, instruction: Instruction::ASL, bytes: 3, cycles: 7, addressing_mode: AddressingMode::AbsoluteX }),
        0x90 => Some(Opcode { code: 0x90, instruction: Instruction::BCC, bytes: 2, cycles: 2, addressing_mode: AddressingMode::Relative }),
        0xb0 => Some(Opcode { code: 0xb0, instruction: Instruction::BCS, bytes: 2, cycles: 2, addressing_mode: AddressingMode::Relative }),
        0xf0 => Some(Opcode { code: 0xf0, instruction: Instruction::BEQ, bytes: 2, cycles: 2, addressing_mode: AddressingMode::Relative }),
        0x24 => Some(Opcode { code: 0x24, instruction: Instruction::BIT, bytes: 2, cycles: 3, addressing_mode: AddressingMode::ZeroPage }),
        0x2c => Some(Opcode { code: 0x2c, instruction: Instruction::BIT, bytes: 3, cycles: 4, addressing_mode: AddressingMode::Absolute }),
        0x30 => Some(Opcode { code: 0x30, instruction: Instruction::BMI, bytes: 2, cycles: 2, addressing_mode: AddressingMode::Relative }),
        0xd0 => Some(Opcode { code: 0xd0, instruction: Instruction::BNE, bytes: 2, cycles: 2, addressing_mode: AddressingMode::Relative }),
        0x10 => Some(Opcode { code: 0x10, instruction: Instruction::BPL, bytes: 2, cycles: 2, addressing_mode: AddressingMode::Relative }),
        0x00 => Some(Opcode { code: 0x00, instruction: Instruction::BRK, bytes: 1, cycles: 7, addressing_mode: AddressingMode::NoneAddressing }),
        0x50 => Some(Opcode { code: 0x50, instruction: Instruction::BVC, bytes: 2, cycles: 2, addressing_mode: AddressingMode::Relative }),
        0x70 => Some(Opcode { code: 0x70, instruction: Instruction::BVS, bytes: 2, cycles: 2, addressing_mode: AddressingMode::Relative }),
        0x18 => Some(Opcode { code: 0x18, instruction: Instruction::CLC, bytes: 1, cycles: 2, addressing_mode: AddressingMode::NoneAddressing }),
        0xd8 => Some(Opcode { code: 0xd8, instruction: Instruction::CLD, bytes: 1, cycles: 2, addressing_mode: AddressingMode::NoneAddressing }),
        0x58 => Some(Opcode { code: 0x58, instruction: Instruction::CLI, bytes: 1, cycles: 2, addressing_mode: AddressingMode::NoneAddressing }),
        0xb8 => Some(Opcode { code: 0xb8, instruction: Instruction::CLV, bytes: 1, cycles: 2, addressing_mode: AddressingMode::NoneAddressing }),
        0xc9 => Some(Opcode { code: 0xc9, instruction: Instruction::CMP, bytes: 2, cycles: 2, addressing_mode: AddressingMode::Immediate }),
        0xc5 => Some(Opcode { code: 0xc5, instruction: Instruction::CMP, bytes: 2, cycles: 3, addressing_mode: AddressingMode::ZeroPage }),
        0xd5 => Some(Opcode { code: 0xd5, instruction: Instruction::CMP, bytes: 2, cycles: 4, addressing_mode: AddressingMode::ZeroPageX }),
        0xcd => Some(Opcode { code: 0xcd, instruction: Instruction::CMP, bytes: 3, cycles: 4, addressing_mode: AddressingMode::Absolute }),
        0xdd => Some(Opcode { code: 0xdd, instruction: Instruction::CMP, bytes: 3, cycles: 4, addressing_mode: AddressingMode::AbsoluteX }),
        0xd9 => Some(Opcode { code: 0xd9, instruction: Instruction::CMP, bytes: 3, cycles: 4, addressing_mode: AddressingMode::AbsoluteY }),
        0xc1 => Some(Opcode { code: 0xc1, instruction: Instruction::CMP, bytes: 2, cycles: 6, addressing_mode: AddressingMode::IndirectX }),
        0xd1 => Some(Opcode { code: 0xd1, instruction: Instruction::CMP, bytes: 2, cycles: 5, addressing_mode: AddressingMode::IndirectY }),
        0xe0 => Some(Opcode { code: 0xe0, instruction: Instruction::CPX, bytes: 2, cycles: 2, addressing_mode: AddressingMode::Immediate }),
        0xe4 => Some(Opcode { code: 0xe4, instruction: Instruction::CPX, bytes: 2, cycles: 3, addressing_mode: AddressingMode::ZeroPage }),
        0xec => Some(Opcode { code: 0xec, instruction: Instruction::CPX, bytes: 3, cycles: 4, addressing_mode: AddressingMode::Absolute }),
        0xc0 => Some(Opcode { code: 0xc0, instruction: Instruction::CPY, bytes: 2, cycles: 2, addressing_mode: AddressingMode::Immediate }),
        0xc4 => Some(Opcode { code: 0xc4, instruction: Instruction::CPY, bytes: 2, cycles: 3, addressing_mode: AddressingMode::ZeroPage }),
        0xcc => Some(Opcode { code: 0xcc, instruction: Instruction::CPY, bytes: 3, cycles: 4, addressing_mode: AddressingMode::Absolute }),
        0xc6 => Some(Opcode { code: 0xc6, instruction: Instruction::DEC, bytes: 2, cycles: 5, addressing_mode: AddressingMode::ZeroPage }),
        0xd6 => Some(Opcode { code: 0xd6, instruction: Instruction::DEC, bytes: 2, cycles: 6, addressing_mode: AddressingMode::ZeroPageX }),
        0xce => Some(Opcode { code: 0xce, instruction: Instruction::DEC, bytes: 3, cycles: 6, addressing_mode: AddressingMode::Absolute }),
        0xde => Some(Opcode { code: 0xde, instruction: Instruction::DEC, bytes: 3, cycles: 7, addressing_mode: AddressingMode::AbsoluteX }),
        0xca => Some(Opcode { code: 0xca, instruction: Instruction::DEX, bytes: 1, cycles: 2, addressing_mode: AddressingMode::NoneAddressing }),
        0x88 => Some(Opcode { code: 0x88, instruction: Instruction::DEY, bytes: 1, cycles: 2, addressing_mode: AddressingMode::NoneAddressing }),
        0x49 => Some(Opcode { code: 0x49, instruction: Instruction::EOR, bytes: 2, cycles: 2, addressing_mode: AddressingMode::Immediate }),
        0x45 => Some(Opcode { code: 0x45, instruction: Instruction::EOR, bytes: 2, cycles: 3, addressing_mode: AddressingMode::ZeroPage }),
        0x55 => Some(Opcode { code: 0x55, instruction: Instruction::EOR, bytes: 2, cycles: 4, addressing_mode: AddressingMode::ZeroPageX }),
        0x4d => Some(Opcode { code: 0x4d, instruction: Instruction::EOR, bytes: 3, cycles: 4, addressing_mode: AddressingMode::Absolute }),
        0x5d => Some(Opcode { code: 0x5d, instruction: Instruction::EOR, bytes: 3, cycles: 4, addressing_mode: AddressingMode::AbsoluteX }),
        0x59 => Some(Opcode { code: 0x59, instruction: Instruction::EOR, bytes: 3, cycles: 4, addressing_mode: AddressingMode::AbsoluteY }),
        0x41 => Some(Opcode { code: 0x41, instruction: Instruction::EOR, bytes: 2, cycles: 6, addressing_mode: AddressingMode::IndirectX }),
        0x51 => Some(Opcode { code: 0x51, instruction: Instruction::EOR, bytes: 2, cycles: 5, addressing_mode: AddressingMode::IndirectY }),
        0xe6 => Some(Opcode { code: 0xe6, instruction: Instruction::INC, bytes: 2, cycles: 5, addressing_mode: AddressingMode::ZeroPage }),
        0xf6 => Some(Opcode { code: 0xf6, instruction: Instruction::INC, bytes: 2, cycles: 6, addressing_mode: AddressingMode::ZeroPageX }),
        0xee => Some(Opcode { code: 0xee, instruction: Instruction::INC, bytes: 3, cycles: 6, addressing_mode: AddressingMode::Absolute }),
        0xfe => Some(Opcode { code: 0xfe, instruction: Instruction::INC, bytes: 3, cycles: 7, addressing_mode: AddressingMode::AbsoluteX }),
        0xe8 => Some(Opcode { code: 0xe8, instruction: Instruction::INX, bytes: 1, cycles: 2, addressing_mode: AddressingMode::NoneAddressing }),
        0xc8 => Some(Opcode { code: 0xc8, instruction: Instruction::INY, bytes: 1, cycles: 2, addressing_mode: AddressingMode::NoneAddressing }),
        0x4c => Some(Opcode { code: 0x4c, instruction: Instruction::JMP, bytes: 3, cycles: 3, addressing_mode: AddressingMode::Absolute }),
        0x6c => Some(Opcode { code: 0x6c, instruction: Instruction::JMP, bytes: 3, cycles: 5, addressing_mode: AddressingMode::Indirect }),
        0x20 => Some(Opcode { code: 0x20, instruction: Instruction::JSR, bytes: 3, cycles: 6, addressing_mode: AddressingMode::Absolute }),
        0xa9 => Some(Opcode { code: 0xa9, instruction: Instruction::LDA, bytes: 2, cycles: 2, addressing_mode: AddressingMode::Immediate }),
        0xa5 => Some(Opcode { code: 0xa5, instruction: Instruction::LDA, bytes: 2, cycles: 3, addressing_mode: AddressingMode::ZeroPage }),
        0xb5 => Some(Opcode { code: 0xb5, instruction: Instruction::LDA, bytes: 2, cycles: 4, addressing_mode: AddressingMode::ZeroPageX }),
        0xad => Some(Opcode { code: 0xad, instruction: Instruction::LDA, bytes: 3, cycles: 4, addressing_mode: AddressingMode::Absolute }),
        0xbd => Some(Opcode { code: 0xbd, instruction: Instruction::LDA, bytes: 3, cycles: 4, addressing_mode: AddressingMode::AbsoluteX }),
        0xb9 => Some(Opcode { code: 0xb9, instruction: Instruction::LDA, bytes: 3, cycles: 4, addressing_mode: AddressingMode::AbsoluteY }),
        0xa1 => Some(Opcode { code: 0xa1, instruction: Instruction::LDA, bytes: 2, cycles: 6, addressing_mode: AddressingMode::IndirectX }),
        0xb1 => Some(Opcode { code: 0xb1, instruction: Instruction::LDA, bytes: 2, cycles: 5, addressing_mode: AddressingMode::IndirectY }),
        0xa2 => Some(Opcode { code: 0xa2, instruction: Instruction::LDX, bytes: 2, cycles: 2, addressing_mode: AddressingMode::Immediate }),
        0xa6 => Some(Opcode { code: 0xa6, instruction: Instruction::LDX, bytes: 2, cycles: 3, addressing_mode: AddressingMode::ZeroPage }),
        0xb6 => Some(Opcode { code: 0xb6, instruction: Instruction::LDX, bytes: 2, cycles: 4, addressing_mode: AddressingMode::ZeroPageY }),
        0xae => Some(Opcode { code: 0xae, instruction: Instruction::LDX, bytes: 3, cycles: 4, addressing_mode: AddressingMode::Absolute }),
        0xbe => Some(Opcode { code: 0xbe, instruction: Instruction::LDX, bytes: 3, cycles: 4, addressing_mode: AddressingMode::AbsoluteY }),
        0xa0 => Some(Opcode { code: 0xa0, instruction: Instruction::LDY, bytes: 2, cycles: 2, addressing_mode: AddressingMode::Immediate }),
        0xa4 => Some(Opcode { code: 0xa4, instruction: Instruction::LDY, bytes: 2, cycles: 3, addressing_mode: AddressingMode::ZeroPage }),
        0xb4 => Some(Opcode { code: 0xb4, instruction: Instruction::LDY, bytes: 2, cycles: 4, addressing_mode: AddressingMode::ZeroPageX }),
        0xac => Some(Opcode { code: 0xac, instruction: Instruction::LDY, bytes: 3, cycles: 4, addressing_mode: AddressingMode::Absolute }),
        0xbc => Some(Opcode { code: 0xbc, instruction: Instruction::LDY, bytes: 3, cycles: 4, addressing_mode: AddressingMode::AbsoluteX }),
        0x4a => Some(Opcode { code: 0x4a, instruction: Instruction::LSR, bytes: 1, cycles: 2, addressing_mode: AddressingMode::Accumulator }),
        0x46 => Some(Opcode { code: 0x46, instruction: Instruction::LSR, bytes: 2, cycles: 5, addressing_mode: AddressingMode::ZeroPage }),
        0x56 => Some(Opcode { code: 0x56, instruction: Instruction::LSR, bytes: 2, cycles: 6, addressing_mode: AddressingMode::ZeroPageX }),
        0x4e => Some(Opcode { code: 0x4e, instruction: Instruction::LSR, bytes: 3, cycles: 6, addressing_mode: AddressingMode::Absolute }),
        0x5e => Some(Opcode { code: 0x5e, instruction: Instruction::LSR, bytes: 3, cycles: 7, addressing_mode: AddressingMode::AbsoluteX }),
        0xea => Some(Opcode { code: 0xea, instruction: Instruction::NOP, bytes: 1, cycles: 2, addressing_mode: AddressingMode::NoneAddressing }),
        0x09 => Some(Opcode { code: 0x09, instruction: Instruction::ORA, bytes: 2, cycles: 2, addressing_mode: AddressingMode::Immediate }),
        0x05 => Some(Opcode { code: 0x05, instruction: Instruction::ORA, bytes: 2, cycles: 3, addressing_mode: AddressingMode::ZeroPage }),
        0x15 => Some(Opcode { code: 0x15, instruction: Instruction::ORA, bytes: 2, cycles: 4, addressing_mode: AddressingMode::ZeroPageX }),
        0x0d => Some(Opcode { code: 0x0d, instruction: Instruction::ORA, bytes: 3, cycles: 4, addressing_mode: AddressingMode::Absolute }),
        0x1d => Some(Opcode { code: 0x1d, instruction: Instruction::ORA, bytes: 3, cycles: 4, addressing_mode: AddressingMode::AbsoluteX }),
        0x19 => Some(Opcode { code: 0x19, instruction: Instruction::ORA, bytes: 3, cycles: 4, addressing_mode: AddressingMode::AbsoluteY }),
        0x01 => Some(Opcode { code: 0x01, instruction: Instruction::ORA, bytes: 2, cycles: 6, addressing_mode: AddressingMode::IndirectX }),
        0x11 => Some(Opcode { code: 0x11, instruction: Instruction::ORA, bytes: 2, cycles: 5, addressing_mode: AddressingMode::IndirectY }),
        0x48 => Some(Opcode { code: 0x48, instruction: Instruction::PHA, bytes: 1, cycles: 3, addressing_mode: AddressingMode::NoneAddressing }),
        0x08 => Some(Opcode { code: 0x08, instruction: Instruction::PHP, bytes: 1, cycles: 3, addressing_mode: AddressingMode::NoneAddressing }),
        0x68 => Some(Opcode { code: 0x68, instruction: Instruction::PLA, bytes: 1, cycles: 4, addressing_mode: AddressingMode::NoneAddressing }),
        0x28 => Some(Opcode { code: 0x28, instruction: Instruction::PLP, bytes: 1, cycles: 4, addressing_mode: AddressingMode::NoneAddressing }),
        0x2a => Some(Opcode { code: 0x2a, instruction: Instruction::ROL, bytes: 1, cycles: 2, addressing_mode: AddressingMode::Accumulator }),
        0x26 => Some(Opcode { code: 0x26, instruction: Instruction::ROL, bytes: 2, cycles: 5, addressing_mode: AddressingMode::ZeroPage }),
        0x36 => Some(Opcode { code: 0x36, instruction: Instruction::ROL, bytes: 2, cycles: 6, addressing_mode: AddressingMode::ZeroPageX }),
        0x2e => Some(Opcode { code: 0x2e, instruction: Instruction::ROL, bytes: 3, cycles: 6, addressing_mode: AddressingMode::Absolute }),
        0x3e => Some(Opcode { code: 0x3e, instruction: Instruction::ROL, bytes: 3, cycles: 7, addressing_mode: AddressingMode::AbsoluteX }),
        0x6a => Some(Opcode { code: 0x6a, instruction: Instruction::ROR, bytes: 1, cycles: 2, addressing_mode: AddressingMode::Accumulator }),
        0x66 => Some(Opcode { code: 0x66, instruction: Instruction::ROR, bytes: 2, cycles: 5, addressing_mode: AddressingMode::ZeroPage }),
        0x76 => Some(Opcode { code: 0x76, instruction: Instruction::ROR, bytes: 2, cycles: 6, addressing_mode: AddressingMode::ZeroPageX }),
        0x6e => Some(Opcode { code: 0x6e, instruction: Instruction::ROR, bytes: 3, cycles: 6, addressing_mode: AddressingMode::Absolute }),
        0x7e => Some(Opcode { code: 0x7e, instruction: Instruction::ROR, bytes: 3, cycles: 7, addressing_mode: AddressingMode::AbsoluteX }),
        0x40 => Some(Opcode { code: 0x40, instruction: Instruction::RTI, bytes: 1, cycles: 6, addressing_mode: AddressingMode::NoneAddressing }),
        0x60 => Some(Opcode { code: 0x60, instruction: Instruction::RTS, bytes: 1, cycles: 6, addressing_mode: AddressingMode::NoneAddressing }),
        0xe9 => Some(Opcode { code: 0xe9, instruction: Instruction::SBC, bytes: 2, cycles: 2, addressing_mode: AddressingMode::Immediate }),
        0xe5 => Some(Opcode { code: 0xe5, instruction: Instruction::SBC, bytes: 2, cycles: 3, addressing_mode: AddressingMode::ZeroPage }),
        0xf5 => Some(Opcode { code: 0xf5, instruction: Instruction::SBC, bytes: 2, cycles: 4, addressing_mode: AddressingMode::ZeroPageX }),
        0xed => Some(Opcode { code: 0xed, instruction: Instruction::SBC, bytes: 3, cycles: 4, addressing_mode: AddressingMode::Absolute }),
        0xfd => Some(Opcode { code: 0xfd, instruction: Instruction::SBC, bytes: 3, cycles: 4, addressing_mode: AddressingMode::AbsoluteX }),
        0xf9 => Some(Opcode { code: 0xf9, instruction: Instruction::SBC, bytes: 3, cycles: 4, addressing_mode: AddressingMode::AbsoluteY }),
        0xe1 => Some(Opcode { code: 0xe1, instruction: Instruction::SBC, bytes: 2, cycles: 6, addressing_mode: AddressingMode::IndirectX }),
        0xf1 => Some(Opcode { code: 0xf1, instruction: Instruction::SBC, bytes: 2, cycles: 5, addressing_mode: AddressingMode::IndirectY }),
        0x38 => Some(Opcode { code: 0x38, instruction: Instruction::SEC, bytes: 1, cycles: 2, addressing_mode: AddressingMode::NoneAddressing }),
        0xf8 => Some(Opcode { code: 0xf8, instruction: Instruction::SED, bytes: 1, cycles: 2, addressing_mode: AddressingMode::NoneAddressing }),
        0x78 => Some(Opcode { code: 0x78, instruction: Instruction::SEI, bytes: 1, cycles: 2, addressing_mode: AddressingMode::NoneAddressing }),
        0x85 => Some(Opcode { code: 0x85, instruction: Instruction::STA, bytes: 2, cycles: 3, addressing_mode: AddressingMode::ZeroPage }),
        0x95 => Some(Opcode { code: 0x95, instruction: Instruction::STA, bytes: 2, cycles: 4, addressing_mode: AddressingMode::ZeroPageX }),
        0x8d => Some(Opcode { code: 0x8d, instruction: Instruction::STA, bytes: 3, cycles: 4, addressing_mode: AddressingMode::Absolute }),
        0x9d => Some(Opcode { code: 0x9d, instruction: Instruction::STA, bytes: 3, cycles: 5, addressing_mode: AddressingMode::AbsoluteX }),
        0x99 => Some(Opcode { code: 0x99, instruction: Instruction::STA, bytes: 3, cycles: 5, addressing_mode: AddressingMode::AbsoluteY }),
        0x81 => Some(Opcode { code: 0x81, instruction: Instruction::STA, bytes: 2, cycles: 6, addressing_mode: AddressingMode::IndirectX }),
        0x91 => Some(Opcode { code: 0x91, instruction: Instruction::STA, bytes: 2, cycles: 6, addressing_mode: AddressingMode::IndirectY }),
        0x86 => Some(Opcode { code: 0x86, instruction: Instruction::STX, bytes: 2, cycles: 3, addressing_mode: AddressingMode::ZeroPage }),
        0x96 => Some(Opcode { code: 0x96, instruction: Instruction::STX, bytes: 2, cycles: 4, addressing_mode: AddressingMode::ZeroPageY }),
        0x8e => Some(Opcode { code: 0x8e, instruction: Instruction::STX, bytes: 3, cycles: 4, addressing_mode: AddressingMode::Absolute }),
        0x84 => Some(Opcode { code: 0x84, instruction: Instruction::STY, bytes: 2, cycles: 3, addressing_mode: AddressingMode::ZeroPage }),
        0x94 => Some(Opcode { code: 0x94, instruction: Instruction::STY, bytes: 2, cycles: 4, addressing_mode: AddressingMode::ZeroPageX }),
        0x8c => Some(Opcode { code: 0x8c, instruction: Instruction::STY, bytes: 3, cycles: 4, addressing_mode: AddressingMode::Absolute }),
        0xaa => Some(Opcode { code: 0xaa, instruction: Instruction::TAX, bytes: 1, cycles: 2, addressing_mode: AddressingMode::NoneAddressing }),
        0xa8 => Some(Opcode { code: 0xa8, instruction: Instruction::TAY, bytes: 1, cycles: 2, addressing_mode: AddressingMode::NoneAddressing }),
        0xba => Some(Opcode { code: 0xba, instruction: Instruction::TSX, bytes: 1, cycles: 2, addressing_mode: AddressingMode::NoneAddressing }),
        0x8a => Some(Opcode { code: 0x8a, instruction: Instruction::TXA, bytes: 1, cycles: 2, addressing_mode: AddressingMode::NoneAddressing }),
        0x9a => Some(Opcode { code: 0x9a, instruction: Instruction::TXS, bytes: 1, cycles: 2, addressing_mode: AddressingMode::NoneAddressing }),
        0x98 => Some(Opcode { code: 0x98, instruction: Instruction::TYA, bytes: 1, cycles: 2, addressing_mode: AddressingMode::NoneAddressing }),
        0x4b => Some(Opcode { code: 0x4b, instruction: Instruction::ALR, bytes: 2, cycles: 2, addressing_mode: AddressingMode::Immediate }),
        0x0b => Some(Opcode { code: 0x0b, instruction: Instruction::ANC, bytes: 2, cycles: 2, addressing_mode: AddressingMode::Immediate }),
        0x2b => Some(Opcode { code: 0x2b, instruction: Instruction::ANC, bytes: 2, cycles: 2, addressing_mode: AddressingMode::Immediate }),
        0x6b => Some(Opcode { code: 0x6b, instruction: Instruction::ARR, bytes: 2, cycles: 2, addressing_mode: AddressingMode::Immediate }),
        0xcb => Some(Opcode { code: 0xcb, instruction: Instruction::AXS, bytes: 2, cycles: 2, addressing_mode: AddressingMode::Immediate }),
        0xa7 => Some(Opcode { code: 0xa7, instruction: Instruction::LAX, bytes: 2, cycles: 3, addressing_mode: AddressingMode::ZeroPage }),
        0xb7 => Some(Opcode { code: 0xb7, instruction: Instruction::LAX, bytes: 2, cycles: 4, addressing_mode: AddressingMode::ZeroPageY }),
        0xaf => Some(Opcode { code: 0xaf, instruction: Instruction::LAX, bytes: 3, cycles: 4, addressing_mode: AddressingMode::Absolute }),
        0xbf => Some(Opcode { code: 0xbf, instruction: Instruction::LAX, bytes: 3, cycles: 4, addressing_mode: AddressingMode::AbsoluteY }),
        0xa3 => Some(Opcode { code: 0xa3, instruction: Instruction::LAX, bytes: 2, cycles: 6, addressing_mode: AddressingMode::IndirectX }),
        0xb3 => Some(Opcode { code: 0xb3, instruction: Instruction::LAX, bytes: 2, cycles: 5, addressing_mode: AddressingMode::IndirectY }),
        0x87 => Some(Opcode { code: 0x87, instruction: Instruction::SAX, bytes: 2, cycles: 3, addressing_mode: AddressingMode::ZeroPage }),
        0x97 => Some(Opcode { code: 0x97, instruction: Instruction::SAX, bytes: 2, cycles: 4, addressing_mode: AddressingMode::ZeroPageY }),
        0x8f => Some(Opcode { code: 0x8f, instruction: Instruction::SAX, bytes: 3, cycles: 4, addressing_mode: AddressingMode::Absolute }),
        0x83 => Some(Opcode { code: 0x83, instruction: Instruction::SAX, bytes: 2, cycles: 6, addressing_mode: AddressingMode::IndirectX }),
        0xc7 => Some(Opcode { code: 0xc7, instruction: Instruction::DCP, bytes: 2, cycles: 5, addressing_mode: AddressingMode::ZeroPage }),
        0xd7 => Some(Opcode { code: 0xd7, instruction: Instruction::DCP, bytes: 2, cycles: 6, addressing_mode: AddressingMode::ZeroPageX }),
        0xcf => Some(Opcode { code: 0xcf, instruction: Instruction::DCP, bytes: 3, cycles: 6, addressing_mode: AddressingMode::Absolute }),
        0xdf => Some(Opcode { code: 0xdf, instruction: Instruction::DCP, bytes: 3, cycles: 7, addressing_mode: AddressingMode::AbsoluteX }),
        0xdb => Some(Opcode { code: 0xdb, instruction: Instruction::DCP, bytes: 3, cycles: 7, addressing_mode: AddressingMode::AbsoluteY }),
        0xc3 => Some(Opcode { code: 0xc3, instruction: Instruction::DCP, bytes: 2, cycles: 8, addressing_mode: AddressingMode::IndirectX }),
        0xd3 => Some(Opcode { code: 0xd3, instruction: Instruction::DCP, bytes: 2, cycles: 8, addressing_mode: AddressingMode::IndirectY }),
        0xe7 => Some(Opcode { code: 0xe7, instruction: Instruction::ISC, bytes: 2, cycles: 5, addressing_mode: AddressingMode::ZeroPage }),
        0xf7 => Some(Opcode { code: 0xf7, instruction: Instruction::ISC, bytes: 2, cycles: 6, addressing_mode: AddressingMode::ZeroPageX }),
        0xef => Some(Opcode { code: 0xef, instruction: Instruction::ISC, bytes: 3, cycles: 6, addressing_mode: AddressingMode::Absolute }),
        0xff => Some(Opcode { code: 0xff, instruction: Instruction::ISC, bytes: 3, cycles: 7, addressing_mode: AddressingMode::AbsoluteX }),
        0xfb => Some(Opcode { code: 0xfb, instruction: Instruction::ISC, bytes: 3, cycles: 7, addressing_mode: AddressingMode::AbsoluteY }),
        0xe3 => Some(Opcode { code: 0xe3, instruction: Instruction::ISC, bytes: 2, cycles: 8, addressing_mode: AddressingMode::IndirectX }),
        0xf3 => Some(Opcode { code: 0xf3, instruction: Instruction::ISC, bytes: 2, cycles: 8, addressing_mode: AddressingMode::IndirectY }),
        0x27 => Some(Opcode { code: 0x27, instruction: Instruction::RLA, bytes: 2, cycles: 5, addressing_mode: AddressingMode::ZeroPage }),
        0x37 => Some(Opcode { code: 0x37, instruction: Instruction::RLA, bytes: 2, cycles: 6, addressing_mode: AddressingMode::ZeroPageX }),
        0x2f => Some(Opcode { code: 0x2f, instruction: Instruction::RLA, bytes: 3, cycles: 6, addressing_mode: AddressingMode::Absolute }),
        0x3f => Some(Opcode { code: 0x3f, instruction: Instruction::RLA, bytes: 3, cycles: 7, addressing_mode: AddressingMode::AbsoluteX }),
        0x3b => Some(Opcode { code: 0x3b, instruction: Instruction::RLA, bytes: 3, cycles: 7, addressing_mode: AddressingMode::AbsoluteY }),
        0x23 => Some(Opcode { code: 0x23, instruction: Instruction::RLA, bytes: 2, cycles: 8, addressing_mode: AddressingMode::IndirectX }),
        0x33 => Some(Opcode { code: 0x33, instruction: Instruction::RLA, bytes: 2, cycles: 8, addressing_mode: AddressingMode::IndirectY }),
        0x67 => Some(Opcode { code: 0x67, instruction: Instruction::RRA, bytes: 2, cycles: 5, addressing_mode: AddressingMode::ZeroPage }),
        0x77 => Some(Opcode { code: 0x77, instruction: Instruction::RRA, bytes: 2, cycles: 6, addressing_mode: AddressingMode::ZeroPageX }),
        0x6f => Some(Opcode { code: 0x6f, instruction: Instruction::RRA, bytes: 3, cycles: 6, addressing_mode: AddressingMode::Absolute }),
        0x7f => Some(Opcode { code: 0x7f, instruction: Instruction::RRA, bytes: 3, cycles: 7, addressing_mode: AddressingMode::AbsoluteX }),
        0x7b => Some(Opcode { code: 0x7b, instruction: Instruction::RRA, bytes: 3, cycles: 7, addressing_mode: AddressingMode::AbsoluteY }),
        0x63 => Some(Opcode { code: 0x63, instruction: Instruction::RRA, bytes: 2, cycles: 8, addressing_mode: AddressingMode::IndirectX }),
        0x73 => Some(Opcode { code: 0x73, instruction: Instruction::RRA, bytes: 2, cycles: 8, addressing_mode: AddressingMode::IndirectY }),
        0x07 => Some(Opcode { code: 0x07, instruction: Instruction::SLO, bytes: 2, cycles: 5, addressing_mode: AddressingMode::ZeroPage }),
        0x17 => Some(Opcode { code: 0x17, instruction: Instruction::SLO, bytes: 2, cycles: 6, addressing_mode: AddressingMode::ZeroPageX }),
        0x0f => Some(Opcode { code: 0x0f, instruction: Instruction::SLO, bytes: 3, cycles: 6, addressing_mode: AddressingMode::Absolute }),
        0x1f => Some(Opcode { code: 0x1f, instruction: Instruction::SLO, bytes: 3, cycles: 7, addressing_mode: AddressingMode::AbsoluteX }),
        0x1b => Some(Opcode { code: 0x1b, instruction: Instruction::SLO, bytes: 3, cycles: 7, addressing_mode: AddressingMode::AbsoluteY }),
        0x03 => Some(Opcode { code: 0x03, instruction: Instruction::SLO, bytes: 2, cycles: 8, addressing_mode: AddressingMode::IndirectX }),
        0x13 => Some(Opcode { code: 0x13, instruction: Instruction::SLO, bytes: 2, cycles: 8, addressing_mode: AddressingMode::IndirectY }),
        0x47 => Some(Opcode { code: 0x47, instruction: Instruction::SRE, bytes: 2, cycles: 5, addressing_mode: AddressingMode::ZeroPage }),
        0x57 => Some(Opcode { code: 0x57, instruction: Instruction::SRE, bytes: 2, cycles: 6, addressing_mode: AddressingMode::ZeroPageX }),
        0x4f => Some(Opcode { code: 0x4f, instruction: Instruction::SRE, bytes: 3, cycles: 6, addressing_mode: AddressingMode::Absolute }),
        0x5f => Some(Opcode { code: 0x5f, instruction: Instruction::SRE, bytes: 3, cycles: 7, addressing_mode: AddressingMode::AbsoluteX }),
        0x5b => Some(Opcode { code: 0x5b, instruction: Instruction::SRE, bytes: 3, cycles: 7, addressing_mode: AddressingMode::AbsoluteY }),
        0x43 => Some(Opcode { code: 0x43, instruction: Instruction::SRE, bytes: 2, cycles: 8, addressing_mode: AddressingMode::IndirectX }),
        0x53 => Some(Opcode { code: 0x53, instruction: Instruction::SRE, bytes: 2, cycles: 8, addressing_mode: AddressingMode::IndirectY }),
        0x80 => Some(Opcode { code: 0x80, instruction: Instruction::SKB, bytes: 2, cycles: 2, addressing_mode: AddressingMode::Immediate }),
        0x82 => Some(Opcode { code: 0x82, instruction: Instruction::SKB, bytes: 2, cycles: 2, addressing_mode: AddressingMode::Immediate }),
        0x89 => Some(Opcode { code: 0x89, instruction: Instruction::SKB, bytes: 2, cycles: 2, addressing_mode: AddressingMode::Immediate }),
        0xc2 => Some(Opcode { code: 0xc2, instruction: Instruction::SKB, bytes: 2, cycles: 2, addressing_mode: AddressingMode::Immediate }),
        0xe2 => Some(Opcode { code: 0xe2, instruction: Instruction::SKB, bytes: 2, cycles: 2, addressing_mode: AddressingMode::Immediate }),
        0x0c => Some(Opcode { code: 0x0c, instruction: Instruction::IGN, bytes: 3, cycles: 4, addressing_mode: AddressingMode::Absolute }),
        0x1c => Some(Opcode { code: 0x1c, instruction: Instruction::IGN, bytes: 3, cycles: 4, addressing_mode: AddressingMode::AbsoluteX }),
        0x3c => Some(Opcode { code: 0x3c, instruction: Instruction::IGN, bytes: 3, cycles: 4, addressing_mode: AddressingMode::AbsoluteX }),
        0x5c => Some(Opcode { code: 0x5c, instruction: Instruction::IGN, bytes: 3, cycles: 4, addressing_mode: AddressingMode::AbsoluteX }),
        0x7c => Some(Opcode { code: 0x7c, instruction: Instruction::IGN, bytes: 3, cycles: 4, addressing_mode: AddressingMode::AbsoluteX }),
        0xdc => Some(Opcode { code: 0xdc, instruction: Instruction::IGN, bytes: 3, cycles: 4, addressing_mode: AddressingMode::AbsoluteX }),
        0xfc => Some(Opcode { code: 0xfc, instruction: Instruction::IGN, bytes: 3, cycles: 4, addressing_mode: AddressingMode::AbsoluteX }),
        0x04 => Some(Opcode { code: 0x04, instruction: Instruction::IGN, bytes: 2, cycles: 3, addressing_mode: AddressingMode::ZeroPage }),
        0x44 => Some(Opcode { code: 0x44, instruction: Instruction::IGN, bytes: 2, cycles: 3, addressing_mode: AddressingMode::ZeroPage }),
        0x64 => Some(Opcode { code: 0x64, instruction: Instruction::IGN, bytes: 2, cycles: 3, addressing_mode: AddressingMode::ZeroPage }),
        0x14 => Some(Opcode { code: 0x14, instruction: Instruction::IGN, bytes: 2, cycles: 4, addressing_mode: AddressingMode::ZeroPageX }),
        0x34 => Some(Opcode { code: 0x34, instruction: Instruction::IGN, bytes: 2, cycles: 4, addressing_mode: AddressingMode::ZeroPageX }),
        0x54 => Some(Opcode { code: 0x54, instruction: Instruction::IGN, bytes: 2, cycles: 4, addressing_mode: AddressingMode::ZeroPageX }),
        0x74 => Some(Opcode { code: 0x74, instruction: Instruction::IGN, bytes: 2, cycles: 4, addressing_mode: AddressingMode::ZeroPageX }),
        0xd4 => Some(Opcode { code: 0xd4, instruction: Instruction::IGN, bytes: 2, cycles: 4, addressing_mode: AddressingMode::ZeroPageX }),
        0xf4 => Some(Opcode { code: 0xf4, instruction: Instruction::IGN, bytes: 2, cycles: 4, addressing_mode: AddressingMode::ZeroPageX }),
        _ => None,
    }
}

} // verus!
