use vstd::prelude::*;
use crate::addressing_modes::{AddressingMode, AddressingModeData, PageBoundaryResult};
use crate::bits::{bit_set, lemma_byte_bits};
use crate::controller::Controller;
use crate::memory::{Bus, CpuMemory, CpuMemoryModel};
use crate::ppu::Ppu;
use crate::processor_status::ProcessorStatus;
use crate::rom::NametableArrangement;
use crate::text::{decimal_text, hex_text, push_decimal, push_hex, push_signed_decimal, signed_decimal_text};
use vstd::string::StringExecFns;

verus! {

pub const NMI_ADDRESS: u16 = 0xFFFA;
pub const RESET_ADDRESS: u16 = 0xFFFC;

/// How an NMI state is written out.
pub open spec fn nmi_text(nmi: Nmi) -> Seq<char> {
    match nmi {
        Nmi::Idle => "None"@,
        Nmi::CycleLatency(n) => "CycleLatency("@ + decimal_text(n as nat) + ")"@,
        Nmi::Interrupt => "Interrupt"@,
    }
}

/// The one-line summary of the CPU's registers and counters.
pub open spec fn cpu_text(c: CpuModel) -> Seq<char> {
    "PC:0x"@ + hex_text(c.pc as nat, 4) + ", A:0x"@ + hex_text(c.a as nat, 2) + ", X:0x"@ + hex_text(
        c.x as nat,
        2,
    ) + ", Y:0x"@ + hex_text(c.y as nat, 2) + ", P:0x"@ + hex_text(c.status as nat, 2) + ", SP:0x"@
        + hex_text(c.sp as nat, 2) + ", CYC:"@ + decimal_text(c.cycle_count as nat) + ", cyc_budget:"@
        + signed_decimal_text(c.cycle_budget as int) + ", nmi:"@ + nmi_text(c.nmi)
}

/// The official 6502 instructions (unofficial NOPs decode to `NOP`).
#[derive(Debug, Clone, Copy, PartialEq, Eq, Structural)]
pub enum Opcode {
    ADC,
    AND,
    ASL,
    BCC,
    BCS,
    BEQ,
    BIT,
    BMI,
    BNE,
    BPL,
    BRK,
    BVC,
    BVS,
    CLC,
    CLD,
    CLI,
    CLV,
    CMP,
    CPX,
    CPY,
    DEC,
    DEX,
    DEY,
    EOR,
    INC,
    INX,
    INY,
    JMP,
    JSR,
    LDA,
    LDX,
    LDY,
    LSR,
    NOP,
    ORA,
    PHA,
    PHP,
    PLA,
    PLP,
    ROL,
    ROR,
    RTI,
    RTS,
    SBC,
    SEC,
    SED,
    SEI,
    STA,
    STX,
    STY,
    TAX,
    TAY,
    TSX,
    TXA,
    TXS,
    TYA,
}

/// The state of a pending non-maskable interrupt.
#[derive(Debug, Clone, Copy, PartialEq, Eq, Structural)]
pub enum Nmi {
    Idle,
    /// Cycles left before the interrupt is taken.
    CycleLatency(u8),
    Interrupt,
}

/// The base cycle count of an instruction: fixed, or one more when an
/// index crosses a page boundary.
#[derive(Debug, Clone, Copy, PartialEq, Eq, Structural)]
pub enum Cycles {
    Fixed(usize),
    PageCrossing(usize),
}

/// How an instruction fetches its operand bytes.
#[derive(Debug, Clone, Copy, PartialEq, Eq, Structural)]
pub enum OperandFetch {
    Implied,
    Immediate,
    ZeroPage,
    ZeroPageX,
    ZeroPageY,
    Absolute,
    AbsoluteX,
    AbsoluteY,
    IndirectZeroPageX,
    IndirectZeroPageY,
    Indirect,
    Relative,
}

/// The instruction table: for each opcode byte, the instruction, how its
/// operand is fetched and its base cycle count. Bytes not in the table are
/// not implemented.
pub open spec fn decode_opcode(opcode_byte: u8) -> Option<(Opcode, OperandFetch, Cycles)> {
    match opcode_byte {
        0x69 => Some((Opcode::ADC, OperandFetch::Immediate, Cycles::Fixed(2))),
        0x65 => Some((Opcode::ADC, OperandFetch::ZeroPage, Cycles::Fixed(3))),
        0x75 => Some((Opcode::ADC, OperandFetch::ZeroPageX, Cycles::Fixed(4))),
        0x6D => Some((Opcode::ADC, OperandFetch::Absolute, Cycles::Fixed(4))),
        0x7D => Some((Opcode::ADC, OperandFetch::AbsoluteX, Cycles::PageCrossing(4))),
        0x79 => Some((Opcode::ADC, OperandFetch::AbsoluteY, Cycles::PageCrossing(4))),
        0x61 => Some((Opcode::ADC, OperandFetch::IndirectZeroPageX, Cycles::Fixed(6))),
        0x71 => Some((Opcode::ADC, OperandFetch::IndirectZeroPageY, Cycles::PageCrossing(5))),
        0x29 => Some((Opcode::AND, OperandFetch::Immediate, Cycles::Fixed(2))),
        0x25 => Some((Opcode::AND, OperandFetch::ZeroPage, Cycles::Fixed(3))),
        0x35 => Some((Opcode::AND, OperandFetch::ZeroPageX, Cycles::Fixed(4))),
        0x2D => Some((Opcode::AND, OperandFetch::Absolute, Cycles::Fixed(4))),
        0x3D => Some((Opcode::AND, OperandFetch::AbsoluteX, Cycles::PageCrossing(4))),
        0x39 => Some((Opcode::AND, OperandFetch::AbsoluteY, Cycles::PageCrossing(4))),
        0x21 => Some((Opcode::AND, OperandFetch::IndirectZeroPageX, Cycles::Fixed(6))),
        0x31 => Some((Opcode::AND, OperandFetch::IndirectZeroPageY, Cycles::PageCrossing(5))),
        0x0A => Some((Opcode::ASL, OperandFetch::Implied, Cycles::Fixed(2))),
        0x06 => Some((Opcode::ASL, OperandFetch::ZeroPage, Cycles::Fixed(5))),
        0x16 => Some((Opcode::ASL, OperandFetch::ZeroPageX, Cycles::Fixed(6))),
        0x0E => Some((Opcode::ASL, OperandFetch::Absolute, Cycles::Fixed(6))),
        0x1E => Some((Opcode::ASL, OperandFetch::AbsoluteX, Cycles::Fixed(7))),
        0x90 => Some((Opcode::BCC, OperandFetch::Relative, Cycles::Fixed(2))),
        0xB0 => Some((Opcode::BCS, OperandFetch::Relative, Cycles::Fixed(2))),
        0xF0 => Some((Opcode::BEQ, OperandFetch::Relative, Cycles::Fixed(2))),
        0x24 => Some((Opcode::BIT, OperandFetch::ZeroPage, Cycles::Fixed(3))),
        0x2C => Some((Opcode::BIT, OperandFetch::Absolute, Cycles::Fixed(4))),
        0x30 => Some((Opcode::BMI, OperandFetch::Relative, Cycles::Fixed(2))),
        0xD0 => Some((Opcode::BNE, OperandFetch::Relative, Cycles::Fixed(2))),
        0x10 => Some((Opcode::BPL, OperandFetch::Relative, Cycles::Fixed(2))),
        0x00 => Some((Opcode::BRK, OperandFetch::Implied, Cycles::Fixed(7))),
        0x50 => Some((Opcode::BVC, OperandFetch::Relative, Cycles::Fixed(2))),
        0x70 => Some((Opcode::BVS, OperandFetch::Relative, Cycles::Fixed(2))),
        0x18 => Some((Opcode::CLC, OperandFetch::Implied, Cycles::Fixed(2))),
        0xD8 => Some((Opcode::CLD, OperandFetch::Implied, Cycles::Fixed(2))),
        0x58 => Some((Opcode::CLI, OperandFetch::Implied, Cycles::Fixed(2))),
        0xB8 => Some((Opcode::CLV, OperandFetch::Implied, Cycles::Fixed(2))),
        0xC9 => Some((Opcode::CMP, OperandFetch::Immediate, Cycles::Fixed(2))),
        0xC5 => Some((Opcode::CMP, OperandFetch::ZeroPage, Cycles::Fixed(3))),
        0xD5 => Some((Opcode::CMP, OperandFetch::ZeroPageX, Cycles::Fixed(4))),
        0xCD => Some((Opcode::CMP, OperandFetch::Absolute, Cycles::Fixed(4))),
        0xDD => Some((Opcode::CMP, OperandFetch::AbsoluteX, Cycles::PageCrossing(4))),
        0xD9 => Some((Opcode::CMP, OperandFetch::AbsoluteY, Cycles::PageCrossing(4))),
        0xC1 => Some((Opcode::CMP, OperandFetch::IndirectZeroPageX, Cycles::Fixed(6))),
        0xD1 => Some((Opcode::CMP, OperandFetch::IndirectZeroPageY, Cycles::PageCrossing(5))),
        0xE0 => Some((Opcode::CPX, OperandFetch::Immediate, Cycles::Fixed(2))),
        0xE4 => Some((Opcode::CPX, OperandFetch::ZeroPage, Cycles::Fixed(3))),
        0xEC => Some((Opcode::CPX, OperandFetch::Absolute, Cycles::Fixed(4))),
        0xC0 => Some((Opcode::CPY, OperandFetch::Immediate, Cycles::Fixed(2))),
        0xC4 => Some((Opcode::CPY, OperandFetch::ZeroPage, Cycles::Fixed(3))),
        0xCC => Some((Opcode::CPY, OperandFetch::Absolute, Cycles::Fixed(4))),
        0xC6 => Some((Opcode::DEC, OperandFetch::ZeroPage, Cycles::Fixed(5))),
        0xD6 => Some((Opcode::DEC, OperandFetch::ZeroPageX, Cycles::Fixed(6))),
        0xCE => Some((Opcode::DEC, OperandFetch::Absolute, Cycles::Fixed(6))),
        0xDE => Some((Opcode::DEC, OperandFetch::AbsoluteX, Cycles::Fixed(7))),
        0xCA => Some((Opcode::DEX, OperandFetch::Implied, Cycles::Fixed(2))),
        0x88 => Some((Opcode::DEY, OperandFetch::Implied, Cycles::Fixed(2))),
        0x49 => Some((Opcode::EOR, OperandFetch::Immediate, Cycles::Fixed(2))),
        0x45 => Some((Opcode::EOR, OperandFetch::ZeroPage, Cycles::Fixed(3))),
        0x55 => Some((Opcode::EOR, OperandFetch::ZeroPageX, Cycles::Fixed(4))),
        0x4D => Some((Opcode::EOR, OperandFetch::Absolute, Cycles::Fixed(4))),
        0x5D => Some((Opcode::EOR, OperandFetch::AbsoluteX, Cycles::PageCrossing(4))),
        0x59 => Some((Opcode::EOR, OperandFetch::AbsoluteY, Cycles::PageCrossing(4))),
        0x41 => Some((Opcode::EOR, OperandFetch::IndirectZeroPageX, Cycles::Fixed(6))),
        0x51 => Some((Opcode::EOR, OperandFetch::IndirectZeroPageY, Cycles::PageCrossing(5))),
        0xE6 => Some((Opcode::INC, OperandFetch::ZeroPage, Cycles::Fixed(5))),
        0xF6 => Some((Opcode::INC, OperandFetch::ZeroPageX, Cycles::Fixed(6))),
        0xEE => Some((Opcode::INC, OperandFetch::Absolute, Cycles::Fixed(6))),
        0xFE => Some((Opcode::INC, OperandFetch::AbsoluteX, Cycles::Fixed(7))),
        0xE8 => Some((Opcode::INX, OperandFetch::Implied, Cycles::Fixed(2))),
        0xC8 => Some((Opcode::INY, OperandFetch::Implied, Cycles::Fixed(2))),
        0x4C => Some((Opcode::JMP, OperandFetch::Absolute, Cycles::Fixed(3))),
        0x6C => Some((Opcode::JMP, OperandFetch::Indirect, Cycles::Fixed(5))),
        0x20 => Some((Opcode::JSR, OperandFetch::Absolute, Cycles::Fixed(6))),
        0xA9 => Some((Opcode::LDA, OperandFetch::Immediate, Cycles::Fixed(2))),
        0xA5 => Some((Opcode::LDA, OperandFetch::ZeroPage, Cycles::Fixed(3))),
        0xB5 => Some((Opcode::LDA, OperandFetch::ZeroPageX, Cycles::Fixed(4))),
        0xAD => Some((Opcode::LDA, OperandFetch::Absolute, Cycles::Fixed(4))),
        0xBD => Some((Opcode::LDA, OperandFetch::AbsoluteX, Cycles::PageCrossing(4))),
        0xB9 => Some((Opcode::LDA, OperandFetch::AbsoluteY, Cycles::PageCrossing(4))),
        0xA1 => Some((Opcode::LDA, OperandFetch::IndirectZeroPageX, Cycles::Fixed(6))),
        0xB1 => Some((Opcode::LDA, OperandFetch::IndirectZeroPageY, Cycles::PageCrossing(5))),
        0xA2 => Some((Opcode::LDX, OperandFetch::Immediate, Cycles::Fixed(2))),
        0xA6 => Some((Opcode::LDX, OperandFetch::ZeroPage, Cycles::Fixed(3))),
        0xB6 => Some((Opcode::LDX, OperandFetch::ZeroPageY, Cycles::Fixed(4))),
        0xAE => Some((Opcode::LDX, OperandFetch::Absolute, Cycles::Fixed(4))),
        0xBE => Some((Opcode::LDX, OperandFetch::AbsoluteY, Cycles::PageCrossing(4))),
        0xA0 => Some((Opcode::LDY, OperandFetch::Immediate, Cycles::Fixed(2))),
        0xA4 => Some((Opcode::LDY, OperandFetch::ZeroPage, Cycles::Fixed(3))),
        0xB4 => Some((Opcode::LDY, OperandFetch::ZeroPageX, Cycles::Fixed(4))),
        0xAC => Some((Opcode::LDY, OperandFetch::Absolute, Cycles::Fixed(4))),
        0xBC => Some((Opcode::LDY, OperandFetch::AbsoluteX, Cycles::PageCrossing(4))),
        0x4A => Some((Opcode::LSR, OperandFetch::Implied, Cycles::Fixed(2))),
        0x46 => Some((Opcode::LSR, OperandFetch::ZeroPage, Cycles::Fixed(5))),
        0x56 => Some((Opcode::LSR, OperandFetch::ZeroPageX, Cycles::Fixed(6))),
        0x4E => Some((Opcode::LSR, OperandFetch::Absolute, Cycles::Fixed(6))),
        0x5E => Some((Opcode::LSR, OperandFetch::AbsoluteX, Cycles::Fixed(7))),
        0xEA => Some((Opcode::NOP, OperandFetch::Implied, Cycles::Fixed(2))),
        0x1A => Some((Opcode::NOP, OperandFetch::Implied, Cycles::Fixed(2))),
        0x3A => Some((Opcode::NOP, OperandFetch::Implied, Cycles::Fixed(2))),
        0x5A => Some((Opcode::NOP, OperandFetch::Implied, Cycles::Fixed(2))),
        0x7A => Some((Opcode::NOP, OperandFetch::Implied, Cycles::Fixed(2))),
        0xDA => Some((Opcode::NOP, OperandFetch::Implied, Cycles::Fixed(2))),
        0xFA => Some((Opcode::NOP, OperandFetch::Implied, Cycles::Fixed(2))),
        0x80 => Some((Opcode::NOP, OperandFetch::Immediate, Cycles::Fixed(2))),
        0x82 => Some((Opcode::NOP, OperandFetch::Immediate, Cycles::Fixed(2))),
        0x89 => Some((Opcode::NOP, OperandFetch::Immediate, Cycles::Fixed(2))),
        0xC2 => Some((Opcode::NOP, OperandFetch::Immediate, Cycles::Fixed(2))),
        0xE2 => Some((Opcode::NOP, OperandFetch::Immediate, Cycles::Fixed(2))),
        0x04 => Some((Opcode::NOP, OperandFetch::ZeroPage, Cycles::Fixed(3))),
        0x44 => Some((Opcode::NOP, OperandFetch::ZeroPage, Cycles::Fixed(3))),
        0x64 => Some((Opcode::NOP, OperandFetch::ZeroPage, Cycles::Fixed(3))),
        0x14 => Some((Opcode::NOP, OperandFetch::ZeroPageX, Cycles::Fixed(4))),
        0x34 => Some((Opcode::NOP, OperandFetch::ZeroPageX, Cycles::Fixed(4))),
        0x54 => Some((Opcode::NOP, OperandFetch::ZeroPageX, Cycles::Fixed(4))),
        0x74 => Some((Opcode::NOP, OperandFetch::ZeroPageX, Cycles::Fixed(4))),
        0xD4 => Some((Opcode::NOP, OperandFetch::ZeroPageX, Cycles::Fixed(4))),
        0xF4 => Some((Opcode::NOP, OperandFetch::ZeroPageX, Cycles::Fixed(4))),
        0x0C => Some((Opcode::NOP, OperandFetch::Absolute, Cycles::Fixed(4))),
        0x1C => Some((Opcode::NOP, OperandFetch::AbsoluteX, Cycles::PageCrossing(4))),
        0x3C => Some((Opcode::NOP, OperandFetch::AbsoluteX, Cycles::PageCrossing(4))),
        0x5C => Some((Opcode::NOP, OperandFetch::AbsoluteX, Cycles::PageCrossing(4))),
        0x7C => Some((Opcode::NOP, OperandFetch::AbsoluteX, Cycles::PageCrossing(4))),
        0xDC => Some((Opcode::NOP, OperandFetch::AbsoluteX, Cycles::PageCrossing(4))),
        0xFC => Some((Opcode::NOP, OperandFetch::AbsoluteX, Cycles::PageCrossing(4))),
        0x09 => Some((Opcode::ORA, OperandFetch::Immediate, Cycles::Fixed(2))),
        0x05 => Some((Opcode::ORA, OperandFetch::ZeroPage, Cycles::Fixed(3))),
        0x15 => Some((Opcode::ORA, OperandFetch::ZeroPageX, Cycles::Fixed(4))),
        0x0D => Some((Opcode::ORA, OperandFetch::Absolute, Cycles::Fixed(4))),
        0x1D => Some((Opcode::ORA, OperandFetch::AbsoluteX, Cycles::PageCrossing(4))),
        0x19 => Some((Opcode::ORA, OperandFetch::AbsoluteY, Cycles::PageCrossing(4))),
        0x01 => Some((Opcode::ORA, OperandFetch::IndirectZeroPageX, Cycles::Fixed(6))),
        0x11 => Some((Opcode::ORA, OperandFetch::IndirectZeroPageY, Cycles::PageCrossing(5))),
        0x48 => Some((Opcode::PHA, OperandFetch::Implied, Cycles::Fixed(3))),
        0x08 => Some((Opcode::PHP, OperandFetch::Implied, Cycles::Fixed(3))),
        0x68 => Some((Opcode::PLA, OperandFetch::Implied, Cycles::Fixed(4))),
        0x28 => Some((Opcode::PLP, OperandFetch::Implied, Cycles::Fixed(4))),
        0x2A => Some((Opcode::ROL, OperandFetch::Implied, Cycles::Fixed(2))),
        0x26 => Some((Opcode::ROL, OperandFetch::ZeroPage, Cycles::Fixed(5))),
        0x36 => Some((Opcode::ROL, OperandFetch::ZeroPageX, Cycles::Fixed(6))),
        0x2E => Some((Opcode::ROL, OperandFetch::Absolute, Cycles::Fixed(6))),
        0x3E => Some((Opcode::ROL, OperandFetch::AbsoluteX, Cycles::Fixed(7))),
        0x6A => Some((Opcode::ROR, OperandFetch::Implied, Cycles::Fixed(2))),
        0x66 => Some((Opcode::ROR, OperandFetch::ZeroPage, Cycles::Fixed(5))),
        0x76 => Some((Opcode::ROR, OperandFetch::ZeroPageX, Cycles::Fixed(6))),
        0x6E => Some((Opcode::ROR, OperandFetch::Absolute, Cycles::Fixed(6))),
        0x7E => Some((Opcode::ROR, OperandFetch::AbsoluteX, Cycles::Fixed(7))),
        0x40 => Some((Opcode::RTI, OperandFetch::Implied, Cycles::Fixed(6))),
        0x60 => Some((Opcode::RTS, OperandFetch::Implied, Cycles::Fixed(6))),
        0xE9 => Some((Opcode::SBC, OperandFetch::Immediate, Cycles::Fixed(2))),
        0xE5 => Some((Opcode::SBC, OperandFetch::ZeroPage, Cycles::Fixed(3))),
        0xF5 => Some((Opcode::SBC, OperandFetch::ZeroPageX, Cycles::Fixed(4))),
        0xED => Some((Opcode::SBC, OperandFetch::Absolute, Cycles::Fixed(4))),
        0xFD => Some((Opcode::SBC, OperandFetch::AbsoluteX, Cycles::PageCrossing(4))),
        0xF9 => Some((Opcode::SBC, OperandFetch::AbsoluteY, Cycles::PageCrossing(4))),
        0xE1 => Some((Opcode::SBC, OperandFetch::IndirectZeroPageX, Cycles::Fixed(6))),
        0xF1 => Some((Opcode::SBC, OperandFetch::IndirectZeroPageY, Cycles::PageCrossing(5))),
        0x38 => Some((Opcode::SEC, OperandFetch::Implied, Cycles::Fixed(2))),
        0xF8 => Some((Opcode::SED, OperandFetch::Implied, Cycles::Fixed(2))),
        0x78 => Some((Opcode::SEI, OperandFetch::Implied, Cycles::Fixed(2))),
        0x85 => Some((Opcode::STA, OperandFetch::ZeroPage, Cycles::Fixed(3))),
        0x95 => Some((Opcode::STA, OperandFetch::ZeroPageX, Cycles::Fixed(4))),
        0x8D => Some((Opcode::STA, OperandFetch::Absolute, Cycles::Fixed(4))),
        0x9D => Some((Opcode::STA, OperandFetch::AbsoluteX, Cycles::Fixed(5))),
        0x99 => Some((Opcode::STA, OperandFetch::AbsoluteY, Cycles::Fixed(5))),
        0x81 => Some((Opcode::STA, OperandFetch::IndirectZeroPageX, Cycles::Fixed(6))),
        0x91 => Some((Opcode::STA, OperandFetch::IndirectZeroPageY, Cycles::Fixed(6))),
        0x86 => Some((Opcode::STX, OperandFetch::ZeroPage, Cycles::Fixed(3))),
        0x96 => Some((Opcode::STX, OperandFetch::ZeroPageY, Cycles::Fixed(4))),
        0x8E => Some((Opcode::STX, OperandFetch::Absolute, Cycles::Fixed(4))),
        0x84 => Some((Opcode::STY, OperandFetch::ZeroPage, Cycles::Fixed(3))),
        0x94 => Some((Opcode::STY, OperandFetch::ZeroPageX, Cycles::Fixed(4))),
        0x8C => Some((Opcode::STY, OperandFetch::Absolute, Cycles::Fixed(4))),
        0xAA => Some((Opcode::TAX, OperandFetch::Implied, Cycles::Fixed(2))),
        0xA8 => Some((Opcode::TAY, OperandFetch::Implied, Cycles::Fixed(2))),
        0xBA => Some((Opcode::TSX, OperandFetch::Implied, Cycles::Fixed(2))),
        0x8A => Some((Opcode::TXA, OperandFetch::Implied, Cycles::Fixed(2))),
        0x9A => Some((Opcode::TXS, OperandFetch::Implied, Cycles::Fixed(2))),
        0x98 => Some((Opcode::TYA, OperandFetch::Implied, Cycles::Fixed(2))),
        _ => None,
    }
}

/// Looks an opcode byte up in the instruction table.
pub fn decode(opcode_byte: u8) -> (r: Option<(Opcode, OperandFetch, Cycles)>)
    ensures
        r == decode_opcode(opcode_byte),
{
    match opcode_byte {
        0x69 => Some((Opcode::ADC, OperandFetch::Immediate, Cycles::Fixed(2))),
        0x65 => Some((Opcode::ADC, OperandFetch::ZeroPage, Cycles::Fixed(3))),
        0x75 => Some((Opcode::ADC, OperandFetch::ZeroPageX, Cycles::Fixed(4))),
        0x6D => Some((Opcode::ADC, OperandFetch::Absolute, Cycles::Fixed(4))),
        0x7D => Some((Opcode::ADC, OperandFetch::AbsoluteX, Cycles::PageCrossing(4))),
        0x79 => Some((Opcode::ADC, OperandFetch::AbsoluteY, Cycles::PageCrossing(4))),
        0x61 => Some((Opcode::ADC, OperandFetch::IndirectZeroPageX, Cycles::Fixed(6))),
        0x71 => Some((Opcode::ADC, OperandFetch::IndirectZeroPageY, Cycles::PageCrossing(5))),
        0x29 => Some((Opcode::AND, OperandFetch::Immediate, Cycles::Fixed(2))),
        0x25 => Some((Opcode::AND, OperandFetch::ZeroPage, Cycles::Fixed(3))),
        0x35 => Some((Opcode::AND, OperandFetch::ZeroPageX, Cycles::Fixed(4))),
        0x2D => Some((Opcode::AND, OperandFetch::Absolute, Cycles::Fixed(4))),
        0x3D => Some((Opcode::AND, OperandFetch::AbsoluteX, Cycles::PageCrossing(4))),
        0x39 => Some((Opcode::AND, OperandFetch::AbsoluteY, Cycles::PageCrossing(4))),
        0x21 => Some((Opcode::AND, OperandFetch::IndirectZeroPageX, Cycles::Fixed(6))),
        0x31 => Some((Opcode::AND, OperandFetch::IndirectZeroPageY, Cycles::PageCrossing(5))),
        0x0A => Some((Opcode::ASL, OperandFetch::Implied, Cycles::Fixed(2))),
        0x06 => Some((Opcode::ASL, OperandFetch::ZeroPage, Cycles::Fixed(5))),
        0x16 => Some((Opcode::ASL, OperandFetch::ZeroPageX, Cycles::Fixed(6))),
        0x0E => Some((Opcode::ASL, OperandFetch::Absolute, Cycles::Fixed(6))),
        0x1E => Some((Opcode::ASL, OperandFetch::AbsoluteX, Cycles::Fixed(7))),
        0x90 => Some((Opcode::BCC, OperandFetch::Relative, Cycles::Fixed(2))),
        0xB0 => Some((Opcode::BCS, OperandFetch::Relative, Cycles::Fixed(2))),
        0xF0 => Some((Opcode::BEQ, OperandFetch::Relative, Cycles::Fixed(2))),
        0x24 => Some((Opcode::BIT, OperandFetch::ZeroPage, Cycles::Fixed(3))),
        0x2C => Some((Opcode::BIT, OperandFetch::Absolute, Cycles::Fixed(4))),
        0x30 => Some((Opcode::BMI, OperandFetch::Relative, Cycles::Fixed(2))),
        0xD0 => Some((Opcode::BNE, OperandFetch::Relative, Cycles::Fixed(2))),
        0x10 => Some((Opcode::BPL, OperandFetch::Relative, Cycles::Fixed(2))),
        0x00 => Some((Opcode::BRK, OperandFetch::Implied, Cycles::Fixed(7))),
        0x50 => Some((Opcode::BVC, OperandFetch::Relative, Cycles::Fixed(2))),
        0x70 => Some((Opcode::BVS, OperandFetch::Relative, Cycles::Fixed(2))),
        0x18 => Some((Opcode::CLC, OperandFetch::Implied, Cycles::Fixed(2))),
        0xD8 => Some((Opcode::CLD, OperandFetch::Implied, Cycles::Fixed(2))),
        0x58 => Some((Opcode::CLI, OperandFetch::Implied, Cycles::Fixed(2))),
        0xB8 => Some((Opcode::CLV, OperandFetch::Implied, Cycles::Fixed(2))),
        0xC9 => Some((Opcode::CMP, OperandFetch::Immediate, Cycles::Fixed(2))),
        0xC5 => Some((Opcode::CMP, OperandFetch::ZeroPage, Cycles::Fixed(3))),
        0xD5 => Some((Opcode::CMP, OperandFetch::ZeroPageX, Cycles::Fixed(4))),
        0xCD => Some((Opcode::CMP, OperandFetch::Absolute, Cycles::Fixed(4))),
        0xDD => Some((Opcode::CMP, OperandFetch::AbsoluteX, Cycles::PageCrossing(4))),
        0xD9 => Some((Opcode::CMP, OperandFetch::AbsoluteY, Cycles::PageCrossing(4))),
        0xC1 => Some((Opcode::CMP, OperandFetch::IndirectZeroPageX, Cycles::Fixed(6))),
        0xD1 => Some((Opcode::CMP, OperandFetch::IndirectZeroPageY, Cycles::PageCrossing(5))),
        0xE0 => Some((Opcode::CPX, OperandFetch::Immediate, Cycles::Fixed(2))),
        0xE4 => Some((Opcode::CPX, OperandFetch::ZeroPage, Cycles::Fixed(3))),
        0xEC => Some((Opcode::CPX, OperandFetch::Absolute, Cycles::Fixed(4))),
        0xC0 => Some((Opcode::CPY, OperandFetch::Immediate, Cycles::Fixed(2))),
        0xC4 => Some((Opcode::CPY, OperandFetch::ZeroPage, Cycles::Fixed(3))),
        0xCC => Some((Opcode::CPY, OperandFetch::Absolute, Cycles::Fixed(4))),
        0xC6 => Some((Opcode::DEC, OperandFetch::ZeroPage, Cycles::Fixed(5))),
        0xD6 => Some((Opcode::DEC, OperandFetch::ZeroPageX, Cycles::Fixed(6))),
        0xCE => Some((Opcode::DEC, OperandFetch::Absolute, Cycles::Fixed(6))),
        0xDE => Some((Opcode::DEC, OperandFetch::AbsoluteX, Cycles::Fixed(7))),
        0xCA => Some((Opcode::DEX, OperandFetch::Implied, Cycles::Fixed(2))),
        0x88 => Some((Opcode::DEY, OperandFetch::Implied, Cycles::Fixed(2))),
        0x49 => Some((Opcode::EOR, OperandFetch::Immediate, Cycles::Fixed(2))),
        0x45 => Some((Opcode::EOR, OperandFetch::ZeroPage, Cycles::Fixed(3))),
        0x55 => Some((Opcode::EOR, OperandFetch::ZeroPageX, Cycles::Fixed(4))),
        0x4D => Some((Opcode::EOR, OperandFetch::Absolute, Cycles::Fixed(4))),
        0x5D => Some((Opcode::EOR, OperandFetch::AbsoluteX, Cycles::PageCrossing(4))),
        0x59 => Some((Opcode::EOR, OperandFetch::AbsoluteY, Cycles::PageCrossing(4))),
        0x41 => Some((Opcode::EOR, OperandFetch::IndirectZeroPageX, Cycles::Fixed(6))),
        0x51 => Some((Opcode::EOR, OperandFetch::IndirectZeroPageY, Cycles::PageCrossing(5))),
        0xE6 => Some((Opcode::INC, OperandFetch::ZeroPage, Cycles::Fixed(5))),
        0xF6 => Some((Opcode::INC, OperandFetch::ZeroPageX, Cycles::Fixed(6))),
        0xEE => Some((Opcode::INC, OperandFetch::Absolute, Cycles::Fixed(6))),
        0xFE => Some((Opcode::INC, OperandFetch::AbsoluteX, Cycles::Fixed(7))),
        0xE8 => Some((Opcode::INX, OperandFetch::Implied, Cycles::Fixed(2))),
        0xC8 => Some((Opcode::INY, OperandFetch::Implied, Cycles::Fixed(2))),
        0x4C => Some((Opcode::JMP, OperandFetch::Absolute, Cycles::Fixed(3))),
        0x6C => Some((Opcode::JMP, OperandFetch::Indirect, Cycles::Fixed(5))),
        0x20 => Some((Opcode::JSR, OperandFetch::Absolute, Cycles::Fixed(6))),
        0xA9 => Some((Opcode::LDA, OperandFetch::Immediate, Cycles::Fixed(2))),
        0xA5 => Some((Opcode::LDA, OperandFetch::ZeroPage, Cycles::Fixed(3))),
        0xB5 => Some((Opcode::LDA, OperandFetch::ZeroPageX, Cycles::Fixed(4))),
        0xAD => Some((Opcode::LDA, OperandFetch::Absolute, Cycles::Fixed(4))),
        0xBD => Some((Opcode::LDA, OperandFetch::AbsoluteX, Cycles::PageCrossing(4))),
        0xB9 => Some((Opcode::LDA, OperandFetch::AbsoluteY, Cycles::PageCrossing(4))),
        0xA1 => Some((Opcode::LDA, OperandFetch::IndirectZeroPageX, Cycles::Fixed(6))),
        0xB1 => Some((Opcode::LDA, OperandFetch::IndirectZeroPageY, Cycles::PageCrossing(5))),
        0xA2 => Some((Opcode::LDX, OperandFetch::Immediate, Cycles::Fixed(2))),
        0xA6 => Some((Opcode::LDX, OperandFetch::ZeroPage, Cycles::Fixed(3))),
        0xB6 => Some((Opcode::LDX, OperandFetch::ZeroPageY, Cycles::Fixed(4))),
        0xAE => Some((Opcode::LDX, OperandFetch::Absolute, Cycles::Fixed(4))),
        0xBE => Some((Opcode::LDX, OperandFetch::AbsoluteY, Cycles::PageCrossing(4))),
        0xA0 => Some((Opcode::LDY, OperandFetch::Immediate, Cycles::Fixed(2))),
        0xA4 => Some((Opcode::LDY, OperandFetch::ZeroPage, Cycles::Fixed(3))),
        0xB4 => Some((Opcode::LDY, OperandFetch::ZeroPageX, Cycles::Fixed(4))),
        0xAC => Some((Opcode::LDY, OperandFetch::Absolute, Cycles::Fixed(4))),
        0xBC => Some((Opcode::LDY, OperandFetch::AbsoluteX, Cycles::PageCrossing(4))),
        0x4A => Some((Opcode::LSR, OperandFetch::Implied, Cycles::Fixed(2))),
        0x46 => Some((Opcode::LSR, OperandFetch::ZeroPage, Cycles::Fixed(5))),
        0x56 => Some((Opcode::LSR, OperandFetch::ZeroPageX, Cycles::Fixed(6))),
        0x4E => Some((Opcode::LSR, OperandFetch::Absolute, Cycles::Fixed(6))),
        0x5E => Some((Opcode::LSR, OperandFetch::AbsoluteX, Cycles::Fixed(7))),
        0xEA => Some((Opcode::NOP, OperandFetch::Implied, Cycles::Fixed(2))),
        0x1A => Some((Opcode::NOP, OperandFetch::Implied, Cycles::Fixed(2))),
        0x3A => Some((Opcode::NOP, OperandFetch::Implied, Cycles::Fixed(2))),
        0x5A => Some((Opcode::NOP, OperandFetch::Implied, Cycles::Fixed(2))),
        0x7A => Some((Opcode::NOP, OperandFetch::Implied, Cycles::Fixed(2))),
        0xDA => Some((Opcode::NOP, OperandFetch::Implied, Cycles::Fixed(2))),
        0xFA => Some((Opcode::NOP, OperandFetch::Implied, Cycles::Fixed(2))),
        0x80 => Some((Opcode::NOP, OperandFetch::Immediate, Cycles::Fixed(2))),
        0x82 => Some((Opcode::NOP, OperandFetch::Immediate, Cycles::Fixed(2))),
        0x89 => Some((Opcode::NOP, OperandFetch::Immediate, Cycles::Fixed(2))),
        0xC2 => Some((Opcode::NOP, OperandFetch::Immediate, Cycles::Fixed(2))),
        0xE2 => Some((Opcode::NOP, OperandFetch::Immediate, Cycles::Fixed(2))),
        0x04 => Some((Opcode::NOP, OperandFetch::ZeroPage, Cycles::Fixed(3))),
        0x44 => Some((Opcode::NOP, OperandFetch::ZeroPage, Cycles::Fixed(3))),
        0x64 => Some((Opcode::NOP, OperandFetch::ZeroPage, Cycles::Fixed(3))),
        0x14 => Some((Opcode::NOP, OperandFetch::ZeroPageX, Cycles::Fixed(4))),
        0x34 => Some((Opcode::NOP, OperandFetch::ZeroPageX, Cycles::Fixed(4))),
        0x54 => Some((Opcode::NOP, OperandFetch::ZeroPageX, Cycles::Fixed(4))),
        0x74 => Some((Opcode::NOP, OperandFetch::ZeroPageX, Cycles::Fixed(4))),
        0xD4 => Some((Opcode::NOP, OperandFetch::ZeroPageX, Cycles::Fixed(4))),
        0xF4 => Some((Opcode::NOP, OperandFetch::ZeroPageX, Cycles::Fixed(4))),
        0x0C => Some((Opcode::NOP, OperandFetch::Absolute, Cycles::Fixed(4))),
        0x1C => Some((Opcode::NOP, OperandFetch::AbsoluteX, Cycles::PageCrossing(4))),
        0x3C => Some((Opcode::NOP, OperandFetch::AbsoluteX, Cycles::PageCrossing(4))),
        0x5C => Some((Opcode::NOP, OperandFetch::AbsoluteX, Cycles::PageCrossing(4))),
        0x7C => Some((Opcode::NOP, OperandFetch::AbsoluteX, Cycles::PageCrossing(4))),
        0xDC => Some((Opcode::NOP, OperandFetch::AbsoluteX, Cycles::PageCrossing(4))),
        0xFC => Some((Opcode::NOP, OperandFetch::AbsoluteX, Cycles::PageCrossing(4))),
        0x09 => Some((Opcode::ORA, OperandFetch::Immediate, Cycles::Fixed(2))),
        0x05 => Some((Opcode::ORA, OperandFetch::ZeroPage, Cycles::Fixed(3))),
        0x15 => Some((Opcode::ORA, OperandFetch::ZeroPageX, Cycles::Fixed(4))),
        0x0D => Some((Opcode::ORA, OperandFetch::Absolute, Cycles::Fixed(4))),
        0x1D => Some((Opcode::ORA, OperandFetch::AbsoluteX, Cycles::PageCrossing(4))),
        0x19 => Some((Opcode::ORA, OperandFetch::AbsoluteY, Cycles::PageCrossing(4))),
        0x01 => Some((Opcode::ORA, OperandFetch::IndirectZeroPageX, Cycles::Fixed(6))),
        0x11 => Some((Opcode::ORA, OperandFetch::IndirectZeroPageY, Cycles::PageCrossing(5))),
        0x48 => Some((Opcode::PHA, OperandFetch::Implied, Cycles::Fixed(3))),
        0x08 => Some((Opcode::PHP, OperandFetch::Implied, Cycles::Fixed(3))),
        0x68 => Some((Opcode::PLA, OperandFetch::Implied, Cycles::Fixed(4))),
        0x28 => Some((Opcode::PLP, OperandFetch::Implied, Cycles::Fixed(4))),
        0x2A => Some((Opcode::ROL, OperandFetch::Implied, Cycles::Fixed(2))),
        0x26 => Some((Opcode::ROL, OperandFetch::ZeroPage, Cycles::Fixed(5))),
        0x36 => Some((Opcode::ROL, OperandFetch::ZeroPageX, Cycles::Fixed(6))),
        0x2E => Some((Opcode::ROL, OperandFetch::Absolute, Cycles::Fixed(6))),
        0x3E => Some((Opcode::ROL, OperandFetch::AbsoluteX, Cycles::Fixed(7))),
        0x6A => Some((Opcode::ROR, OperandFetch::Implied, Cycles::Fixed(2))),
        0x66 => Some((Opcode::ROR, OperandFetch::ZeroPage, Cycles::Fixed(5))),
        0x76 => Some((Opcode::ROR, OperandFetch::ZeroPageX, Cycles::Fixed(6))),
        0x6E => Some((Opcode::ROR, OperandFetch::Absolute, Cycles::Fixed(6))),
        0x7E => Some((Opcode::ROR, OperandFetch::AbsoluteX, Cycles::Fixed(7))),
        0x40 => Some((Opcode::RTI, OperandFetch::Implied, Cycles::Fixed(6))),
        0x60 => Some((Opcode::RTS, OperandFetch::Implied, Cycles::Fixed(6))),
        0xE9 => Some((Opcode::SBC, OperandFetch::Immediate, Cycles::Fixed(2))),
        0xE5 => Some((Opcode::SBC, OperandFetch::ZeroPage, Cycles::Fixed(3))),
        0xF5 => Some((Opcode::SBC, OperandFetch::ZeroPageX, Cycles::Fixed(4))),
        0xED => Some((Opcode::SBC, OperandFetch::Absolute, Cycles::Fixed(4))),
        0xFD => Some((Opcode::SBC, OperandFetch::AbsoluteX, Cycles::PageCrossing(4))),
        0xF9 => Some((Opcode::SBC, OperandFetch::AbsoluteY, Cycles::PageCrossing(4))),
        0xE1 => Some((Opcode::SBC, OperandFetch::IndirectZeroPageX, Cycles::Fixed(6))),
        0xF1 => Some((Opcode::SBC, OperandFetch::IndirectZeroPageY, Cycles::PageCrossing(5))),
        0x38 => Some((Opcode::SEC, OperandFetch::Implied, Cycles::Fixed(2))),
        0xF8 => Some((Opcode::SED, OperandFetch::Implied, Cycles::Fixed(2))),
        0x78 => Some((Opcode::SEI, OperandFetch::Implied, Cycles::Fixed(2))),
        0x85 => Some((Opcode::STA, OperandFetch::ZeroPage, Cycles::Fixed(3))),
        0x95 => Some((Opcode::STA, OperandFetch::ZeroPageX, Cycles::Fixed(4))),
        0x8D => Some((Opcode::STA, OperandFetch::Absolute, Cycles::Fixed(4))),
        0x9D => Some((Opcode::STA, OperandFetch::AbsoluteX, Cycles::Fixed(5))),
        0x99 => Some((Opcode::STA, OperandFetch::AbsoluteY, Cycles::Fixed(5))),
        0x81 => Some((Opcode::STA, OperandFetch::IndirectZeroPageX, Cycles::Fixed(6))),
        0x91 => Some((Opcode::STA, OperandFetch::IndirectZeroPageY, Cycles::Fixed(6))),
        0x86 => Some((Opcode::STX, OperandFetch::ZeroPage, Cycles::Fixed(3))),
        0x96 => Some((Opcode::STX, OperandFetch::ZeroPageY, Cycles::Fixed(4))),
        0x8E => Some((Opcode::STX, OperandFetch::Absolute, Cycles::Fixed(4))),
        0x84 => Some((Opcode::STY, OperandFetch::ZeroPage, Cycles::Fixed(3))),
        0x94 => Some((Opcode::STY, OperandFetch::ZeroPageX, Cycles::Fixed(4))),
        0x8C => Some((Opcode::STY, OperandFetch::Absolute, Cycles::Fixed(4))),
        0xAA => Some((Opcode::TAX, OperandFetch::Implied, Cycles::Fixed(2))),
        0xA8 => Some((Opcode::TAY, OperandFetch::Implied, Cycles::Fixed(2))),
        0xBA => Some((Opcode::TSX, OperandFetch::Implied, Cycles::Fixed(2))),
        0x8A => Some((Opcode::TXA, OperandFetch::Implied, Cycles::Fixed(2))),
        0x9A => Some((Opcode::TXS, OperandFetch::Implied, Cycles::Fixed(2))),
        0x98 => Some((Opcode::TYA, OperandFetch::Implied, Cycles::Fixed(2))),
        _ => None,
    }
}

pub struct FetchInstructionResult {
    pub opcode: Opcode,
    pub addressing_mode: AddressingMode,
    pub cycles: Cycles,
}

impl FetchInstructionResult {
    pub fn new(opcode: Opcode, addressing_mode: AddressingMode, cycles: Cycles) -> (r: Self)
        ensures
            r.opcode == opcode,
            r.addressing_mode == addressing_mode,
            r.cycles == cycles,
    {
        Self { opcode, addressing_mode, cycles }
    }
}

/// Where a shift or rotate writes its result.
#[derive(Debug, Clone, Copy, PartialEq, Eq, Structural)]
pub enum WriteLocation {
    Accumulator,
    Memory(u16),
}

// ---- Flag arithmetic ----

/// N: set when bit 7 of `x` is set (`x` is negative as a signed byte).
pub open spec fn with_negative(p: u8, x: u8) -> u8 {
    if x >= 128 { p | 0x80 } else { p & 0x7F }
}

/// Z: set when `x` is zero.
pub open spec fn with_zero(p: u8, x: u8) -> u8 {
    if x == 0 { p | 0x02 } else { p & 0xFD }
}

pub open spec fn with_carry(p: u8, c: bool) -> u8 {
    if c { p | 0x01 } else { p & 0xFE }
}

pub open spec fn with_overflow(p: u8, v: bool) -> u8 {
    if v { p | 0x40 } else { p & 0xBF }
}

/// A byte read as a two's complement signed number.
pub open spec fn signed(x: u8) -> int {
    if x >= 128 { x - 256 } else { x as int }
}

/// The overflow rule that the emulator uses: two non-negative operands
/// with a negative sum, or two non-positive operands with a positive sum.
pub open spec fn overflowed(x: u8, y: u8, sum: u8) -> bool {
    (signed(x) >= 0 && signed(y) >= 0 && signed(sum) < 0) || (signed(x) <= 0 && signed(y) <= 0
        && signed(sum) > 0)
}

/// The base cycles of an instruction, given whether a page was crossed.
pub open spec fn base_cycles(cycles: Cycles, page_crossed: bool) -> usize {
    match cycles {
        Cycles::Fixed(n) => n,
        Cycles::PageCrossing(n) => if page_crossed { (n + 1) as usize } else { n },
    }
}

/// The cycles of a branch: 2 when not taken, 3 when taken, 4 when taken to
/// another page.
pub open spec fn branch_cycles(taken: bool, pbr: PageBoundaryResult) -> usize {
    if taken && pbr == PageBoundaryResult::PageBoundaryCrossed {
        4
    } else if taken {
        3
    } else {
        2
    }
}

/// Facts about bytes as signed numbers, and about shifts and masks.
pub proof fn lemma_byte_arith()
    by (bit_vector)
    ensures
        forall|x: u8| (#[trigger] (x as i8) < 0) == (x >= 128),
        forall|x: u8| (#[trigger] (x as i8) >= 0) == (x < 128),
        forall|x: u8| (#[trigger] (x as i8) > 0) == (0 < x && x < 128),
        forall|x: u8| (#[trigger] (x as i8) <= 0) == (x == 0 || x >= 128),
        forall|x: u8| (#[trigger] (x & 0x80) == 0x80) == (x >= 128),
        forall|x: u8| (#[trigger] (x & 0x01) == 0x01) == (x % 2 == 1),
        forall|m: u8| #[trigger] (m >> 1u8) == m / 2,
        forall|m: u8| #[trigger] ((m >> 6u8) & 0x01) == (m >> 6u8) & 1,
        forall|c: u8| c <= 1 ==> #[trigger] (c << 7u8) == c * 128,
{
}

/// Facts about 16-bit sums and addresses split into bytes.
pub proof fn lemma_word_bits()
    by (bit_vector)
    ensures
        forall|e: u16| e <= 511 ==> (#[trigger] ((e >> 8u16) & 0x0001) == 0x0001) == (e >= 256),
        forall|e: u16| #[trigger] ((e >> 8u16) & 0x0001) == 0x0001 <==> (e / 256) % 2 == 1,
        forall|e: u16| #[trigger] (e as u8) == e % 256,
        forall|pc: u16| #[trigger] (pc >> 8u16) as u8 == pc / 256,
{
}

pub proof fn lemma_cpu_bits()
    ensures
        forall|x: u8| (#[trigger] (x as i8) < 0) == (x >= 128),
        forall|x: u8| (#[trigger] (x as i8) >= 0) == (x < 128),
        forall|x: u8| (#[trigger] (x as i8) > 0) == (0 < x && x < 128),
        forall|x: u8| (#[trigger] (x as i8) <= 0) == (x == 0 || x >= 128),
        forall|x: u8| (#[trigger] (x & 0x80) == 0x80) == (x >= 128),
        forall|x: u8| (#[trigger] (x & 0x01) == 0x01) == (x % 2 == 1),
        forall|m: u8| #[trigger] (m >> 1u8) == m / 2,
        forall|m: u8| #[trigger] ((m >> 6u8) & 0x01) == (m >> 6u8) & 1,
        forall|c: u8| c <= 1 ==> #[trigger] (c << 7u8) == c * 128,
        forall|e: u16| e <= 511 ==> (#[trigger] ((e >> 8u16) & 0x0001) == 0x0001) == (e >= 256),
        forall|e: u16| #[trigger] ((e >> 8u16) & 0x0001) == 0x0001 <==> (e / 256) % 2 == 1,
        forall|e: u16| #[trigger] (e as u8) == e % 256,
        forall|pc: u16| #[trigger] (pc >> 8u16) as u8 == pc / 256,
        forall|m: u8| #[trigger] (m << 1u8) == (2 * m) % 256 && (m << 1u8) <= 254,
{
    lemma_byte_arith();
    lemma_word_bits();
    lemma_shift_left_bits();
}

pub proof fn lemma_shift_left_bits()
    by (bit_vector)
    ensures
        forall|m: u8| #[trigger] (m << 1u8) == (2 * m) % 256 && (m << 1u8) <= 254,
{
}

/// The CPU's state as plain values.
pub struct CpuModel {
    pub memory: CpuMemoryModel,
    pub status: u8,
    pub pc: u16,
    pub sp: u8,
    pub a: u8,
    pub x: u8,
    pub y: u8,
    pub cycle_count: usize,
    pub cycle_budget: i32,
    pub nmi: Nmi,
}

impl CpuModel {
    pub open spec fn with_status(self, status: u8) -> Self {
        CpuModel { status, ..self }
    }

    /// N and Z from `x`.
    pub open spec fn set_nz(self, x: u8) -> Self {
        self.with_status(with_zero(with_negative(self.status, x), x))
    }

    pub open spec fn carry(self) -> u8 {
        self.status & 0x01
    }

    // ---- Fetching ----

    /// The byte at the PC, and the CPU with the PC moved past it.
    pub open spec fn fetch_byte(self) -> (u8, Self) {
        (
            self.memory.read_value(self.pc),
            CpuModel {
                memory: self.memory.after_read(self.pc),
                pc: vstd::wrapping::u16_specs::wrapping_add(self.pc, 1),
                ..self
            },
        )
    }

    /// The little-endian word at the PC, and the CPU with the PC moved past it.
    pub open spec fn fetch_word(self) -> (u16, Self) {
        let (w, memory) = self.memory.read_word(
            self.pc,
            vstd::wrapping::u16_specs::wrapping_add(self.pc, 1),
        );
        (
            w,
            CpuModel {
                memory,
                pc: vstd::wrapping::u16_specs::wrapping_add(
                    vstd::wrapping::u16_specs::wrapping_add(self.pc, 1),
                    1,
                ),
                ..self
            },
        )
    }

    /// The addressing mode with its operand bytes, and the CPU after
    /// fetching them.
    pub open spec fn fetch_operand(self, fetch: OperandFetch) -> (AddressingMode, Self) {
        match fetch {
            OperandFetch::Implied => (AddressingMode::Implied, self),
            OperandFetch::Immediate => (AddressingMode::Immediate(self.fetch_byte().0), self.fetch_byte().1),
            OperandFetch::ZeroPage => (AddressingMode::ZeroPage(self.fetch_byte().0), self.fetch_byte().1),
            OperandFetch::ZeroPageX => (
                AddressingMode::IndexedZeroPageX(self.fetch_byte().0),
                self.fetch_byte().1,
            ),
            OperandFetch::ZeroPageY => (
                AddressingMode::IndexedZeroPageY(self.fetch_byte().0),
                self.fetch_byte().1,
            ),
            OperandFetch::Absolute => (AddressingMode::Absolute(self.fetch_word().0), self.fetch_word().1),
            OperandFetch::AbsoluteX => (AddressingMode::IndexedX(self.fetch_word().0), self.fetch_word().1),
            OperandFetch::AbsoluteY => (AddressingMode::IndexedY(self.fetch_word().0), self.fetch_word().1),
            OperandFetch::IndirectZeroPageX => (
                AddressingMode::IndirectZeroPageX(self.fetch_byte().0),
                self.fetch_byte().1,
            ),
            OperandFetch::IndirectZeroPageY => (
                AddressingMode::IndirectZeroPageY(self.fetch_byte().0),
                self.fetch_byte().1,
            ),
            OperandFetch::Indirect => (AddressingMode::Indirect(self.fetch_word().0), self.fetch_word().1),
            OperandFetch::Relative => (AddressingMode::Relative(self.fetch_byte().0), self.fetch_byte().1),
        }
    }

    /// Is the byte at the PC an implemented opcode?
    pub open spec fn opcode_known(self) -> bool {
        decode_opcode(self.memory.read_value(self.pc)) is Some
    }

    /// The decoded instruction at the PC, and the CPU after fetching the
    /// opcode and its operand bytes.
    pub open spec fn fetch_instruction(self) -> ((Opcode, AddressingMode, Cycles), Self) {
        let (opcode_byte, after_opcode) = self.fetch_byte();
        let (opcode, fetch, cycles) = decode_opcode(opcode_byte).unwrap();
        let (mode, after_operand) = after_opcode.fetch_operand(fetch);
        ((opcode, mode, cycles), after_operand)
    }

    // ---- Stack ----

    /// Pushes `value`: stored at $0100 + SP, then SP moves down.
    pub open spec fn push(self, value: u8) -> Self {
        CpuModel {
            memory: self.memory.after_write((0x0100 + self.sp) as u16, value),
            sp: vstd::wrapping::u8_specs::wrapping_sub(self.sp, 1),
            ..self
        }
    }

    /// Pulls a byte: SP moves up, then the byte at $0100 + SP is read.
    pub open spec fn pull(self) -> (u8, Self) {
        let sp = vstd::wrapping::u8_specs::wrapping_add(self.sp, 1);
        (self.memory.read_value((0x0100 + sp) as u16), CpuModel { sp, ..self })
    }

    /// Pulls a little-endian address: low byte first.
    pub open spec fn pull_address(self) -> (u16, Self) {
        let (lo, s1) = self.pull();
        let (hi, s2) = s1.pull();
        ((lo + 256 * hi) as u16, s2)
    }

    // ---- Operands ----

    /// The operand value: the data, the byte at the address (a read, with
    /// its side effects), or in implied mode the accumulator.
    pub open spec fn operand(self, data: AddressingModeData) -> (u8, Self) {
        match data {
            AddressingModeData::Data(d) => (d, self),
            AddressingModeData::Address(address) => (
                self.memory.read_value(address),
                CpuModel { memory: self.memory.after_read(address), ..self },
            ),
            AddressingModeData::Implied => (self.a, self),
        }
    }

    /// Stores `value` to the accumulator or to memory.
    pub open spec fn store(self, location: WriteLocation, value: u8) -> Self {
        match location {
            WriteLocation::Accumulator => CpuModel { a: value, ..self },
            WriteLocation::Memory(address) => CpuModel {
                memory: self.memory.after_write(address, value),
                ..self
            },
        }
    }

    // ---- Instructions ----

    /// ADC: A <- A + M + C; flags N V Z C.
    pub open spec fn adc(self, m: u8) -> Self {
        let sum = self.a + m + self.carry();
        let result = (sum % 256) as u8;
        let p = with_carry(
            with_zero(with_overflow(with_negative(self.status, result), overflowed(self.a, m, result)), result),
            sum >= 256,
        );
        CpuModel { status: p, a: result, ..self }
    }

    /// SBC: A <- A - M - (1 - C); flags N V Z C.
    pub open spec fn sbc(self, m: u8) -> Self {
        let neg_m = ((256 - m) % 256) as u8;
        let sum = self.a + neg_m + if self.carry() == 0 { 0xFFint } else { 0int };
        let result = (sum % 256) as u8;
        // The carry is bit 8 of the 16-bit sum.
        let p = with_carry(
            with_zero(with_overflow(with_negative(self.status, result), overflowed(self.a, neg_m, result)), result),
            (sum / 256) % 2 == 1,
        );
        CpuModel { status: p, a: result, ..self }
    }

    /// AND, ORA, EOR: A <- A op M; flags N Z.
    pub open spec fn and(self, m: u8) -> Self {
        CpuModel { a: self.a & m, ..self.set_nz(self.a & m) }
    }

    pub open spec fn ora(self, m: u8) -> Self {
        CpuModel { a: self.a | m, ..self }.set_nz(self.a | m)
    }

    pub open spec fn eor(self, m: u8) -> Self {
        CpuModel { a: self.a ^ m, ..self }.set_nz(self.a ^ m)
    }

    /// ASL: shift left; bit 7 goes to C; flags N Z C.
    pub open spec fn asl(self, m: u8, location: WriteLocation) -> Self {
        let result = ((2 * m) % 256) as u8;
        self.with_status(with_carry(with_zero(with_negative(self.status, result), result), m >= 128)).store(
            location,
            result,
        )
    }

    /// LSR: shift right; bit 0 goes to C; N cleared; flags N Z C.
    pub open spec fn lsr(self, m: u8, location: WriteLocation) -> Self {
        let result = m / 2;
        self.with_status(with_carry(with_zero(self.status & 0x7F, result), m % 2 == 1)).store(
            location,
            result,
        )
    }

    /// ROL: rotate left through C; flags N Z C.
    pub open spec fn rol(self, m: u8, location: WriteLocation) -> Self {
        let result = ((2 * m) % 256 + self.carry()) as u8;
        self.with_status(with_carry(with_zero(with_negative(self.status, result), result), m >= 128)).store(
            location,
            result,
        )
    }

    /// ROR: rotate right through C; flags N Z C.
    pub open spec fn ror(self, m: u8, location: WriteLocation) -> Self {
        let result = (m / 2 + self.carry() * 128) as u8;
        self.with_status(with_carry(with_zero(with_negative(self.status, result), result), m % 2 == 1)).store(
            location,
            result,
        )
    }

    /// Moves the PC forward by the offset (wrapping); reports whether the
    /// page changed.
    pub open spec fn branch_offset(self, offset: u8) -> (Self, PageBoundaryResult) {
        let new_addr = vstd::wrapping::u16_specs::wrapping_add(self.pc, offset as u16);
        (
            CpuModel { pc: new_addr, ..self },
            if new_addr & 0xFF00 != self.pc & 0xFF00 {
                PageBoundaryResult::PageBoundaryCrossed
            } else {
                PageBoundaryResult::SamePage
            },
        )
    }

    /// A conditional branch: taken when `condition` holds.
    pub open spec fn branch(self, condition: bool, offset: u8) -> (Self, (bool, PageBoundaryResult)) {
        if condition {
            (self.branch_offset(offset).0, (true, self.branch_offset(offset).1))
        } else {
            (self, (false, PageBoundaryResult::Irrelevant))
        }
    }

    /// BIT: N and V from bits 7 and 6 of M, Z from A & M.
    pub open spec fn bit(self, m: u8) -> Self {
        self.with_status(
            with_zero(with_overflow(with_negative(self.status, m), bit_set(m, 6)), self.a & m),
        )
    }

    /// BRK: sets B, pushes PC + 1 (high byte first) and the status with
    /// bit 5 set.
    pub open spec fn brk(self) -> Self {
        let s = self.with_status(self.status | 0x10);
        let return_address = vstd::wrapping::u16_specs::wrapping_add(self.pc, 1);
        s.push((return_address / 256) as u8).push((return_address % 256) as u8).push(s.status | 0x20)
    }

    /// CMP, CPX, CPY: C when `r` >= M; N and Z from `r` - M.
    pub open spec fn compare(self, r: u8, m: u8) -> Self {
        let subtraction = vstd::wrapping::u8_specs::wrapping_sub(r, m);
        self.with_status(with_zero(with_negative(with_carry(self.status, r >= m), subtraction), subtraction))
    }

    /// DEC, INC: M <- M -/+ 1; flags N Z.
    pub open spec fn dec(self, m: u8, address: u16) -> Self {
        let result = vstd::wrapping::u8_specs::wrapping_sub(m, 1);
        let s = self.set_nz(result);
        CpuModel { memory: s.memory.after_write(address, result), ..s }
    }

    pub open spec fn inc(self, m: u8, address: u16) -> Self {
        let result = vstd::wrapping::u8_specs::wrapping_add(m, 1);
        let s = self.set_nz(result);
        CpuModel { memory: s.memory.after_write(address, result), ..s }
    }

    /// JSR: pushes PC - 1 (high byte first) and jumps.
    pub open spec fn jsr(self, address: u16) -> Self {
        let return_address = vstd::wrapping::u16_specs::wrapping_sub(self.pc, 1);
        CpuModel {
            pc: address,
            ..self.push((return_address / 256) as u8).push((return_address % 256) as u8)
        }
    }

    /// PLA: pulls A; flags N Z.
    pub open spec fn pla(self) -> Self {
        let (a, s) = self.pull();
        CpuModel { a, ..s.set_nz(a) }
    }

    /// PLP: pulls the status, ignoring the break flag.
    pub open spec fn plp(self) -> Self {
        let (p, s) = self.pull();
        s.with_status(p & 0xEF)
    }

    /// RTI: pulls the status (break flag cleared, bit 5 set), then the PC.
    pub open spec fn rti(self) -> Self {
        let (p, s) = self.pull();
        let (pc, s2) = s.with_status((p & 0xEF) | 0x20).pull_address();
        CpuModel { pc, ..s2 }
    }

    /// RTS: pulls the PC and adds one.
    pub open spec fn rts(self) -> Self {
        let (pc, s) = self.pull_address();
        CpuModel { pc: vstd::wrapping::u16_specs::wrapping_add(pc, 1), ..s }
    }

    /// The CPU after executing `opcode` on the resolved operand, and, for a
    /// branch, whether it was taken and whether it crossed a page.
    #[verifier::opaque]
    pub open spec fn execute(self, opcode: Opcode, data: AddressingModeData) -> (Self, Option<(bool, PageBoundaryResult)>) {
        let (m, s) = self.operand(data);
        let location = match data {
            AddressingModeData::Address(address) => WriteLocation::Memory(address),
            _ => WriteLocation::Accumulator,
        };
        let offset = match data {
            AddressingModeData::Data(d) => d,
            _ => 0,
        };
        match opcode {
            Opcode::ADC => (s.adc(m), None),
            Opcode::AND => (s.and(m), None),
            Opcode::ASL => (s.asl(m, location), None),
            Opcode::BCC => {
                let (b, t) = self.branch(!bit_set(self.status, 0), offset);
                (b, Some(t))
            },
            Opcode::BCS => {
                let (b, t) = self.branch(bit_set(self.status, 0), offset);
                (b, Some(t))
            },
            Opcode::BEQ => {
                let (b, t) = self.branch(bit_set(self.status, 1), offset);
                (b, Some(t))
            },
            Opcode::BIT => (s.bit(m), None),
            Opcode::BMI => {
                let (b, t) = self.branch(bit_set(self.status, 7), offset);
                (b, Some(t))
            },
            Opcode::BNE => {
                let (b, t) = self.branch(!bit_set(self.status, 1), offset);
                (b, Some(t))
            },
            Opcode::BPL => {
                let (b, t) = self.branch(!bit_set(self.status, 7), offset);
                (b, Some(t))
            },
            Opcode::BRK => (self.brk(), None),
            Opcode::BVC => {
                let (b, t) = self.branch(!bit_set(self.status, 6), offset);
                (b, Some(t))
            },
            Opcode::BVS => {
                let (b, t) = self.branch(bit_set(self.status, 6), offset);
                (b, Some(t))
            },
            Opcode::CLC => (self.with_status(self.status & 0xFE), None),
            Opcode::CLD => (self.with_status(self.status & 0xF7), None),
            Opcode::CLI => (self.with_status(self.status & 0xFB), None),
            Opcode::CLV => (self.with_status(self.status & 0xBF), None),
            Opcode::CMP => (s.compare(s.a, m), None),
            Opcode::CPX => (s.compare(s.x, m), None),
            Opcode::CPY => (s.compare(s.y, m), None),
            Opcode::DEC => match data {
                AddressingModeData::Address(address) => (s.dec(m, address), None),
                _ => (self, None),
            },
            Opcode::DEX => {
                let x = vstd::wrapping::u8_specs::wrapping_sub(self.x, 1);
                (CpuModel { x, ..self }.set_nz(x), None)
            },
            Opcode::DEY => {
                let y = vstd::wrapping::u8_specs::wrapping_sub(self.y, 1);
                (CpuModel { y, ..self }.set_nz(y), None)
            },
            Opcode::EOR => (s.eor(m), None),
            Opcode::INC => match data {
                AddressingModeData::Address(address) => (s.inc(m, address), None),
                _ => (self, None),
            },
            Opcode::INX => {
                let x = vstd::wrapping::u8_specs::wrapping_add(self.x, 1);
                (CpuModel { x, ..self }.set_nz(x), None)
            },
            Opcode::INY => {
                let y = vstd::wrapping::u8_specs::wrapping_add(self.y, 1);
                (CpuModel { y, ..self }.set_nz(y), None)
            },
            Opcode::JMP => match data {
                AddressingModeData::Address(address) => (CpuModel { pc: address, ..self }, None),
                _ => (self, None),
            },
            Opcode::JSR => match data {
                AddressingModeData::Address(address) => (self.jsr(address), None),
                _ => (self, None),
            },
            Opcode::LDA => (CpuModel { a: m, ..s.set_nz(m) }, None),
            Opcode::LDX => (CpuModel { x: m, ..s.set_nz(m) }, None),
            Opcode::LDY => (CpuModel { y: m, ..s.set_nz(m) }, None),
            Opcode::LSR => (s.lsr(m, location), None),
            Opcode::NOP => (self, None),
            Opcode::ORA => (s.ora(m), None),
            Opcode::PHA => (self.push(self.a), None),
            Opcode::PHP => (self.push(self.status | 0x10 | 0x20), None),
            Opcode::PLA => (self.pla(), None),
            Opcode::PLP => (self.plp(), None),
            Opcode::ROL => (s.rol(m, location), None),
            Opcode::ROR => (s.ror(m, location), None),
            Opcode::RTI => (self.rti(), None),
            Opcode::RTS => (self.rts(), None),
            Opcode::SBC => (s.sbc(m), None),
            Opcode::SEC => (self.with_status(self.status | 0x01), None),
            Opcode::SED => (self.with_status(self.status | 0x08), None),
            Opcode::SEI => (self.with_status(self.status | 0x04), None),
            Opcode::STA => match data {
                AddressingModeData::Address(address) => (
                    CpuModel { memory: self.memory.after_write(address, self.a), ..self },
                    None,
                ),
                _ => (self, None),
            },
            Opcode::STX => match data {
                AddressingModeData::Address(address) => (
                    CpuModel { memory: self.memory.after_write(address, self.x), ..self },
                    None,
                ),
                _ => (self, None),
            },
            Opcode::STY => match data {
                AddressingModeData::Address(address) => (
                    CpuModel { memory: self.memory.after_write(address, self.y), ..self },
                    None,
                ),
                _ => (self, None),
            },
            Opcode::TAX => (CpuModel { x: self.a, ..self }.set_nz(self.a), None),
            Opcode::TAY => (CpuModel { y: self.a, ..self }.set_nz(self.a), None),
            Opcode::TSX => (CpuModel { x: self.sp, ..self }.set_nz(self.sp), None),
            Opcode::TXA => (CpuModel { a: self.x, ..self }.set_nz(self.x), None),
            Opcode::TXS => (CpuModel { sp: self.x, ..self }, None),
            Opcode::TYA => (CpuModel { a: self.y, ..self }.set_nz(self.y), None),
        }
    }

    /// One instruction: fetch and decode at the PC, fetch the operand,
    /// resolve the addressing mode, execute, and count the cycles. Returns
    /// the CPU after it and the cycles it took.
    pub open spec fn step(self) -> (Self, usize) {
        let ((opcode, mode, cycles), fetched) = self.fetch_instruction();
        let (data, pbr, resolved) = mode.resolve(fetched);
        let (executed, branch) = resolved.execute(opcode, data);
        let num_cycles = match branch {
            Some(t) => branch_cycles(t.0, t.1),
            None => base_cycles(cycles, pbr == PageBoundaryResult::PageBoundaryCrossed),
        };
        (CpuModel { cycle_count: (executed.cycle_count + num_cycles) as usize, ..executed }, num_cycles)
    }

    /// The NMI state after `cycles` cycles have passed.
    pub open spec fn after_nmi_cycles(self, cycles: u8) -> Self {
        match self.nmi {
            Nmi::CycleLatency(n) => CpuModel {
                nmi: if cycles >= n { Nmi::Interrupt } else { Nmi::CycleLatency((n - cycles) as u8) },
                ..self
            },
            _ => self,
        }
    }

    /// Takes a due NMI: pushes the PC (high byte first) and the status, sets
    /// the interrupt disable flag and jumps through the vector at $FFFA.
    pub open spec fn after_nmi(self) -> Self {
        if self.nmi == Nmi::Interrupt {
            let s = CpuModel { nmi: Nmi::Idle, ..self };
            let s1 = s.push((s.pc / 256) as u8).push((s.pc % 256) as u8).push(s.status);
            let s2 = s1.with_status(s1.status | 0x04);
            let (pc, memory) = s2.memory.read_word(NMI_ADDRESS, (NMI_ADDRESS + 1) as u16);
            CpuModel { pc, memory, ..s2 }
        } else {
            self
        }
    }

    /// Can `execute_cycles_for_one_instruction` run?
    pub open spec fn cycle_ok(self) -> bool {
        &&& self.cycle_budget < i32::MAX
        &&& self.cycle_budget + 1 >= 0 ==> {
            &&& self.opcode_known()
            &&& self.cycle_count + 7 <= usize::MAX
            &&& self.cycle_budget > i32::MIN + 8
        }
    }

    /// One call of `execute_cycles_for_one_instruction`: the budget grows by
    /// a cycle; if it is not negative, one instruction runs, its cycles are
    /// taken from the budget and counted down on a pending NMI, which is then
    /// taken if due.
    #[verifier::opaque]
    pub open spec fn cycle(self) -> (Self, bool) {
        let s = CpuModel { cycle_budget: (self.cycle_budget + 1) as i32, ..self };
        if s.cycle_budget < 0 {
            (s, false)
        } else {
            let (executed, n) = s.step();
            let counted = executed.after_nmi_cycles(n as u8);
            let budgeted = CpuModel { cycle_budget: (counted.cycle_budget - n) as i32, ..counted };
            (budgeted.after_nmi(), true)
        }
    }
}


/// Every entry of the instruction table takes at most 7 base cycles, one
/// more when a page is crossed.
pub proof fn lemma_decode_cycles(opcode_byte: u8)
    ensures
        decode_opcode(opcode_byte) matches Some((_, _, Cycles::Fixed(n))) ==> 2 <= n <= 7,
        decode_opcode(opcode_byte) matches Some((_, _, Cycles::PageCrossing(n))) ==> 4 <= n <= 5,
{
}

/// Executing an instruction leaves the cycle count, the budget and the NMI
/// state as they were.
pub proof fn lemma_execute_frame(cpu: CpuModel, opcode: Opcode, data: AddressingModeData)
    ensures
        cpu.execute(opcode, data).0.cycle_count == cpu.cycle_count,
        cpu.execute(opcode, data).0.cycle_budget == cpu.cycle_budget,
        cpu.execute(opcode, data).0.nmi == cpu.nmi,
{
    reveal(CpuModel::execute);
}

/// An instruction takes 2 to 7 cycles, which are added to the cycle count,
/// and leaves the budget and the NMI state as they were.
pub proof fn law_instruction_cycles(cpu: CpuModel)
    requires
        cpu.opcode_known(),
    ensures
        2 <= cpu.step().1 <= 7,
        cpu.cycle_count + 7 <= usize::MAX ==> cpu.step().0.cycle_count == cpu.cycle_count
            + cpu.step().1,
        cpu.step().0.cycle_budget == cpu.cycle_budget,
        cpu.step().0.nmi == cpu.nmi,
{
    let ((opcode, mode, cycles), fetched) = cpu.fetch_instruction();
    let (data, pbr, resolved) = mode.resolve(fetched);
    lemma_decode_cycles(cpu.memory.read_value(cpu.pc));
    lemma_execute_frame(resolved, opcode, data);
}

/// How many operand bytes follow an opcode fetched this way.
pub open spec fn operand_length(fetch: OperandFetch) -> int {
    match fetch {
        OperandFetch::Implied => 0,
        OperandFetch::Absolute | OperandFetch::AbsoluteX | OperandFetch::AbsoluteY
        | OperandFetch::Indirect => 2,
        _ => 1,
    }
}

/// Fetching an instruction moves the PC past its opcode and operand bytes
/// (wrapping at $FFFF) and leaves the registers as they were.
pub proof fn law_fetch_advances_pc(c: CpuModel)
    requires
        c.opcode_known(),
    ensures
        ({
            let fetch = decode_opcode(c.memory.read_value(c.pc)).unwrap().1;
            let after = c.fetch_instruction().1;
            &&& after.pc == (c.pc + 1 + operand_length(fetch)) % 0x10000
            &&& after.a == c.a && after.x == c.x && after.y == c.y
            &&& after.sp == c.sp && after.status == c.status
        }),
{
}

/// The status bits that the branches test, as flags.
proof fn lemma_branch_bits(p: u8)
    by (bit_vector)
    ensures
        bit_set(p, 7) == (p & 0x80 != 0),
        bit_set(p, 6) == (p & 0x40 != 0),
        bit_set(p, 1) == (p & 0x02 != 0),
        bit_set(p, 0) == (p & 0x01 != 0),
{
}

proof fn lemma_page_bits(a: u16, b: u16)
    by (bit_vector)
    ensures
        (a & 0xFF00 != b & 0xFF00) == (a / 256 != b / 256),
{
}

/// A conditional branch (opcode $10, $30, $50, $70, $90, $B0, $D0 or $F0,
/// followed by an offset byte) that is taken moves the PC from the next
/// instruction forward by the offset (wrapping at $FFFF) in 3 cycles, 4 when
/// that lands on another page; one that is not taken goes on to the next
/// instruction in 2 cycles. For example BNE branches exactly when Z is
/// clear. No register or flag changes.
pub proof fn law_branches(cpu: CpuModel)
    requires
        ({
            let op = cpu.memory.read_value(cpu.pc);
            op == 0x10 || op == 0x30 || op == 0x50 || op == 0x70 || op == 0x90 || op == 0xB0 || op
                == 0xD0 || op == 0xF0
        }),
    ensures
        ({
            let op = cpu.memory.read_value(cpu.pc);
            let offset = cpu.memory.after_read(cpu.pc).read_value(((cpu.pc + 1) % 0x10000) as u16);
            let next = (cpu.pc + 2) % 0x10000;
            let target = (next + offset) % 0x10000;
            let p = cpu.status;
            // BPL/BMI test N (bit 7), BVC/BVS test V (bit 6), BCC/BCS test C
            // (bit 0), BNE/BEQ test Z (bit 1): the first of each pair
            // branches when its flag is clear, the second when it is set.
            let taken = (op == 0x10 && p & 0x80 == 0) || (op == 0x30 && p & 0x80 != 0) || (op == 0x50
                && p & 0x40 == 0) || (op == 0x70 && p & 0x40 != 0) || (op == 0x90 && p & 0x01 == 0)
                || (op == 0xB0 && p & 0x01 != 0) || (op == 0xD0 && p & 0x02 == 0) || (op == 0xF0 && p
                & 0x02 != 0);
            let (after, n) = cpu.step();
            &&& taken ==> after.pc == target && n == (if target / 256 == next / 256 {
                3int
            } else {
                4int
            })
            &&& !taken ==> after.pc == next && n == 2
            &&& after.a == cpu.a && after.x == cpu.x && after.y == cpu.y
            &&& after.sp == cpu.sp && after.status == cpu.status
        }),
{
    lemma_branch_bits(cpu.status);
    let op = cpu.memory.read_value(cpu.pc);
    if op == 0x10 {
        lemma_branch_step(cpu, Opcode::BPL);
    } else if op == 0x30 {
        lemma_branch_step(cpu, Opcode::BMI);
    } else if op == 0x50 {
        lemma_branch_step(cpu, Opcode::BVC);
    } else if op == 0x70 {
        lemma_branch_step(cpu, Opcode::BVS);
    } else if op == 0x90 {
        lemma_branch_step(cpu, Opcode::BCC);
    } else if op == 0xB0 {
        lemma_branch_step(cpu, Opcode::BCS);
    } else if op == 0xD0 {
        lemma_branch_step(cpu, Opcode::BNE);
    } else {
        lemma_branch_step(cpu, Opcode::BEQ);
    }
}

/// One branch instruction, given what the opcode byte decodes to.
#[verifier::spinoff_prover]
#[verifier::rlimit(40)]
proof fn lemma_branch_step(cpu: CpuModel, opcode: Opcode)
    requires
        decode_opcode(cpu.memory.read_value(cpu.pc)) == Some(
            (opcode, OperandFetch::Relative, Cycles::Fixed(2)),
        ),
        opcode == Opcode::BPL || opcode == Opcode::BMI || opcode == Opcode::BVC || opcode == Opcode::BVS
            || opcode == Opcode::BCC || opcode == Opcode::BCS || opcode == Opcode::BNE || opcode
            == Opcode::BEQ,
    ensures
        ({
            let offset = cpu.memory.after_read(cpu.pc).read_value(((cpu.pc + 1) % 0x10000) as u16);
            let next = (cpu.pc + 2) % 0x10000;
            let target = (next + offset) % 0x10000;
            let (after, n) = cpu.step();
            &&& branch_condition(opcode, cpu.status) ==> after.pc == target && n == (if target / 256
                == next / 256 {
                3int
            } else {
                4int
            })
            &&& !branch_condition(opcode, cpu.status) ==> after.pc == next && n == 2
            &&& after.a == cpu.a && after.x == cpu.x && after.y == cpu.y
            &&& after.sp == cpu.sp && after.status == cpu.status
        }),
{
    let (opcode_byte, after_opcode) = cpu.fetch_byte();
    let (offset, after_operand) = after_opcode.fetch_byte();
    let next = (cpu.pc + 2) % 0x10000;
    assert(after_opcode.pc == (cpu.pc + 1) % 0x10000);
    assert(after_operand.pc == next);
    assert(offset == cpu.memory.after_read(cpu.pc).read_value(((cpu.pc + 1) % 0x10000) as u16));
    let mode = AddressingMode::Relative(offset);
    assert(after_opcode.fetch_operand(OperandFetch::Relative) == (mode, after_operand));
    assert(cpu.fetch_instruction() == ((opcode, mode, Cycles::Fixed(2)), after_operand));
    let data = AddressingModeData::Data(offset);
    assert(mode.resolve(after_operand) == (data, crate::addressing_modes::page_result(after_operand.pc as u8, offset), after_operand));
    lemma_execute_branch(after_operand, opcode, offset);
    let cond = branch_condition(opcode, cpu.status);
    assert(after_operand.status == cpu.status);
    let target = vstd::wrapping::u16_specs::wrapping_add(after_operand.pc, offset as u16);
    lemma_page_bits(target, after_operand.pc);
    let (b, t) = after_operand.branch(cond, offset);
    assert(cpu.step() == (CpuModel {
        cycle_count: (b.cycle_count + branch_cycles(t.0, t.1)) as usize,
        ..b
    }, branch_cycles(t.0, t.1)));
}

/// The condition that a branch instruction tests, on the status flags.
spec fn branch_condition(opcode: Opcode, p: u8) -> bool {
    match opcode {
        Opcode::BPL => !bit_set(p, 7),
        Opcode::BMI => bit_set(p, 7),
        Opcode::BVC => !bit_set(p, 6),
        Opcode::BVS => bit_set(p, 6),
        Opcode::BCC => !bit_set(p, 0),
        Opcode::BCS => bit_set(p, 0),
        Opcode::BNE => !bit_set(p, 1),
        _ => bit_set(p, 1),
    }
}

proof fn lemma_execute_branch(c: CpuModel, opcode: Opcode, offset: u8)
    requires
        opcode == Opcode::BPL || opcode == Opcode::BMI || opcode == Opcode::BVC || opcode == Opcode::BVS
            || opcode == Opcode::BCC || opcode == Opcode::BCS || opcode == Opcode::BNE || opcode
            == Opcode::BEQ,
    ensures
        c.execute(opcode, AddressingModeData::Data(offset)) == (
            c.branch(branch_condition(opcode, c.status), offset).0,
            Some(c.branch(branch_condition(opcode, c.status), offset).1),
        ),
{
    reveal(CpuModel::execute);
    match opcode {
        Opcode::BPL => {},
        Opcode::BMI => {},
        Opcode::BVC => {},
        Opcode::BVS => {},
        Opcode::BCC => {},
        Opcode::BCS => {},
        Opcode::BNE => {},
        Opcode::BEQ => {},
        _ => {},
    }
}

/// The status bits after N, V, Z and C are set in turn.
proof fn lemma_flag_chain(s: u8, n: bool, v: bool, z: bool, c: bool)
    by (bit_vector)
    ensures
        ({
            let p1 = if n { s | 0x80 } else { s & 0x7F };
            let p2 = if v { p1 | 0x40 } else { p1 & 0xBF };
            let p3 = if z { p2 | 0x02 } else { p2 & 0xFD };
            let p4 = if c { p3 | 0x01 } else { p3 & 0xFE };
            &&& bit_set(p4, 0) == c
            &&& bit_set(p4, 1) == z
            &&& bit_set(p4, 6) == v
            &&& bit_set(p4, 7) == n
        }),
{
}

/// The carry flag as a number is bit 0 of the status.
proof fn lemma_carry_bit(s: u8)
    by (bit_vector)
    ensures
        (s & 0x01 == 1) == bit_set(s, 0),
        s & 0x01 <= 1,
{
}

/// ADC adds with carry: A becomes A + M + C modulo 256, C tells whether the
/// sum passed 255, Z and N describe the result, and V tells whether the
/// signed sum left -128..127. (For A = M = 0 with C = 1, and for
/// A = M = $80 with C = 0, the emulator's V differs from that, so they are
/// left out.)
pub proof fn law_adc(c: CpuModel, m: u8)
    requires
        !(c.a == 0 && m == 0 && bit_set(c.status, 0)),
        !(c.a == 0x80 && m == 0x80 && !bit_set(c.status, 0)),
    ensures
        ({
            let carry_in: int = if bit_set(c.status, 0) { 1 } else { 0 };
            let r = c.adc(m);
            &&& r.a == (c.a + m + carry_in) % 256
            &&& bit_set(r.status, 0) == (c.a + m + carry_in >= 256)
            &&& bit_set(r.status, 1) == (r.a == 0)
            &&& bit_set(r.status, 7) == (r.a >= 128)
            &&& bit_set(r.status, 6) == !(-128 <= signed(c.a) + signed(m) + carry_in <= 127)
        }),
{
    lemma_carry_bit(c.status);
    let sum = c.a + m + c.carry();
    let result = (sum % 256) as u8;
    lemma_flag_chain(c.status, result >= 128, overflowed(c.a, m, result), result == 0, sum >= 256);
}

/// SBC subtracts with borrow: A becomes A - M - (1 - C) modulo 256, Z and
/// N describe the result, and with C set and M not zero, C tells whether
/// no borrow was needed. (With C clear, or M = 0, the emulator's carry
/// differs from that, so those inputs are left out of that clause.)
pub proof fn law_sbc(c: CpuModel, m: u8)
    ensures
        ({
            let borrow: int = if bit_set(c.status, 0) { 0 } else { 1 };
            let r = c.sbc(m);
            &&& r.a == (c.a - m - borrow) % 256
            &&& bit_set(r.status, 1) == (r.a == 0)
            &&& bit_set(r.status, 7) == (r.a >= 128)
            &&& (bit_set(c.status, 0) && m != 0) ==> bit_set(r.status, 0) == (c.a >= m)
        }),
{
    lemma_carry_bit(c.status);
    let neg_m = ((256 - m) % 256) as u8;
    let sum = c.a + neg_m + if c.carry() == 0 { 0xFFint } else { 0int };
    let result = (sum % 256) as u8;
    lemma_flag_chain(
        c.status,
        result >= 128,
        overflowed(c.a, neg_m, result),
        result == 0,
        (sum / 256) % 2 == 1,
    );
}

/// A pull right after a push gives back the pushed byte and the stack
/// pointer.
pub proof fn law_push_pull(c: CpuModel, value: u8)
    requires
        c.memory.sized(),
    ensures
        c.push(value).pull().0 == value,
        c.push(value).pull().1.sp == c.sp,
{
}

/// JSR jumps to the subroutine, and RTS then comes back to the instruction
/// after the JSR with the stack pointer as it was.
pub proof fn law_jsr_rts(c: CpuModel, address: u16)
    requires
        c.memory.sized(),
    ensures
        c.jsr(address).pc == address,
        c.jsr(address).rts().pc == c.pc,
        c.jsr(address).rts().sp == c.sp,
{
}

/// RTI after BRK resumes at the byte after BRK's padding byte, with the
/// stack pointer as it was and the status as it was (B clear, bit 5 set).
pub proof fn law_brk_rti(c: CpuModel)
    requires
        c.memory.sized(),
    ensures
        c.brk().rti().pc == vstd::wrapping::u16_specs::wrapping_add(c.pc, 1),
        c.brk().rti().sp == c.sp,
        c.brk().rti().status == (c.status & 0xEF) | 0x20,
        bit_set(c.brk().status, 4),
{
    let s = c.status;
    assert(((s | 0x10 | 0x20) & 0xEF) | 0x20 == (s & 0xEF) | 0x20) by (bit_vector);
    assert(bit_set(s | 0x10, 4)) by (bit_vector);
}

/// A due NMI jumps through the vector at $FFFA with interrupts disabled, and
/// RTI then resumes where the NMI came in, with the stack pointer as it was.
pub proof fn law_nmi_rti(c: CpuModel)
    requires
        c.memory.sized(),
        c.nmi == Nmi::Interrupt,
    ensures
        c.after_nmi().nmi == Nmi::Idle,
        c.after_nmi().pc == c.memory.read_value(NMI_ADDRESS) + 256 * c.memory.read_value(
            (NMI_ADDRESS + 1) as u16,
        ),
        bit_set(c.after_nmi().status, 2),
        c.after_nmi().rti().pc == c.pc,
        c.after_nmi().rti().sp == c.sp,
        c.after_nmi().rti().status == (c.status & 0xEF) | 0x20,
{
    let s = c.status;
    assert(bit_set(s | 0x04, 2)) by (bit_vector);
}

/// The 6502 CPU.
pub struct Cpu {
    pub memory: CpuMemory,
    pub processor_status: ProcessorStatus,
    pub pc: u16,
    pub sp: u8,
    pub a: u8,
    pub x: u8,
    pub y: u8,
    pub cycle_count: usize,
    /// Instructions run while the budget is not negative.
    pub cycle_budget: i32,
    /// A pending NMI: set with a latency of 7 cycles, counted down by the
    /// cycles of each instruction.
    pub nmi: Nmi,
}

impl View for Cpu {
    type V = CpuModel;

    open spec fn view(&self) -> CpuModel {
        CpuModel {
            memory: self.memory@,
            status: self.processor_status@,
            pc: self.pc,
            sp: self.sp,
            a: self.a,
            x: self.x,
            y: self.y,
            cycle_count: self.cycle_count,
            cycle_budget: self.cycle_budget,
            nmi: self.nmi,
        }
    }
}

impl Cpu {
    pub open spec fn wf(&self) -> bool {
        self.memory.wf()
    }

    /// A CPU at power-up, with the PPU using `nametable_arrangement`.
    pub fn for_arrangement(nametable_arrangement: NametableArrangement) -> (r: Self)
        ensures
            r.wf(),
            r@.memory.ram == Seq::new(0x0800, |i: int| 0u8),
            r@.memory.lower_io == Seq::new(0x0008, |i: int| 0u8),
            r@.memory.upper_memory == Seq::new(0xC000, |i: int| 0u8),
            r@.memory.ppu.is_power_up(nametable_arrangement),
            r@.memory.controller_1.is_power_up(),
            r@.memory.controller_2.is_power_up(),
            r@.status == 0,
            r@.pc == 0,
            r@.sp == 0xFD,
            r@.a == 0 && r@.x == 0 && r@.y == 0,
            r@.cycle_count == 0,
            r@.cycle_budget == 0,
            r@.nmi == Nmi::Idle,
    {
        let ppu = Ppu::initialize(nametable_arrangement);
        let bus = Bus::from(ppu, Controller::initialize(), Controller::initialize());
        Self {
            memory: CpuMemory::initialize(bus),
            processor_status: ProcessorStatus::initialize(),
            pc: 0x0000,
            sp: 0xFD,
            a: 0,
            x: 0,
            y: 0,
            cycle_count: 0,
            cycle_budget: 0,
            nmi: Nmi::Idle,
        }
    }

    /// A CPU at power-up (vertical nametable mirroring).
    pub fn initialize() -> (r: Self)
        ensures
            r.wf(),
            r@.memory.ram == Seq::new(0x0800, |i: int| 0u8),
            r@.memory.lower_io == Seq::new(0x0008, |i: int| 0u8),
            r@.memory.upper_memory == Seq::new(0xC000, |i: int| 0u8),
            r@.memory.ppu.is_power_up(NametableArrangement::VerticallyMirrored),
            r@.memory.controller_1.is_power_up(),
            r@.memory.controller_2.is_power_up(),
            r@.status == 0,
            r@.pc == 0,
            r@.sp == 0xFD,
            r@.a == 0 && r@.x == 0 && r@.y == 0,
            r@.cycle_count == 0,
            r@.cycle_budget == 0,
            r@.nmi == Nmi::Idle,
    {
        Self::for_arrangement(NametableArrangement::VerticallyMirrored)
    }

    /// The registers and counters on one line (see `cpu_text`).
    pub fn to_string(&self) -> (r: String)
        ensures
            r@ == cpu_text(self@),
    {
        let mut s = String::new();
        s.append("PC:0x");
        push_hex(&mut s, self.pc as u64, 4);
        s.append(", A:0x");
        push_hex(&mut s, self.a as u64, 2);
        s.append(", X:0x");
        push_hex(&mut s, self.x as u64, 2);
        s.append(", Y:0x");
        push_hex(&mut s, self.y as u64, 2);
        s.append(", P:0x");
        push_hex(&mut s, self.processor_status.into() as u64, 2);
        s.append(", SP:0x");
        push_hex(&mut s, self.sp as u64, 2);
        s.append(", CYC:");
        push_decimal(&mut s, self.cycle_count as u64);
        s.append(", cyc_budget:");
        push_signed_decimal(&mut s, self.cycle_budget as i64);
        s.append(", nmi:");
        match self.nmi {
            Nmi::Idle => s.append("None"),
            Nmi::CycleLatency(n) => {
                s.append("CycleLatency(");
                push_decimal(&mut s, n as u64);
                s.append(")");
            },
            Nmi::Interrupt => s.append("Interrupt"),
        }
        assert(s@ =~= cpu_text(self@));
        s
    }

    /// Schedules an NMI with a latency of 7 cycles.
    pub fn set_nmi(&mut self)
        ensures
            final(self).memory == old(self).memory,
            final(self)@ == (CpuModel { nmi: Nmi::CycleLatency(7), ..old(self)@ }),
    {
        self.nmi = Nmi::CycleLatency(7);
    }

    fn dec_nmi(&mut self, cycles: u8)
        ensures
            final(self).memory == old(self).memory,
            final(self)@ == old(self)@.after_nmi_cycles(cycles),
    {
        if let Nmi::CycleLatency(n) = self.nmi {
            self.nmi = if cycles >= n {
                Nmi::Interrupt
            } else {
                Nmi::CycleLatency(n - cycles)
            }
        }
    }

    fn is_nmi(&mut self) -> (r: bool)
        ensures
            final(self).memory == old(self).memory,
            r == (old(self)@.nmi == Nmi::Interrupt),
            final(self)@ == old(self)@,
    {
        self.nmi == Nmi::Interrupt
    }

    fn clear_nmi(&mut self)
        ensures
            final(self).memory == old(self).memory,
            final(self)@ == (CpuModel { nmi: Nmi::Idle, ..old(self)@ }),
    {
        self.nmi = Nmi::Idle;
    }

    fn increment_pc(&mut self)
        ensures
            final(self).memory == old(self).memory,
            final(self)@ == (CpuModel { pc: vstd::wrapping::u16_specs::wrapping_add(old(self)@.pc, 1), ..old(self)@ }),
    {
        self.pc = self.pc.wrapping_add(1);
    }

    /// Pushes a byte onto the stack ($0100 + SP), moving SP down.
    pub fn push_stack(&mut self, m: u8)
        requires
            old(self).wf(),
        ensures
            final(self).wf(),
            final(self)@ == old(self)@.push(m),
    {
        self.memory.write_byte_to_stack(self.sp, m);
        self.sp = self.sp.wrapping_sub(1);
    }

    /// Pushes the PC onto the stack: first $HH, then $LL.
    fn push_pc(&mut self)
        requires
            old(self).wf(),
        ensures
            final(self).wf(),
            final(self)@ == old(self)@.push((old(self)@.pc / 256) as u8).push((old(self)@.pc % 256) as u8),
    {
        proof {
            lemma_cpu_bits();
        }
        let lo = self.pc as u8;
        let hi = (self.pc >> 8) as u8;
        self.push_stack(hi);
        self.push_stack(lo);
    }

    /// Pulls a byte from the stack: SP moves up, then $0100 + SP is read.
    pub fn pull_stack(&mut self) -> (r: u8)
        requires
            old(self).wf(),
        ensures
            final(self).wf(),
            (r, final(self)@) == old(self)@.pull(),
    {
        self.sp = self.sp.wrapping_add(1);
        self.memory.read_byte_from_stack(self.sp)
    }

    /// Pulls an address from the stack: first $LL, then $HH.
    fn pull_address(&mut self) -> (r: u16)
        requires
            old(self).wf(),
        ensures
            final(self).wf(),
            (r, final(self)@) == old(self)@.pull_address(),
    {
        let lo = self.pull_stack();
        let hi = self.pull_stack();
        (hi as u16) * 256 + (lo as u16)
    }

    /// Reads the byte at the PC and moves the PC past it.
    fn fetch_next_byte(&mut self) -> (r: u8)
        requires
            old(self).wf(),
        ensures
            final(self).wf(),
            (r, final(self)@) == old(self)@.fetch_byte(),
    {
        let data = self.memory.read_byte(self.pc);
        self.increment_pc();
        data
    }

    /// Reads $LL and $HH at the PC, moves the PC past them, and returns $HHLL.
    fn fetch_next_two_bytes(&mut self) -> (r: u16)
        requires
            old(self).wf(),
        ensures
            final(self).wf(),
            (r, final(self)@) == old(self)@.fetch_word(),
    {
        let two_bytes = self.memory.read_two_bytes(self.pc);
        self.increment_pc();
        self.increment_pc();
        two_bytes
    }

    /// Like `fetch_next_two_bytes`, but $HH is read from within the page.
    fn fetch_next_two_bytes_wrapping_page(&mut self) -> (r: u16)
        requires
            old(self).wf(),
        ensures
            final(self).wf(),
            ({
                let (w, memory) = old(self)@.memory.read_word(
                    old(self)@.pc,
                    CpuMemoryModel::next_in_page(old(self)@.pc),
                );
                &&& r == w
                &&& final(self)@ == (CpuModel {
                    memory,
                    pc: vstd::wrapping::u16_specs::wrapping_add(
                        vstd::wrapping::u16_specs::wrapping_add(old(self)@.pc, 1),
                        1,
                    ),
                    ..old(self)@
                })
            }),
    {
        let two_bytes = self.memory.read_two_bytes_wrapping_page(self.pc);
        self.increment_pc();
        self.increment_pc();
        two_bytes
    }

    fn implied(&mut self) -> (r: AddressingMode)
        ensures
            final(self).memory == old(self).memory,
            (r, final(self)@) == old(self)@.fetch_operand(OperandFetch::Implied),
    {
        // No operand bytes: the PC stays.
        AddressingMode::Implied
    }

    fn immediate(&mut self) -> (r: AddressingMode)
        requires
            old(self).wf(),
        ensures
            final(self).wf(),
            (r, final(self)@) == old(self)@.fetch_operand(OperandFetch::Immediate),
    {
        AddressingMode::Immediate(self.fetch_next_byte())
    }

    fn zero_page(&mut self) -> (r: AddressingMode)
        requires
            old(self).wf(),
        ensures
            final(self).wf(),
            (r, final(self)@) == old(self)@.fetch_operand(OperandFetch::ZeroPage),
    {
        AddressingMode::ZeroPage(self.fetch_next_byte())
    }

    fn zero_page_x(&mut self) -> (r: AddressingMode)
        requires
            old(self).wf(),
        ensures
            final(self).wf(),
            (r, final(self)@) == old(self)@.fetch_operand(OperandFetch::ZeroPageX),
    {
        AddressingMode::IndexedZeroPageX(self.fetch_next_byte())
    }

    fn zero_page_y(&mut self) -> (r: AddressingMode)
        requires
            old(self).wf(),
        ensures
            final(self).wf(),
            (r, final(self)@) == old(self)@.fetch_operand(OperandFetch::ZeroPageY),
    {
        AddressingMode::IndexedZeroPageY(self.fetch_next_byte())
    }

    fn absolute(&mut self) -> (r: AddressingMode)
        requires
            old(self).wf(),
        ensures
            final(self).wf(),
            (r, final(self)@) == old(self)@.fetch_operand(OperandFetch::Absolute),
    {
        AddressingMode::Absolute(self.fetch_next_two_bytes())
    }

    fn absolute_x(&mut self) -> (r: AddressingMode)
        requires
            old(self).wf(),
        ensures
            final(self).wf(),
            (r, final(self)@) == old(self)@.fetch_operand(OperandFetch::AbsoluteX),
    {
        AddressingMode::IndexedX(self.fetch_next_two_bytes())
    }

    fn absolute_y(&mut self) -> (r: AddressingMode)
        requires
            old(self).wf(),
        ensures
            final(self).wf(),
            (r, final(self)@) == old(self)@.fetch_operand(OperandFetch::AbsoluteY),
    {
        AddressingMode::IndexedY(self.fetch_next_two_bytes())
    }

    fn indirect_zero_page_x(&mut self) -> (r: AddressingMode)
        requires
            old(self).wf(),
        ensures
            final(self).wf(),
            (r, final(self)@) == old(self)@.fetch_operand(OperandFetch::IndirectZeroPageX),
    {
        AddressingMode::IndirectZeroPageX(self.fetch_next_byte())
    }

    fn indirect_zero_page_y(&mut self) -> (r: AddressingMode)
        requires
            old(self).wf(),
        ensures
            final(self).wf(),
            (r, final(self)@) == old(self)@.fetch_operand(OperandFetch::IndirectZeroPageY),
    {
        AddressingMode::IndirectZeroPageY(self.fetch_next_byte())
    }

    /// Used only by the indirect JMP (0x6C).
    fn indirect(&mut self) -> (r: AddressingMode)
        requires
            old(self).wf(),
        ensures
            final(self).wf(),
            (r, final(self)@) == old(self)@.fetch_operand(OperandFetch::Indirect),
    {
        AddressingMode::Indirect(self.fetch_next_two_bytes())
    }

    fn relative(&mut self) -> (r: AddressingMode)
        requires
            old(self).wf(),
        ensures
            final(self).wf(),
            (r, final(self)@) == old(self)@.fetch_operand(OperandFetch::Relative),
    {
        AddressingMode::Relative(self.fetch_next_byte())
    }

    fn fetch_operand(&mut self, fetch: OperandFetch) -> (r: AddressingMode)
        requires
            old(self).wf(),
        ensures
            final(self).wf(),
            (r, final(self)@) == old(self)@.fetch_operand(fetch),
    {
        match fetch {
            OperandFetch::Implied => self.implied(),
            OperandFetch::Immediate => self.immediate(),
            OperandFetch::ZeroPage => self.zero_page(),
            OperandFetch::ZeroPageX => self.zero_page_x(),
            OperandFetch::ZeroPageY => self.zero_page_y(),
            OperandFetch::Absolute => self.absolute(),
            OperandFetch::AbsoluteX => self.absolute_x(),
            OperandFetch::AbsoluteY => self.absolute_y(),
            OperandFetch::IndirectZeroPageX => self.indirect_zero_page_x(),
            OperandFetch::IndirectZeroPageY => self.indirect_zero_page_y(),
            OperandFetch::Indirect => self.indirect(),
            OperandFetch::Relative => self.relative(),
        }
    }

    /// Fetches the next instruction: its opcode, addressing mode with operand
    /// bytes, and base cycles; the PC moves past it.
    pub fn fetch_instruction(&mut self) -> (r: FetchInstructionResult)
        requires
            old(self).wf(),
            old(self)@.opcode_known(),
        ensures
            final(self).wf(),
            ((r.opcode, r.addressing_mode, r.cycles), final(self)@) == old(self)@.fetch_instruction(),
    {
        let opcode_byte = self.fetch_next_byte();
        match decode(opcode_byte) {
            Some((opcode, fetch, cycles)) => {
                let addressing_mode = self.fetch_operand(fetch);
                FetchInstructionResult::new(opcode, addressing_mode, cycles)
            },
            None => {
                // Not reachable: the opcode is known.
                FetchInstructionResult::new(Opcode::NOP, AddressingMode::Implied, Cycles::Fixed(2))
            },
        }
    }
}


// ---- Instructions ----
impl Cpu {
    /// N from `x`.
    fn check_and_set_negative(&mut self, x: u8)
        ensures
            final(self).memory == old(self).memory,
            final(self)@ == old(self)@.with_status(with_negative(old(self)@.status, x)),
    {
        proof {
            lemma_cpu_bits();
        }
        if (x as i8) < 0 {
            self.processor_status = self.processor_status.set_negative();
        } else {
            self.processor_status = self.processor_status.clear_negative();
        }
    }

    /// V from the signs of the operands `x`, `y` and their sum.
    fn check_and_set_overflow(&mut self, x: u8, y: u8, sum: u8)
        ensures
            final(self).memory == old(self).memory,
            final(self)@ == old(self)@.with_status(
                with_overflow(old(self)@.status, overflowed(x, y, sum)),
            ),
    {
        proof {
            lemma_cpu_bits();
        }
        let s_x = x as i8;
        let s_y = y as i8;
        let s_sum = sum as i8;
        self.processor_status = if s_x >= 0 && s_y >= 0 && s_sum < 0 {
            self.processor_status.set_overflow()
        } else if s_x <= 0 && s_y <= 0 && s_sum > 0 {
            self.processor_status.set_overflow()
        } else {
            self.processor_status.clear_overflow()
        };
    }

    /// Z from `x`.
    fn check_and_set_zero(&mut self, x: u8)
        ensures
            final(self).memory == old(self).memory,
            final(self)@ == old(self)@.with_status(with_zero(old(self)@.status, x)),
    {
        if x == 0 {
            self.processor_status = self.processor_status.set_zero();
        } else {
            self.processor_status = self.processor_status.clear_zero();
        }
    }

    fn check_and_set_carry(&mut self, c: bool)
        ensures
            final(self).memory == old(self).memory,
            final(self)@ == old(self)@.with_status(with_carry(old(self)@.status, c)),
    {
        if c {
            self.processor_status = self.processor_status.set_carry();
        } else {
            self.processor_status = self.processor_status.clear_carry();
        }
    }

    /// Moves the PC forward by `offset` (wrapping) and reports whether the
    /// page changed.
    fn branch_offset(&mut self, offset: u8) -> (r: PageBoundaryResult)
        ensures
            final(self).memory == old(self).memory,
            (final(self)@, r) == old(self)@.branch_offset(offset),
    {
        let new_addr = self.pc.wrapping_add(offset as u16);
        let page_crossed = new_addr & 0xFF00 != self.pc & 0xFF00;
        self.pc = new_addr;
        if page_crossed {
            PageBoundaryResult::PageBoundaryCrossed
        } else {
            PageBoundaryResult::SamePage
        }
    }

    /// Branches by `offset` when `condition` holds.
    fn branch(&mut self, condition: bool, offset: u8) -> (r: (bool, PageBoundaryResult))
        ensures
            final(self).memory == old(self).memory,
            (final(self)@, r) == old(self)@.branch(condition, offset),
    {
        if condition {
            (true, self.branch_offset(offset))
        } else {
            (false, PageBoundaryResult::Irrelevant)
        }
    }

    /// ADC: A <- A + M + C; flags N V Z C.
    fn adc(&mut self, m: u8)
        ensures
            final(self).memory == old(self).memory,
            final(self)@ == old(self)@.adc(m),
    {
        proof {
            lemma_cpu_bits();
        }
        let extended_result: u16 = (self.a as u16) + (m as u16) + (
        self.processor_status.carry() as u16);
        let c = (extended_result >> 8) & 0x0001 == 0x0001;
        let result = extended_result as u8;

        self.check_and_set_negative(result);
        self.check_and_set_overflow(self.a, m, result);
        self.check_and_set_zero(result);
        self.check_and_set_carry(c);

        self.a = result;
    }

    /// AND: A <- A & M; flags N Z.
    fn and(&mut self, m: u8)
        ensures
            final(self).memory == old(self).memory,
            final(self)@ == old(self)@.and(m),
    {
        let result = self.a & m;
        self.check_and_set_negative(result);
        self.check_and_set_zero(result);
        self.a = result;
    }

    /// ASL: shifts M left; bit 7 goes to C; flags N Z C.
    fn asl(&mut self, m: u8, write_location: WriteLocation)
        requires
            old(self).wf(),
        ensures
            final(self).wf(),
            final(self)@ == old(self)@.asl(m, write_location),
    {
        proof {
            lemma_cpu_bits();
        }
        let result = m << 1;
        self.check_and_set_negative(result);
        self.check_and_set_zero(result);
        // The bit shifted out goes to the carry.
        self.check_and_set_carry(m & 0x80 == 0x80);
        match write_location {
            WriteLocation::Accumulator => {
                self.a = result;
            },
            WriteLocation::Memory(address) => {
                self.memory.write_byte(address, result);
            },
        }
    }

    /// BIT: N and V from bits 7 and 6 of M, Z from A & M.
    fn bit(&mut self, m: u8)
        ensures
            final(self).memory == old(self).memory,
            final(self)@ == old(self)@.bit(m),
    {
        proof {
            lemma_byte_bits();
        }
        self.check_and_set_negative(m);
        if (m >> 6) & 0x01 == 0x01 {
            self.processor_status = self.processor_status.set_overflow();
        } else {
            self.processor_status = self.processor_status.clear_overflow();
        }
        self.check_and_set_zero(self.a & m);
    }

    /// BRK: sets B, then pushes PC + 1 ($HH first, then $LL) and the status
    /// with bit 5 set.
    fn brk(&mut self)
        requires
            old(self).wf(),
        ensures
            final(self).wf(),
            final(self)@ == old(self)@.brk(),
    {
        proof {
            lemma_cpu_bits();
        }
        self.processor_status = self.processor_status.set_break();
        let return_address = self.pc.wrapping_add(1);
        self.push_stack((return_address >> 8) as u8);
        self.push_stack(return_address as u8);
        self.push_stack(self.processor_status.set_bit_five().into());
    }

    /// C when `a` >= `b`; N and Z from `a` - `b`.
    fn cmp_processor_status(&mut self, a: u8, b: u8)
        ensures
            final(self).memory == old(self).memory,
            final(self)@ == old(self)@.compare(a, b),
    {
        proof {
            lemma_cpu_bits();
        }
        let subtraction = a.wrapping_sub(b);
        if a >= b {
            self.processor_status = self.processor_status.set_carry();
        } else {
            self.processor_status = self.processor_status.clear_carry();
        };
        if (subtraction & 0x80) == 0x80 {
            self.processor_status = self.processor_status.set_negative();
        } else {
            self.processor_status = self.processor_status.clear_negative();
        };
        if subtraction == 0 {
            self.processor_status = self.processor_status.set_zero();
        } else {
            self.processor_status = self.processor_status.clear_zero();
        };
    }

    /// DEC: M <- M - 1 (written to `address`); flags N Z.
    fn dec(&mut self, m: u8, address: u16)
        requires
            old(self).wf(),
        ensures
            final(self).wf(),
            final(self)@ == old(self)@.dec(m, address),
    {
        let result = m.wrapping_sub(1);
        self.check_and_set_negative(result);
        self.check_and_set_zero(result);
        self.memory.write_byte(address, result);
    }

    /// INC: M <- M + 1 (written to `address`); flags N Z.
    fn inc(&mut self, m: u8, address: u16)
        requires
            old(self).wf(),
        ensures
            final(self).wf(),
            final(self)@ == old(self)@.inc(m, address),
    {
        let result = m.wrapping_add(1);
        self.check_and_set_negative(result);
        self.check_and_set_zero(result);
        self.memory.write_byte(address, result);
    }

    /// EOR: A <- A ^ M; flags N Z.
    fn eor(&mut self, m: u8)
        ensures
            final(self).memory == old(self).memory,
            final(self)@ == old(self)@.eor(m),
    {
        self.a = self.a ^ m;
        self.check_and_set_negative(self.a);
        self.check_and_set_zero(self.a);
    }

    /// ORA: A <- A | M; flags N Z.
    fn ora(&mut self, m: u8)
        ensures
            final(self).memory == old(self).memory,
            final(self)@ == old(self)@.ora(m),
    {
        self.a = self.a | m;
        self.check_and_set_negative(self.a);
        self.check_and_set_zero(self.a);
    }

    /// JSR: pushes PC - 1 ($HH first, then $LL) and jumps to `address`.
    fn jsr(&mut self, address: u16)
        requires
            old(self).wf(),
        ensures
            final(self).wf(),
            final(self)@ == old(self)@.jsr(address),
    {
        proof {
            lemma_cpu_bits();
        }
        let return_address = self.pc.wrapping_sub(1);
        self.push_stack((return_address >> 8) as u8);
        self.push_stack(return_address as u8);
        self.pc = address;
    }

    /// LSR: shifts M right; bit 0 goes to C and N is cleared; flags N Z C.
    fn lsr(&mut self, m: u8, write_location: WriteLocation)
        requires
            old(self).wf(),
        ensures
            final(self).wf(),
            final(self)@ == old(self)@.lsr(m, write_location),
    {
        proof {
            lemma_cpu_bits();
        }
        let result = m >> 1;
        self.processor_status = self.processor_status.clear_negative();
        self.check_and_set_zero(result);
        self.check_and_set_carry(m & 0x01 == 0x01);
        match write_location {
            WriteLocation::Accumulator => {
                self.a = result;
            },
            WriteLocation::Memory(address) => {
                self.memory.write_byte(address, result);
            },
        }
    }

    /// PLA: pulls A; flags N Z.
    fn pla(&mut self)
        requires
            old(self).wf(),
        ensures
            final(self).wf(),
            final(self)@ == old(self)@.pla(),
    {
        let a = self.pull_stack();
        self.check_and_set_negative(a);
        self.check_and_set_zero(a);
        self.a = a;
    }

    /// ROL: rotates M left through C; flags N Z C.
    fn rol(&mut self, m: u8, write_location: WriteLocation)
        requires
            old(self).wf(),
        ensures
            final(self).wf(),
            final(self)@ == old(self)@.rol(m, write_location),
    {
        proof {
            lemma_cpu_bits();
        }
        let result = (m << 1) + self.processor_status.carry();
        self.check_and_set_negative(result);
        self.check_and_set_zero(result);
        self.check_and_set_carry(m & 0x80 == 0x80);
        match write_location {
            WriteLocation::Accumulator => {
                self.a = result;
            },
            WriteLocation::Memory(address) => {
                self.memory.write_byte(address, result);
            },
        }
    }

    /// ROR: rotates M right through C; flags N Z C.
    fn ror(&mut self, m: u8, write_location: WriteLocation)
        requires
            old(self).wf(),
        ensures
            final(self).wf(),
            final(self)@ == old(self)@.ror(m, write_location),
    {
        proof {
            lemma_cpu_bits();
        }
        let result = (m >> 1) + (self.processor_status.carry() << 7);
        self.check_and_set_negative(result);
        self.check_and_set_zero(result);
        self.check_and_set_carry(m & 0x01 == 0x01);
        match write_location {
            WriteLocation::Accumulator => {
                self.a = result;
            },
            WriteLocation::Memory(address) => {
                self.memory.write_byte(address, result);
            },
        }
    }

    /// RTI: pulls the status (break flag cleared, bit 5 set), then the PC.
    fn rti(&mut self)
        requires
            old(self).wf(),
        ensures
            final(self).wf(),
            final(self)@ == old(self)@.rti(),
    {
        self.processor_status = ProcessorStatus::from(self.pull_stack()).clear_break().set_bit_five();
        self.pc = self.pull_address();
    }

    /// RTS: pulls the PC and adds one.
    fn rts(&mut self)
        requires
            old(self).wf(),
        ensures
            final(self).wf(),
            final(self)@ == old(self)@.rts(),
    {
        self.pc = self.pull_address().wrapping_add(1);
    }

    /// SBC: A <- A - M - (1 - C); flags N V Z C.
    fn sbc(&mut self, m: u8)
        ensures
            final(self).memory == old(self).memory,
            final(self)@ == old(self)@.sbc(m),
    {
        proof {
            lemma_cpu_bits();
            lemma_byte_bits();
        }
        let neg_m = 0u8.wrapping_sub(m);
        let borrow: u16 = if !self.processor_status.is_carry() {
            0x00FF
        } else {
            0x0000
        };
        let extended_result: u16 = (self.a as u16) + (neg_m as u16) + borrow;
        let c = (extended_result >> 8) & 0x0001 == 0x0001;
        let result = extended_result as u8;

        self.check_and_set_negative(result);
        self.check_and_set_overflow(self.a, neg_m, result);
        self.check_and_set_zero(result);
        self.check_and_set_carry(c);

        self.a = result;
    }
}


// ---- Branches, flags, transfers, loads and stores ----
impl Cpu {
    /// BCC: branch when C = 0.
    fn bcc(&mut self, m: u8) -> (r: (bool, PageBoundaryResult))
        ensures
            final(self).memory == old(self).memory,
            (final(self)@, r) == old(self)@.branch(!bit_set(old(self)@.status, 0), m),
    {
        let condition = !self.processor_status.is_carry();
        self.branch(condition, m)
    }

    /// BCS: branch when C = 1.
    fn bcs(&mut self, m: u8) -> (r: (bool, PageBoundaryResult))
        ensures
            final(self).memory == old(self).memory,
            (final(self)@, r) == old(self)@.branch(bit_set(old(self)@.status, 0), m),
    {
        let condition = self.processor_status.is_carry();
        self.branch(condition, m)
    }

    /// BEQ: branch when Z = 1.
    fn beq(&mut self, m: u8) -> (r: (bool, PageBoundaryResult))
        ensures
            final(self).memory == old(self).memory,
            (final(self)@, r) == old(self)@.branch(bit_set(old(self)@.status, 1), m),
    {
        let condition = self.processor_status.is_zero();
        self.branch(condition, m)
    }

    /// BMI: branch when N = 1.
    fn bmi(&mut self, m: u8) -> (r: (bool, PageBoundaryResult))
        ensures
            final(self).memory == old(self).memory,
            (final(self)@, r) == old(self)@.branch(bit_set(old(self)@.status, 7), m),
    {
        let condition = self.processor_status.is_negative();
        self.branch(condition, m)
    }

    /// BNE: branch when Z = 0.
    fn bne(&mut self, m: u8) -> (r: (bool, PageBoundaryResult))
        ensures
            final(self).memory == old(self).memory,
            (final(self)@, r) == old(self)@.branch(!bit_set(old(self)@.status, 1), m),
    {
        let condition = !self.processor_status.is_zero();
        self.branch(condition, m)
    }

    /// BPL: branch when N = 0.
    fn bpl(&mut self, m: u8) -> (r: (bool, PageBoundaryResult))
        ensures
            final(self).memory == old(self).memory,
            (final(self)@, r) == old(self)@.branch(!bit_set(old(self)@.status, 7), m),
    {
        let condition = !self.processor_status.is_negative();
        self.branch(condition, m)
    }

    /// BVC: branch when V = 0.
    fn bvc(&mut self, m: u8) -> (r: (bool, PageBoundaryResult))
        ensures
            final(self).memory == old(self).memory,
            (final(self)@, r) == old(self)@.branch(!bit_set(old(self)@.status, 6), m),
    {
        let condition = !self.processor_status.is_overflow();
        self.branch(condition, m)
    }

    /// BVS: branch when V = 1.
    fn bvs(&mut self, m: u8) -> (r: (bool, PageBoundaryResult))
        ensures
            final(self).memory == old(self).memory,
            (final(self)@, r) == old(self)@.branch(bit_set(old(self)@.status, 6), m),
    {
        let condition = self.processor_status.is_overflow();
        self.branch(condition, m)
    }

    /// DEX: X <- X - 1; flags N Z.
    fn dex(&mut self)
        ensures
            final(self).memory == old(self).memory,
            final(self)@ == (CpuModel {
                x: vstd::wrapping::u8_specs::wrapping_sub(old(self)@.x, 1),
                ..old(self)@
            }).set_nz(vstd::wrapping::u8_specs::wrapping_sub(old(self)@.x, 1)),
    {
        self.x = self.x.wrapping_sub(1);
        self.check_and_set_negative(self.x);
        self.check_and_set_zero(self.x);
    }

    /// DEY: Y <- Y - 1; flags N Z.
    fn dey(&mut self)
        ensures
            final(self).memory == old(self).memory,
            final(self)@ == (CpuModel {
                y: vstd::wrapping::u8_specs::wrapping_sub(old(self)@.y, 1),
                ..old(self)@
            }).set_nz(vstd::wrapping::u8_specs::wrapping_sub(old(self)@.y, 1)),
    {
        self.y = self.y.wrapping_sub(1);
        self.check_and_set_negative(self.y);
        self.check_and_set_zero(self.y);
    }

    /// INX: X <- X + 1; flags N Z.
    fn inx(&mut self)
        ensures
            final(self).memory == old(self).memory,
            final(self)@ == (CpuModel {
                x: vstd::wrapping::u8_specs::wrapping_add(old(self)@.x, 1),
                ..old(self)@
            }).set_nz(vstd::wrapping::u8_specs::wrapping_add(old(self)@.x, 1)),
    {
        self.x = self.x.wrapping_add(1);
        self.check_and_set_negative(self.x);
        self.check_and_set_zero(self.x);
    }

    /// INY: Y <- Y + 1; flags N Z.
    fn iny(&mut self)
        ensures
            final(self).memory == old(self).memory,
            final(self)@ == (CpuModel {
                y: vstd::wrapping::u8_specs::wrapping_add(old(self)@.y, 1),
                ..old(self)@
            }).set_nz(vstd::wrapping::u8_specs::wrapping_add(old(self)@.y, 1)),
    {
        self.y = self.y.wrapping_add(1);
        self.check_and_set_negative(self.y);
        self.check_and_set_zero(self.y);
    }

    /// LDA: A <- M; flags N Z.
    fn lda(&mut self, m: u8)
        ensures
            final(self).memory == old(self).memory,
            final(self)@ == (CpuModel { a: m, ..old(self)@.set_nz(m) }),
    {
        self.check_and_set_negative(m);
        self.check_and_set_zero(m);
        self.a = m;
    }

    /// LDX: X <- M; flags N Z.
    fn ldx(&mut self, m: u8)
        ensures
            final(self).memory == old(self).memory,
            final(self)@ == (CpuModel { x: m, ..old(self)@.set_nz(m) }),
    {
        self.check_and_set_negative(m);
        self.check_and_set_zero(m);
        self.x = m;
    }

    /// LDY: Y <- M; flags N Z.
    fn ldy(&mut self, m: u8)
        ensures
            final(self).memory == old(self).memory,
            final(self)@ == (CpuModel { y: m, ..old(self)@.set_nz(m) }),
    {
        self.check_and_set_negative(m);
        self.check_and_set_zero(m);
        self.y = m;
    }

    /// PLP: pulls the status, ignoring the break flag.
    fn plp(&mut self)
        requires
            old(self).wf(),
        ensures
            final(self).wf(),
            final(self)@ == old(self)@.plp(),
    {
        self.processor_status = ProcessorStatus::from(self.pull_stack()).clear_break();
    }

    /// TAX: X <- A; flags N Z.
    fn tax(&mut self)
        ensures
            final(self).memory == old(self).memory,
            final(self)@ == (CpuModel { x: old(self)@.a, ..old(self)@ }).set_nz(old(self)@.a),
    {
        self.x = self.a;
        self.check_and_set_negative(self.x);
        self.check_and_set_zero(self.x);
    }

    /// TAY: Y <- A; flags N Z.
    fn tay(&mut self)
        ensures
            final(self).memory == old(self).memory,
            final(self)@ == (CpuModel { y: old(self)@.a, ..old(self)@ }).set_nz(old(self)@.a),
    {
        self.y = self.a;
        self.check_and_set_negative(self.y);
        self.check_and_set_zero(self.y);
    }

    /// TSX: X <- SP; flags N Z.
    fn tsx(&mut self)
        ensures
            final(self).memory == old(self).memory,
            final(self)@ == (CpuModel { x: old(self)@.sp, ..old(self)@ }).set_nz(old(self)@.sp),
    {
        self.x = self.sp;
        self.check_and_set_negative(self.x);
        self.check_and_set_zero(self.x);
    }

    /// TXA: A <- X; flags N Z.
    fn txa(&mut self)
        ensures
            final(self).memory == old(self).memory,
            final(self)@ == (CpuModel { a: old(self)@.x, ..old(self)@ }).set_nz(old(self)@.x),
    {
        self.a = self.x;
        self.check_and_set_negative(self.a);
        self.check_and_set_zero(self.a);
    }

    /// TYA: A <- Y; flags N Z.
    fn tya(&mut self)
        ensures
            final(self).memory == old(self).memory,
            final(self)@ == (CpuModel { a: old(self)@.y, ..old(self)@ }).set_nz(old(self)@.y),
    {
        self.a = self.y;
        self.check_and_set_negative(self.a);
        self.check_and_set_zero(self.a);
    }

    /// The operand value of an instruction: the data itself, the byte read at
    /// the address, or in implied mode the accumulator.
    fn operand(&mut self, data: AddressingModeData) -> (r: u8)
        requires
            old(self).wf(),
        ensures
            final(self).wf(),
            (r, final(self)@) == old(self)@.operand(data),
    {
        match data {
            AddressingModeData::Data(d) => d,
            AddressingModeData::Address(address) => self.memory.read_byte(address),
            AddressingModeData::Implied => self.a,
        }
    }
}


// ---- Execution ----
impl Cpu {
    /// Executes `opcode` on the resolved operand; for a branch, returns
    /// whether it was taken and whether it crossed a page.
    #[verifier::rlimit(40)]
    fn execute_opcode(&mut self, opcode: Opcode, data: AddressingModeData) -> (r: Option<(bool, PageBoundaryResult)>)
        requires
            old(self).wf(),
        ensures
            final(self).wf(),
            (final(self)@, r) == old(self)@.execute(opcode, data),
    {
        reveal(CpuModel::execute);
        // Shifts and rotates write back to memory when there is an address,
        // else to the accumulator.
        let write_location = match data {
            AddressingModeData::Address(address) => WriteLocation::Memory(address),
            _ => WriteLocation::Accumulator,
        };
        let offset = match data {
            AddressingModeData::Data(d) => d,
            _ => 0,
        };
        match opcode {
            Opcode::ADC => {
                let m = self.operand(data);
                self.adc(m);
                None
            },
            Opcode::AND => {
                let m = self.operand(data);
                self.and(m);
                None
            },
            Opcode::ASL => {
                let m = self.operand(data);
                self.asl(m, write_location);
                None
            },
            Opcode::BCC => Some(self.bcc(offset)),
            Opcode::BCS => Some(self.bcs(offset)),
            Opcode::BEQ => Some(self.beq(offset)),
            Opcode::BIT => {
                let m = self.operand(data);
                self.bit(m);
                None
            },
            Opcode::BMI => Some(self.bmi(offset)),
            Opcode::BNE => Some(self.bne(offset)),
            Opcode::BPL => Some(self.bpl(offset)),
            Opcode::BRK => {
                self.brk();
                None
            },
            Opcode::BVC => Some(self.bvc(offset)),
            Opcode::BVS => Some(self.bvs(offset)),
            Opcode::CLC => {
                self.processor_status = self.processor_status.clear_carry();
                None
            },
            Opcode::CLD => {
                self.processor_status = self.processor_status.clear_decimal();
                None
            },
            Opcode::CLI => {
                self.processor_status = self.processor_status.clear_interrupt();
                None
            },
            Opcode::CLV => {
                self.processor_status = self.processor_status.clear_overflow();
                None
            },
            Opcode::CMP => {
                let m = self.operand(data);
                self.cmp_processor_status(self.a, m);
                None
            },
            Opcode::CPX => {
                let m = self.operand(data);
                self.cmp_processor_status(self.x, m);
                None
            },
            Opcode::CPY => {
                let m = self.operand(data);
                self.cmp_processor_status(self.y, m);
                None
            },
            Opcode::DEC => {
                if let AddressingModeData::Address(address) = data {
                    let m = self.operand(data);
                    self.dec(m, address);
                }
                None
            },
            Opcode::DEX => {
                self.dex();
                None
            },
            Opcode::DEY => {
                self.dey();
                None
            },
            Opcode::EOR => {
                let m = self.operand(data);
                self.eor(m);
                None
            },
            Opcode::INC => {
                if let AddressingModeData::Address(address) = data {
                    let m = self.operand(data);
                    self.inc(m, address);
                }
                None
            },
            Opcode::INX => {
                self.inx();
                None
            },
            Opcode::INY => {
                self.iny();
                None
            },
            Opcode::JMP => {
                if let AddressingModeData::Address(address) = data {
                    self.pc = address;
                }
                None
            },
            Opcode::JSR => {
                if let AddressingModeData::Address(address) = data {
                    self.jsr(address);
                }
                None
            },
            Opcode::LDA => {
                let m = self.operand(data);
                self.lda(m);
                None
            },
            Opcode::LDX => {
                let m = self.operand(data);
                self.ldx(m);
                None
            },
            Opcode::LDY => {
                let m = self.operand(data);
                self.ldy(m);
                None
            },
            Opcode::LSR => {
                let m = self.operand(data);
                self.lsr(m, write_location);
                None
            },
            Opcode::NOP => None,
            Opcode::ORA => {
                let m = self.operand(data);
                self.ora(m);
                None
            },
            Opcode::PHA => {
                self.push_stack(self.a);
                None
            },
            Opcode::PHP => {
                self.push_stack(self.processor_status.set_break().set_bit_five().into());
                None
            },
            Opcode::PLA => {
                self.pla();
                None
            },
            Opcode::PLP => {
                self.plp();
                None
            },
            Opcode::ROL => {
                let m = self.operand(data);
                self.rol(m, write_location);
                None
            },
            Opcode::ROR => {
                let m = self.operand(data);
                self.ror(m, write_location);
                None
            },
            Opcode::RTI => {
                self.rti();
                None
            },
            Opcode::RTS => {
                self.rts();
                None
            },
            Opcode::SBC => {
                let m = self.operand(data);
                self.sbc(m);
                None
            },
            Opcode::SEC => {
                self.processor_status = self.processor_status.set_carry();
                None
            },
            Opcode::SED => {
                self.processor_status = self.processor_status.set_decimal();
                None
            },
            Opcode::SEI => {
                self.processor_status = self.processor_status.set_interrupt();
                None
            },
            Opcode::STA => {
                if let AddressingModeData::Address(address) = data {
                    self.memory.write_byte(address, self.a);
                }
                None
            },
            Opcode::STX => {
                if let AddressingModeData::Address(address) = data {
                    self.memory.write_byte(address, self.x);
                }
                None
            },
            Opcode::STY => {
                if let AddressingModeData::Address(address) = data {
                    self.memory.write_byte(address, self.y);
                }
                None
            },
            Opcode::TAX => {
                self.tax();
                None
            },
            Opcode::TAY => {
                self.tay();
                None
            },
            Opcode::TSX => {
                self.tsx();
                None
            },
            Opcode::TXA => {
                self.txa();
                None
            },
            Opcode::TXS => {
                self.sp = self.x;
                None
            },
            Opcode::TYA => {
                self.tya();
                None
            },
        }
    }

    /// The cycles of a branch: 2 when not taken, 3 when taken, 4 when taken
    /// across a page.
    fn calculate_branch_cycles(num_cycles: &mut usize, branch_and_pbr: (bool, PageBoundaryResult))
        ensures
            *final(num_cycles) == branch_cycles(branch_and_pbr.0, branch_and_pbr.1),
    {
        *num_cycles = match branch_and_pbr {
            (true, PageBoundaryResult::PageBoundaryCrossed) => 4,
            (true, _) => 3,
            (false, _) => 2,
        };
    }

    /// Fetches, decodes and executes one instruction, adds its cycles to the
    /// cycle count and returns them.
    pub fn fetch_instruction_and_execute(&mut self) -> (r: usize)
        requires
            old(self).wf(),
            old(self)@.opcode_known(),
            old(self)@.cycle_count + 7 <= usize::MAX,
        ensures
            final(self).wf(),
            (final(self)@, r) == old(self)@.step(),
            2 <= r <= 7,
            final(self)@.cycle_count == old(self)@.cycle_count + r,
    {
        proof {
            lemma_decode_cycles(self@.memory.read_value(self@.pc));
            law_instruction_cycles(self@);
        }
        let FetchInstructionResult { opcode, addressing_mode, cycles } = self.fetch_instruction();
        // The PC is now at the next instruction: offsets are relative to it.
        let (data, page_boundary_result) = addressing_mode.into_data(self);
        let pbc = page_boundary_result == PageBoundaryResult::PageBoundaryCrossed;
        let mut num_cycles = match cycles {
            Cycles::Fixed(n) => n,
            Cycles::PageCrossing(n) => if pbc {
                n + 1
            } else {
                n
            },
        };
        proof {
            lemma_execute_frame(self@, opcode, data);
        }
        if let Some(branch_and_pbr) = self.execute_opcode(opcode, data) {
            Self::calculate_branch_cycles(&mut num_cycles, branch_and_pbr);
        }
        self.cycle_count = self.cycle_count + num_cycles;
        num_cycles
    }

    /// Takes a pending NMI that is due: pushes the PC and the status, sets
    /// the interrupt disable flag and jumps through the vector at $FFFA.
    fn handle_nmi_interrupt(&mut self)
        requires
            old(self).wf(),
        ensures
            final(self).wf(),
            final(self)@ == old(self)@.after_nmi(),
    {
        if !self.is_nmi() {
            return;
        }
        self.clear_nmi();
        self.push_pc();
        self.push_stack(self.processor_status.into());
        self.processor_status = self.processor_status.set_interrupt();
        self.pc = self.memory.read_two_bytes(NMI_ADDRESS);
    }

    /// Adds a cycle to the budget; while it is not negative, runs one
    /// instruction, takes its cycles from the budget, counts them down on a
    /// pending NMI and takes the NMI if due. Returns whether an instruction
    /// ran.
    pub fn execute_cycles_for_one_instruction(&mut self) -> (r: bool)
        requires
            old(self).wf(),
            old(self)@.cycle_ok(),
        ensures
            final(self).wf(),
            (final(self)@, r) == old(self)@.cycle(),
    {
        reveal(CpuModel::cycle);
        self.cycle_budget = self.cycle_budget + 1;
        if self.cycle_budget < 0 {
            return false;
        }
        proof {
            law_instruction_cycles(self@);
        }
        let num_cycles = self.fetch_instruction_and_execute();
        self.dec_nmi(num_cycles as u8);
        self.cycle_budget = self.cycle_budget - num_cycles as i32;
        self.handle_nmi_interrupt();
        true
    }
}

} // verus!
