use vstd::prelude::*;
use crate::cpu::{CpuView, Mos6502};
use crate::mem::{cell_read_le_u16, Memory};
use crate::operand::{operand_log_text, operand_text, Operand, OperandError};
use crate::text::{hex4, push_hex4, push_text, text_result};

verus! {

/// Represents an instruction that can be executed on a `Mos6502` processor
#[derive(Clone, Copy, Debug, PartialEq, Eq, Structural)]
pub enum Instruction {
    ADC(Operand),
    AHX(Operand),
    ALR(Operand),
    AND(Operand),
    ANC(Operand),
    ASL(Operand),
    ARR(Operand),
    AXS(Operand),
    BCC(Operand),
    BCS(Operand),
    BEQ(Operand),
    BIT(Operand),
    BMI(Operand),
    BNE(Operand),
    BPL(Operand),
    BVC(Operand),
    BVS(Operand),
    CMP(Operand),
    CPX(Operand),
    CPY(Operand),
    DCP(Operand),
    DEC(Operand),
    EOR(Operand),
    IGN(Operand),
    INC(Operand),
    ISB(Operand),
    JMP(Operand),
    JSR(Operand),
    LAS(Operand),
    LAX(Operand),
    LDA(Operand),
    LDX(Operand),
    LDY(Operand),
    LSR(Operand),
    ORA(Operand),
    RLA(Operand),
    ROL(Operand),
    ROR(Operand),
    RRA(Operand),
    SAX(Operand),
    SBC(Operand),
    SBCX(Operand),
    SHY(Operand),
    SHX(Operand),
    SKB(Operand),
    SLO(Operand),
    SRE(Operand),
    STA(Operand),
    STX(Operand),
    STY(Operand),
    TAS(Operand),
    XAA(Operand),
    BRK,
    CLC,
    CLD,
    CLI,
    CLV,
    DEX,
    DEY,
    HLT,
    INX,
    INY,
    NOP, NOPX,
    PHA,
    PHP,
    PLA,
    PLP,
    RTI,
    RTS,
    SEC,
    SED,
    SEI,
    TAX,
    TAY,
    TSX,
    TXA,
    TXS,
    TYA,
}

/// True when `addr` lies in the zero page
pub open spec fn zero_page(addr: u16) -> bool {
    addr < 0x0100
}

/// Base cycles of the loads and arithmetic that read their operand (ADC,
/// CMP, EOR, LDA, SBC)
pub open spec fn read_cycles(op: Operand) -> Option<int> {
    match op {
        Operand::Immediate(_) => Some(2),
        Operand::Absolute(addr) => Some(if zero_page(addr) { 3 } else { 4 }),
        Operand::Indexed(..) => Some(4),
        Operand::PreIndexedIndirect(_) => Some(6),
        Operand::PostIndexedIndirect(_) => Some(5),
        _ => None,
    }
}

/// Base cycles of AND and ORA, which charge one cycle less on the zero page
pub open spec fn logic_cycles(op: Operand) -> Option<int> {
    match op {
        Operand::Immediate(_) => Some(2),
        Operand::Absolute(addr) => Some(if zero_page(addr) { 2 } else { 4 }),
        Operand::Indexed(addr, _) => Some(if zero_page(addr) { 3 } else { 4 }),
        Operand::PreIndexedIndirect(_) => Some(6),
        Operand::PostIndexedIndirect(_) => Some(5),
        _ => None,
    }
}

/// Base cycles of the reads without an immediate form (LAX; and IGN, which
/// has no indirect form either)
pub open spec fn memory_read_cycles(op: Operand, indirect: bool) -> Option<int> {
    match op {
        Operand::Absolute(addr) => Some(if zero_page(addr) { 3 } else { 4 }),
        Operand::Indexed(..) => Some(4),
        Operand::PreIndexedIndirect(_) if indirect => Some(6),
        Operand::PostIndexedIndirect(_) if indirect => Some(5),
        _ => None,
    }
}

/// Base cycles of LDX and LDY
pub open spec fn index_load_cycles(op: Operand) -> Option<int> {
    match op {
        Operand::Immediate(_) => Some(2),
        Operand::Absolute(addr) => Some(if zero_page(addr) { 3 } else { 4 }),
        Operand::Indexed(..) => Some(4),
        _ => None,
    }
}

/// Base cycles of the read-modify-write instructions (ASL, LSR, ROL, ROR when
/// `accumulator`; DEC, INC; and DCP, ISB, RLA, RRA, SLO, SRE when `indirect`)
pub open spec fn modify_cycles(op: Operand, accumulator: bool, indirect: bool) -> Option<int> {
    match op {
        Operand::Accumulator if accumulator => Some(2),
        Operand::Absolute(addr) => Some(if zero_page(addr) { 5 } else { 6 }),
        Operand::Indexed(addr, _) => Some(if zero_page(addr) { 6 } else { 7 }),
        Operand::PreIndexedIndirect(_) if indirect => Some(8),
        Operand::PostIndexedIndirect(_) if indirect => Some(8),
        _ => None,
    }
}

/// Base cycles of STA
pub open spec fn store_cycles(op: Operand) -> Option<int> {
    match op {
        Operand::Absolute(addr) => Some(if zero_page(addr) { 3 } else { 4 }),
        Operand::Indexed(addr, _) => Some(if zero_page(addr) { 4 } else { 5 }),
        Operand::PreIndexedIndirect(_) => Some(6),
        Operand::PostIndexedIndirect(_) => Some(6),
        _ => None,
    }
}

/// Base cycles of STX, STY (and SAX when `indirect`), which index only within the zero page
pub open spec fn index_store_cycles(op: Operand, indirect: bool) -> Option<int> {
    match op {
        Operand::Absolute(addr) => Some(if zero_page(addr) { 3 } else { 4 }),
        Operand::Indexed(addr, _) if zero_page(addr) => Some(4),
        Operand::PreIndexedIndirect(_) if indirect => Some(6),
        _ => None,
    }
}

/// Base cycles of CPX, CPY (and BIT, which has no immediate form)
pub open spec fn index_compare_cycles(op: Operand, immediate: bool) -> Option<int> {
    match op {
        Operand::Immediate(_) if immediate => Some(2),
        Operand::Absolute(addr) => Some(if zero_page(addr) { 3 } else { 4 }),
        _ => None,
    }
}

/// The number of cycles an instruction takes before the extra cycles of page
/// crossings and taken branches; `None` for the combinations of instruction
/// and operand that have no count (HLT among them)
pub open spec fn cycles_spec(i: Instruction) -> Option<int> {
    match i {
        Instruction::ADC(op) | Instruction::CMP(op) | Instruction::EOR(op) | Instruction::LDA(op)
        | Instruction::SBC(op) | Instruction::SBCX(op) => read_cycles(op),
        Instruction::AND(op) | Instruction::ORA(op) => logic_cycles(op),
        Instruction::LAX(op) => memory_read_cycles(op, true),
        Instruction::IGN(op) => memory_read_cycles(op, false),
        Instruction::LDX(op) | Instruction::LDY(op) => index_load_cycles(op),
        Instruction::ASL(op) | Instruction::LSR(op) | Instruction::ROL(op) | Instruction::ROR(op) => modify_cycles(op, true, false),
        Instruction::DEC(op) | Instruction::INC(op) => modify_cycles(op, false, false),
        Instruction::DCP(op) | Instruction::ISB(op) | Instruction::RLA(op) | Instruction::RRA(op)
        | Instruction::SLO(op) | Instruction::SRE(op) => modify_cycles(op, false, true),
        Instruction::STA(op) => store_cycles(op),
        Instruction::STX(op) | Instruction::STY(op) => index_store_cycles(op, false),
        Instruction::SAX(op) => index_store_cycles(op, true),
        Instruction::CPX(op) | Instruction::CPY(op) => index_compare_cycles(op, true),
        Instruction::BIT(op) => index_compare_cycles(op, false),
        Instruction::AHX(op) => match op {
            Operand::Absolute(_) => Some(5),
            Operand::PostIndexedIndirect(_) => Some(6),
            _ => None,
        },
        Instruction::JMP(op) => Some(if op is Absolute { 3 } else { 5 }),
        Instruction::ALR(_) | Instruction::ANC(_) | Instruction::ARR(_) | Instruction::AXS(_)
        | Instruction::BCC(_) | Instruction::BCS(_) | Instruction::BEQ(_) | Instruction::BMI(_)
        | Instruction::BNE(_) | Instruction::BPL(_) | Instruction::BVC(_) | Instruction::BVS(_)
        | Instruction::SKB(_) | Instruction::XAA(_) => Some(2),
        Instruction::JSR(_) => Some(6),
        Instruction::LAS(_) => Some(4),
        Instruction::SHY(_) | Instruction::SHX(_) | Instruction::TAS(_) => Some(5),
        Instruction::BRK => Some(7),
        Instruction::PHA | Instruction::PHP => Some(3),
        Instruction::PLA | Instruction::PLP => Some(4),
        Instruction::RTI | Instruction::RTS => Some(6),
        Instruction::HLT => None,
        _ => Some(2),
    }
}

/// The operand the instruction carries, if it carries one
pub open spec fn operand_of(i: Instruction) -> Option<Operand> {
    match i {
        Instruction::ADC(op) | Instruction::AHX(op) | Instruction::ALR(op) | Instruction::AND(op)
        | Instruction::ANC(op) | Instruction::ASL(op) | Instruction::ARR(op) | Instruction::AXS(op)
        | Instruction::BCC(op) | Instruction::BCS(op) | Instruction::BEQ(op) | Instruction::BIT(op)
        | Instruction::BMI(op) | Instruction::BNE(op) | Instruction::BPL(op) | Instruction::BVC(op)
        | Instruction::BVS(op) | Instruction::CMP(op) | Instruction::CPX(op) | Instruction::CPY(op)
        | Instruction::DCP(op) | Instruction::DEC(op) | Instruction::EOR(op) | Instruction::IGN(op)
        | Instruction::INC(op) | Instruction::ISB(op) | Instruction::JMP(op) | Instruction::JSR(op)
        | Instruction::LAS(op) | Instruction::LAX(op) | Instruction::LDA(op) | Instruction::LDX(op)
        | Instruction::LDY(op) | Instruction::LSR(op) | Instruction::ORA(op) | Instruction::RLA(op)
        | Instruction::ROL(op) | Instruction::ROR(op) | Instruction::RRA(op) | Instruction::SAX(op)
        | Instruction::SBC(op) | Instruction::SBCX(op) | Instruction::SHY(op) | Instruction::SHX(op)
        | Instruction::SKB(op) | Instruction::SLO(op) | Instruction::SRE(op) | Instruction::STA(op)
        | Instruction::STX(op) | Instruction::STY(op) | Instruction::TAS(op) | Instruction::XAA(op) => Some(op),
        _ => None,
    }
}

/// The instruction `i` with its operand replaced by `op` (an instruction
/// without an operand stays as it is)
pub open spec fn with_operand(i: Instruction, op: Operand) -> Instruction {
    match i {
        Instruction::ADC(_) => Instruction::ADC(op),
        Instruction::AHX(_) => Instruction::AHX(op),
        Instruction::ALR(_) => Instruction::ALR(op),
        Instruction::AND(_) => Instruction::AND(op),
        Instruction::ANC(_) => Instruction::ANC(op),
        Instruction::ASL(_) => Instruction::ASL(op),
        Instruction::ARR(_) => Instruction::ARR(op),
        Instruction::AXS(_) => Instruction::AXS(op),
        Instruction::BCC(_) => Instruction::BCC(op),
        Instruction::BCS(_) => Instruction::BCS(op),
        Instruction::BEQ(_) => Instruction::BEQ(op),
        Instruction::BIT(_) => Instruction::BIT(op),
        Instruction::BMI(_) => Instruction::BMI(op),
        Instruction::BNE(_) => Instruction::BNE(op),
        Instruction::BPL(_) => Instruction::BPL(op),
        Instruction::BVC(_) => Instruction::BVC(op),
        Instruction::BVS(_) => Instruction::BVS(op),
        Instruction::CMP(_) => Instruction::CMP(op),
        Instruction::CPX(_) => Instruction::CPX(op),
        Instruction::CPY(_) => Instruction::CPY(op),
        Instruction::DCP(_) => Instruction::DCP(op),
        Instruction::DEC(_) => Instruction::DEC(op),
        Instruction::EOR(_) => Instruction::EOR(op),
        Instruction::IGN(_) => Instruction::IGN(op),
        Instruction::INC(_) => Instruction::INC(op),
        Instruction::ISB(_) => Instruction::ISB(op),
        Instruction::JMP(_) => Instruction::JMP(op),
        Instruction::JSR(_) => Instruction::JSR(op),
        Instruction::LAS(_) => Instruction::LAS(op),
        Instruction::LAX(_) => Instruction::LAX(op),
        Instruction::LDA(_) => Instruction::LDA(op),
        Instruction::LDX(_) => Instruction::LDX(op),
        Instruction::LDY(_) => Instruction::LDY(op),
        Instruction::LSR(_) => Instruction::LSR(op),
        Instruction::ORA(_) => Instruction::ORA(op),
        Instruction::RLA(_) => Instruction::RLA(op),
        Instruction::ROL(_) => Instruction::ROL(op),
        Instruction::ROR(_) => Instruction::ROR(op),
        Instruction::RRA(_) => Instruction::RRA(op),
        Instruction::SAX(_) => Instruction::SAX(op),
        Instruction::SBC(_) => Instruction::SBC(op),
        Instruction::SBCX(_) => Instruction::SBCX(op),
        Instruction::SHY(_) => Instruction::SHY(op),
        Instruction::SHX(_) => Instruction::SHX(op),
        Instruction::SKB(_) => Instruction::SKB(op),
        Instruction::SLO(_) => Instruction::SLO(op),
        Instruction::SRE(_) => Instruction::SRE(op),
        Instruction::STA(_) => Instruction::STA(op),
        Instruction::STX(_) => Instruction::STX(op),
        Instruction::STY(_) => Instruction::STY(op),
        Instruction::TAS(_) => Instruction::TAS(op),
        Instruction::XAA(_) => Instruction::XAA(op),
        _ => i,
    }
}

/// True for the instructions that the processor's documentation leaves out
pub open spec fn is_undocumented(i: Instruction) -> bool {
    match i {
        Instruction::ALR(_) | Instruction::ANC(_) | Instruction::ARR(_) | Instruction::AXS(_)
        | Instruction::LAX(_) | Instruction::SAX(_) | Instruction::DCP(_) | Instruction::ISB(_)
        | Instruction::RLA(_) | Instruction::RRA(_) | Instruction::SLO(_) | Instruction::SRE(_)
        | Instruction::IGN(_) | Instruction::SKB(_) | Instruction::SBCX(_) | Instruction::NOPX => true,
        _ => false,
    }
}

impl Instruction {
    /// Get the base number of cycles, EXCLUDING additional cycles cause by "oops cycles" (where
    /// indexed memory accesses hopped a page) and cycles lost during branching and jumping
    pub fn base_cycles(&self) -> (r: u64)
        requires
            cycles_spec(*self) is Some,
        ensures
            cycles_spec(*self) == Some(r as int),
    {
        match *self {
            Instruction::ADC(Operand::Immediate(_)) => 2,
            Instruction::ADC(Operand::Absolute(addr)) if addr < 0x0100 => 3,
            Instruction::ADC(Operand::Indexed(addr, _)) if addr < 0x0100 => 4,
            Instruction::ADC(Operand::Absolute(_)) => 4,
            Instruction::ADC(Operand::Indexed(..)) => 4,
            Instruction::ADC(Operand::PreIndexedIndirect(_)) => 6,
            Instruction::ADC(Operand::PostIndexedIndirect(_)) => 5,

            Instruction::AHX(Operand::Absolute(_)) => 5,
            Instruction::AHX(Operand::PostIndexedIndirect(_)) => 6,

            Instruction::ALR(..) => 2,

            Instruction::AND(Operand::Immediate(_)) => 2,
            Instruction::AND(Operand::Absolute(addr)) if addr < 0x0100 => 2,
            Instruction::AND(Operand::Indexed(addr, _)) if addr < 0x0100 => 3,
            Instruction::AND(Operand::Absolute(_)) => 4,
            Instruction::AND(Operand::Indexed(..)) => 4,
            Instruction::AND(Operand::PreIndexedIndirect(_)) => 6,
            Instruction::AND(Operand::PostIndexedIndirect(_)) => 5,

            Instruction::ANC(..) => 2,

            Instruction::ASL(Operand::Accumulator) => 2,
            Instruction::ASL(Operand::Absolute(addr)) if addr < 0x0100 => 5,
            Instruction::ASL(Operand::Indexed(addr, _)) if addr < 0x0100 => 6,
            Instruction::ASL(Operand::Absolute(_)) => 6,
            Instruction::ASL(Operand::Indexed(..)) => 7,

            Instruction::ARR(..) => 2,
            Instruction::AXS(..) => 2,

            Instruction::BCC(..) => 2,
            Instruction::BCS(..) => 2,
            Instruction::BEQ(..) => 2,

            Instruction::BIT(Operand::Absolute(addr)) if addr < 0x0100 => 3,
            Instruction::BIT(Operand::Absolute(_)) => 4,

            Instruction::BMI(..) => 2,
            Instruction::BNE(..) => 2,
            Instruction::BPL(..) => 2,

            Instruction::BVC(..) => 2,
            Instruction::BVS(..) => 2,

            Instruction::CMP(Operand::Immediate(_)) => 2,
            Instruction::CMP(Operand::Absolute(addr)) if addr < 0x0100 => 3,
            Instruction::CMP(Operand::Indexed(addr, _)) if addr < 0x0100 => 4,
            Instruction::CMP(Operand::Absolute(_)) => 4,
            Instruction::CMP(Operand::Indexed(..)) => 4,
            Instruction::CMP(Operand::PreIndexedIndirect(_)) => 6,
            Instruction::CMP(Operand::PostIndexedIndirect(_)) => 5,

            Instruction::CPX(Operand::Immediate(_)) => 2,
            Instruction::CPX(Operand::Absolute(addr)) if addr < 0x0100 => 3,
            Instruction::CPX(Operand::Absolute(_)) => 4,

            Instruction::CPY(Operand::Immediate(_)) => 2,
            Instruction::CPY(Operand::Absolute(addr)) if addr < 0x0100 => 3,
            Instruction::CPY(Operand::Absolute(_)) => 4,

            Instruction::DCP(Operand::Absolute(addr)) if addr < 0x0100 => 5,
            Instruction::DCP(Operand::Indexed(addr, _)) if addr < 0x0100 => 6,
            Instruction::DCP(Operand::Absolute(_)) => 6,
            Instruction::DCP(Operand::Indexed(..)) => 7,
            Instruction::DCP(Operand::PreIndexedIndirect(_)) => 8,
            Instruction::DCP(Operand::PostIndexedIndirect(_)) => 8,

            Instruction::DEC(Operand::Absolute(addr)) if addr < 0x0100 => 5,
            Instruction::DEC(Operand::Indexed(addr, _)) if addr < 0x0100 => 6,
            Instruction::DEC(Operand::Absolute(_)) => 6,
            Instruction::DEC(Operand::Indexed(..)) => 7,

            Instruction::EOR(Operand::Immediate(_)) => 2,
            Instruction::EOR(Operand::Absolute(addr)) if addr < 0x0100 => 3,
            Instruction::EOR(Operand::Indexed(addr, _)) if addr < 0x0100 => 4,
            Instruction::EOR(Operand::Absolute(_)) => 4,
            Instruction::EOR(Operand::Indexed(..)) => 4,
            Instruction::EOR(Operand::PreIndexedIndirect(_)) => 6,
            Instruction::EOR(Operand::PostIndexedIndirect(_)) => 5,

            Instruction::IGN(Operand::Absolute(addr)) if addr < 0x0100 => 3,
            Instruction::IGN(Operand::Indexed(addr, _)) if addr < 0x0100 => 4,
            Instruction::IGN(Operand::Absolute(_)) => 4,
            Instruction::IGN(Operand::Indexed(..)) => 4,

            Instruction::INC(Operand::Absolute(addr)) if addr < 0x0100 => 5,
            Instruction::INC(Operand::Indexed(addr, _)) if addr < 0x0100 => 6,
            Instruction::INC(Operand::Absolute(_)) => 6,
            Instruction::INC(Operand::Indexed(..)) => 7,

            Instruction::ISB(Operand::Absolute(addr)) if addr < 0x0100 => 5,
            Instruction::ISB(Operand::Indexed(addr, _)) if addr < 0x0100 => 6,
            Instruction::ISB(Operand::Absolute(_)) => 6,
            Instruction::ISB(Operand::Indexed(..)) => 7,
            Instruction::ISB(Operand::PreIndexedIndirect(_)) => 8,
            Instruction::ISB(Operand::PostIndexedIndirect(_)) => 8,

            Instruction::JMP(Operand::Absolute(_)) => 3,
            Instruction::JMP(..) => 5,

            Instruction::JSR(..) => 6,
            Instruction::LAS(..) => 4,

            Instruction::LAX(Operand::Absolute(addr)) if addr < 0x0100 => 3,
            Instruction::LAX(Operand::Indexed(addr, _)) if addr < 0x0100 => 4,
            Instruction::LAX(Operand::Absolute(_)) => 4,
            Instruction::LAX(Operand::Indexed(..)) => 4,
            Instruction::LAX(Operand::PreIndexedIndirect(_)) => 6,
            Instruction::LAX(Operand::PostIndexedIndirect(_)) => 5,

            Instruction::LDA(Operand::Immediate(_)) => 2,
            Instruction::LDA(Operand::Absolute(addr)) if addr < 0x0100 => 3,
            Instruction::LDA(Operand::Indexed(addr, _)) if addr < 0x0100 => 4,
            Instruction::LDA(Operand::Absolute(_)) => 4,
            Instruction::LDA(Operand::Indexed(..)) => 4,
            Instruction::LDA(Operand::PreIndexedIndirect(_)) => 6,
            Instruction::LDA(Operand::PostIndexedIndirect(_)) => 5,

            Instruction::LDX(Operand::Immediate(_)) => 2,
            Instruction::LDX(Operand::Absolute(addr)) if addr < 0x0100 => 3,
            Instruction::LDX(Operand::Indexed(addr, _)) if addr < 0x0100 => 4,
            Instruction::LDX(Operand::Absolute(_)) => 4,
            Instruction::LDX(Operand::Indexed(..)) => 4,

            Instruction::LDY(Operand::Immediate(_)) => 2,
            Instruction::LDY(Operand::Absolute(addr)) if addr < 0x0100 => 3,
            Instruction::LDY(Operand::Indexed(addr, _)) if addr < 0x0100 => 4,
            Instruction::LDY(Operand::Absolute(_)) => 4,
            Instruction::LDY(Operand::Indexed(..)) => 4,

            Instruction::LSR(Operand::Accumulator) => 2,
            Instruction::LSR(Operand::Absolute(addr)) if addr < 0x0100 => 5,
            Instruction::LSR(Operand::Indexed(addr, _)) if addr < 0x0100 => 6,
            Instruction::LSR(Operand::Absolute(_)) => 6,
            Instruction::LSR(Operand::Indexed(..)) => 7,

            Instruction::ORA(Operand::Immediate(_)) => 2,
            Instruction::ORA(Operand::Absolute(addr)) if addr < 0x0100 => 2,
            Instruction::ORA(Operand::Indexed(addr, _)) if addr < 0x0100 => 3,
            Instruction::ORA(Operand::Absolute(_)) => 4,
            Instruction::ORA(Operand::Indexed(..)) => 4,
            Instruction::ORA(Operand::PreIndexedIndirect(_)) => 6,
            Instruction::ORA(Operand::PostIndexedIndirect(_)) => 5,

            Instruction::RLA(Operand::Absolute(addr)) if addr < 0x0100 => 5,
            Instruction::RLA(Operand::Indexed(addr, _)) if addr < 0x0100 => 6,
            Instruction::RLA(Operand::Absolute(_)) => 6,
            Instruction::RLA(Operand::Indexed(..)) => 7,
            Instruction::RLA(Operand::PreIndexedIndirect(_)) => 8,
            Instruction::RLA(Operand::PostIndexedIndirect(_)) => 8,

            Instruction::ROL(Operand::Accumulator) => 2,
            Instruction::ROL(Operand::Absolute(addr)) if addr < 0x0100 => 5,
            Instruction::ROL(Operand::Indexed(addr, _)) if addr < 0x0100 => 6,
            Instruction::ROL(Operand::Absolute(_)) => 6,
            Instruction::ROL(Operand::Indexed(..)) => 7,

            Instruction::ROR(Operand::Accumulator) => 2,
            Instruction::ROR(Operand::Absolute(addr)) if addr < 0x0100 => 5,
            Instruction::ROR(Operand::Indexed(addr, _)) if addr < 0x0100 => 6,
            Instruction::ROR(Operand::Absolute(_)) => 6,
            Instruction::ROR(Operand::Indexed(..)) => 7,

            Instruction::RRA(Operand::Absolute(addr)) if addr < 0x0100 => 5,
            Instruction::RRA(Operand::Indexed(addr, _)) if addr < 0x0100 => 6,
            Instruction::RRA(Operand::Absolute(_)) => 6,
            Instruction::RRA(Operand::Indexed(..)) => 7,
            Instruction::RRA(Operand::PreIndexedIndirect(_)) => 8,
            Instruction::RRA(Operand::PostIndexedIndirect(_)) => 8,

            Instruction::SAX(Operand::Absolute(addr)) if addr < 0x0100 => 3,
            Instruction::SAX(Operand::Indexed(addr, _)) if addr < 0x0100 => 4,
            Instruction::SAX(Operand::Absolute(_)) => 4,
            Instruction::SAX(Operand::PreIndexedIndirect(_)) => 6,

            Instruction::SBC(Operand::Immediate(_)) => 2,
            Instruction::SBC(Operand::Absolute(addr)) if addr < 0x0100 => 3,
            Instruction::SBC(Operand::Indexed(addr, _)) if addr < 0x0100 => 4,
            Instruction::SBC(Operand::Absolute(_)) => 4,
            Instruction::SBC(Operand::Indexed(..)) => 4,
            Instruction::SBC(Operand::PreIndexedIndirect(_)) => 6,
            Instruction::SBC(Operand::PostIndexedIndirect(_)) => 5,
            Instruction::SBCX(Operand::Immediate(_)) => 2,
            Instruction::SBCX(Operand::Absolute(addr)) if addr < 0x0100 => 3,
            Instruction::SBCX(Operand::Indexed(addr, _)) if addr < 0x0100 => 4,
            Instruction::SBCX(Operand::Absolute(_)) => 4,
            Instruction::SBCX(Operand::Indexed(..)) => 4,
            Instruction::SBCX(Operand::PreIndexedIndirect(_)) => 6,
            Instruction::SBCX(Operand::PostIndexedIndirect(_)) => 5,

            Instruction::SHY(..) => 5,
            Instruction::SHX(..) => 5,
            Instruction::SKB(..) => 2,

            Instruction::SLO(Operand::Absolute(addr)) if addr < 0x0100 => 5,
            Instruction::SLO(Operand::Indexed(addr, _)) if addr < 0x0100 => 6,
            Instruction::SLO(Operand::Absolute(_)) => 6,
            Instruction::SLO(Operand::Indexed(..)) => 7,
            Instruction::SLO(Operand::PreIndexedIndirect(_)) => 8,
            Instruction::SLO(Operand::PostIndexedIndirect(_)) => 8,

            Instruction::SRE(Operand::Absolute(addr)) if addr < 0x0100 => 5,
            Instruction::SRE(Operand::Indexed(addr, _)) if addr < 0x0100 => 6,
            Instruction::SRE(Operand::Absolute(_)) => 6,
            Instruction::SRE(Operand::Indexed(..)) => 7,
            Instruction::SRE(Operand::PreIndexedIndirect(_)) => 8,
            Instruction::SRE(Operand::PostIndexedIndirect(_)) => 8,

            Instruction::STA(Operand::Absolute(addr)) if addr < 0x0100 => 3,
            Instruction::STA(Operand::Indexed(addr, _)) if addr < 0x0100 => 4,
            Instruction::STA(Operand::Absolute(_)) => 4,
            Instruction::STA(Operand::Indexed(..)) => 5,
            Instruction::STA(Operand::PreIndexedIndirect(_)) => 6,
            Instruction::STA(Operand::PostIndexedIndirect(_)) => 6,

            Instruction::STX(Operand::Absolute(addr)) if addr < 0x0100 => 3,
            Instruction::STX(Operand::Indexed(addr, _)) if addr < 0x0100 => 4,
            Instruction::STX(Operand::Absolute(_)) => 4,

            Instruction::STY(Operand::Absolute(addr)) if addr < 0x0100 => 3,
            Instruction::STY(Operand::Indexed(addr, _)) if addr < 0x0100 => 4,
            Instruction::STY(Operand::Absolute(_)) => 4,

            Instruction::TAS(..) => 5,
            Instruction::XAA(..) => 2,

            Instruction::BRK => 7,
            Instruction::CLC => 2,
            Instruction::CLD => 2,
            Instruction::CLI => 2,
            Instruction::CLV => 2,
            Instruction::DEX => 2,
            Instruction::DEY => 2,
            Instruction::INX => 2,
            Instruction::INY => 2,
            Instruction::NOP | Instruction::NOPX => 2,
            Instruction::PHA => 3,
            Instruction::PHP => 3,
            Instruction::PLA => 4,
            Instruction::PLP => 4,
            Instruction::RTI => 6,
            Instruction::RTS => 6,
            Instruction::SEC => 2,
            Instruction::SED => 2,
            Instruction::SEI => 2,
            Instruction::TAX => 2,
            Instruction::TAY => 2,
            Instruction::TSX => 2,
            Instruction::TXA => 2,
            Instruction::TXS => 2,
            Instruction::TYA => 2,

                        _ => {
                proof {
                    assert(false);
                }
                0
            },
        }
    }

    /// The operand the instruction carries, if it carries one
    pub fn operand(self) -> (r: Option<Operand>)
        ensures
            r == operand_of(self),
    {
        match self {
            // Instructions with operands
            Instruction::ADC(op) |
            Instruction::AHX(op) |
            Instruction::ALR(op) |
            Instruction::AND(op) |
            Instruction::ANC(op) |
            Instruction::ASL(op) |
            Instruction::ARR(op) |
            Instruction::AXS(op) |
            Instruction::BCC(op) |
            Instruction::BCS(op) |
            Instruction::BEQ(op) |
            Instruction::BIT(op) |
            Instruction::BMI(op) |
            Instruction::BNE(op) |
            Instruction::BPL(op) |
            Instruction::BVC(op) |
            Instruction::BVS(op) |
            Instruction::CMP(op) |
            Instruction::CPX(op) |
            Instruction::CPY(op) |
            Instruction::DCP(op) |
            Instruction::DEC(op) |
            Instruction::EOR(op) |
            Instruction::IGN(op) |
            Instruction::INC(op) |
            Instruction::ISB(op) |
            Instruction::JMP(op) |
            Instruction::JSR(op) |
            Instruction::LAS(op) |
            Instruction::LAX(op) |
            Instruction::LDA(op) |
            Instruction::LDX(op) |
            Instruction::LDY(op) |
            Instruction::LSR(op) |
            Instruction::ORA(op) |
            Instruction::RLA(op) |
            Instruction::ROL(op) |
            Instruction::ROR(op) |
            Instruction::RRA(op) |
            Instruction::SAX(op) |
            Instruction::SBC(op) | Instruction::SBCX(op) |
            Instruction::SHY(op) |
            Instruction::SHX(op) |
            Instruction::SKB(op) |
            Instruction::SLO(op) |
            Instruction::SRE(op) |
            Instruction::STA(op) |
            Instruction::STX(op) |
            Instruction::STY(op) |
            Instruction::TAS(op) |
            Instruction::XAA(op) => Some(op),

            // Why not use _ here? Because I want to be absolutely sure I'm being exhaustive.
            Instruction::BRK |
            Instruction::CLC |
            Instruction::CLD |
            Instruction::CLI |
            Instruction::CLV |
            Instruction::DEX |
            Instruction::DEY |
            Instruction::HLT |
            Instruction::INX |
            Instruction::INY |
            Instruction::NOP | Instruction::NOPX |
            Instruction::PHA |
            Instruction::PHP |
            Instruction::PLA |
            Instruction::PLP |
            Instruction::RTI |
            Instruction::RTS |
            Instruction::SEC |
            Instruction::SED |
            Instruction::SEI |
            Instruction::TAX |
            Instruction::TAY |
            Instruction::TSX |
            Instruction::TXA |
            Instruction::TXS |
            Instruction::TYA => None,
        }
    }

    /// True for the instructions that the processor's documentation leaves out
    pub fn undocumented(&self) -> (r: bool)
        ensures
            r == is_undocumented(*self),
    {
        match *self {
            Instruction::ALR(_) |
            Instruction::ANC(_) |
            Instruction::ARR(_) |
            Instruction::AXS(_) |
            Instruction::LAX(_) |
            Instruction::SAX(_) |
            Instruction::DCP(_) |
            Instruction::ISB(_) |
            Instruction::RLA(_) |
            Instruction::RRA(_) |
            Instruction::SLO(_) |
            Instruction::SRE(_) |
            Instruction::IGN(_) |
            Instruction::SKB(_) |
            Instruction::SBCX(_) |
            Instruction::NOPX => true,

                        _ => false,
        }
    }
}

/// The mnemonic of the instruction, as assemblers write it
pub open spec fn mnemonic_text(i: Instruction) -> Seq<char> {
    match i {
        Instruction::ADC(_) => "ADC"@,
        Instruction::AHX(_) => "AHX"@,
        Instruction::ALR(_) => "ALR"@,
        Instruction::AND(_) => "AND"@,
        Instruction::ANC(_) => "ANC"@,
        Instruction::ASL(_) => "ASL"@,
        Instruction::ARR(_) => "ARR"@,
        Instruction::AXS(_) => "AXS"@,
        Instruction::BCC(_) => "BCC"@,
        Instruction::BCS(_) => "BCS"@,
        Instruction::BEQ(_) => "BEQ"@,
        Instruction::BIT(_) => "BIT"@,
        Instruction::BMI(_) => "BMI"@,
        Instruction::BNE(_) => "BNE"@,
        Instruction::BPL(_) => "BPL"@,
        Instruction::BVC(_) => "BVC"@,
        Instruction::BVS(_) => "BVS"@,
        Instruction::CMP(_) => "CMP"@,
        Instruction::CPX(_) => "CPX"@,
        Instruction::CPY(_) => "CPY"@,
        Instruction::DCP(_) => "DCP"@,
        Instruction::DEC(_) => "DEC"@,
        Instruction::EOR(_) => "EOR"@,
        Instruction::IGN(_) => "NOP"@,
        Instruction::INC(_) => "INC"@,
        Instruction::ISB(_) => "ISB"@,
        Instruction::JMP(_) => "JMP"@,
        Instruction::JSR(_) => "JSR"@,
        Instruction::LAS(_) => "LAS"@,
        Instruction::LAX(_) => "LAX"@,
        Instruction::LDA(_) => "LDA"@,
        Instruction::LDX(_) => "LDX"@,
        Instruction::LDY(_) => "LDY"@,
        Instruction::LSR(_) => "LSR"@,
        Instruction::ORA(_) => "ORA"@,
        Instruction::RLA(_) => "RLA"@,
        Instruction::ROL(_) => "ROL"@,
        Instruction::ROR(_) => "ROR"@,
        Instruction::RRA(_) => "RRA"@,
        Instruction::SAX(_) => "SAX"@,
        Instruction::SBC(_) => "SBC"@,
        Instruction::SBCX(_) => "SBC"@,
        Instruction::SHY(_) => "SHY"@,
        Instruction::SHX(_) => "SHX"@,
        Instruction::SKB(_) => "NOP"@,
        Instruction::SLO(_) => "SLO"@,
        Instruction::SRE(_) => "SRE"@,
        Instruction::STA(_) => "STA"@,
        Instruction::STX(_) => "STX"@,
        Instruction::STY(_) => "STY"@,
        Instruction::TAS(_) => "TAS"@,
        Instruction::XAA(_) => "XAA"@,
        Instruction::BRK => "BRK"@,
        Instruction::CLC => "CLC"@,
        Instruction::CLD => "CLD"@,
        Instruction::CLI => "CLI"@,
        Instruction::CLV => "CLV"@,
        Instruction::DEX => "DEX"@,
        Instruction::DEY => "DEY"@,
        Instruction::HLT => "HLT"@,
        Instruction::INX => "INX"@,
        Instruction::INY => "INY"@,
        Instruction::NOP => "NOP"@,
        Instruction::NOPX => "NOP"@,
        Instruction::PHA => "PHA"@,
        Instruction::PHP => "PHP"@,
        Instruction::PLA => "PLA"@,
        Instruction::PLP => "PLP"@,
        Instruction::RTI => "RTI"@,
        Instruction::RTS => "RTS"@,
        Instruction::SEC => "SEC"@,
        Instruction::SED => "SED"@,
        Instruction::SEI => "SEI"@,
        Instruction::TAX => "TAX"@,
        Instruction::TAY => "TAY"@,
        Instruction::TSX => "TSX"@,
        Instruction::TXA => "TXA"@,
        Instruction::TXS => "TXS"@,
        Instruction::TYA => "TYA"@,
    }
}

/// The assembler text of the instruction: its mnemonic, then its operand if it has one
pub open spec fn instruction_text(i: Instruction) -> Seq<char> {
    match operand_of(i) {
        Some(op) => mnemonic_text(i) + " "@ + operand_text(op),
        None => mnemonic_text(i),
    }
}

/// A line of a trace of execution, as the nestest "golden log" writes it: a
/// star before the mnemonic of an undocumented instruction, then what the
/// operand shows; an indirect jump shows the target read from memory
pub open spec fn instruction_log_text(s: CpuView, i: Instruction) -> Result<Seq<char>, OperandError> {
    let head = (if is_undocumented(i) {
        "*"@
    } else {
        " "@
    }) + mnemonic_text(i);
    match i {
        Instruction::JMP(op) | Instruction::JSR(op) => match op {
            Operand::Indirect(addr) => match cell_read_le_u16(s.mem, addr as u64) {
                Ok(target) => Ok(head + " "@ + operand_text(op) + " = "@ + hex4(target)),
                Err(e) => Err(OperandError::ErrorAccessingMemory(e)),
            },
            _ => Ok(head + " "@ + operand_text(op)),
        },
        _ => match operand_of(i) {
            Some(op) => match operand_log_text(s, op) {
                Ok(t) => Ok(head + " "@ + t),
                Err(e) => Err(e),
            },
            None => Ok(head),
        },
    }
}

impl Instruction {
    /// The mnemonic of the instruction, such as `LDA`
    pub fn mnemonic(&self) -> (r: &'static str)
        ensures
            r@ == mnemonic_text(*self),
    {
        match *self {
            Instruction::ADC(_) => "ADC",
            Instruction::AHX(_) => "AHX",
            Instruction::ALR(_) => "ALR",
            Instruction::AND(_) => "AND",
            Instruction::ANC(_) => "ANC",
            Instruction::ASL(_) => "ASL",
            Instruction::ARR(_) => "ARR",
            Instruction::AXS(_) => "AXS",
            Instruction::BCC(_) => "BCC",
            Instruction::BCS(_) => "BCS",
            Instruction::BEQ(_) => "BEQ",
            Instruction::BIT(_) => "BIT",
            Instruction::BMI(_) => "BMI",
            Instruction::BNE(_) => "BNE",
            Instruction::BPL(_) => "BPL",
            Instruction::BVC(_) => "BVC",
            Instruction::BVS(_) => "BVS",
            Instruction::CMP(_) => "CMP",
            Instruction::CPX(_) => "CPX",
            Instruction::CPY(_) => "CPY",
            Instruction::DCP(_) => "DCP",
            Instruction::DEC(_) => "DEC",
            Instruction::EOR(_) => "EOR",
            Instruction::IGN(_) => "NOP",
            Instruction::INC(_) => "INC",
            Instruction::ISB(_) => "ISB",
            Instruction::JMP(_) => "JMP",
            Instruction::JSR(_) => "JSR",
            Instruction::LAS(_) => "LAS",
            Instruction::LAX(_) => "LAX",
            Instruction::LDA(_) => "LDA",
            Instruction::LDX(_) => "LDX",
            Instruction::LDY(_) => "LDY",
            Instruction::LSR(_) => "LSR",
            Instruction::ORA(_) => "ORA",
            Instruction::RLA(_) => "RLA",
            Instruction::ROL(_) => "ROL",
            Instruction::ROR(_) => "ROR",
            Instruction::RRA(_) => "RRA",
            Instruction::SAX(_) => "SAX",
            Instruction::SBC(_) => "SBC",
            Instruction::SBCX(_) => "SBC",
            Instruction::SHY(_) => "SHY",
            Instruction::SHX(_) => "SHX",
            Instruction::SKB(_) => "NOP",
            Instruction::SLO(_) => "SLO",
            Instruction::SRE(_) => "SRE",
            Instruction::STA(_) => "STA",
            Instruction::STX(_) => "STX",
            Instruction::STY(_) => "STY",
            Instruction::TAS(_) => "TAS",
            Instruction::XAA(_) => "XAA",
            Instruction::BRK => "BRK",
            Instruction::CLC => "CLC",
            Instruction::CLD => "CLD",
            Instruction::CLI => "CLI",
            Instruction::CLV => "CLV",
            Instruction::DEX => "DEX",
            Instruction::DEY => "DEY",
            Instruction::HLT => "HLT",
            Instruction::INX => "INX",
            Instruction::INY => "INY",
            Instruction::NOP => "NOP",
            Instruction::NOPX => "NOP",
            Instruction::PHA => "PHA",
            Instruction::PHP => "PHP",
            Instruction::PLA => "PLA",
            Instruction::PLP => "PLP",
            Instruction::RTI => "RTI",
            Instruction::RTS => "RTS",
            Instruction::SEC => "SEC",
            Instruction::SED => "SED",
            Instruction::SEI => "SEI",
            Instruction::TAX => "TAX",
            Instruction::TAY => "TAY",
            Instruction::TSX => "TSX",
            Instruction::TXA => "TXA",
            Instruction::TXS => "TXS",
            Instruction::TYA => "TYA",
        }
    }

    /// Returns the assembler text of the instruction, such as `LDA #$01`
    pub fn to_string(&self) -> (s: String)
        ensures
            s@ == instruction_text(*self),
    {
        let mut s = String::new();
        push_text(&mut s, self.mnemonic());
        match self.operand() {
            Some(op) => {
                push_text(&mut s, " ");
                push_text(&mut s, op.to_string().as_str());
            },
            None => {},
        }
        s
    }

    /// Gets a string in the form of a line of the nestest "golden log"
    pub fn get_log_string<M: Memory>(&self, cpu: &Mos6502<M>) -> (r: Result<String, OperandError>)
        ensures
            text_result(r) == instruction_log_text(cpu@, *self),
    {
        let mut s = String::new();
        if self.undocumented() {
            push_text(&mut s, "*");
        } else {
            push_text(&mut s, " ");
        }
        push_text(&mut s, self.mnemonic());
        let ghost head = s@;
        match *self {
            Instruction::JMP(op) | Instruction::JSR(op) => {
                push_text(&mut s, " ");
                push_text(&mut s, op.to_string().as_str());
                if let Operand::Indirect(addr) = op {
                    // This is not how the processor finds the target (it stays on the
                    // pointer's page), but it is what the golden log shows
                    let target = match cpu.mem.get_le_u16(addr as u64) {
                        Ok(t) => t,
                        Err(e) => return Err(OperandError::ErrorAccessingMemory(e)),
                    };
                    push_text(&mut s, " = ");
                    push_hex4(&mut s, target);
                }
                proof {
                    assert(text_result::<OperandError>(Ok(s)) == instruction_log_text(cpu@, *self));
                }
                Ok(s)
            },
            _ => match self.operand() {
                Some(op) => {
                    let detail = match op.get_log_string(cpu) {
                        Ok(t) => t,
                        Err(e) => return Err(e),
                    };
                    push_text(&mut s, " ");
                    push_text(&mut s, detail.as_str());
                    Ok(s)
                },
                None => Ok(s),
            },
        }
    }
}

} // verus!
