use vstd::prelude::*;
use crate::cpu::RegisterName;
use crate::instruction::Instruction;
use crate::operand::Operand;

verus! {

/// Represents an error that occurred while decoding an instruction
#[derive(Clone, Copy, Debug, PartialEq, Eq, Structural)]
pub enum DecodeError {
    /// Indicates that the first byte is not the opcode of a known instruction
    UnknownOpcode,
}

/// The byte at `i`, or zero past the end: a read past the end of the stream
/// leaves the zeroed buffer as it was
pub open spec fn byte_at(bytes: Seq<u8>, i: int) -> u8 {
    if 0 <= i < bytes.len() {
        bytes[i]
    } else {
        0
    }
}

/// The instruction that `opcode` introduces, given the byte `b1` that follows
/// it and the little-endian word `w` of the two bytes that follow it, and the
/// number of bytes the instruction takes; `None` for an unknown opcode
pub open spec fn opcode_spec(opcode: u8, b1: u8, w: u16) -> Option<(Instruction, int)> {
    match opcode {
        0x69 => Some((Instruction::ADC(Operand::Immediate(b1)), 2)),
        0x65 => Some((Instruction::ADC(Operand::Absolute(b1 as u16)), 2)),
        0x75 => Some((Instruction::ADC(Operand::Indexed(b1 as u16, RegisterName::X)), 2)),
        0x6D => Some((Instruction::ADC(Operand::Absolute(w)), 3)),
        0x7D => Some((Instruction::ADC(Operand::Indexed(w, RegisterName::X)), 3)),
        0x79 => Some((Instruction::ADC(Operand::Indexed(w, RegisterName::Y)), 3)),
        0x61 => Some((Instruction::ADC(Operand::PreIndexedIndirect(b1)), 2)),
        0x71 => Some((Instruction::ADC(Operand::PostIndexedIndirect(b1)), 2)),
        0x29 => Some((Instruction::AND(Operand::Immediate(b1)), 2)),
        0x25 => Some((Instruction::AND(Operand::Absolute(b1 as u16)), 2)),
        0x35 => Some((Instruction::AND(Operand::Indexed(b1 as u16, RegisterName::X)), 2)),
        0x2D => Some((Instruction::AND(Operand::Absolute(w)), 3)),
        0x3D => Some((Instruction::AND(Operand::Indexed(w, RegisterName::X)), 3)),
        0x39 => Some((Instruction::AND(Operand::Indexed(w, RegisterName::Y)), 3)),
        0x21 => Some((Instruction::AND(Operand::PreIndexedIndirect(b1)), 2)),
        0x31 => Some((Instruction::AND(Operand::PostIndexedIndirect(b1)), 2)),
        0x0A => Some((Instruction::ASL(Operand::Accumulator), 1)),
        0x06 => Some((Instruction::ASL(Operand::Absolute(b1 as u16)), 2)),
        0x16 => Some((Instruction::ASL(Operand::Indexed(b1 as u16, RegisterName::X)), 2)),
        0x0E => Some((Instruction::ASL(Operand::Absolute(w)), 3)),
        0x1E => Some((Instruction::ASL(Operand::Indexed(w, RegisterName::X)), 3)),
        0x90 => Some((Instruction::BCC(Operand::Offset(b1 as i8)), 2)),
        0xB0 => Some((Instruction::BCS(Operand::Offset(b1 as i8)), 2)),
        0xF0 => Some((Instruction::BEQ(Operand::Offset(b1 as i8)), 2)),
        0x24 => Some((Instruction::BIT(Operand::Absolute(b1 as u16)), 2)),
        0x2C => Some((Instruction::BIT(Operand::Absolute(w)), 3)),
        0x30 => Some((Instruction::BMI(Operand::Offset(b1 as i8)), 2)),
        0xD0 => Some((Instruction::BNE(Operand::Offset(b1 as i8)), 2)),
        0x10 => Some((Instruction::BPL(Operand::Offset(b1 as i8)), 2)),
        0x00 => Some((Instruction::BRK, 1)),
        0x50 => Some((Instruction::BVC(Operand::Offset(b1 as i8)), 2)),
        0x70 => Some((Instruction::BVS(Operand::Offset(b1 as i8)), 2)),
        0x18 => Some((Instruction::CLC, 1)),
        0xD8 => Some((Instruction::CLD, 1)),
        0x58 => Some((Instruction::CLI, 1)),
        0xB8 => Some((Instruction::CLV, 1)),
        0xC9 => Some((Instruction::CMP(Operand::Immediate(b1)), 2)),
        0xC5 => Some((Instruction::CMP(Operand::Absolute(b1 as u16)), 2)),
        0xD5 => Some((Instruction::CMP(Operand::Indexed(b1 as u16, RegisterName::X)), 2)),
        0xCD => Some((Instruction::CMP(Operand::Absolute(w)), 3)),
        0xDD => Some((Instruction::CMP(Operand::Indexed(w, RegisterName::X)), 3)),
        0xD9 => Some((Instruction::CMP(Operand::Indexed(w, RegisterName::Y)), 3)),
        0xC1 => Some((Instruction::CMP(Operand::PreIndexedIndirect(b1)), 2)),
        0xD1 => Some((Instruction::CMP(Operand::PostIndexedIndirect(b1)), 2)),
        0xE0 => Some((Instruction::CPX(Operand::Immediate(b1)), 2)),
        0xE4 => Some((Instruction::CPX(Operand::Absolute(b1 as u16)), 2)),
        0xEC => Some((Instruction::CPX(Operand::Absolute(w)), 3)),
        0xC0 => Some((Instruction::CPY(Operand::Immediate(b1)), 2)),
        0xC4 => Some((Instruction::CPY(Operand::Absolute(b1 as u16)), 2)),
        0xCC => Some((Instruction::CPY(Operand::Absolute(w)), 3)),
        0xC6 => Some((Instruction::DEC(Operand::Absolute(b1 as u16)), 2)),
        0xD6 => Some((Instruction::DEC(Operand::Indexed(b1 as u16, RegisterName::X)), 2)),
        0xCE => Some((Instruction::DEC(Operand::Absolute(w)), 3)),
        0xDE => Some((Instruction::DEC(Operand::Indexed(w, RegisterName::X)), 3)),
        0xCA => Some((Instruction::DEX, 1)),
        0x88 => Some((Instruction::DEY, 1)),
        0x49 => Some((Instruction::EOR(Operand::Immediate(b1)), 2)),
        0x45 => Some((Instruction::EOR(Operand::Absolute(b1 as u16)), 2)),
        0x55 => Some((Instruction::EOR(Operand::Indexed(b1 as u16, RegisterName::X)), 2)),
        0x4D => Some((Instruction::EOR(Operand::Absolute(w)), 3)),
        0x5D => Some((Instruction::EOR(Operand::Indexed(w, RegisterName::X)), 3)),
        0x59 => Some((Instruction::EOR(Operand::Indexed(w, RegisterName::Y)), 3)),
        0x41 => Some((Instruction::EOR(Operand::PreIndexedIndirect(b1)), 2)),
        0x51 => Some((Instruction::EOR(Operand::PostIndexedIndirect(b1)), 2)),
        0xE6 => Some((Instruction::INC(Operand::Absolute(b1 as u16)), 2)),
        0xF6 => Some((Instruction::INC(Operand::Indexed(b1 as u16, RegisterName::X)), 2)),
        0xEE => Some((Instruction::INC(Operand::Absolute(w)), 3)),
        0xFE => Some((Instruction::INC(Operand::Indexed(w, RegisterName::X)), 3)),
        0xE8 => Some((Instruction::INX, 1)),
        0xC8 => Some((Instruction::INY, 1)),
        0x4C => Some((Instruction::JMP(Operand::Absolute(w)), 3)),
        0x6C => Some((Instruction::JMP(Operand::Indirect(w)), 3)),
        0x20 => Some((Instruction::JSR(Operand::Absolute(w)), 3)),
        0xA9 => Some((Instruction::LDA(Operand::Immediate(b1)), 2)),
        0xA5 => Some((Instruction::LDA(Operand::Absolute(b1 as u16)), 2)),
        0xB5 => Some((Instruction::LDA(Operand::Indexed(b1 as u16, RegisterName::X)), 2)),
        0xAD => Some((Instruction::LDA(Operand::Absolute(w)), 3)),
        0xBD => Some((Instruction::LDA(Operand::Indexed(w, RegisterName::X)), 3)),
        0xB9 => Some((Instruction::LDA(Operand::Indexed(w, RegisterName::Y)), 3)),
        0xA1 => Some((Instruction::LDA(Operand::PreIndexedIndirect(b1)), 2)),
        0xB1 => Some((Instruction::LDA(Operand::PostIndexedIndirect(b1)), 2)),
        0xA2 => Some((Instruction::LDX(Operand::Immediate(b1)), 2)),
        0xA6 => Some((Instruction::LDX(Operand::Absolute(b1 as u16)), 2)),
        0xB6 => Some((Instruction::LDX(Operand::Indexed(b1 as u16, RegisterName::Y)), 2)),
        0xAE => Some((Instruction::LDX(Operand::Absolute(w)), 3)),
        0xBE => Some((Instruction::LDX(Operand::Indexed(w, RegisterName::Y)), 3)),
        0xA0 => Some((Instruction::LDY(Operand::Immediate(b1)), 2)),
        0xA4 => Some((Instruction::LDY(Operand::Absolute(b1 as u16)), 2)),
        0xB4 => Some((Instruction::LDY(Operand::Indexed(b1 as u16, RegisterName::X)), 2)),
        0xAC => Some((Instruction::LDY(Operand::Absolute(w)), 3)),
        0xBC => Some((Instruction::LDY(Operand::Indexed(w, RegisterName::X)), 3)),
        0x4A => Some((Instruction::LSR(Operand::Accumulator), 1)),
        0x46 => Some((Instruction::LSR(Operand::Absolute(b1 as u16)), 2)),
        0x56 => Some((Instruction::LSR(Operand::Indexed(b1 as u16, RegisterName::X)), 2)),
        0x4E => Some((Instruction::LSR(Operand::Absolute(w)), 3)),
        0x5E => Some((Instruction::LSR(Operand::Indexed(w, RegisterName::X)), 3)),
        0xEA => Some((Instruction::NOP, 1)),
        0x09 => Some((Instruction::ORA(Operand::Immediate(b1)), 2)),
        0x05 => Some((Instruction::ORA(Operand::Absolute(b1 as u16)), 2)),
        0x15 => Some((Instruction::ORA(Operand::Indexed(b1 as u16, RegisterName::X)), 2)),
        0x0D => Some((Instruction::ORA(Operand::Absolute(w)), 3)),
        0x1D => Some((Instruction::ORA(Operand::Indexed(w, RegisterName::X)), 3)),
        0x19 => Some((Instruction::ORA(Operand::Indexed(w, RegisterName::Y)), 3)),
        0x01 => Some((Instruction::ORA(Operand::PreIndexedIndirect(b1)), 2)),
        0x11 => Some((Instruction::ORA(Operand::PostIndexedIndirect(b1)), 2)),
        0x48 => Some((Instruction::PHA, 1)),
        0x08 => Some((Instruction::PHP, 1)),
        0x68 => Some((Instruction::PLA, 1)),
        0x28 => Some((Instruction::PLP, 1)),
        0x2A => Some((Instruction::ROL(Operand::Accumulator), 1)),
        0x26 => Some((Instruction::ROL(Operand::Absolute(b1 as u16)), 2)),
        0x36 => Some((Instruction::ROL(Operand::Indexed(b1 as u16, RegisterName::X)), 2)),
        0x2E => Some((Instruction::ROL(Operand::Absolute(w)), 3)),
        0x3E => Some((Instruction::ROL(Operand::Indexed(w, RegisterName::X)), 3)),
        0x6A => Some((Instruction::ROR(Operand::Accumulator), 1)),
        0x66 => Some((Instruction::ROR(Operand::Absolute(b1 as u16)), 2)),
        0x76 => Some((Instruction::ROR(Operand::Indexed(b1 as u16, RegisterName::X)), 2)),
        0x6E => Some((Instruction::ROR(Operand::Absolute(w)), 3)),
        0x7E => Some((Instruction::ROR(Operand::Indexed(w, RegisterName::X)), 3)),
        0x40 => Some((Instruction::RTI, 1)),
        0x60 => Some((Instruction::RTS, 1)),
        0xE9 => Some((Instruction::SBC(Operand::Immediate(b1)), 2)),
        0xE5 => Some((Instruction::SBC(Operand::Absolute(b1 as u16)), 2)),
        0xF5 => Some((Instruction::SBC(Operand::Indexed(b1 as u16, RegisterName::X)), 2)),
        0xED => Some((Instruction::SBC(Operand::Absolute(w)), 3)),
        0xFD => Some((Instruction::SBC(Operand::Indexed(w, RegisterName::X)), 3)),
        0xF9 => Some((Instruction::SBC(Operand::Indexed(w, RegisterName::Y)), 3)),
        0xE1 => Some((Instruction::SBC(Operand::PreIndexedIndirect(b1)), 2)),
        0xF1 => Some((Instruction::SBC(Operand::PostIndexedIndirect(b1)), 2)),
        0x38 => Some((Instruction::SEC, 1)),
        0xF8 => Some((Instruction::SED, 1)),
        0x78 => Some((Instruction::SEI, 1)),
        0x85 => Some((Instruction::STA(Operand::Absolute(b1 as u16)), 2)),
        0x95 => Some((Instruction::STA(Operand::Indexed(b1 as u16, RegisterName::X)), 2)),
        0x8D => Some((Instruction::STA(Operand::Absolute(w)), 3)),
        0x9D => Some((Instruction::STA(Operand::Indexed(w, RegisterName::X)), 3)),
        0x99 => Some((Instruction::STA(Operand::Indexed(w, RegisterName::Y)), 3)),
        0x81 => Some((Instruction::STA(Operand::PreIndexedIndirect(b1)), 2)),
        0x91 => Some((Instruction::STA(Operand::PostIndexedIndirect(b1)), 2)),
        0x86 => Some((Instruction::STX(Operand::Absolute(b1 as u16)), 2)),
        0x96 => Some((Instruction::STX(Operand::Indexed(b1 as u16, RegisterName::Y)), 2)),
        0x8E => Some((Instruction::STX(Operand::Absolute(w)), 3)),
        0x84 => Some((Instruction::STY(Operand::Absolute(b1 as u16)), 2)),
        0x94 => Some((Instruction::STY(Operand::Indexed(b1 as u16, RegisterName::X)), 2)),
        0x8C => Some((Instruction::STY(Operand::Absolute(w)), 3)),
        0xAA => Some((Instruction::TAX, 1)),
        0xA8 => Some((Instruction::TAY, 1)),
        0xBA => Some((Instruction::TSX, 1)),
        0x8A => Some((Instruction::TXA, 1)),
        0x9A => Some((Instruction::TXS, 1)),
        0x98 => Some((Instruction::TYA, 1)),
        _ => None,
    }
}

/// The instruction at the start of `bytes` and the number of bytes read to
/// decode it (the bytes present, up to the instruction's length)
pub open spec fn decode_spec(bytes: Seq<u8>) -> Result<(Instruction, int), DecodeError> {
    let b1 = byte_at(bytes, 1);
    let w = (b1 + 256 * byte_at(bytes, 2)) as u16;
    match opcode_spec(byte_at(bytes, 0), b1, w) {
        None => Err(DecodeError::UnknownOpcode),
        Some((i, len)) => Ok((i, if len < bytes.len() { len } else { bytes.len() as int })),
    }
}

/// The position after a read at `pos`: one further, unless the end is reached
pub open spec fn advanced(bytes: Seq<u8>, pos: int) -> int {
    if pos < bytes.len() {
        pos + 1
    } else {
        pos
    }
}

/// Decodes the instruction at the start of `bytes`; returns it with the
/// number of bytes read. Missing operand bytes read as zero.
pub fn decode(bytes: &[u8]) -> (r: Result<(Instruction, usize), DecodeError>)
    ensures
        match (r, decode_spec(bytes@)) {
            (Ok((i, n)), Ok((si, sn))) => i == si && n == sn,
            (Err(e), Err(se)) => e == se,
            _ => false,
        },
{
    let mut pos: usize = 0;
    // Read the opcode
    let opcode = read_byte(bytes, &mut pos);
    // Determine the next step based on the instruction
    let instr = match opcode {
        0x69 => Instruction::ADC(read_imm(bytes, &mut pos)),
        0x65 => Instruction::ADC(read_zp(bytes, &mut pos)),
        0x75 => Instruction::ADC(read_zp_x(bytes, &mut pos)),
        0x6D => Instruction::ADC(read_abs(bytes, &mut pos)),
        0x7D => Instruction::ADC(read_abs_x(bytes, &mut pos)),
        0x79 => Instruction::ADC(read_abs_y(bytes, &mut pos)),
        0x61 => Instruction::ADC(read_ind_x(bytes, &mut pos)),
        0x71 => Instruction::ADC(read_ind_y(bytes, &mut pos)),
        0x29 => Instruction::AND(read_imm(bytes, &mut pos)),
        0x25 => Instruction::AND(read_zp(bytes, &mut pos)),
        0x35 => Instruction::AND(read_zp_x(bytes, &mut pos)),
        0x2D => Instruction::AND(read_abs(bytes, &mut pos)),
        0x3D => Instruction::AND(read_abs_x(bytes, &mut pos)),
        0x39 => Instruction::AND(read_abs_y(bytes, &mut pos)),
        0x21 => Instruction::AND(read_ind_x(bytes, &mut pos)),
        0x31 => Instruction::AND(read_ind_y(bytes, &mut pos)),
        0x0A => Instruction::ASL(Operand::Accumulator),
        0x06 => Instruction::ASL(read_zp(bytes, &mut pos)),
        0x16 => Instruction::ASL(read_zp_x(bytes, &mut pos)),
        0x0E => Instruction::ASL(read_abs(bytes, &mut pos)),
        0x1E => Instruction::ASL(read_abs_x(bytes, &mut pos)),
        0x90 => Instruction::BCC(read_rel(bytes, &mut pos)),
        0xB0 => Instruction::BCS(read_rel(bytes, &mut pos)),
        0xF0 => Instruction::BEQ(read_rel(bytes, &mut pos)),
        0x24 => Instruction::BIT(read_zp(bytes, &mut pos)),
        0x2C => Instruction::BIT(read_abs(bytes, &mut pos)),
        0x30 => Instruction::BMI(read_rel(bytes, &mut pos)),
        0xD0 => Instruction::BNE(read_rel(bytes, &mut pos)),
        0x10 => Instruction::BPL(read_rel(bytes, &mut pos)),
        0x00 => Instruction::BRK,
        0x50 => Instruction::BVC(read_rel(bytes, &mut pos)),
        0x70 => Instruction::BVS(read_rel(bytes, &mut pos)),
        0x18 => Instruction::CLC,
        0xD8 => Instruction::CLD,
        0x58 => Instruction::CLI,
        0xB8 => Instruction::CLV,
        0xC9 => Instruction::CMP(read_imm(bytes, &mut pos)),
        0xC5 => Instruction::CMP(read_zp(bytes, &mut pos)),
        0xD5 => Instruction::CMP(read_zp_x(bytes, &mut pos)),
        0xCD => Instruction::CMP(read_abs(bytes, &mut pos)),
        0xDD => Instruction::CMP(read_abs_x(bytes, &mut pos)),
        0xD9 => Instruction::CMP(read_abs_y(bytes, &mut pos)),
        0xC1 => Instruction::CMP(read_ind_x(bytes, &mut pos)),
        0xD1 => Instruction::CMP(read_ind_y(bytes, &mut pos)),
        0xE0 => Instruction::CPX(read_imm(bytes, &mut pos)),
        0xE4 => Instruction::CPX(read_zp(bytes, &mut pos)),
        0xEC => Instruction::CPX(read_abs(bytes, &mut pos)),
        0xC0 => Instruction::CPY(read_imm(bytes, &mut pos)),
        0xC4 => Instruction::CPY(read_zp(bytes, &mut pos)),
        0xCC => Instruction::CPY(read_abs(bytes, &mut pos)),
        0xC6 => Instruction::DEC(read_zp(bytes, &mut pos)),
        0xD6 => Instruction::DEC(read_zp_x(bytes, &mut pos)),
        0xCE => Instruction::DEC(read_abs(bytes, &mut pos)),
        0xDE => Instruction::DEC(read_abs_x(bytes, &mut pos)),
        0xCA => Instruction::DEX,
        0x88 => Instruction::DEY,
        0x49 => Instruction::EOR(read_imm(bytes, &mut pos)),
        0x45 => Instruction::EOR(read_zp(bytes, &mut pos)),
        0x55 => Instruction::EOR(read_zp_x(bytes, &mut pos)),
        0x4D => Instruction::EOR(read_abs(bytes, &mut pos)),
        0x5D => Instruction::EOR(read_abs_x(bytes, &mut pos)),
        0x59 => Instruction::EOR(read_abs_y(bytes, &mut pos)),
        0x41 => Instruction::EOR(read_ind_x(bytes, &mut pos)),
        0x51 => Instruction::EOR(read_ind_y(bytes, &mut pos)),
        0xE6 => Instruction::INC(read_zp(bytes, &mut pos)),
        0xF6 => Instruction::INC(read_zp_x(bytes, &mut pos)),
        0xEE => Instruction::INC(read_abs(bytes, &mut pos)),
        0xFE => Instruction::INC(read_abs_x(bytes, &mut pos)),
        0xE8 => Instruction::INX,
        0xC8 => Instruction::INY,
        0x4C => Instruction::JMP(read_abs(bytes, &mut pos)),
        0x6C => Instruction::JMP(Operand::Indirect(read_u16(bytes, &mut pos))),
        0x20 => Instruction::JSR(read_abs(bytes, &mut pos)),
        0xA9 => Instruction::LDA(read_imm(bytes, &mut pos)),
        0xA5 => Instruction::LDA(read_zp(bytes, &mut pos)),
        0xB5 => Instruction::LDA(read_zp_x(bytes, &mut pos)),
        0xAD => Instruction::LDA(read_abs(bytes, &mut pos)),
        0xBD => Instruction::LDA(read_abs_x(bytes, &mut pos)),
        0xB9 => Instruction::LDA(read_abs_y(bytes, &mut pos)),
        0xA1 => Instruction::LDA(read_ind_x(bytes, &mut pos)),
        0xB1 => Instruction::LDA(read_ind_y(bytes, &mut pos)),
        0xA2 => Instruction::LDX(read_imm(bytes, &mut pos)),
        0xA6 => Instruction::LDX(read_zp(bytes, &mut pos)),
        0xB6 => Instruction::LDX(read_zp_y(bytes, &mut pos)),
        0xAE => Instruction::LDX(read_abs(bytes, &mut pos)),
        0xBE => Instruction::LDX(read_abs_y(bytes, &mut pos)),
        0xA0 => Instruction::LDY(read_imm(bytes, &mut pos)),
        0xA4 => Instruction::LDY(read_zp(bytes, &mut pos)),
        0xB4 => Instruction::LDY(read_zp_x(bytes, &mut pos)),
        0xAC => Instruction::LDY(read_abs(bytes, &mut pos)),
        0xBC => Instruction::LDY(read_abs_x(bytes, &mut pos)),
        0x4A => Instruction::LSR(Operand::Accumulator),
        0x46 => Instruction::LSR(read_zp(bytes, &mut pos)),
        0x56 => Instruction::LSR(read_zp_x(bytes, &mut pos)),
        0x4E => Instruction::LSR(read_abs(bytes, &mut pos)),
        0x5E => Instruction::LSR(read_abs_x(bytes, &mut pos)),
        0xEA => Instruction::NOP,
        0x09 => Instruction::ORA(read_imm(bytes, &mut pos)),
        0x05 => Instruction::ORA(read_zp(bytes, &mut pos)),
        0x15 => Instruction::ORA(read_zp_x(bytes, &mut pos)),
        0x0D => Instruction::ORA(read_abs(bytes, &mut pos)),
        0x1D => Instruction::ORA(read_abs_x(bytes, &mut pos)),
        0x19 => Instruction::ORA(read_abs_y(bytes, &mut pos)),
        0x01 => Instruction::ORA(read_ind_x(bytes, &mut pos)),
        0x11 => Instruction::ORA(read_ind_y(bytes, &mut pos)),
        0x48 => Instruction::PHA,
        0x08 => Instruction::PHP,
        0x68 => Instruction::PLA,
        0x28 => Instruction::PLP,
        0x2A => Instruction::ROL(Operand::Accumulator),
        0x26 => Instruction::ROL(read_zp(bytes, &mut pos)),
        0x36 => Instruction::ROL(read_zp_x(bytes, &mut pos)),
        0x2E => Instruction::ROL(read_abs(bytes, &mut pos)),
        0x3E => Instruction::ROL(read_abs_x(bytes, &mut pos)),
        0x6A => Instruction::ROR(Operand::Accumulator),
        0x66 => Instruction::ROR(read_zp(bytes, &mut pos)),
        0x76 => Instruction::ROR(read_zp_x(bytes, &mut pos)),
        0x6E => Instruction::ROR(read_abs(bytes, &mut pos)),
        0x7E => Instruction::ROR(read_abs_x(bytes, &mut pos)),
        0x40 => Instruction::RTI,
        0x60 => Instruction::RTS,
        0xE9 => Instruction::SBC(read_imm(bytes, &mut pos)),
        0xE5 => Instruction::SBC(read_zp(bytes, &mut pos)),
        0xF5 => Instruction::SBC(read_zp_x(bytes, &mut pos)),
        0xED => Instruction::SBC(read_abs(bytes, &mut pos)),
        0xFD => Instruction::SBC(read_abs_x(bytes, &mut pos)),
        0xF9 => Instruction::SBC(read_abs_y(bytes, &mut pos)),
        0xE1 => Instruction::SBC(read_ind_x(bytes, &mut pos)),
        0xF1 => Instruction::SBC(read_ind_y(bytes, &mut pos)),
        0x38 => Instruction::SEC,
        0xF8 => Instruction::SED,
        0x78 => Instruction::SEI,
        0x85 => Instruction::STA(read_zp(bytes, &mut pos)),
        0x95 => Instruction::STA(read_zp_x(bytes, &mut pos)),
        0x8D => Instruction::STA(read_abs(bytes, &mut pos)),
        0x9D => Instruction::STA(read_abs_x(bytes, &mut pos)),
        0x99 => Instruction::STA(read_abs_y(bytes, &mut pos)),
        0x81 => Instruction::STA(read_ind_x(bytes, &mut pos)),
        0x91 => Instruction::STA(read_ind_y(bytes, &mut pos)),
        0x86 => Instruction::STX(read_zp(bytes, &mut pos)),
        0x96 => Instruction::STX(read_zp_y(bytes, &mut pos)),
        0x8E => Instruction::STX(read_abs(bytes, &mut pos)),
        0x84 => Instruction::STY(read_zp(bytes, &mut pos)),
        0x94 => Instruction::STY(read_zp_x(bytes, &mut pos)),
        0x8C => Instruction::STY(read_abs(bytes, &mut pos)),
        0xAA => Instruction::TAX,
        0xA8 => Instruction::TAY,
        0xBA => Instruction::TSX,
        0x8A => Instruction::TXA,
        0x9A => Instruction::TXS,
        0x98 => Instruction::TYA,
        _ => return Err(DecodeError::UnknownOpcode),
    };
    Ok((instr, pos))
}

fn read_byte(bytes: &[u8], pos: &mut usize) -> (r: u8)
    requires
        *old(pos) <= bytes@.len(),
    ensures
        r == byte_at(bytes@, *old(pos) as int),
        *final(pos) == advanced(bytes@, *old(pos) as int),
{
    if *pos < bytes.len() {
        let b = bytes[*pos];
        *pos = *pos + 1;
        b
    } else {
        0
    }
}

fn read_u16(bytes: &[u8], pos: &mut usize) -> (r: u16)
    requires
        *old(pos) <= bytes@.len(),
    ensures
        r == byte_at(bytes@, *old(pos) as int) + 256 * byte_at(bytes@, *old(pos) + 1),
        *final(pos) == advanced(bytes@, advanced(bytes@, *old(pos) as int)),
{
    let low: u16 = read_byte(bytes, pos) as u16;
    let high: u16 = read_byte(bytes, pos) as u16;
    (high * 256) + low
}

fn read_abs(bytes: &[u8], pos: &mut usize) -> (r: Operand)
    requires
        *old(pos) <= bytes@.len(),
    ensures
        r == Operand::Absolute(
            (byte_at(bytes@, *old(pos) as int) + 256 * byte_at(bytes@, *old(pos) + 1)) as u16,
        ),
        *final(pos) == advanced(bytes@, advanced(bytes@, *old(pos) as int)),
{
    Operand::Absolute(read_u16(bytes, pos))
}

fn read_abs_x(bytes: &[u8], pos: &mut usize) -> (r: Operand)
    requires
        *old(pos) <= bytes@.len(),
    ensures
        r == Operand::Indexed(
            (byte_at(bytes@, *old(pos) as int) + 256 * byte_at(bytes@, *old(pos) + 1)) as u16,
            RegisterName::X,
        ),
        *final(pos) == advanced(bytes@, advanced(bytes@, *old(pos) as int)),
{
    Operand::Indexed(read_u16(bytes, pos), RegisterName::X)
}

fn read_abs_y(bytes: &[u8], pos: &mut usize) -> (r: Operand)
    requires
        *old(pos) <= bytes@.len(),
    ensures
        r == Operand::Indexed(
            (byte_at(bytes@, *old(pos) as int) + 256 * byte_at(bytes@, *old(pos) + 1)) as u16,
            RegisterName::Y,
        ),
        *final(pos) == advanced(bytes@, advanced(bytes@, *old(pos) as int)),
{
    Operand::Indexed(read_u16(bytes, pos), RegisterName::Y)
}

fn read_imm(bytes: &[u8], pos: &mut usize) -> (r: Operand)
    requires
        *old(pos) <= bytes@.len(),
    ensures
        r == Operand::Immediate(byte_at(bytes@, *old(pos) as int)),
        *final(pos) == advanced(bytes@, *old(pos) as int),
{
    Operand::Immediate(read_byte(bytes, pos))
}

fn read_rel(bytes: &[u8], pos: &mut usize) -> (r: Operand)
    requires
        *old(pos) <= bytes@.len(),
    ensures
        r == Operand::Offset(byte_at(bytes@, *old(pos) as int) as i8),
        *final(pos) == advanced(bytes@, *old(pos) as int),
{
    Operand::Offset(read_byte(bytes, pos) as i8)
}

fn read_zp(bytes: &[u8], pos: &mut usize) -> (r: Operand)
    requires
        *old(pos) <= bytes@.len(),
    ensures
        r == Operand::Absolute(byte_at(bytes@, *old(pos) as int) as u16),
        *final(pos) == advanced(bytes@, *old(pos) as int),
{
    let zp = read_byte(bytes, pos);
    Operand::Absolute(zp as u16)
}

fn read_zp_x(bytes: &[u8], pos: &mut usize) -> (r: Operand)
    requires
        *old(pos) <= bytes@.len(),
    ensures
        r == Operand::Indexed(byte_at(bytes@, *old(pos) as int) as u16, RegisterName::X),
        *final(pos) == advanced(bytes@, *old(pos) as int),
{
    let zp = read_byte(bytes, pos);
    Operand::Indexed(zp as u16, RegisterName::X)
}

fn read_zp_y(bytes: &[u8], pos: &mut usize) -> (r: Operand)
    requires
        *old(pos) <= bytes@.len(),
    ensures
        r == Operand::Indexed(byte_at(bytes@, *old(pos) as int) as u16, RegisterName::Y),
        *final(pos) == advanced(bytes@, *old(pos) as int),
{
    let zp = read_byte(bytes, pos);
    Operand::Indexed(zp as u16, RegisterName::Y)
}

fn read_ind_x(bytes: &[u8], pos: &mut usize) -> (r: Operand)
    requires
        *old(pos) <= bytes@.len(),
    ensures
        r == Operand::PreIndexedIndirect(byte_at(bytes@, *old(pos) as int)),
        *final(pos) == advanced(bytes@, *old(pos) as int),
{
    Operand::PreIndexedIndirect(read_byte(bytes, pos))
}

fn read_ind_y(bytes: &[u8], pos: &mut usize) -> (r: Operand)
    requires
        *old(pos) <= bytes@.len(),
    ensures
        r == Operand::PostIndexedIndirect(byte_at(bytes@, *old(pos) as int)),
        *final(pos) == advanced(bytes@, *old(pos) as int),
{
    Operand::PostIndexedIndirect(read_byte(bytes, pos))
}

} // verus!
