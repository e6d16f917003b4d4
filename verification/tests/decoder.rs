use emulator::cpu::RegisterName;
use emulator::decoder::{decode, DecodeError};
use emulator::instruction::Instruction;
use emulator::operand::Operand;

#[test]
pub fn can_decode_adc() {
    decoder_test(vec![0x69, 0x42], Instruction::ADC(Operand::Immediate(0x42)));
    decoder_test(vec![0x65, 0xAB], Instruction::ADC(Operand::Absolute(0x00AB)));
    decoder_test(vec![0x75, 0xAB], Instruction::ADC(Operand::Indexed(0x00AB, RegisterName::X)));
    decoder_test(vec![0x6D, 0xCD, 0xAB], Instruction::ADC(Operand::Absolute(0xABCD)));
    decoder_test(vec![0x7D, 0xCD, 0xAB], Instruction::ADC(Operand::Indexed(0xABCD, RegisterName::X)));
    decoder_test(vec![0x79, 0xCD, 0xAB], Instruction::ADC(Operand::Indexed(0xABCD, RegisterName::Y)));
    decoder_test(vec![0x61, 0xAB], Instruction::ADC(Operand::PreIndexedIndirect(0xAB)));
    decoder_test(vec![0x71, 0xAB], Instruction::ADC(Operand::PostIndexedIndirect(0xAB)));
}

#[test]
pub fn can_decode_and() {
    decoder_test(vec![0x29, 0x42], Instruction::AND(Operand::Immediate(0x42)));
    decoder_test(vec![0x25, 0xAB], Instruction::AND(Operand::Absolute(0x00AB)));
    decoder_test(vec![0x35, 0xAB], Instruction::AND(Operand::Indexed(0x00AB, RegisterName::X)));
    decoder_test(vec![0x2D, 0xCD, 0xAB], Instruction::AND(Operand::Absolute(0xABCD)));
    decoder_test(vec![0x3D, 0xCD, 0xAB], Instruction::AND(Operand::Indexed(0xABCD, RegisterName::X)));
    decoder_test(vec![0x39, 0xCD, 0xAB], Instruction::AND(Operand::Indexed(0xABCD, RegisterName::Y)));
    decoder_test(vec![0x21, 0xAB], Instruction::AND(Operand::PreIndexedIndirect(0xAB)));
    decoder_test(vec![0x31, 0xAB], Instruction::AND(Operand::PostIndexedIndirect(0xAB)));
}

#[test]
pub fn can_decode_asl() {
    decoder_test(vec![0x0A], Instruction::ASL(Operand::Accumulator));
    decoder_test(vec![0x06, 0xAB], Instruction::ASL(Operand::Absolute(0x00AB)));
    decoder_test(vec![0x16, 0xAB], Instruction::ASL(Operand::Indexed(0x00AB, RegisterName::X)));
    decoder_test(vec![0x0E, 0xCD, 0xAB], Instruction::ASL(Operand::Absolute(0xABCD)));
    decoder_test(vec![0x1E, 0xCD, 0xAB], Instruction::ASL(Operand::Indexed(0xABCD, RegisterName::X)));
}

#[test]
pub fn can_decode_branches() {
    decoder_test(vec![0x90, 0x82], Instruction::BCC(Operand::Offset(-126)));
    decoder_test(vec![0xB0, 0x82], Instruction::BCS(Operand::Offset(-126)));
    decoder_test(vec![0xF0, 0x82], Instruction::BEQ(Operand::Offset(-126)));
    decoder_test(vec![0x30, 0x82], Instruction::BMI(Operand::Offset(-126)));
    decoder_test(vec![0xD0, 0x82], Instruction::BNE(Operand::Offset(-126)));
    decoder_test(vec![0x10, 0x82], Instruction::BPL(Operand::Offset(-126)));
    decoder_test(vec![0x50, 0x82], Instruction::BVC(Operand::Offset(-126)));
    decoder_test(vec![0x70, 0x82], Instruction::BVS(Operand::Offset(-126)));
}

#[test]
pub fn can_decode_brk() {
    decoder_test(vec![0x00], Instruction::BRK);
}

#[test]
pub fn can_decode_bit() {
    decoder_test(vec![0x24, 0xAB], Instruction::BIT(Operand::Absolute(0x00AB)));
    decoder_test(vec![0x2C, 0xCD, 0xAB], Instruction::BIT(Operand::Absolute(0xABCD)));
}

#[test]
pub fn can_decode_clear_flags() {
    decoder_test(vec![0x18], Instruction::CLC);
    decoder_test(vec![0xD8], Instruction::CLD);
    decoder_test(vec![0x58], Instruction::CLI);
    decoder_test(vec![0xB8], Instruction::CLV);
}

#[test]
pub fn can_decode_cmp() {
    decoder_test(vec![0xC9, 0x42], Instruction::CMP(Operand::Immediate(0x42)));
    decoder_test(vec![0xC5, 0xAB], Instruction::CMP(Operand::Absolute(0x00AB)));
    decoder_test(vec![0xD5, 0xAB], Instruction::CMP(Operand::Indexed(0x00AB, RegisterName::X)));
    decoder_test(vec![0xCD, 0xCD, 0xAB], Instruction::CMP(Operand::Absolute(0xABCD)));
    decoder_test(vec![0xDD, 0xCD, 0xAB], Instruction::CMP(Operand::Indexed(0xABCD, RegisterName::X)));
    decoder_test(vec![0xD9, 0xCD, 0xAB], Instruction::CMP(Operand::Indexed(0xABCD, RegisterName::Y)));
    decoder_test(vec![0xC1, 0xAB], Instruction::CMP(Operand::PreIndexedIndirect(0xAB)));
    decoder_test(vec![0xD1, 0xAB], Instruction::CMP(Operand::PostIndexedIndirect(0xAB)));
}

#[test]
pub fn can_decode_cpx() {
    decoder_test(vec![0xE0, 0x42], Instruction::CPX(Operand::Immediate(0x42)));
    decoder_test(vec![0xE4, 0xAB], Instruction::CPX(Operand::Absolute(0x00AB)));
    decoder_test(vec![0xEC, 0xCD, 0xAB], Instruction::CPX(Operand::Absolute(0xABCD)));
}

#[test]
pub fn can_decode_cpy() {
    decoder_test(vec![0xC0, 0x42], Instruction::CPY(Operand::Immediate(0x42)));
    decoder_test(vec![0xC4, 0xAB], Instruction::CPY(Operand::Absolute(0x00AB)));
    decoder_test(vec![0xCC, 0xCD, 0xAB], Instruction::CPY(Operand::Absolute(0xABCD)));
}

#[test]
pub fn can_decode_dec() {
    decoder_test(vec![0xC6, 0xAB], Instruction::DEC(Operand::Absolute(0x00AB)));
    decoder_test(vec![0xD6, 0xAB], Instruction::DEC(Operand::Indexed(0x00AB, RegisterName::X)));
    decoder_test(vec![0xCE, 0xCD, 0xAB], Instruction::DEC(Operand::Absolute(0xABCD)));
    decoder_test(vec![0xDE, 0xCD, 0xAB], Instruction::DEC(Operand::Indexed(0xABCD, RegisterName::X)));
}

#[test]
pub fn can_decode_dex() {
    decoder_test(vec![0xCA], Instruction::DEX);
}

#[test]
pub fn can_decode_dey() {
    decoder_test(vec![0x88], Instruction::DEY);
}

#[test]
pub fn can_decode_eor() {
    decoder_test(vec![0x49, 0x42], Instruction::EOR(Operand::Immediate(0x42)));
    decoder_test(vec![0x45, 0xAB], Instruction::EOR(Operand::Absolute(0x00AB)));
    decoder_test(vec![0x55, 0xAB], Instruction::EOR(Operand::Indexed(0x00AB, RegisterName::X)));
    decoder_test(vec![0x4D, 0xCD, 0xAB], Instruction::EOR(Operand::Absolute(0xABCD)));
    decoder_test(vec![0x5D, 0xCD, 0xAB], Instruction::EOR(Operand::Indexed(0xABCD, RegisterName::X)));
    decoder_test(vec![0x59, 0xCD, 0xAB], Instruction::EOR(Operand::Indexed(0xABCD, RegisterName::Y)));
    decoder_test(vec![0x41, 0xAB], Instruction::EOR(Operand::PreIndexedIndirect(0xAB)));
    decoder_test(vec![0x51, 0xAB], Instruction::EOR(Operand::PostIndexedIndirect(0xAB)));
}

#[test]
pub fn can_decode_inc() {
    decoder_test(vec![0xE6, 0xAB], Instruction::INC(Operand::Absolute(0x00AB)));
    decoder_test(vec![0xF6, 0xAB], Instruction::INC(Operand::Indexed(0x00AB, RegisterName::X)));
    decoder_test(vec![0xEE, 0xCD, 0xAB], Instruction::INC(Operand::Absolute(0xABCD)));
    decoder_test(vec![0xFE, 0xCD, 0xAB], Instruction::INC(Operand::Indexed(0xABCD, RegisterName::X)));
}

#[test]
pub fn can_decode_inx() {
    decoder_test(vec![0xE8], Instruction::INX);
}

#[test]
pub fn can_decode_iny() {
    decoder_test(vec![0xC8], Instruction::INY);
}

#[test]
pub fn can_decode_jmp() {
    decoder_test(vec![0x4C, 0xCD, 0xAB], Instruction::JMP(Operand::Absolute(0xABCD)));
    decoder_test(vec![0x6C, 0xCD, 0xAB], Instruction::JMP(Operand::Indirect(0xABCD)));
}

#[test]
pub fn can_decode_jsr() {
    decoder_test(vec![0x20, 0xCD, 0xAB], Instruction::JSR(Operand::Absolute(0xABCD)));
}

#[test]
pub fn can_decode_lda() {
    decoder_test(vec![0xA9, 0x42], Instruction::LDA(Operand::Immediate(0x42)));
    decoder_test(vec![0xA5, 0xAB], Instruction::LDA(Operand::Absolute(0x00AB)));
    decoder_test(vec![0xB5, 0xAB], Instruction::LDA(Operand::Indexed(0x00AB, RegisterName::X)));
    decoder_test(vec![0xAD, 0xCD, 0xAB], Instruction::LDA(Operand::Absolute(0xABCD)));
    decoder_test(vec![0xBD, 0xCD, 0xAB], Instruction::LDA(Operand::Indexed(0xABCD, RegisterName::X)));
    decoder_test(vec![0xB9, 0xCD, 0xAB], Instruction::LDA(Operand::Indexed(0xABCD, RegisterName::Y)));
    decoder_test(vec![0xA1, 0xAB], Instruction::LDA(Operand::PreIndexedIndirect(0xAB)));
    decoder_test(vec![0xB1, 0xAB], Instruction::LDA(Operand::PostIndexedIndirect(0xAB)));
}

#[test]
pub fn can_decode_ldx() {
    decoder_test(vec![0xA2, 0x42], Instruction::LDX(Operand::Immediate(0x42)));
    decoder_test(vec![0xA6, 0xAB], Instruction::LDX(Operand::Absolute(0x00AB)));
    decoder_test(vec![0xB6, 0xAB], Instruction::LDX(Operand::Indexed(0x00AB, RegisterName::Y)));
    decoder_test(vec![0xAE, 0xCD, 0xAB], Instruction::LDX(Operand::Absolute(0xABCD)));
    decoder_test(vec![0xBE, 0xCD, 0xAB], Instruction::LDX(Operand::Indexed(0xABCD, RegisterName::Y)));
}

#[test]
pub fn can_decode_ldy() {
    decoder_test(vec![0xA0, 0x42], Instruction::LDY(Operand::Immediate(0x42)));
    decoder_test(vec![0xA4, 0xAB], Instruction::LDY(Operand::Absolute(0x00AB)));
    decoder_test(vec![0xB4, 0xAB], Instruction::LDY(Operand::Indexed(0x00AB, RegisterName::X)));
    decoder_test(vec![0xAC, 0xCD, 0xAB], Instruction::LDY(Operand::Absolute(0xABCD)));
    decoder_test(vec![0xBC, 0xCD, 0xAB], Instruction::LDY(Operand::Indexed(0xABCD, RegisterName::X)));
}

#[test]
pub fn can_decode_lsr() {
    decoder_test(vec![0x4A], Instruction::LSR(Operand::Accumulator));
    decoder_test(vec![0x46, 0xAB], Instruction::LSR(Operand::Absolute(0x00AB)));
    decoder_test(vec![0x56, 0xAB], Instruction::LSR(Operand::Indexed(0x00AB, RegisterName::X)));
    decoder_test(vec![0x4E, 0xCD, 0xAB], Instruction::LSR(Operand::Absolute(0xABCD)));
    decoder_test(vec![0x5E, 0xCD, 0xAB], Instruction::LSR(Operand::Indexed(0xABCD, RegisterName::X)));
}

#[test]
pub fn can_decode_nop() {
    decoder_test(vec![0xEA], Instruction::NOP);
}

#[test]
pub fn can_decode_ora() {
    decoder_test(vec![0x09, 0x42], Instruction::ORA(Operand::Immediate(0x42)));
    decoder_test(vec![0x05, 0xAB], Instruction::ORA(Operand::Absolute(0x00AB)));
    decoder_test(vec![0x15, 0xAB], Instruction::ORA(Operand::Indexed(0x00AB, RegisterName::X)));
    decoder_test(vec![0x0D, 0xCD, 0xAB], Instruction::ORA(Operand::Absolute(0xABCD)));
    decoder_test(vec![0x1D, 0xCD, 0xAB], Instruction::ORA(Operand::Indexed(0xABCD, RegisterName::X)));
    decoder_test(vec![0x19, 0xCD, 0xAB], Instruction::ORA(Operand::Indexed(0xABCD, RegisterName::Y)));
    decoder_test(vec![0x01, 0xAB], Instruction::ORA(Operand::PreIndexedIndirect(0xAB)));
    decoder_test(vec![0x11, 0xAB], Instruction::ORA(Operand::PostIndexedIndirect(0xAB)));
}

#[test]
pub fn can_decode_pha() {
    decoder_test(vec![0x48], Instruction::PHA);
}

#[test]
pub fn can_decode_php() {
    decoder_test(vec![0x08], Instruction::PHP);
}

#[test]
pub fn can_decode_pla() {
    decoder_test(vec![0x68], Instruction::PLA);
}

#[test]
pub fn can_decode_plp() {
    decoder_test(vec![0x28], Instruction::PLP);
}

#[test]
pub fn can_decode_rol() {
    decoder_test(vec![0x2A], Instruction::ROL(Operand::Accumulator));
    decoder_test(vec![0x26, 0xAB], Instruction::ROL(Operand::Absolute(0x00AB)));
    decoder_test(vec![0x36, 0xAB], Instruction::ROL(Operand::Indexed(0x00AB, RegisterName::X)));
    decoder_test(vec![0x2E, 0xCD, 0xAB], Instruction::ROL(Operand::Absolute(0xABCD)));
    decoder_test(vec![0x3E, 0xCD, 0xAB], Instruction::ROL(Operand::Indexed(0xABCD, RegisterName::X)));
}

#[test]
pub fn can_decode_ror() {
    decoder_test(vec![0x6A], Instruction::ROR(Operand::Accumulator));
    decoder_test(vec![0x66, 0xAB], Instruction::ROR(Operand::Absolute(0x00AB)));
    decoder_test(vec![0x76, 0xAB], Instruction::ROR(Operand::Indexed(0x00AB, RegisterName::X)));
    decoder_test(vec![0x6E, 0xCD, 0xAB], Instruction::ROR(Operand::Absolute(0xABCD)));
    decoder_test(vec![0x7E, 0xCD, 0xAB], Instruction::ROR(Operand::Indexed(0xABCD, RegisterName::X)));
}

#[test]
pub fn can_decode_rti() {
    decoder_test(vec![0x40], Instruction::RTI);
}

#[test]
pub fn can_decode_rts() {
    decoder_test(vec![0x60], Instruction::RTS);
}

#[test]
pub fn can_decode_sbc() {
    decoder_test(vec![0xE9, 0x42], Instruction::SBC(Operand::Immediate(0x42)));
    decoder_test(vec![0xE5, 0xAB], Instruction::SBC(Operand::Absolute(0x00AB)));
    decoder_test(vec![0xF5, 0xAB], Instruction::SBC(Operand::Indexed(0x00AB, RegisterName::X)));
    decoder_test(vec![0xED, 0xCD, 0xAB], Instruction::SBC(Operand::Absolute(0xABCD)));
    decoder_test(vec![0xFD, 0xCD, 0xAB], Instruction::SBC(Operand::Indexed(0xABCD, RegisterName::X)));
    decoder_test(vec![0xF9, 0xCD, 0xAB], Instruction::SBC(Operand::Indexed(0xABCD, RegisterName::Y)));
    decoder_test(vec![0xE1, 0xAB], Instruction::SBC(Operand::PreIndexedIndirect(0xAB)));
    decoder_test(vec![0xF1, 0xAB], Instruction::SBC(Operand::PostIndexedIndirect(0xAB)));
}

#[test]
pub fn can_decode_set_flags() {
    decoder_test(vec![0x38], Instruction::SEC);
    decoder_test(vec![0xF8], Instruction::SED);
    decoder_test(vec![0x78], Instruction::SEI);
}

#[test]
pub fn can_decode_sta() {
    decoder_test(vec![0x85, 0xAB], Instruction::STA(Operand::Absolute(0x00AB)));
    decoder_test(vec![0x95, 0xAB], Instruction::STA(Operand::Indexed(0x00AB, RegisterName::X)));
    decoder_test(vec![0x8D, 0xCD, 0xAB], Instruction::STA(Operand::Absolute(0xABCD)));
    decoder_test(vec![0x9D, 0xCD, 0xAB], Instruction::STA(Operand::Indexed(0xABCD, RegisterName::X)));
    decoder_test(vec![0x99, 0xCD, 0xAB], Instruction::STA(Operand::Indexed(0xABCD, RegisterName::Y)));
    decoder_test(vec![0x81, 0xAB], Instruction::STA(Operand::PreIndexedIndirect(0xAB)));
    decoder_test(vec![0x91, 0xAB], Instruction::STA(Operand::PostIndexedIndirect(0xAB)));
}

#[test]
pub fn can_decode_stx() {
    decoder_test(vec![0x86, 0xAB], Instruction::STX(Operand::Absolute(0x00AB)));
    decoder_test(vec![0x96, 0xAB], Instruction::STX(Operand::Indexed(0x00AB, RegisterName::Y)));
    decoder_test(vec![0x8E, 0xCD, 0xAB], Instruction::STX(Operand::Absolute(0xABCD)));
}

#[test]
pub fn can_decode_sty() {
    decoder_test(vec![0x84, 0xAB], Instruction::STY(Operand::Absolute(0x00AB)));
    decoder_test(vec![0x94, 0xAB], Instruction::STY(Operand::Indexed(0x00AB, RegisterName::X)));
    decoder_test(vec![0x8C, 0xCD, 0xAB], Instruction::STY(Operand::Absolute(0xABCD)));
}

#[test]
pub fn can_decode_transfers() {
    decoder_test(vec![0xAA], Instruction::TAX);
    decoder_test(vec![0xA8], Instruction::TAY);
    decoder_test(vec![0xBA], Instruction::TSX);
    decoder_test(vec![0x8A], Instruction::TXA);
    decoder_test(vec![0x9A], Instruction::TXS);
    decoder_test(vec![0x98], Instruction::TYA);
}

fn decoder_test(bytes: Vec<u8>, expected: Instruction) {
    let result = decode(bytes.as_slice());
    match result {
        Ok((actual, read)) => {
            if actual != expected {
                panic!("Decoding of 0x{:X} was [{:?}] but expected [{:?}]", bytes[0], actual, expected);
            }
            assert_eq!(bytes.len(), read);
        },
        x => panic!("Decoding of 0x{:X} failed: {:?}", bytes[0], x),
    }
}

#[test]
pub fn decode_rejects_an_unknown_opcode() {
    assert_eq!(Err(DecodeError::UnknownOpcode), decode(&[0x02, 0x00]));
    assert_eq!(Err(DecodeError::UnknownOpcode), decode(&[0xFF]));
}

#[test]
pub fn decode_reads_missing_operand_bytes_as_zero() {
    assert_eq!(Ok((Instruction::LDA(Operand::Absolute(0x00AB)), 2)), decode(&[0xAD, 0xAB]));
    assert_eq!(Ok((Instruction::LDA(Operand::Immediate(0)), 1)), decode(&[0xA9]));
    assert_eq!(Ok((Instruction::BRK, 0)), decode(&[]));
}

#[test]
pub fn decode_reads_only_the_bytes_of_one_instruction() {
    assert_eq!(Ok((Instruction::INX, 1)), decode(&[0xE8, 0xE8, 0xE8]));
    assert_eq!(Ok((Instruction::JMP(Operand::Absolute(0x1234)), 3)), decode(&[0x4C, 0x34, 0x12, 0xEA]));
}
