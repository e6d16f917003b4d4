use emulator::cpu::{Mos6502, RegisterName};
use emulator::exec::ExecError;
use emulator::instruction::Instruction;
use emulator::mem::{Memory, MemoryError};
use emulator::operand::{Operand, OperandError};

#[test]
pub fn to_string_test() {
    assert_eq!("#$AB", Operand::Immediate(0xAB).to_string());
    assert_eq!("A", Operand::Accumulator.to_string());
    assert_eq!("$ABCD", Operand::Absolute(0xABCD).to_string());
    assert_eq!("$0BCD", Operand::Absolute(0x0BCD).to_string());
    assert_eq!("$AB", Operand::Absolute(0x00AB).to_string());
    assert_eq!("$ABCD,X", Operand::Indexed(0xABCD, RegisterName::X).to_string());
    assert_eq!("$ABCD,Y", Operand::Indexed(0xABCD, RegisterName::Y).to_string());
    assert_eq!("$0BCD,X", Operand::Indexed(0xBCD, RegisterName::X).to_string());
    assert_eq!("$0BCD,Y", Operand::Indexed(0xBCD, RegisterName::Y).to_string());
    assert_eq!("$AB,X", Operand::Indexed(0x00AB, RegisterName::X).to_string());
    assert_eq!("$AB,Y", Operand::Indexed(0x00AB, RegisterName::Y).to_string());
    assert_eq!("($ABCD)", Operand::Indirect(0xABCD).to_string());
    assert_eq!("($AB,X)", Operand::PreIndexedIndirect(0xAB).to_string());
    assert_eq!("($AB),Y", Operand::PostIndexedIndirect(0xAB).to_string());
}

#[test]
pub fn offsets_and_wide_immediates_are_written_in_hex() {
    assert_eq!("$10", Operand::Offset(0x10).to_string());
    assert_eq!("-$FE", Operand::Offset(-2).to_string());
    assert_eq!("$0102", Operand::TwoByteImmediate(0x0102).to_string());
}

#[test]
pub fn instruction_text_is_mnemonic_then_operand() {
    assert_eq!("LDA #$01", Instruction::LDA(Operand::Immediate(1)).to_string());
    assert_eq!("JMP ($1234)", Instruction::JMP(Operand::Indirect(0x1234)).to_string());
    assert_eq!("BRK", Instruction::BRK.to_string());
    assert_eq!("NOP $44", Instruction::IGN(Operand::Absolute(0x44)).to_string());
}

#[test]
pub fn mnemonics_of_undocumented_aliases() {
    assert_eq!("SBC", Instruction::SBCX(Operand::Immediate(1)).mnemonic());
    assert_eq!("NOP", Instruction::NOPX.mnemonic());
    assert_eq!("NOP", Instruction::SKB(Operand::Immediate(1)).mnemonic());
    assert_eq!("TXS", Instruction::TXS.mnemonic());
}

#[test]
pub fn log_string_of_implied_and_immediate_instructions() {
    let cpu = Mos6502::with_fixed_memory(0x100);
    assert_eq!(Ok(" SEI".to_string()), Instruction::SEI.get_log_string(&cpu));
    assert_eq!(Ok(" LDA #$01".to_string()), Instruction::LDA(Operand::Immediate(1)).get_log_string(&cpu));
    assert_eq!(Ok("*NOP".to_string()), Instruction::NOPX.get_log_string(&cpu));
}

#[test]
pub fn log_string_shows_the_byte_at_an_absolute_address() {
    let mut cpu = Mos6502::with_fixed_memory(0x100);
    cpu.mem.set_u8(0x10, 0xAB).unwrap();
    assert_eq!(Ok(" STA $10 = AB".to_string()), Instruction::STA(Operand::Absolute(0x10)).get_log_string(&cpu));
}

#[test]
pub fn log_string_shows_the_indexed_address() {
    let mut cpu = Mos6502::with_fixed_memory(0x300);
    cpu.registers.x = 2;
    cpu.mem.set_u8(0x01, 0x33).unwrap();
    cpu.mem.set_u8(0x0202, 0x44).unwrap();
    assert_eq!(Ok(" LDA $FF,X @ 01 = 33".to_string()), Instruction::LDA(Operand::Indexed(0xFF, RegisterName::X)).get_log_string(&cpu));
    assert_eq!(Ok(" LDA $0200,X @ 0202 = 44".to_string()), Instruction::LDA(Operand::Indexed(0x200, RegisterName::X)).get_log_string(&cpu));
}

#[test]
pub fn log_string_shows_the_indirect_addresses() {
    let mut cpu = Mos6502::with_fixed_memory(0x300);
    cpu.registers.x = 1;
    cpu.registers.y = 3;
    cpu.mem.set_u8(0x11, 0x00).unwrap();
    cpu.mem.set_u8(0x12, 0x02).unwrap();
    cpu.mem.set_u8(0x0200, 0x5A).unwrap();
    cpu.mem.set_u8(0x0203, 0x6B).unwrap();
    assert_eq!(Ok(" LDA ($10,X) @ 11 = 0200 = 5A".to_string()), Instruction::LDA(Operand::PreIndexedIndirect(0x10)).get_log_string(&cpu));
    assert_eq!(Ok(" LDA ($11),Y = 0200 @ 0203 = 6B".to_string()), Instruction::LDA(Operand::PostIndexedIndirect(0x11)).get_log_string(&cpu));
}

#[test]
pub fn log_string_of_a_branch_shows_its_target() {
    let mut cpu = Mos6502::with_fixed_memory(0x10);
    cpu.pc.set(0xC000);
    assert_eq!(Ok(" BNE $BFFE".to_string()), Instruction::BNE(Operand::Offset(-2)).get_log_string(&cpu));
}

#[test]
pub fn log_string_of_an_indirect_jump_shows_the_target() {
    let mut cpu = Mos6502::with_fixed_memory(0x300);
    cpu.mem.set_u8(0x0120, 0x34).unwrap();
    cpu.mem.set_u8(0x0121, 0x12).unwrap();
    assert_eq!(Ok(" JMP ($0120) = 1234".to_string()), Instruction::JMP(Operand::Indirect(0x0120)).get_log_string(&cpu));
    assert_eq!(Ok(" JMP $0120".to_string()), Instruction::JMP(Operand::Absolute(0x0120)).get_log_string(&cpu));
}

#[test]
pub fn log_string_reports_unmapped_memory() {
    let cpu = Mos6502::with_fixed_memory(0x10);
    assert_eq!(
        Err(OperandError::ErrorAccessingMemory(MemoryError::UnmappedAddress(0x20))),
        Instruction::LDA(Operand::Absolute(0x20)).get_log_string(&cpu)
    );
    assert_eq!(
        Err(OperandError::ErrorAccessingMemory(MemoryError::UnmappedAddress(0x40))),
        Instruction::JMP(Operand::Indirect(0x40)).get_log_string(&cpu)
    );
}

#[test]
pub fn errors_describe_themselves() {
    assert_eq!("attempted to write to a read-only operand", OperandError::ReadOnlyOperand.description());
    assert_eq!("error accessing memory", OperandError::ErrorAccessingMemory(MemoryError::UnmappedAddress(1)).description());
    assert_eq!("attempted to take the address of an operand with no address", OperandError::NonAddressOperand.description());
    assert_eq!("the instruction caused the processor to halt", ExecError::HaltInstruction.description());
    assert_eq!("operand is illegal for use with the executed instruction", ExecError::IllegalOperand.description());
    assert_eq!("error retrieving operand", ExecError::ErrorRetrievingOperand(OperandError::ReadOnlyOperand).description());
    assert_eq!("error reading from memory", ExecError::ErrorReadingMemory(MemoryError::UnmappedAddress(1)).description());
}
