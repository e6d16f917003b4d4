use vstd::prelude::*;
use crate::cpu::{CpuView, Mos6502, RegisterName};
use crate::exec::{read_operand, resumed, ExecError, ExecResult, Outcome};
use crate::exec::{adc, and, asl, axs, bit, branch, brk, clear_flag, compare, dec, eor, inc, jmp, jsr, load, lsr, ora, pull, push, ret, rotate, sbc, set_flag, store, transfer};
use crate::exec::adc::adc_spec;
use crate::exec::and::{and_spec, xaa_spec};
use crate::exec::asl::asl_spec;
use crate::exec::axs::axs_spec;
use crate::exec::bit::bit_spec;
use crate::exec::branch::{branch_spec, flags_set};
use crate::exec::brk::brk_spec;
use crate::exec::compare::compare_spec;
use crate::exec::dec::{dec_mem_spec, dec_reg_spec};
use crate::exec::eor::eor_spec;
use crate::exec::inc::{inc_mem_spec, inc_reg_spec};
use crate::exec::jmp::jmp_spec;
use crate::exec::jsr::jsr_spec;
use crate::exec::load::{las_spec, load_spec};
use crate::exec::lsr::lsr_spec;
use crate::exec::ora::ora_spec;
use crate::exec::pull::pull_exec_spec;
use crate::exec::push::push_exec_spec;
use crate::exec::ret::{rti_spec, rts_spec};
use crate::exec::rotate::rotate_spec;
use crate::exec::sbc::sbc_spec;
use crate::exec::store::{ahx_spec, sax_spec, sh_spec, store_spec, tas_spec};
use crate::exec::transfer::transfer_spec;
use crate::flags::{cleared, raised, raised_if, Flags};
use crate::instruction::{cycles_spec, Instruction};
use crate::mem::Memory;
use crate::operand::Operand;

verus! {

/// The state after a run that cannot panic
pub open spec fn done(r: (CpuView, ExecResult)) -> Outcome {
    Some(r)
}

/// The state after a body that ran with the clock suspended, once the clock
/// is put back as it was in `s`
pub open spec fn resumed_outcome(s: CpuView, body: Outcome) -> Outcome {
    match body {
        None => None,
        Some(b) => Some(resumed(s, b)),
    }
}

/// What ARR does after its AND and its rotation: CARRY takes bit 6 of the
/// operand, and OVERFLOW takes bit 6 xor bit 5 of it
pub open spec fn arr_fixup(s: CpuView, op: Operand) -> (CpuView, ExecResult) {
    let (s1, r) = read_operand(s, op);
    match r {
        Err(e) => (s1, Err(e)),
        Ok(val) => {
            let bit6 = val & 0x40 != 0;
            let bit5 = val & 0x20 != 0;
            let p1 = raised_if(s1.p, 0b0000_0001, bit6);
            (s1.with_p(raised_if(p1, 0b0100_0000, bit6 != bit5)), Ok(()))
        },
    }
}

/// What ALR does: AND with carry, then LSR of the accumulator
pub open spec fn alr_spec(s: CpuView, op: Operand) -> (CpuView, ExecResult) {
    let (s1, r) = and_spec(s, op, true);
    match r {
        Err(e) => (s1, Err(e)),
        Ok(_) => lsr_spec(s1, Operand::Accumulator),
    }
}

/// What ARR does: AND with carry, ROR of the accumulator, then CARRY and
/// OVERFLOW from bits 6 and 5 of the operand
pub open spec fn arr_spec(s: CpuView, op: Operand) -> (CpuView, ExecResult) {
    let (s1, r1) = and_spec(s, op, true);
    match r1 {
        Err(e) => (s1, Err(e)),
        Ok(_) => {
            let (s2, r2) = rotate_spec(s1, Operand::Accumulator, false);
            match r2 {
                Err(e) => (s2, Err(e)),
                Ok(_) => arr_fixup(s2, op),
            }
        },
    }
}

/// What DCP does: DEC, then CMP against A with the clock suspended
pub open spec fn dcp_spec(s: CpuView, op: Operand) -> (CpuView, ExecResult) {
    let (s1, r) = dec_mem_spec(s, op);
    match r {
        Err(e) => (s1, Err(e)),
        Ok(_) => resumed(s1, compare_spec(s1.with_suspended(true), RegisterName::A, op)),
    }
}

/// What ISB does: INC, then SBC with the clock suspended
pub open spec fn isb_spec(s: CpuView, op: Operand) -> Outcome {
    let (s1, r) = inc_mem_spec(s, op);
    match r {
        Err(e) => Some((s1, Err(e))),
        Ok(_) => resumed_outcome(s1, sbc_spec(s1.with_suspended(true), op)),
    }
}

/// What LAX does: LDA, then TAX
pub open spec fn lax_spec(s: CpuView, op: Operand) -> (CpuView, ExecResult) {
    let (s1, r) = load_spec(s, RegisterName::A, op);
    match r {
        Err(e) => (s1, Err(e)),
        Ok(_) => (transfer_spec(s1, RegisterName::A, RegisterName::X), Ok(())),
    }
}

/// What RLA does, with the clock suspended: ROL, then AND
pub open spec fn rla_spec(s: CpuView, op: Operand) -> (CpuView, ExecResult) {
    let (s1, r) = rotate_spec(s.with_suspended(true), op, true);
    resumed(
        s,
        match r {
            Err(e) => (s1, Err(e)),
            Ok(_) => and_spec(s1, op, false),
        },
    )
}

/// What RRA does, with the clock suspended: ROR, then ADC
pub open spec fn rra_spec(s: CpuView, op: Operand) -> Outcome {
    let (s1, r) = rotate_spec(s.with_suspended(true), op, false);
    resumed_outcome(
        s,
        match r {
            Err(e) => Some((s1, Err(e))),
            Ok(_) => adc_spec(s1, op),
        },
    )
}

/// What SLO does, with the clock suspended: ASL, then ORA
pub open spec fn slo_spec(s: CpuView, op: Operand) -> (CpuView, ExecResult) {
    let (s1, r) = asl_spec(s.with_suspended(true), op);
    resumed(
        s,
        match r {
            Err(e) => (s1, Err(e)),
            Ok(_) => ora_spec(s1, op),
        },
    )
}

/// What SRE does, with the clock suspended: LSR, then EOR
pub open spec fn sre_spec(s: CpuView, op: Operand) -> (CpuView, ExecResult) {
    let (s1, r) = lsr_spec(s.with_suspended(true), op);
    resumed(
        s,
        match r {
            Err(e) => (s1, Err(e)),
            Ok(_) => eor_spec(s1, op),
        },
    )
}

/// What IGN and SKB do: read the operand for the side effects alone
pub open spec fn touch_spec(s: CpuView, op: Operand) -> (CpuView, ExecResult) {
    (read_operand(s, op).0, from_read(read_operand(s, op).1))
}

/// What executing `inst` does once its base cycles are charged
pub open spec fn execute_spec(s: CpuView, inst: Instruction) -> Outcome {
    match inst {
        Instruction::ADC(op) => adc_spec(s, op),
        Instruction::AHX(op) => done(ahx_spec(s, op)),
        Instruction::ALR(op) => done(alr_spec(s, op)),
        Instruction::AND(op) => done(and_spec(s, op, false)),
        Instruction::ANC(op) => done(and_spec(s, op, true)),
        Instruction::ARR(op) => done(arr_spec(s, op)),
        Instruction::ASL(op) => done(asl_spec(s, op)),
        Instruction::AXS(op) => done(axs_spec(s, op)),
        Instruction::BCC(op) => done(branch_spec(s, op, !flags_set(s.p, Flags { bits: 0b0000_0001 }))),
        Instruction::BCS(op) => done(branch_spec(s, op, flags_set(s.p, Flags { bits: 0b0000_0001 }))),
        Instruction::BEQ(op) => done(branch_spec(s, op, flags_set(s.p, Flags { bits: 0b0000_0010 }))),
        Instruction::BIT(op) => done(bit_spec(s, op)),
        Instruction::BMI(op) => done(branch_spec(s, op, flags_set(s.p, Flags { bits: 0b1000_0000 }))),
        Instruction::BNE(op) => done(branch_spec(s, op, !flags_set(s.p, Flags { bits: 0b0000_0010 }))),
        Instruction::BPL(op) => done(branch_spec(s, op, !flags_set(s.p, Flags { bits: 0b1000_0000 }))),
        Instruction::BVC(op) => done(branch_spec(s, op, !flags_set(s.p, Flags { bits: 0b0100_0000 }))),
        Instruction::BVS(op) => done(branch_spec(s, op, flags_set(s.p, Flags { bits: 0b0100_0000 }))),
        Instruction::CMP(op) => done(compare_spec(s, RegisterName::A, op)),
        Instruction::CPX(op) => done(compare_spec(s, RegisterName::X, op)),
        Instruction::CPY(op) => done(compare_spec(s, RegisterName::Y, op)),
        Instruction::DCP(op) => done(dcp_spec(s, op)),
        Instruction::DEC(op) => done(dec_mem_spec(s, op)),
        Instruction::EOR(op) => done(eor_spec(s, op)),
        Instruction::IGN(op) | Instruction::SKB(op) => done(touch_spec(s, op)),
        Instruction::INC(op) => done(inc_mem_spec(s, op)),
        Instruction::ISB(op) => isb_spec(s, op),
        Instruction::JMP(op) => done(jmp_spec(s, op)),
        Instruction::JSR(op) => jsr_spec(s, op),
        Instruction::LAS(op) => done(las_spec(s, op)),
        Instruction::LAX(op) => done(lax_spec(s, op)),
        Instruction::LDA(op) => done(load_spec(s, RegisterName::A, op)),
        Instruction::LDX(op) => done(load_spec(s, RegisterName::X, op)),
        Instruction::LDY(op) => done(load_spec(s, RegisterName::Y, op)),
        Instruction::LSR(op) => done(lsr_spec(s, op)),
        Instruction::ORA(op) => done(ora_spec(s, op)),
        Instruction::RLA(op) => done(rla_spec(s, op)),
        Instruction::ROL(op) => done(rotate_spec(s, op, true)),
        Instruction::ROR(op) => done(rotate_spec(s, op, false)),
        Instruction::RRA(op) => rra_spec(s, op),
        Instruction::SAX(op) => done(sax_spec(s, op)),
        Instruction::SBC(op) | Instruction::SBCX(op) => sbc_spec(s, op),
        // SHY stores with X, as SHX does (the processor's SHY uses Y)
        Instruction::SHY(op) | Instruction::SHX(op) => done(sh_spec(s, RegisterName::X, op)),
        Instruction::SLO(op) => done(slo_spec(s, op)),
        Instruction::SRE(op) => done(sre_spec(s, op)),
        Instruction::STA(op) => done(store_spec(s, RegisterName::A, op)),
        Instruction::STX(op) => done(store_spec(s, RegisterName::X, op)),
        Instruction::STY(op) => done(store_spec(s, RegisterName::Y, op)),
        Instruction::TAS(op) => done(tas_spec(s, op)),
        Instruction::XAA(op) => done(xaa_spec(s, op)),
        Instruction::BRK => brk_spec(s),
        Instruction::CLC => done((s.with_p(cleared(s.p, 0b0000_0001)), Ok(()))),
        Instruction::CLD => done((s.with_p(cleared(s.p, 0b0000_1000)), Ok(()))),
        Instruction::CLI => done((s.with_p(cleared(s.p, 0b0000_0100)), Ok(()))),
        Instruction::CLV => done((s.with_p(cleared(s.p, 0b0100_0000)), Ok(()))),
        Instruction::DEX => done((dec_reg_spec(s, RegisterName::X), Ok(()))),
        Instruction::DEY => done((dec_reg_spec(s, RegisterName::Y), Ok(()))),
        Instruction::HLT => done((s, Err(ExecError::HaltInstruction))),
        Instruction::INX => done((inc_reg_spec(s, RegisterName::X), Ok(()))),
        Instruction::INY => done((inc_reg_spec(s, RegisterName::Y), Ok(()))),
        Instruction::NOP | Instruction::NOPX => done((s, Ok(()))),
        Instruction::PHA => push_exec_spec(s, RegisterName::A),
        Instruction::PHP => push_exec_spec(s, RegisterName::P),
        Instruction::PLA => pull_exec_spec(s, RegisterName::A),
        Instruction::PLP => pull_exec_spec(s, RegisterName::P),
        Instruction::RTI => rti_spec(s),
        Instruction::RTS => rts_spec(s),
        Instruction::SEC => done((s.with_p(raised(s.p, 0b0000_0001)), Ok(()))),
        Instruction::SED => done((s.with_p(raised(s.p, 0b0000_1000)), Ok(()))),
        Instruction::SEI => done((s.with_p(raised(s.p, 0b0000_0100)), Ok(()))),
        Instruction::TAX => done((transfer_spec(s, RegisterName::A, RegisterName::X), Ok(()))),
        Instruction::TAY => done((transfer_spec(s, RegisterName::A, RegisterName::Y), Ok(()))),
        Instruction::TSX => done((transfer_spec(s, RegisterName::S, RegisterName::X), Ok(()))),
        Instruction::TXA => done((transfer_spec(s, RegisterName::X, RegisterName::A), Ok(()))),
        Instruction::TXS => done((transfer_spec(s, RegisterName::X, RegisterName::S), Ok(()))),
        Instruction::TYA => done((transfer_spec(s, RegisterName::Y, RegisterName::A), Ok(()))),
    }
}

/// A read's error, without its value
pub open spec fn from_read(r: Result<u8, ExecError>) -> ExecResult {
    match r {
        Ok(_) => Ok(()),
        Err(e) => Err(e),
    }
}

/// What executing `inst` does: its base cycles are charged, then it runs;
/// HLT stops with an error before any cycle is charged. `None` where the
/// execution would panic.
pub open spec fn dispatch_spec(s: CpuView, inst: Instruction) -> Outcome {
    if inst is HLT {
        Some((s, Err(ExecError::HaltInstruction)))
    } else {
        match cycles_spec(inst) {
            None => None,
            Some(c) => execute_spec(s.tick(c), inst),
        }
    }
}

fn alr<M: Memory>(cpu: &mut Mos6502<M>, op: Operand) -> (r: ExecResult)
    requires
        old(cpu)@.room(4),
    ensures
        (final(cpu)@, r) == alr_spec(old(cpu)@, op),
{
    match and::exec(cpu, op, true) {
        Ok(()) => {},
        Err(e) => return Err(e),
    }
    lsr::exec(cpu, Operand::Accumulator)
}

fn arr<M: Memory>(cpu: &mut Mos6502<M>, op: Operand) -> (r: ExecResult)
    requires
        old(cpu)@.room(4),
    ensures
        (final(cpu)@, r) == arr_spec(old(cpu)@, op),
{
    match and::exec(cpu, op, true) {
        Ok(()) => {},
        Err(e) => return Err(e),
    }
    match rotate::right(cpu, Operand::Accumulator) {
        Ok(()) => {},
        Err(e) => return Err(e),
    }
    arr_flags(cpu, op)
}

fn dcp<M: Memory>(cpu: &mut Mos6502<M>, op: Operand) -> (r: ExecResult)
    requires
        old(cpu)@.room(4),
    ensures
        (final(cpu)@, r) == dcp_spec(old(cpu)@, op),
{
    match dec::mem(cpu, op) {
        Ok(()) => {},
        Err(e) => return Err(e),
    }
    let was_suspended = cpu.clock.suspend();
    let r = compare::exec(cpu, RegisterName::A, op);
    cpu.clock.restore(was_suspended);
    r
}

fn isb<M: Memory>(cpu: &mut Mos6502<M>, op: Operand) -> (r: ExecResult)
    requires
        old(cpu)@.room(4),
        isb_spec(old(cpu)@, op) is Some,
    ensures
        isb_spec(old(cpu)@, op) == Some((final(cpu)@, r)),
{
    match inc::mem(cpu, op) {
        Ok(()) => {},
        Err(e) => return Err(e),
    }
    let was_suspended = cpu.clock.suspend();
    let r = sbc::exec(cpu, op);
    cpu.clock.restore(was_suspended);
    r
}

fn lax<M: Memory>(cpu: &mut Mos6502<M>, op: Operand) -> (r: ExecResult)
    requires
        old(cpu)@.room(4),
    ensures
        (final(cpu)@, r) == lax_spec(old(cpu)@, op),
{
    match load::exec(cpu, RegisterName::A, op) {
        Ok(()) => {},
        Err(e) => return Err(e),
    }
    transfer::exec(cpu, RegisterName::A, RegisterName::X)
}

fn rla<M: Memory>(cpu: &mut Mos6502<M>, op: Operand) -> (r: ExecResult)
    requires
        old(cpu)@.room(4),
    ensures
        (final(cpu)@, r) == rla_spec(old(cpu)@, op),
{
    let was_suspended = cpu.clock.suspend();
    let r = match rotate::left(cpu, op) {
        Ok(()) => and::exec(cpu, op, false),
        Err(e) => Err(e),
    };
    cpu.clock.restore(was_suspended);
    r
}

fn rra<M: Memory>(cpu: &mut Mos6502<M>, op: Operand) -> (r: ExecResult)
    requires
        old(cpu)@.room(4),
        rra_spec(old(cpu)@, op) is Some,
    ensures
        rra_spec(old(cpu)@, op) == Some((final(cpu)@, r)),
{
    let was_suspended = cpu.clock.suspend();
    let r = match rotate::right(cpu, op) {
        Ok(()) => adc::exec(cpu, op),
        Err(e) => Err(e),
    };
    cpu.clock.restore(was_suspended);
    r
}

fn slo<M: Memory>(cpu: &mut Mos6502<M>, op: Operand) -> (r: ExecResult)
    requires
        old(cpu)@.room(4),
    ensures
        (final(cpu)@, r) == slo_spec(old(cpu)@, op),
{
    let was_suspended = cpu.clock.suspend();
    let r = match asl::exec(cpu, op) {
        Ok(()) => ora::exec(cpu, op),
        Err(e) => Err(e),
    };
    cpu.clock.restore(was_suspended);
    r
}

fn sre<M: Memory>(cpu: &mut Mos6502<M>, op: Operand) -> (r: ExecResult)
    requires
        old(cpu)@.room(4),
    ensures
        (final(cpu)@, r) == sre_spec(old(cpu)@, op),
{
    let was_suspended = cpu.clock.suspend();
    let r = match lsr::exec(cpu, op) {
        Ok(()) => eor::exec(cpu, op),
        Err(e) => Err(e),
    };
    cpu.clock.restore(was_suspended);
    r
}

/// Reads the operand for its side effects alone (IGN, SKB)
fn touch<M: Memory>(cpu: &mut Mos6502<M>, op: Operand) -> (r: ExecResult)
    requires
        old(cpu)@.room(1),
    ensures
        final(cpu)@ == read_operand(old(cpu)@, op).0,
        r == from_read(read_operand(old(cpu)@, op).1),
        (final(cpu)@, r) == touch_spec(old(cpu)@, op),
{
    match op.get_u8(cpu) {
        Ok(_) => Ok(()),
        Err(e) => Err(ExecError::from(e)),
    }
}

/// Corrects the flags after ARR's AND and rotation
fn arr_flags<M: Memory>(cpu: &mut Mos6502<M>, op: Operand) -> (r: ExecResult)
    requires
        old(cpu)@.room(1),
    ensures
        (final(cpu)@, r) == arr_fixup(old(cpu)@, op),
{
    let val = match op.get_u8(cpu) {
        Ok(v) => v,
        Err(e) => return Err(ExecError::from(e)),
    };
    let bit6 = val & 0x40 != 0;
    let bit5 = val & 0x20 != 0;
    cpu.flags.set_if(Flags::CARRY(), bit6);
    cpu.flags.set_if(Flags::OVERFLOW(), bit6 ^ bit5);
    Ok(())
}

/// Executes the instruction against the provided CPU
///
/// # Arguments
///
/// * `inst` - The instruction to execute
/// * `cpu` - The process on which to execute the instruction
#[verifier::rlimit(100)]
#[verifier::spinoff_prover]
pub fn dispatch<M: Memory>(inst: Instruction, cpu: &mut Mos6502<M>) -> (r: ExecResult)
    requires
        old(cpu)@.room(16),
        dispatch_spec(old(cpu)@, inst) is Some,
    ensures
        dispatch_spec(old(cpu)@, inst) == Some((final(cpu)@, r)),
{
    if let Instruction::HLT = inst {
        return Err(ExecError::HaltInstruction);
    }
    // Tick the base cycle count of the instruction
    cpu.clock.tick(inst.base_cycles());
    match inst {
        Instruction::ADC(op) => adc::exec(cpu, op),
        Instruction::AHX(op) => store::ahx(cpu, op),
        Instruction::ALR(op) => alr(cpu, op),
        Instruction::AND(op) => and::exec(cpu, op, false),
        Instruction::ANC(op) => and::exec(cpu, op, true),
        Instruction::ARR(op) => arr(cpu, op),
        Instruction::ASL(op) => asl::exec(cpu, op),
        Instruction::AXS(op) => axs::exec(cpu, op),
        Instruction::BCC(op) => branch::if_clear(cpu, op, Flags::CARRY()),
        Instruction::BCS(op) => branch::if_set(cpu, op, Flags::CARRY()),
        Instruction::BEQ(op) => branch::if_set(cpu, op, Flags::ZERO()),
        Instruction::BIT(op) => bit::exec(cpu, op),
        Instruction::BMI(op) => branch::if_set(cpu, op, Flags::SIGN()),
        Instruction::BNE(op) => branch::if_clear(cpu, op, Flags::ZERO()),
        Instruction::BPL(op) => branch::if_clear(cpu, op, Flags::SIGN()),
        Instruction::BVC(op) => branch::if_clear(cpu, op, Flags::OVERFLOW()),
        Instruction::BVS(op) => branch::if_set(cpu, op, Flags::OVERFLOW()),
        Instruction::CMP(op) => compare::exec(cpu, RegisterName::A, op),
        Instruction::CPX(op) => compare::exec(cpu, RegisterName::X, op),
        Instruction::CPY(op) => compare::exec(cpu, RegisterName::Y, op),
        Instruction::DCP(op) => dcp(cpu, op),
        Instruction::DEC(op) => dec::mem(cpu, op),
        Instruction::EOR(op) => eor::exec(cpu, op),
        // Read the byte to get the side effects
        Instruction::IGN(op) => touch(cpu, op),
        Instruction::INC(op) => inc::mem(cpu, op),
        Instruction::ISB(op) => isb(cpu, op),
        Instruction::JMP(op) => jmp::exec(cpu, op),
        Instruction::JSR(op) => jsr::exec(cpu, op),
        Instruction::LAS(op) => load::las(cpu, op),
        Instruction::LAX(op) => lax(cpu, op),
        Instruction::LDA(op) => load::exec(cpu, RegisterName::A, op),
        Instruction::LDX(op) => load::exec(cpu, RegisterName::X, op),
        Instruction::LDY(op) => load::exec(cpu, RegisterName::Y, op),
        Instruction::LSR(op) => lsr::exec(cpu, op),
        Instruction::ORA(op) => ora::exec(cpu, op),
        Instruction::RLA(op) => rla(cpu, op),
        Instruction::ROL(op) => rotate::left(cpu, op),
        Instruction::ROR(op) => rotate::right(cpu, op),
        Instruction::RRA(op) => rra(cpu, op),
        Instruction::SAX(op) => store::sax(cpu, op),
        Instruction::SBC(op) | Instruction::SBCX(op) => sbc::exec(cpu, op),
        // The processor's SHY stores Y & H; this emulator has always stored
        // X & H for SHY as for SHX, and keeps doing so
        Instruction::SHY(op) => store::sh(cpu, RegisterName::X, op),
        Instruction::SHX(op) => store::sh(cpu, RegisterName::X, op),
        Instruction::SKB(op) => touch(cpu, op),
        Instruction::SLO(op) => slo(cpu, op),
        Instruction::SRE(op) => sre(cpu, op),
        Instruction::STA(op) => store::exec(cpu, RegisterName::A, op),
        Instruction::STX(op) => store::exec(cpu, RegisterName::X, op),
        Instruction::STY(op) => store::exec(cpu, RegisterName::Y, op),
        Instruction::TAS(op) => store::tas(cpu, op),
        Instruction::XAA(op) => and::xaa(cpu, op),
        Instruction::BRK => brk::exec(cpu),
        Instruction::CLC => clear_flag::exec(cpu, Flags::CARRY()),
        Instruction::CLD => clear_flag::exec(cpu, Flags::BCD()),
        Instruction::CLI => clear_flag::exec(cpu, Flags::INTERRUPT()),
        Instruction::CLV => clear_flag::exec(cpu, Flags::OVERFLOW()),
        Instruction::DEX => dec::reg(cpu, RegisterName::X),
        Instruction::DEY => dec::reg(cpu, RegisterName::Y),
        Instruction::HLT => Err(ExecError::HaltInstruction),
        Instruction::INX => inc::reg(cpu, RegisterName::X),
        Instruction::INY => inc::reg(cpu, RegisterName::Y),
        Instruction::NOP | Instruction::NOPX => Ok(()),
        Instruction::PHA => push::exec(cpu, RegisterName::A),
        Instruction::PHP => push::exec(cpu, RegisterName::P),
        Instruction::PLA => pull::exec(cpu, RegisterName::A),
        Instruction::PLP => pull::exec(cpu, RegisterName::P),
        Instruction::RTI => ret::from_interrupt(cpu),
        Instruction::RTS => ret::from_sub(cpu),
        Instruction::SEC => set_flag::exec(cpu, Flags::CARRY()),
        Instruction::SED => set_flag::exec(cpu, Flags::BCD()),
        Instruction::SEI => set_flag::exec(cpu, Flags::INTERRUPT()),
        Instruction::TAX => transfer::exec(cpu, RegisterName::A, RegisterName::X),
        Instruction::TAY => transfer::exec(cpu, RegisterName::A, RegisterName::Y),
        Instruction::TSX => transfer::exec(cpu, RegisterName::S, RegisterName::X),
        Instruction::TXA => transfer::exec(cpu, RegisterName::X, RegisterName::A),
        Instruction::TXS => transfer::exec(cpu, RegisterName::X, RegisterName::S),
        Instruction::TYA => transfer::exec(cpu, RegisterName::Y, RegisterName::A),
    }
}

impl Instruction {
    /// Executes the instruction against the provided CPU
    pub fn exec<M: Memory>(self, cpu: &mut Mos6502<M>) -> (r: ExecResult)
        requires
            old(cpu)@.room(16),
            dispatch_spec(old(cpu)@, self) is Some,
        ensures
            dispatch_spec(old(cpu)@, self) == Some((final(cpu)@, r)),
    {
        dispatch(self, cpu)
    }
}

} // verus!
