use vstd::prelude::*;
use crate::cpu::{push_spec, CpuView};
use crate::mem::MemoryError;
use crate::operand::{read_step, write_step, addr_step, Operand, OperandError};

pub mod and;
pub mod adc;
pub mod asl;
pub mod branch;
pub mod brk;
pub mod jsr;
pub mod ret;
pub mod jmp;
pub mod pull;
pub mod push;
pub mod sbc;
pub mod store;
pub mod dec;
pub mod dispatch;
pub mod inc;
pub mod lsr;
pub mod rotate;
pub mod axs;
pub mod bit;
pub mod clear_flag;
pub mod compare;
pub mod eor;
pub mod load;
pub mod ora;
pub mod set_flag;
pub mod transfer;
pub mod utils;

verus! {

/// Represents an error that can occur while executing an instruction
#[derive(Clone, Copy, Debug, PartialEq, Eq, Structural)]
pub enum ExecError {
    /// Indicates that an error occurred retrieving an operand attached to the instruction
    ErrorRetrievingOperand(OperandError),
    /// Indicates that an error occurred reading or writing memory
    ErrorReadingMemory(MemoryError),
    /// Indicates that a provided operand is illegal for use with the executed instruction
    IllegalOperand,
    /// Indicates that the HLT instruction was invoked
    HaltInstruction,
}

/// The description of an execution error
pub open spec fn exec_error_text(e: ExecError) -> Seq<char> {
    match e {
        ExecError::ErrorRetrievingOperand(_) => "error retrieving operand"@,
        ExecError::ErrorReadingMemory(_) => "error reading from memory"@,
        ExecError::IllegalOperand => "operand is illegal for use with the executed instruction"@,
        ExecError::HaltInstruction => "the instruction caused the processor to halt"@,
    }
}

impl ExecError {
    /// A short description of the error
    pub fn description(&self) -> (r: &'static str)
        ensures
            r@ == exec_error_text(*self),
    {
        match self {
            ExecError::ErrorRetrievingOperand(_) => "error retrieving operand",
            ExecError::ErrorReadingMemory(_) => "error reading from memory",
            ExecError::IllegalOperand => "operand is illegal for use with the executed instruction",
            ExecError::HaltInstruction => "the instruction caused the processor to halt",
        }
    }
}

/// The result of executing an instruction
pub type ExecResult = Result<(), ExecError>;

/// What executing something does: the state after it and its result, or
/// `None` where the execution would panic
pub type Outcome = Option<(CpuView, ExecResult)>;

/// An operand error reported as an execution error
pub open spec fn from_operand<T>(r: Result<T, OperandError>) -> Result<T, ExecError> {
    match r {
        Ok(v) => Ok(v),
        Err(e) => Err(ExecError::ErrorRetrievingOperand(e)),
    }
}

/// A memory error reported as an execution error
pub open spec fn from_memory<T>(r: Result<T, MemoryError>) -> Result<T, ExecError> {
    match r {
        Ok(v) => Ok(v),
        Err(e) => Err(ExecError::ErrorReadingMemory(e)),
    }
}

/// The state after the value of `op` is read, and that value
pub open spec fn read_operand(s: CpuView, op: Operand) -> (CpuView, Result<u8, ExecError>) {
    (read_step(s, op).0, from_operand(read_step(s, op).1))
}

/// The state after `val` is written to `op`, and the result of the write
pub open spec fn write_operand(s: CpuView, op: Operand, val: u8) -> (CpuView, ExecResult) {
    (write_step(s, op, val).0, from_operand(write_step(s, op, val).1))
}

/// The state after the address of `op` is taken, and that address
pub open spec fn operand_addr(s: CpuView, op: Operand) -> (CpuView, Result<u16, ExecError>) {
    (addr_step(s, op).0, from_operand(addr_step(s, op).1))
}

/// The state and result of a body run with the clock suspended, once the
/// clock is put back as it was in `s`
pub open spec fn resumed(s: CpuView, body: (CpuView, ExecResult)) -> (CpuView, ExecResult) {
    (body.0.with_suspended(s.suspended), body.1)
}

/// What a push of `val` does, with its memory error reported as an execution error
pub open spec fn push_outcome(s: CpuView, val: u8) -> Outcome {
    match push_spec(s, val) {
        None => None,
        Some((s1, r)) => Some((s1, from_memory(r))),
    }
}

impl From<OperandError> for ExecError {
    fn from(err: OperandError) -> (r: ExecError) {
        ExecError::ErrorRetrievingOperand(err)
    }
}

impl vstd::std_specs::convert::FromSpecImpl<OperandError> for ExecError {
    open spec fn obeys_from_spec() -> bool {
        true
    }

    open spec fn from_spec(err: OperandError) -> ExecError {
        ExecError::ErrorRetrievingOperand(err)
    }
}

impl From<MemoryError> for ExecError {
    fn from(err: MemoryError) -> (r: ExecError) {
        ExecError::ErrorReadingMemory(err)
    }
}

impl vstd::std_specs::convert::FromSpecImpl<MemoryError> for ExecError {
    open spec fn obeys_from_spec() -> bool {
        true
    }

    open spec fn from_spec(err: MemoryError) -> ExecError {
        ExecError::ErrorReadingMemory(err)
    }
}

} // verus!
