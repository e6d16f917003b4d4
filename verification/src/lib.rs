//! An emulator for the MOS 6502 processor: its registers and flags, its
//! memory, the decoding of its instructions and their execution.

/// Contains code to manage clock cycles
pub mod clock;
/// Contains the processor state: registers, register names and the processor itself
pub mod cpu;
/// Contains the decoder of instructions from bytes
pub mod decoder;
/// Provides implementations of all the instructions
pub mod exec;
/// Defines the processor status register
pub mod flags;
/// Defines the instructions that can be executed on the processor
pub mod instruction;
/// Contains abstractions useful for Memory Management
pub mod mem;
/// Defines operands that can be provided to instructions
pub mod operand;
/// Contains a Program Counter object to track program counter position
pub mod pc;

/// States and proves what holds of the library's operations taken together
pub mod laws;
/// States and proves what the instructions do, in terms of the processor's state
pub mod opcode_laws;
/// Contains helpers to spell values out as text
pub mod text;

pub use clock::Clock;
pub use cpu::{Mos6502, RegisterName, Registers, STACK_END, STACK_START};
pub use decoder::{decode, DecodeError};
pub use exec::{ExecError, ExecResult};
pub use exec::dispatch::dispatch;
pub use flags::Flags;
pub use instruction::Instruction;
pub use mem::{EmptyMemory, FixedMemory, Memory, MemoryError, MemoryResult, VirtualMemory};
pub use operand::{Operand, OperandError};
pub use pc::ProgramCounter;
