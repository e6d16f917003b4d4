use vstd::prelude::*;
use crate::cpu::{reg_value, CpuView, Mos6502, RegisterName};
use crate::mem::{cell_read, cell_write, Memory, MemoryError};
use crate::text::{hex2, hex4, push_char, push_hex2, push_hex4, push_text, text_result};

verus! {

/// Represents an operand that can be provided to an instruction
#[derive(Clone, Copy, Debug, PartialEq, Eq, Structural)]
pub enum Operand {
    /// Indicates an operand provided inline with the instruction
    Immediate(u8),
    /// Indicates an operand stored in the Accumulator (A register)
    Accumulator,
    /// Indicates an operand stored at the provided memory address
    ///
    /// If the provided address is `m`, this operand is defined as `*m`
    Absolute(u16),
    /// Indicates an operand stored at the provided index from the current value of the provided
    /// register
    ///
    /// If the provided address is `m`, this operand is defined as `*(m+x)` or `*(m+y)` depending
    /// on the register specified
    Indexed(u16, RegisterName),
    /// Indicates an operand stored at an address stored in the provided address
    ///
    /// If the provided address is `m`, this operand is defined as `**m`
    Indirect(u16),
    /// Indicates an operand stored at an address stored in the provided address (indexed by the
    /// `X` register)
    ///
    /// If the provided address is `m`, this operand is defined as `**(m+x)`
    PreIndexedIndirect(u8),
    /// Indicates an operand stored at an address (indexed by the `Y` register) stored in the provided address
    ///
    /// If the provided address is `m`, this operand is defined as `*(*m+y)`
    PostIndexedIndirect(u8),
    /// Indicates an operand stored as an offset to the program counter
    ///
    /// This variant is never used as a general-purpose operand, it is
    /// always tested for explicitly and unwrapped
    Offset(i8),
    /// Indicates an operand stored as a 16-bit immediate value
    ///
    /// This variant is never used as a general-purpose operand, it is
    /// always tested for explicitly and unwrapped
    TwoByteImmediate(u16),
}

/// Represents an error that occurred which accessing an `Operand`
#[derive(Clone, Copy, Debug, PartialEq, Eq, Structural)]
pub enum OperandError {
    /// Indicates an error occurred reading or writing memory
    ErrorAccessingMemory(MemoryError),
    /// Indicates that a request was made to write to a read-only operand such as
    /// `Operand::Immediate`
    ReadOnlyOperand,
    /// Indicates that a request was made to take the address of a non-addressable operand
    /// such as `Operand::Immediate`
    NonAddressOperand,
}

/// The description of an operand error
pub open spec fn operand_error_text(e: OperandError) -> Seq<char> {
    match e {
        OperandError::ErrorAccessingMemory(_) => "error accessing memory"@,
        OperandError::ReadOnlyOperand => "attempted to write to a read-only operand"@,
        OperandError::NonAddressOperand => "attempted to take the address of an operand with no address"@,
    }
}

impl OperandError {
    /// A short description of the error
    pub fn description(&self) -> (r: &'static str)
        ensures
            r@ == operand_error_text(*self),
    {
        match self {
            OperandError::ErrorAccessingMemory(_) => "error accessing memory",
            OperandError::ReadOnlyOperand => "attempted to write to a read-only operand",
            OperandError::NonAddressOperand => "attempted to take the address of an operand with no address",
        }
    }
}

impl From<MemoryError> for OperandError {
    fn from(err: MemoryError) -> (r: OperandError) {
        OperandError::ErrorAccessingMemory(err)
    }
}

impl vstd::std_specs::convert::FromSpecImpl<MemoryError> for OperandError {
    open spec fn obeys_from_spec() -> bool {
        true
    }

    open spec fn from_spec(err: MemoryError) -> OperandError {
        OperandError::ErrorAccessingMemory(err)
    }
}

/// True when going from `from` to `to` crosses into another page of 256 bytes
pub open spec fn crosses_page(from: int, to: int) -> bool {
    from / 256 != to / 256
}

/// A read of `addr` whose memory error is reported as an operand error
pub open spec fn operand_read(mem: Map<u64, u8>, addr: int) -> Result<u8, OperandError> {
    match cell_read(mem, addr as u64) {
        Ok(v) => Ok(v),
        Err(e) => Err(OperandError::ErrorAccessingMemory(e)),
    }
}

/// The little-endian pointer whose low byte is at `low_addr` and whose high byte is at `high_addr`
pub open spec fn pointer_read(mem: Map<u64, u8>, low_addr: int, high_addr: int) -> Result<u16, OperandError> {
    match operand_read(mem, low_addr) {
        Err(e) => Err(e),
        Ok(low) => match operand_read(mem, high_addr) {
            Err(e) => Err(e),
            Ok(high) => Ok((low + 256 * high) as u16),
        },
    }
}

/// The effective address of `op` in state `s`, and whether finding it crossed a
/// page (which costs an extra cycle)
pub open spec fn effective_addr(s: CpuView, op: Operand) -> Result<(u16, bool), OperandError> {
    match op {
        Operand::Absolute(addr) => Ok((addr, false)),
        Operand::Indirect(addr) => {
            // The pointer's high byte is read from the same page as its low byte
            match pointer_read(s.mem, addr as int, (addr / 256) * 256 + (addr + 1) % 256) {
                Err(e) => Err(e),
                Ok(p) => Ok((p, false)),
            }
        },
        Operand::Indexed(addr, r) => {
            let sum = addr + reg_value(s, r);
            // Zero-page accesses wrap around within the zero page
            let eaddr = if addr < 0x0100 {
                sum % 0x100
            } else {
                sum % 0x1_0000
            };
            Ok((eaddr as u16, crosses_page(addr as int, eaddr)))
        },
        Operand::PreIndexedIndirect(addr) => {
            let ptr = (addr + s.x) % 0x100;
            match pointer_read(s.mem, ptr, (ptr + 1) % 0x100) {
                Err(e) => Err(e),
                Ok(p) => Ok((p, false)),
            }
        },
        Operand::PostIndexedIndirect(addr) => {
            match pointer_read(s.mem, addr as int, (addr + 1) % 0x100) {
                Err(e) => Err(e),
                Ok(p) => {
                    let fin = p + s.y;
                    Ok(((fin % 0x1_0000) as u16, crosses_page(p as int, fin)))
                },
            }
        },
        _ => Err(OperandError::NonAddressOperand),
    }
}

/// The value of `op` in state `s`, read without charging any cycle
pub open spec fn peek_value(s: CpuView, op: Operand) -> Result<u8, OperandError> {
    match op {
        Operand::Immediate(n) => Ok(n),
        Operand::Accumulator => Ok(s.a),
        _ => match effective_addr(s, op) {
            Err(e) => Err(e),
            Ok((addr, _)) => operand_read(s.mem, addr as int),
        },
    }
}

/// The state after the address of `op` is taken, and that address
pub open spec fn addr_step(s: CpuView, op: Operand) -> (CpuView, Result<u16, OperandError>) {
    match effective_addr(s, op) {
        Ok((addr, oops)) => (s.tick_if(oops), Ok(addr)),
        Err(e) => (s, Err(e)),
    }
}

/// The state after the value of `op` is read, and that value
pub open spec fn read_step(s: CpuView, op: Operand) -> (CpuView, Result<u8, OperandError>) {
    match op {
        Operand::Immediate(n) => (s, Ok(n)),
        Operand::Accumulator => (s, Ok(s.a)),
        _ => {
            let (s1, r) = addr_step(s, op);
            match r {
                Err(e) => (s1, Err(e)),
                Ok(addr) => (s1, operand_read(s1.mem, addr as int)),
            }
        },
    }
}

/// The state after `val` is written to `op`, and the result of the write
pub open spec fn write_step(s: CpuView, op: Operand, val: u8) -> (CpuView, Result<(), OperandError>) {
    match op {
        Operand::Accumulator => (s.with_a(val), Ok(())),
        Operand::Immediate(_) | Operand::TwoByteImmediate(_) | Operand::Offset(_) => (
            s,
            Err(OperandError::ReadOnlyOperand),
        ),
        _ => {
            let (s1, r) = addr_step(s, op);
            match r {
                Err(e) => (s1, Err(e)),
                Ok(addr) => {
                    let (cells, w) = cell_write(s1.mem, addr as u64, val);
                    match w {
                        Ok(_) => (s1.with_mem(cells), Ok(())),
                        Err(e) => (s1, Err(OperandError::ErrorAccessingMemory(e))),
                    }
                },
            }
        },
    }
}

/// The letter that names register `r`
pub open spec fn register_letter(r: RegisterName) -> char {
    match r {
        RegisterName::A => 'A',
        RegisterName::X => 'X',
        RegisterName::Y => 'Y',
        RegisterName::P => 'P',
        RegisterName::S => 'S',
    }
}

/// Two hexadecimal digits for an address in the zero page, four for any other
pub open spec fn addr_text(v: u16) -> Seq<char> {
    if v <= 0x00FF {
        hex2(v as u8)
    } else {
        hex4(v)
    }
}

/// The assembler text of `op`
pub open spec fn operand_text(op: Operand) -> Seq<char> {
    match op {
        Operand::Immediate(v) => "#$"@ + hex2(v),
        Operand::Accumulator => "A"@,
        Operand::Absolute(v) => "$"@ + addr_text(v),
        Operand::Indexed(v, r) => "$"@ + addr_text(v) + ","@.push(register_letter(r)),
        Operand::Indirect(v) => "($"@ + hex4(v) + ")"@,
        Operand::PreIndexedIndirect(v) => "($"@ + hex2(v) + ",X)"@,
        Operand::PostIndexedIndirect(v) => "($"@ + hex2(v) + "),Y"@,
        // A negative offset is shown with a minus sign before its two's complement
        Operand::Offset(v) => (if v < 0 {
            "-$"@
        } else {
            "$"@
        }) + hex2(v as u8),
        Operand::TwoByteImmediate(v) => "$"@ + hex4(v),
    }
}

/// What a trace line shows after the text of an operand in memory whose
/// effective address is `ea` and which holds `v`
pub open spec fn log_detail(s: CpuView, op: Operand, ea: u16, v: u8) -> Seq<char> {
    let rest = " = "@ + hex2(v);
    match op {
        Operand::PreIndexedIndirect(addr) => " @ "@ + hex2(((addr + s.x) % 0x100) as u8) + " = "@
            + hex4(ea) + rest,
        Operand::PostIndexedIndirect(_) => " = "@ + hex4(((ea - s.y) % 0x1_0000) as u16) + " @ "@
            + hex4(ea) + rest,
        Operand::Indexed(addr, _) => " @ "@ + (if addr < 0x0100 {
            hex2(ea as u8)
        } else {
            hex4(ea)
        }) + rest,
        _ => rest,
    }
}

/// The operand's part of a line of a trace of execution: the branch target for
/// an offset; for an operand in memory its text, the addresses that lead to it
/// and the byte stored there
pub open spec fn operand_log_text(s: CpuView, op: Operand) -> Result<Seq<char>, OperandError> {
    match op {
        Operand::Offset(offset) => Ok("$"@ + hex4(((s.pc + offset) % 0x1_0000) as u16)),
        Operand::Immediate(_) | Operand::Accumulator | Operand::TwoByteImmediate(_) => Ok(
            operand_text(op),
        ),
        _ => match effective_addr(s, op) {
            Err(e) => Err(e),
            Ok((ea, _)) => match operand_read(s.mem, ea as int) {
                Err(e) => Err(e),
                Ok(v) => Ok(operand_text(op) + log_detail(s, op, ea, v)),
            },
        },
    }
}

/// True when going from `base_addr` to `actual_addr` costs an extra cycle
/// because it leaves the page
fn oops_cycle(base_addr: u64, actual_addr: u64) -> (r: bool)
    ensures
        r == crosses_page(base_addr as int, actual_addr as int),
{
    base_addr / 256 != actual_addr / 256
}

/// Reads a byte for an addressing computation
fn read_for_operand<M: Memory>(mem: &M, addr: u64) -> (r: Result<u8, OperandError>)
    ensures
        r == operand_read(mem.cells(), addr as int),
{
    match mem.get_u8(addr) {
        Ok(v) => Ok(v),
        Err(e) => Err(OperandError::ErrorAccessingMemory(e)),
    }
}

/// The address that an offset from `pc` designates, wrapping around at 16 bits
fn offset_target(pc: u64, offset: i8) -> (r: u16)
    requires
        pc < 0x1_0000,
    ensures
        r == ((pc + offset) % 0x1_0000) as u16,
{
    let sum: i32 = pc as i32 + offset as i32;
    if sum < 0 {
        (sum + 0x1_0000) as u16
    } else if sum >= 0x1_0000 {
        (sum - 0x1_0000) as u16
    } else {
        sum as u16
    }
}

fn register_letter_of(r: RegisterName) -> (c: char)
    ensures
        c == register_letter(r),
{
    match r {
        RegisterName::A => 'A',
        RegisterName::X => 'X',
        RegisterName::Y => 'Y',
        RegisterName::P => 'P',
        RegisterName::S => 'S',
    }
}

fn push_addr_text(out: &mut String, v: u16)
    ensures
        final(out)@ == old(out)@ + addr_text(v),
{
    if v <= 0x00FF {
        push_hex2(out, v as u8);
    } else {
        push_hex4(out, v);
    }
}

impl Operand {
    /// Returns true if the operand has an address (aka, it is an 'lvalue')
    pub fn has_addr(&self) -> (r: bool)
        ensures
            r == !(*self is Immediate || *self is Accumulator || *self is TwoByteImmediate
                || *self is Offset),
    {
        match self {
            Operand::Immediate(_) | Operand::Accumulator | Operand::TwoByteImmediate(_)
            | Operand::Offset(_) => false,
            _ => true,
        }
    }

    /// Computes the effective address of the operand, and whether finding it
    /// crossed a page
    fn get_addr_impl<M: Memory>(&self, cpu: &Mos6502<M>) -> (r: Result<(u16, bool), OperandError>)
        ensures
            r == effective_addr(cpu@, *self),
    {
        match *self {
            Operand::Absolute(addr) => Ok((addr, false)),
            Operand::Indirect(addr) => {
                // Indirect accesses can't leave the page, they wrap around
                let low = match read_for_operand(&cpu.mem, addr as u64) {
                    Ok(v) => v,
                    Err(e) => return Err(e),
                };
                let high_addr = (addr as u64 / 256) * 256 + (addr as u64 + 1) % 256;
                let high = match read_for_operand(&cpu.mem, high_addr) {
                    Ok(v) => v,
                    Err(e) => return Err(e),
                };
                Ok((low as u16 + 256 * high as u16, false))
            },
            Operand::Indexed(addr, r) => {
                let sum = addr as u64 + r.get(cpu) as u64;
                let eaddr = if addr < 0x0100 {
                    // Zero-page accesses can't leave the zero page, they wrap around
                    sum % 0x100
                } else {
                    sum % 0x1_0000
                };
                Ok((eaddr as u16, oops_cycle(addr as u64, eaddr)))
            },
            Operand::PreIndexedIndirect(addr) => {
                // Indirect accesses can't leave the zero page, they wrap around
                let ptr = (addr as u64 + cpu.registers.x as u64) % 0x100;
                let low = match read_for_operand(&cpu.mem, ptr) {
                    Ok(v) => v,
                    Err(e) => return Err(e),
                };
                let high = match read_for_operand(&cpu.mem, (ptr + 1) % 0x100) {
                    Ok(v) => v,
                    Err(e) => return Err(e),
                };
                Ok((low as u16 + 256 * high as u16, false))
            },
            Operand::PostIndexedIndirect(addr) => {
                // Indirect accesses can't leave the page, they wrap around
                let low = match read_for_operand(&cpu.mem, addr as u64) {
                    Ok(v) => v,
                    Err(e) => return Err(e),
                };
                let high = match read_for_operand(&cpu.mem, (addr as u64 + 1) % 0x100) {
                    Ok(v) => v,
                    Err(e) => return Err(e),
                };
                let base_addr = low as u64 + 256 * high as u64;
                let indexed_addr = base_addr + cpu.registers.y as u64;
                Ok(((indexed_addr % 0x1_0000) as u16, oops_cycle(base_addr, indexed_addr)))
            },
            _ => Err(OperandError::NonAddressOperand),
        }
    }

    /// Retrieves the operand value without charging any cycle
    fn get_u8_noclock<M: Memory>(&self, cpu: &Mos6502<M>) -> (r: Result<u8, OperandError>)
        ensures
            r == peek_value(cpu@, *self),
    {
        match *self {
            Operand::Immediate(n) => Ok(n),
            Operand::Accumulator => Ok(cpu.registers.a),
            _ => {
                let addr = match self.get_addr_impl(cpu) {
                    Ok((a, _)) => a,
                    Err(e) => return Err(e),
                };
                read_for_operand(&cpu.mem, addr as u64)
            },
        }
    }

    /// Retrieves the address of the operand on the specified cpu, charging an
    /// extra cycle when the address is found on another page
    pub fn get_addr<M: Memory>(&self, cpu: &mut Mos6502<M>) -> (r: Result<u16, OperandError>)
        requires
            old(cpu)@.room(1),
        ensures
            (final(cpu)@, r) == addr_step(old(cpu)@, *self),
    {
        match self.get_addr_impl(cpu) {
            Ok((addr, true)) => {
                cpu.clock.tick(1);
                Ok(addr)
            },
            Ok((addr, false)) => Ok(addr),
            Err(e) => Err(e),
        }
    }

    /// Retrieves the operand value
    pub fn get_u8<M: Memory>(&self, cpu: &mut Mos6502<M>) -> (r: Result<u8, OperandError>)
        requires
            old(cpu)@.room(1),
        ensures
            (final(cpu)@, r) == read_step(old(cpu)@, *self),
    {
        match *self {
            Operand::Immediate(n) => Ok(n),
            Operand::Accumulator => Ok(cpu.registers.a),
            _ => {
                let addr = match self.get_addr(cpu) {
                    Ok(a) => a,
                    Err(e) => return Err(e),
                };
                read_for_operand(&cpu.mem, addr as u64)
            },
        }
    }

    /// Sets the value of the operand on the specified cpu
    pub fn set_u8<M: Memory>(&self, cpu: &mut Mos6502<M>, val: u8) -> (r: Result<(), OperandError>)
        requires
            old(cpu)@.room(1),
        ensures
            (final(cpu)@, r) == write_step(old(cpu)@, *self, val),
    {
        match *self {
            Operand::Accumulator => {
                cpu.registers.a = val;
                Ok(())
            },
            Operand::Immediate(_) | Operand::TwoByteImmediate(_) | Operand::Offset(_) => Err(
                OperandError::ReadOnlyOperand,
            ),
            _ => {
                let addr = match self.get_addr(cpu) {
                    Ok(a) => a,
                    Err(e) => return Err(e),
                };
                match cpu.mem.set_u8(addr as u64, val) {
                    Ok(()) => Ok(()),
                    Err(e) => Err(OperandError::ErrorAccessingMemory(e)),
                }
            },
        }
    }

    /// Appends the assembler text of the operand
    fn push_operand_text(&self, out: &mut String)
        ensures
            final(out)@ == old(out)@ + operand_text(*self),
    {
        let ghost start = out@;
        match *self {
            Operand::Immediate(v) => {
                push_text(out, "#$");
                push_hex2(out, v);
            },
            Operand::Accumulator => push_text(out, "A"),
            Operand::Absolute(v) => {
                push_text(out, "$");
                push_addr_text(out, v);
            },
            Operand::Indexed(v, r) => {
                push_text(out, "$");
                push_addr_text(out, v);
                push_text(out, ",");
                push_char(out, register_letter_of(r));
            },
            Operand::Indirect(v) => {
                push_text(out, "($");
                push_hex4(out, v);
                push_text(out, ")");
            },
            Operand::PreIndexedIndirect(v) => {
                push_text(out, "($");
                push_hex2(out, v);
                push_text(out, ",X)");
            },
            Operand::PostIndexedIndirect(v) => {
                push_text(out, "($");
                push_hex2(out, v);
                push_text(out, "),Y");
            },
            Operand::Offset(v) => {
                if v < 0 {
                    push_text(out, "-$");
                } else {
                    push_text(out, "$");
                }
                push_hex2(out, v as u8);
            },
            Operand::TwoByteImmediate(v) => {
                push_text(out, "$");
                push_hex4(out, v);
            },
        }
        proof {
            assert(out@ =~= start + operand_text(*self));
        }
    }

    /// Returns the assembler text of the operand, such as `$0BCD,X`
    pub fn to_string(&self) -> (s: String)
        ensures
            s@ == operand_text(*self),
    {
        let mut s = String::new();
        self.push_operand_text(&mut s);
        s
    }

    /// Appends what a trace line shows after the operand's text
    #[verifier::spinoff_prover]
    fn push_log_detail<M: Memory>(&self, out: &mut String, cpu: &Mos6502<M>, ea: u16, v: u8)
        ensures
            final(out)@ == old(out)@ + log_detail(cpu@, *self, ea, v),
    {
        let ghost start = out@;
        let ghost rest = " = "@ + hex2(v);
        match *self {
            Operand::PreIndexedIndirect(addr) => {
                let ptr = ((addr as u16 + cpu.registers.x as u16) % 0x100) as u8;
                push_text(out, " @ ");
                push_hex2(out, ptr);
                push_text(out, " = ");
                push_hex4(out, ea);
                push_text(out, " = ");
                push_hex2(out, v);
                proof {
                    assert(out@ =~= start + (" @ "@ + hex2(ptr) + " = "@ + hex4(ea) + rest));
                }
            },
            Operand::PostIndexedIndirect(_) => {
                let pointer = ((ea as u32 + 0x1_0000 - cpu.registers.y as u32) % 0x1_0000) as u16;
                push_text(out, " = ");
                push_hex4(out, pointer);
                push_text(out, " @ ");
                push_hex4(out, ea);
                push_text(out, " = ");
                push_hex2(out, v);
                proof {
                    assert(pointer == ((ea - cpu@.y) % 0x1_0000) as u16);
                    assert(out@ =~= start + (" = "@ + hex4(pointer) + " @ "@ + hex4(ea) + rest));
                }
            },
            Operand::Indexed(addr, _) => {
                push_text(out, " @ ");
                let ghost middle = out@;
                if addr < 0x0100 {
                    push_hex2(out, ea as u8);
                } else {
                    push_hex4(out, ea);
                }
                let ghost shown = out@.subrange(middle.len() as int, out@.len() as int);
                push_text(out, " = ");
                push_hex2(out, v);
                proof {
                    assert(out@ =~= start + (" @ "@ + shown + rest));
                }
            },
            _ => {
                push_text(out, " = ");
                push_hex2(out, v);
                proof {
                    assert(out@ =~= start + rest);
                }
            },
        }
    }

    /// Gets a string in the form of the operand's part of a line of the
    /// nestest "golden log"
    #[verifier::spinoff_prover]
    pub fn get_log_string<M: Memory>(&self, cpu: &Mos6502<M>) -> (r: Result<String, OperandError>)
        ensures
            text_result(r) == operand_log_text(cpu@, *self),
    {
        match *self {
            Operand::Offset(offset) => {
                let target = offset_target(cpu.pc.get(), offset);
                let mut s = String::new();
                push_text(&mut s, "$");
                push_hex4(&mut s, target);
                Ok(s)
            },
            Operand::Immediate(_) | Operand::Accumulator | Operand::TwoByteImmediate(_) => Ok(
                self.to_string(),
            ),
            _ => {
                let ea = match self.get_addr_impl(cpu) {
                    Ok((a, _)) => a,
                    Err(e) => return Err(e),
                };
                let v = match self.get_u8_noclock(cpu) {
                    Ok(v) => v,
                    Err(e) => return Err(e),
                };
                let mut s = self.to_string();
                self.push_log_detail(&mut s, cpu, ea, v);
                Ok(s)
            },
        }
    }

}

} // verus!
