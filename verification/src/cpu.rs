use vstd::prelude::*;
use crate::clock::Clock;
use crate::flags::{replaced, Flags};
use crate::mem::{cell_read, cell_write, FixedMemory, Memory, MemoryError, MemoryResult};
use crate::pc::ProgramCounter;

verus! {

/// The first address of the stack page
pub const STACK_START: u64 = 0x0100;

/// The last address of the stack page
pub const STACK_END: u64 = 0x01FF;

/// The state of the processor as the contracts speak of it
#[verifier::ext_equal]
pub struct CpuView {
    pub a: u8,
    pub x: u8,
    pub y: u8,
    pub sp: u8,
    /// The status register
    pub p: u8,
    pub pc: u16,
    pub cycles: int,
    pub suspended: bool,
    pub bcd_enabled: bool,
    pub mem: Map<u64, u8>,
}

impl CpuView {
    /// The state after the clock is advanced by `n` cycles, unless it is suspended
    pub open spec fn tick(self, n: int) -> CpuView {
        if self.suspended {
            self
        } else {
            CpuView { cycles: self.cycles + n, ..self }
        }
    }

    /// The state after `n` cycles are charged when `cond` holds
    pub open spec fn tick_if(self, cond: bool) -> CpuView {
        if cond {
            self.tick(1)
        } else {
            self
        }
    }

    pub open spec fn with_a(self, v: u8) -> CpuView {
        CpuView { a: v, ..self }
    }

    pub open spec fn with_x(self, v: u8) -> CpuView {
        CpuView { x: v, ..self }
    }

    pub open spec fn with_sp(self, v: u8) -> CpuView {
        CpuView { sp: v, ..self }
    }

    pub open spec fn with_p(self, v: u8) -> CpuView {
        CpuView { p: v, ..self }
    }

    pub open spec fn with_pc(self, v: int) -> CpuView {
        CpuView { pc: (v % 0x1_0000) as u16, ..self }
    }

    pub open spec fn with_mem(self, m: Map<u64, u8>) -> CpuView {
        CpuView { mem: m, ..self }
    }

    pub open spec fn with_suspended(self, s: bool) -> CpuView {
        CpuView { suspended: s, ..self }
    }

    /// True when the clock can take `n` more cycles without overflowing
    pub open spec fn room(self, n: int) -> bool {
        self.cycles + n <= u64::MAX
    }
}

/// The names of the processor's registers
#[derive(Clone, Copy, Debug, PartialEq, Eq, Structural)]
pub enum RegisterName {
    A,
    X,
    Y,
    /// The status register
    P,
    /// The stack pointer
    S,
}

/// The value of register `r` in state `s`
pub open spec fn reg_value(s: CpuView, r: RegisterName) -> u8 {
    match r {
        RegisterName::A => s.a,
        RegisterName::X => s.x,
        RegisterName::Y => s.y,
        RegisterName::P => s.p,
        RegisterName::S => s.sp,
    }
}

/// The state after `val` is written to register `r`; the status register
/// keeps its reserved bit set
pub open spec fn reg_written(s: CpuView, r: RegisterName, val: u8) -> CpuView {
    match r {
        RegisterName::A => CpuView { a: val, ..s },
        RegisterName::X => CpuView { x: val, ..s },
        RegisterName::Y => CpuView { y: val, ..s },
        RegisterName::P => CpuView { p: replaced(val), ..s },
        RegisterName::S => CpuView { sp: val, ..s },
    }
}

/// The address of the stack slot that the stack pointer `sp` designates
pub open spec fn stack_addr(sp: int) -> u64 {
    (STACK_START + sp) as u64
}

/// What a push of `val` does: `None` where the stack pointer would wrap
/// below zero after a successful write
pub open spec fn push_spec(s: CpuView, val: u8) -> Option<(CpuView, MemoryResult<()>)> {
    let (cells, r) = cell_write(s.mem, stack_addr(s.sp as int), val);
    match r {
        Err(e) => Some((s, Err(e))),
        Ok(_) => if s.sp == 0 {
            None
        } else {
            Some((CpuView { mem: cells, sp: (s.sp - 1) as u8, ..s }, Ok(())))
        },
    }
}

/// What a pull does: `None` where the stack pointer would wrap above 255
pub open spec fn pull_spec(s: CpuView) -> Option<(CpuView, MemoryResult<u8>)> {
    if s.sp == 255 {
        None
    } else {
        let sp = (s.sp + 1) as u8;
        Some((CpuView { sp: sp, ..s }, cell_read(s.mem, stack_addr(sp as int))))
    }
}

impl RegisterName {
    /// Reads the register from `cpu`
    pub fn get<M: Memory>(self, cpu: &Mos6502<M>) -> (r: u8)
        ensures
            r == reg_value(cpu@, self),
    {
        match self {
            RegisterName::A => cpu.registers.a,
            RegisterName::X => cpu.registers.x,
            RegisterName::Y => cpu.registers.y,
            RegisterName::P => cpu.flags.bits,
            RegisterName::S => cpu.registers.sp,
        }
    }

    /// Writes `val` to the register of `cpu`
    pub fn set<M: Memory>(self, cpu: &mut Mos6502<M>, val: u8)
        ensures
            final(cpu)@ == reg_written(old(cpu)@, self, val),
    {
        match self {
            RegisterName::A => cpu.registers.a = val,
            RegisterName::X => cpu.registers.x = val,
            RegisterName::Y => cpu.registers.y = val,
            RegisterName::P => cpu.flags.replace(Flags::new(val)),
            RegisterName::S => cpu.registers.sp = val,
        }
    }
}

/// The general-purpose registers and the stack pointer
pub struct Registers {
    pub a: u8,
    pub x: u8,
    pub y: u8,
    pub sp: u8,
}

impl Registers {
    pub fn new() -> (r: Registers)
        ensures
            r.a == 0 && r.x == 0 && r.y == 0 && r.sp == 0,
    {
        Registers { a: 0, x: 0, y: 0, sp: 0 }
    }
}

/// A MOS 6502 processor attached to the memory `M`
pub struct Mos6502<M: Memory> {
    pub registers: Registers,
    pub flags: Flags,
    pub mem: M,
    pub pc: ProgramCounter,
    pub clock: Clock,
    pub bcd_enabled: bool,
}

impl<M: Memory> View for Mos6502<M> {
    type V = CpuView;

    open spec fn view(&self) -> CpuView {
        CpuView {
            a: self.registers.a,
            x: self.registers.x,
            y: self.registers.y,
            sp: self.registers.sp,
            p: self.flags.bits,
            pc: self.pc.value(),
            cycles: self.clock.cycles() as int,
            suspended: self.clock.is_suspended(),
            bcd_enabled: self.bcd_enabled,
            mem: self.mem.cells(),
        }
    }
}

/// The state of a processor just switched on, attached to memory `mem`
pub open spec fn power_on_state(mem: Map<u64, u8>, bcd_enabled: bool) -> CpuView {
    CpuView {
        a: 0,
        x: 0,
        y: 0,
        sp: 0,
        p: 0b0010_0000,
        pc: 0,
        cycles: 0,
        suspended: false,
        bcd_enabled: bcd_enabled,
        mem: mem,
    }
}

impl Mos6502<FixedMemory> {
    /// Creates a processor attached to `size` bytes of zeroed memory at address zero
    pub fn with_fixed_memory(size: usize) -> (cpu: Self)
        ensures
            cpu.mem.bytes() == Seq::new(size as nat, |i: int| 0u8),
            cpu@ == power_on_state(cpu.mem.cells(), true),
    {
        Mos6502::new(FixedMemory::new(size))
    }
}

impl<M: Memory> Mos6502<M> {
    /// Creates a processor attached to `mem`, with decimal mode available
    pub fn new(mem: M) -> (cpu: Self)
        ensures
            cpu@ == power_on_state(mem.cells(), true),
            cpu.mem == mem,
    {
        Mos6502 {
            registers: Registers::new(),
            mem: mem,
            flags: Flags::RESERVED(),
            pc: ProgramCounter::new(),
            clock: Clock::new(),
            bcd_enabled: true,
        }
    }

    /// Creates a processor attached to `mem` on which the BCD flag has no
    /// effect on arithmetic
    pub fn without_bcd(mem: M) -> (cpu: Self)
        ensures
            cpu@ == power_on_state(mem.cells(), false),
            cpu.mem == mem,
    {
        Mos6502 {
            registers: Registers::new(),
            mem: mem,
            flags: Flags::RESERVED(),
            pc: ProgramCounter::new(),
            clock: Clock::new(),
            bcd_enabled: false,
        }
    }

    /// Writes `val` at the top of the stack, then moves the stack pointer down
    pub fn push(&mut self, val: u8) -> (r: MemoryResult<()>)
        requires
            push_spec(old(self)@, val) is Some,
        ensures
            push_spec(old(self)@, val) == Some((final(self)@, r)),
    {
        let addr = (self.registers.sp as u64) + STACK_START;
        match self.mem.set_u8(addr, val) {
            Ok(()) => {},
            Err(e) => return Err(e),
        }
        self.registers.sp = self.registers.sp - 1;
        Ok(())
    }

    /// Moves the stack pointer up, then reads the value it designates
    pub fn pull(&mut self) -> (r: MemoryResult<u8>)
        requires
            pull_spec(old(self)@) is Some,
        ensures
            pull_spec(old(self)@) == Some((final(self)@, r)),
    {
        self.registers.sp = self.registers.sp + 1;
        let addr = (self.registers.sp as u64) + STACK_START;
        self.mem.get_u8(addr)
    }
}

} // verus!
