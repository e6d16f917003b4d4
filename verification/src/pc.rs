use vstd::prelude::*;

verus! {

/// The program counter of a processor with a 16-bit address bus.
///
/// Every change wraps around at 16 bits, as the hardware register does.
pub struct ProgramCounter {
    value: u16,
}

impl ProgramCounter {
    pub closed spec fn value(&self) -> u16 {
        self.value
    }

    /// Creates a program counter pointing at address zero
    pub fn new() -> (pc: ProgramCounter)
        ensures
            pc.value() == 0,
    {
        ProgramCounter { value: 0 }
    }

    /// Gets the current address
    pub fn get(&self) -> (r: u64)
        ensures
            r == self.value(),
    {
        self.value as u64
    }

    /// Moves the program counter to `addr`, keeping its low 16 bits
    pub fn set(&mut self, addr: u64)
        ensures
            final(self).value() == addr % 0x1_0000,
    {
        self.value = (addr % 0x1_0000) as u16;
    }

    /// Moves the program counter by a signed offset, wrapping around at 16 bits
    pub fn advance(&mut self, offset: i8)
        ensures
            final(self).value() == (old(self).value() + offset) % 0x1_0000,
    {
        let t: i32 = self.value as i32 + offset as i32;
        if t < 0 {
            self.value = (t + 0x1_0000) as u16;
        } else if t >= 0x1_0000 {
            self.value = (t - 0x1_0000) as u16;
        } else {
            self.value = t as u16;
        }
    }
}

} // verus!
