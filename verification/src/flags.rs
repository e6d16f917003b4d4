use vstd::prelude::*;

verus! {

/// The bit of the status register that always reads as one
pub const RESERVED_BIT: u8 = 0b0010_0000;

/// The status register after `flags` is written to it: the reserved bit
/// always reads as one
pub open spec fn replaced(flags: u8) -> u8 {
    flags | RESERVED_BIT
}

/// The status register after the bits of `selector` are cleared in `bits`
pub open spec fn cleared(bits: u8, selector: u8) -> u8 {
    replaced(bits & !selector)
}

/// The status register after the bits of `selector` are set in `bits`
pub open spec fn raised(bits: u8, selector: u8) -> u8 {
    replaced(bits | selector)
}

/// The status register after the bits of `selector` are set in `bits` when
/// `condition` holds, and cleared otherwise
pub open spec fn raised_if(bits: u8, selector: u8, condition: bool) -> u8 {
    if condition {
        raised(bits, selector)
    } else {
        cleared(bits, selector)
    }
}

/// Setting flags after clearing them is the same as setting them
pub proof fn lemma_raise_after_clear(bits: u8, selector: u8)
    ensures
        raised(cleared(bits, selector), selector) == raised(bits, selector),
{
    assert((((bits & !selector) | 0x20) | selector) | 0x20 == (bits | selector) | 0x20) by (bit_vector);
}

/// The status register after the ZERO and SIGN flags are made to describe `val`
pub open spec fn with_sign_and_zero(bits: u8, val: u8) -> u8 {
    raised_if(raised_if(bits, 0b0000_0010, val == 0), 0b1000_0000, val & 0x80 != 0)
}

/// The processor status register
#[derive(Clone, Copy, Debug, PartialEq, Eq, Structural)]
pub struct Flags {
    pub bits: u8,
}

impl Flags {
    /// The SIGN flag: bit 7 of the last result
    #[allow(non_snake_case)]
    pub fn SIGN() -> (f: Flags)
        ensures
            f.bits == 0b1000_0000,
    {
        Flags::new(0b1000_0000)
    }

    /// The OVERFLOW flag: the last signed result did not fit
    #[allow(non_snake_case)]
    pub fn OVERFLOW() -> (f: Flags)
        ensures
            f.bits == 0b0100_0000,
    {
        Flags::new(0b0100_0000)
    }

    /// The reserved bit, which always reads as set
    #[allow(non_snake_case)]
    pub fn RESERVED() -> (f: Flags)
        ensures
            f.bits == 0b0010_0000,
    {
        Flags::new(0b0010_0000)
    }

    /// The BREAK flag, set in the copy of the status register that BRK and PHP push
    #[allow(non_snake_case)]
    pub fn BREAK() -> (f: Flags)
        ensures
            f.bits == 0b0001_0000,
    {
        Flags::new(0b0001_0000)
    }

    /// The BCD flag: arithmetic is decimal where decimal mode is available
    #[allow(non_snake_case)]
    pub fn BCD() -> (f: Flags)
        ensures
            f.bits == 0b0000_1000,
    {
        Flags::new(0b0000_1000)
    }

    /// The INTERRUPT flag: interrupts are disabled
    #[allow(non_snake_case)]
    pub fn INTERRUPT() -> (f: Flags)
        ensures
            f.bits == 0b0000_0100,
    {
        Flags::new(0b0000_0100)
    }

    /// The ZERO flag: the last result was zero
    #[allow(non_snake_case)]
    pub fn ZERO() -> (f: Flags)
        ensures
            f.bits == 0b0000_0010,
    {
        Flags::new(0b0000_0010)
    }

    /// The CARRY flag: the last addition carried (or the last subtraction did not borrow)
    #[allow(non_snake_case)]
    pub fn CARRY() -> (f: Flags)
        ensures
            f.bits == 0b0000_0001,
    {
        Flags::new(0b0000_0001)
    }

    /// No flag at all
    #[allow(non_snake_case)]
    pub fn NONE() -> (f: Flags)
        ensures
            f.bits == 0,
    {
        Flags::new(0b0000_0000)
    }

    /// The flags that arithmetic sets: SIGN, OVERFLOW, ZERO and CARRY
    #[allow(non_snake_case)]
    pub fn ARITHMETIC() -> (f: Flags)
        ensures
            f.bits == 0b1100_0011,
    {
        Flags::new(0b1100_0011)
    }

    /// Makes a status register holding `bits`
    pub fn new(bits: u8) -> (f: Flags)
        ensures
            f.bits == bits,
    {
        Flags { bits: bits }
    }

    /// True when every flag of `other` is set in `self`
    pub fn intersects(&self, other: Flags) -> (r: bool)
        ensures
            r == (self.bits & other.bits == other.bits),
    {
        self.bits & other.bits == other.bits
    }

    /// True when CARRY is set
    pub fn carry(&self) -> (r: bool)
        ensures
            r == (self.bits & 1 == 1),
    {
        self.intersects(Flags::CARRY())
    }

    /// Clears the flags of `flags`; the reserved bit stays set
    pub fn clear(&mut self, flags: Flags)
        ensures
            final(self).bits == cleared(old(self).bits, flags.bits),
    {
        let new_val = *self & core::ops::Not::not(flags);
        self.replace(new_val);
    }

    /// Sets the flags of `flags`
    pub fn set(&mut self, flags: Flags)
        ensures
            final(self).bits == raised(old(self).bits, flags.bits),
    {
        let new_val = *self | flags;
        self.replace(new_val);
    }

    /// Sets the flags of `flag_selector` when `condition` holds and clears
    /// them otherwise; returns `condition`
    pub fn set_if(&mut self, flag_selector: Flags, condition: bool) -> (r: bool)
        ensures
            final(self).bits == raised_if(old(self).bits, flag_selector.bits, condition),
            r == condition,
    {
        self.clear(flag_selector);
        if condition {
            self.set(flag_selector);
            proof {
                lemma_raise_after_clear(old(self).bits, flag_selector.bits);
            }
        }
        condition
    }

    /// Replaces every flag with those of `flags`; the reserved bit stays set
    pub fn replace(&mut self, flags: Flags)
        ensures
            final(self).bits == replaced(flags.bits),
    {
        self.bits = (flags | Flags::RESERVED()).bits;
    }

    /// Makes ZERO and SIGN describe `val`
    pub fn set_sign_and_zero(&mut self, val: u8)
        ensures
            final(self).bits == with_sign_and_zero(old(self).bits, val),
    {
        self.set_if(Flags::ZERO(), val == 0);
        self.set_if(Flags::SIGN(), val & 0x80 != 0);
    }
}

impl core::ops::BitOr for Flags {
    type Output = Flags;

    fn bitor(self, rhs: Flags) -> (r: Flags) {
        Flags::new(self.bits | rhs.bits)
    }
}

impl vstd::std_specs::ops::BitOrSpecImpl for Flags {
    open spec fn obeys_bitor_spec() -> bool {
        true
    }

    open spec fn bitor_req(self, rhs: Flags) -> bool {
        true
    }

    open spec fn bitor_spec(self, rhs: Flags) -> Flags {
        Flags { bits: self.bits | rhs.bits }
    }
}

impl core::ops::BitAnd for Flags {
    type Output = Flags;

    fn bitand(self, rhs: Flags) -> (r: Flags) {
        Flags::new(self.bits & rhs.bits)
    }
}

impl vstd::std_specs::ops::BitAndSpecImpl for Flags {
    open spec fn obeys_bitand_spec() -> bool {
        true
    }

    open spec fn bitand_req(self, rhs: Flags) -> bool {
        true
    }

    open spec fn bitand_spec(self, rhs: Flags) -> Flags {
        Flags { bits: self.bits & rhs.bits }
    }
}

impl core::ops::Not for Flags {
    type Output = Flags;

    fn not(self) -> (r: Flags) {
        Flags::new(!self.bits)
    }
}

impl vstd::std_specs::ops::NotSpecImpl for Flags {
    open spec fn obeys_not_spec() -> bool {
        true
    }

    open spec fn not_req(self) -> bool {
        true
    }

    open spec fn not_spec(self) -> Flags {
        Flags { bits: !self.bits }
    }
}

} // verus!
