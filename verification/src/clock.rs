use vstd::prelude::*;

verus! {

/// Counts the machine cycles that the processor has spent.
///
/// While the clock is suspended, ticks are ignored: a read-modify-write
/// instruction suspends it so that its second access to an indexed operand
/// is not charged a second page-crossing cycle.
pub struct Clock {
    cycles: u64,
    suspended: bool,
}

impl Clock {
    pub closed spec fn cycles(&self) -> u64 {
        self.cycles
    }

    pub closed spec fn is_suspended(&self) -> bool {
        self.suspended
    }

    /// Creates a new Clock initialized to zero
    pub fn new() -> (c: Clock)
        ensures
            c.cycles() == 0,
            !c.is_suspended(),
    {
        Clock { cycles: 0, suspended: false }
    }

    /// Sets the total number of cycles on the clock
    pub fn set(&mut self, value: u64)
        ensures
            final(self).cycles() == value,
            final(self).is_suspended() == old(self).is_suspended(),
    {
        self.cycles = value;
    }

    /// Gets the current number of cycles on the clock
    pub fn get(&self) -> (r: u64)
        ensures
            r == self.cycles(),
    {
        self.cycles
    }

    /// Advances the clock forward by `amount` cycles, unless it is suspended
    pub fn tick(&mut self, amount: u64)
        requires
            old(self).is_suspended() || old(self).cycles() + amount <= u64::MAX,
        ensures
            final(self).cycles() == if old(self).is_suspended() {
                old(self).cycles() as int
            } else {
                old(self).cycles() + amount
            },
            final(self).is_suspended() == old(self).is_suspended(),
    {
        if !self.suspended {
            self.cycles = self.cycles + amount;
        }
    }

    /// Suspends the clock and returns whether it was already suspended, so
    /// that `restore` can put it back as it was
    pub fn suspend(&mut self) -> (was_suspended: bool)
        ensures
            was_suspended == old(self).is_suspended(),
            final(self).is_suspended(),
            final(self).cycles() == old(self).cycles(),
    {
        let was = self.suspended;
        self.suspended = true;
        was
    }

    /// Puts the clock back in the suspension state that `suspend` reported
    pub fn restore(&mut self, was_suspended: bool)
        ensures
            final(self).is_suspended() == was_suspended,
            final(self).cycles() == old(self).cycles(),
    {
        self.suspended = was_suspended;
    }
}

} // verus!
