use vstd::prelude::*;

verus! {

/// `cycles` advanced by `n`, as the 32-bit counter rolls over.
pub open spec fn tick(cycles: u32, n: int) -> u32 {
    ((cycles + n) % 0x1_0000_0000) as u32
}

/// Counter of elapsed CPU clock cycles.
pub struct Clock {
    pub cycles: u32,
}

impl Clock {
    /// A clock that has counted no cycles.
    pub fn new() -> (r: Self)
        ensures
            r.cycles == 0,
    {
        Self { cycles: 0 }
    }

    /// Advance the clock by `inc` cycles; the 32-bit counter rolls over.
    pub fn increment(&mut self, inc: u32)
        ensures
            final(self).cycles == tick(old(self).cycles, inc as int),
    {
        self.cycles = self.cycles.wrapping_add(inc);
    }
}

} // verus!
