use vstd::prelude::*;

verus! {

/// An interrupt source that keeps the clock cycle of its next interrupt.
pub struct Interuptor {
    pub next_interupt: u32,
}

impl Interuptor {
    pub fn new() -> (r: Self)
        ensures
            r.next_interupt == 0,
    {
        Self { next_interupt: 0 }
    }

    /// Has no effect: interrupts come from the devices' polling.
    pub fn set_cycle(&mut self, cycles: u32)
        ensures
            *final(self) == *old(self),
    {
    }
}

} // verus!
