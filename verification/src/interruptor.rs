use vstd::prelude::*;
use crate::cpu::instruction_set::push_view;
use crate::cpu::pc_state::{PcState, w16};
use crate::clocks::Clock;
use crate::memory::memory::MemoryRW;

verus! {

/// The address a mode-1 maskable interrupt jumps to.
pub const IRQIM1ADDR: u16 = 0x38;

/// Whether a maskable interrupt can be taken in state `s`: when they are
/// enabled, only interrupt mode 1 is handled.
pub open spec fn interrupt_ok(s: PcState) -> bool {
    s.iff1 ==> s.im == 1
}

/// A maskable interrupt: when enabled, PC is pushed, execution goes to
/// 0x38 and further interrupts are disabled; otherwise nothing happens.
pub open spec fn interrupt_spec<M: MemoryRW>(s: PcState, m: M::V) -> (PcState, M::V) {
    if s.iff1 {
        (
            PcState { iff1: false, ..s.with_sp(w16(s.sp() - 2)).with_pc(IRQIM1ADDR) },
            push_view::<M>(m, s.sp(), s.pc_reg.high, s.pc_reg.low),
        )
    } else {
        (s, m)
    }
}

/// Something that delivers a maskable interrupt to the CPU.
pub trait Interrupt {
    fn interrupt<M: MemoryRW>(pc_state: &mut PcState, memory: &mut M)
        requires
            interrupt_ok(*old(pc_state)),
    ;
}

/// Something that, polled with the clock, says whether it requests an interrupt.
pub trait PollForInterrupt {
    fn poll_interrupts(&mut self, clock: &Clock) -> bool;
}

/// Delivers maskable interrupts to the CPU.
pub struct Interruptor {
    pub next_interrupt: u32,
}

impl Interruptor {
    /// Take a maskable interrupt if they are enabled.
    pub fn interrupt<M: MemoryRW>(pc_state: &mut PcState, memory: &mut M)
        requires
            interrupt_ok(*old(pc_state)),
        ensures
            (*final(pc_state), final(memory)@) == interrupt_spec::<M>(*old(pc_state), old(memory)@),
    {
        if pc_state.get_iff1() {
            pc_state.increment_sp(-1);
            memory.write(pc_state.sp_reg.get(), pc_state.get_pc_high());
            pc_state.increment_sp(-1);
            memory.write(pc_state.sp_reg.get(), pc_state.get_pc_low());
            pc_state.set_pc(IRQIM1ADDR);
            // Disable maskable interrupts.
            pc_state.set_iff1(false);
        }
    }

    pub fn new() -> (r: Self)
        ensures
            r.next_interrupt == 0,
    {
        Self { next_interrupt: 0 }
    }

    /// Has no effect: interrupts come from the devices' polling.
    pub fn set_cycle(&mut self, cycles: u32)
        ensures
            *final(self) == *old(self),
    {
    }
}

impl Interrupt for Interruptor {
    fn interrupt<M: MemoryRW>(pc_state: &mut PcState, memory: &mut M)
        ensures
            (*final(pc_state), final(memory)@) == interrupt_spec::<M>(*old(pc_state), old(memory)@),
    {
        Interruptor::interrupt(pc_state, memory)
    }
}

} // verus!
