use vstd::prelude::*;
use crate::clocks::Clock;
use crate::cpu::instructions::{Instruction, Machine, machine, cpu_step, step_ok};
use crate::cpu::pc_state::PcState;
use crate::graphics::vdp::Constants;
use crate::interruptor::{Interruptor, interrupt_spec};
use crate::memory::memory::MemoryRW;
use crate::ports::{Ports, devices_wf, ports_interrupt, ports_poll_spec};

verus! {

/// Bytes in the picture the display is drawn from: 256 x 192 pixels of 4 bytes.
pub open spec fn display_size() -> nat {
    256 * 192 * 4
}

/// One step of the machine: the instruction at PC, then a poll of the
/// devices, and a maskable interrupt (mode 1) if one is requested and enabled.
pub open spec fn core_step<M: MemoryRW>(x: Machine<M::V>) -> Machine<M::V> {
    let op = M::read_view(x.mem, x.cpu.pc());
    let x1 = cpu_step::<M>(op, x);
    let x2 = Machine { devices: ports_poll_spec(x1.devices, x1.cycles), ..x1 };
    if ports_interrupt(x1.devices, x1.cycles) { interrupted::<M>(x2) } else { x2 }
}

/// `x` after a maskable interrupt request: taken when enabled in mode 1.
pub open spec fn interrupted<M: MemoryRW>(x: Machine<M::V>) -> Machine<M::V> {
    if x.cpu.im == 1 {
        let (s, m) = interrupt_spec::<M>(x.cpu, x.mem);
        Machine { cpu: s, mem: m, ..x }
    } else {
        x
    }
}

/// Whether the instruction at PC is executed.
pub open spec fn core_step_ok<M: MemoryRW>(x: Machine<M::V>) -> bool {
    step_ok::<M>(M::read_view(x.mem, x.cpu.pc()), x)
}

/// The CPU with its clock, memory, registers, I/O devices and the picture
/// they draw.
pub struct Core<M> {
    pub clock: Clock,
    pub memory: M,
    pub pc_state: PcState,
    pub ports: Ports,
    pub interruptor: Interruptor,
    pub raw_display: Vec<u8>,
}

impl<M: MemoryRW> Core<M> {
    /// The machine state, as values.
    pub open spec fn machine(&self) -> Machine<M::V> {
        machine(self.pc_state, self.memory@, self.clock.cycles, self.ports@)
    }

    /// A core over the given parts, with a blank picture.
    pub fn new(clock: Clock, memory: M, pc_state: PcState, ports: Ports, interruptor: Interruptor) -> (r: Self)
        ensures
            r.machine() == machine(pc_state, memory@, clock.cycles, ports@),
            r.interruptor == interruptor,
            r.raw_display@ == Seq::new(display_size(), |i: int| 0u8),
    {
        let size = (Constants::SMS_WIDTH as usize) * (Constants::SMS_HEIGHT as usize) * (Constants::BYTES_PER_PIXEL as usize);
        let r = Self { clock, memory, pc_state, ports, interruptor, raw_display: vec![0u8; size] };
        assert(r.raw_display@ =~= Seq::new(display_size(), |i: int| 0u8));
        r
    }

    /// Take a maskable interrupt if interrupts are enabled in mode 1.
    fn interupt(&mut self)
        ensures
            final(self).machine() == interrupted::<M>(old(self).machine()),
            final(self).interruptor == old(self).interruptor,
            final(self).raw_display@ == old(self).raw_display@,
    {
        if self.pc_state.get_iff1() {
            if self.pc_state.get_im() == 1 {
                Interruptor::interrupt(&mut self.pc_state, &mut self.memory);
            }
        }
    }

    /// Whether the instruction at PC is executed: see `step_ok`.
    pub fn can_step(&self) -> (r: bool)
        requires
            devices_wf(self.ports@),
        ensures
            r == core_step_ok::<M>(self.machine()),
    {
        let op_code = self.memory.read(self.pc_state.get_pc());
        Instruction::supported(op_code, &self.memory, &self.pc_state, &self.ports, self.clock.cycles)
    }

    /// Execute the instruction at PC, poll the devices and take a requested
    /// interrupt.
    pub fn step(&mut self)
        requires
            core_step_ok::<M>(old(self).machine()),
        ensures
            final(self).machine() == core_step::<M>(old(self).machine()),
            devices_wf(final(self).ports@),
            final(self).interruptor == old(self).interruptor,
            final(self).raw_display@ == old(self).raw_display@,
    {
        self.interruptor.set_cycle(self.clock.cycles);
        let op_code = self.memory.read(self.pc_state.get_pc());
        Instruction::execute(
            op_code,
            &mut self.clock,
            &mut self.memory,
            &mut self.pc_state,
            &mut self.ports,
            &mut self.interruptor,
        );
        if self.ports.poll_interrupts(&mut self.raw_display, &self.clock) {
            self.interupt();
        }
    }

    /// Copy the picture into `buffer`, which has the picture's size.
    pub fn generate_display(&mut self, buffer: &mut [u8], pitch: usize)
        requires
            old(buffer)@.len() == old(self).raw_display@.len(),
        ensures
            final(buffer)@ == old(self).raw_display@,
            final(self).machine() == old(self).machine(),
            final(self).raw_display@ == old(self).raw_display@,
    {
        let mut i: usize = 0;
        while i < buffer.len()
            invariant
                buffer@.len() == self.raw_display@.len(),
                i <= buffer@.len(),
                forall|k: int| 0 <= k < i ==> #[trigger] buffer@[k] == self.raw_display@[k],
            decreases buffer@.len() - i,
        {
            buffer[i] = self.raw_display[i];
            i = i + 1;
        }
        assert(buffer@ =~= self.raw_display@);
    }
}

} // verus!
