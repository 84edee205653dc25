use vstd::prelude::*;
use crate::clocks::Clock;
use crate::cpu::cpu_core::Core;
use crate::cpu::pc_state::{PcState, initial_pc_state};
use crate::graphics::display::WindowSize;
use crate::graphics::vdp::{Constants, VDP, initial_vdp};
use crate::interruptor::Interruptor;
use crate::memory::cartridge::Cartridge;
use crate::memory::memory::{MemoryAbsolute, absolute_wf, empty_absolute, inserted};
use crate::ports::{Ports, devices_wf};

verus! {

/// The console: the core running a cartridge, and how it is run.
pub struct Sega {
    pub core: Core<MemoryAbsolute>,
    pub debug: bool,
    pub realtime: bool,
    /// The clock cycle to stop at (0 runs for ever).
    pub stop_clock: u64,
    pub fullscreen: bool,
}

impl Sega {
    /// Display updates per check for key events.
    pub const DISPLAY_UPDATES_PER_KEY_EVENT: u32 = 1;
    /// CPU steps per top-up of the audio queue.
    pub const CPU_STEPS_PER_AUDIO_UPDATE: u32 = 50;

    /// A console with `cartridge` inserted into an empty memory map (its
    /// banks loaded, pages 0 to 2 on banks 0 to 2), the VDP wired to the
    /// ports, and every register zero.
    pub fn build_sega(cartridge: Cartridge) -> (r: Core<MemoryAbsolute>)
        requires
            cartridge.wf(),
            cartridge.num_banks <= 64,
        ensures
            r.pc_state == initial_pc_state(),
            r.clock.cycles == 0,
            r.ports@ == seq![initial_vdp()],
            devices_wf(r.ports@),
            absolute_wf(r.memory@),
            r.memory@ == inserted(empty_absolute(), &cartridge),
    {
        let clock = Clock::new();
        let mut memory = MemoryAbsolute::new();
        let pc_state = PcState::new();
        let vdp = VDP::new();
        let mut ports = Ports::new();
        let interruptor = Interruptor::new();
        // The graphics device answers on the ports.
        ports.add_device(vdp);
        memory.set_cartridge(cartridge);
        assert(ports@ =~= seq![initial_vdp()]);
        Core::new(clock, memory, pc_state, ports, interruptor)
    }

    pub fn new(debug: bool, realtime: bool, stop_clock: u64, cartridge: Cartridge, fullscreen: bool) -> (r: Self)
        requires
            cartridge.wf(),
            cartridge.num_banks <= 64,
        ensures
            r.core.pc_state == initial_pc_state(),
            r.core.clock.cycles == 0,
            r.core.ports@ == seq![initial_vdp()],
            devices_wf(r.core.ports@),
            absolute_wf(r.core.memory@),
            r.core.memory@ == inserted(empty_absolute(), &cartridge),
            r.debug == debug,
            r.realtime == realtime,
            r.stop_clock == stop_clock,
            r.fullscreen == fullscreen,
    {
        let core = Self::build_sega(cartridge);
        Self { core, debug, realtime, stop_clock, fullscreen }
    }

    /// The window to open: the console's 256x192 picture, in a window three
    /// times its size unless full screen, and of the same aspect ratio.
    pub fn window_size(&self) -> (r: WindowSize)
        ensures
            r.frame_width == (if self.fullscreen { 256u16 } else { 768u16 }),
            r.frame_height == (if self.fullscreen { 192u16 } else { 576u16 }),
            r.console_width == 256,
            r.console_height == 192,
            r.fullscreen == self.fullscreen,
    {
        let mut frame_width = Constants::SMS_WIDTH;
        // Not in full screen: use a bigger window.
        if !self.fullscreen {
            frame_width = frame_width * 3;
        }
        assert(frame_width == 256 || frame_width == 768);
        assert(frame_width as u32 * 192 == 49152 || frame_width as u32 * 192 == 147456);
        let frame_height = ((frame_width as u32) * (Constants::SMS_HEIGHT as u32) / (Constants::SMS_WIDTH as u32)) as u16;
        WindowSize::new(frame_width, frame_height, Constants::SMS_WIDTH, Constants::SMS_HEIGHT, self.fullscreen)
    }

    /// Whether the run has reached its stop clock.
    pub fn clock_expired(&self) -> (r: bool)
        ensures
            r == (self.stop_clock > 0 && self.core.clock.cycles > self.stop_clock),
    {
        self.stop_clock > 0 && (self.core.clock.cycles as u64) > self.stop_clock
    }

    /// Whether a frame's time has passed since clock cycle `frame_start`.
    pub fn frame_complete(&self, frame_start: u32) -> (r: bool)
        ensures
            r == (crate::graphics::vdp::w32i(self.core.clock.cycles - frame_start) >= 65232),
    {
        self.core.clock.cycles.wrapping_sub(frame_start) >= crate::graphics::vdp::Constants::VSYNCCYCLETIME as u32
    }

    /// Whether the audio queue is topped up after `audio_steps` CPU steps.
    pub fn audio_due(audio_steps: u32) -> (r: bool)
        ensures
            r == (audio_steps % 50 == 0),
    {
        audio_steps % Sega::CPU_STEPS_PER_AUDIO_UPDATE == 0
    }
}

} // verus!
