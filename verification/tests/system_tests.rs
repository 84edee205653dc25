use rustsega::clocks::Clock;
use rustsega::cpu::cpu_core::Core;
use rustsega::cpu::pc_state::PcState;
use rustsega::graphics::vdp::{Constants, VDP};
use rustsega::interruptor::Interruptor;
use rustsega::memory::memory::MemoryAbsolute;
use rustsega::ports::Ports;

#[test]
fn test_check_constants() {
    assert_eq!(Constants::NUMTILES, 896);
    assert_eq!(Constants::BLANKTIME, 17926);
    assert_eq!(Constants::VFRAMETIME, 47803);
}

#[test]
fn test_core_creation() {
    let clock = Clock::new();
    let memory = MemoryAbsolute::new();
    let pc_state = PcState::new();
    let vdp = VDP::new();
    let mut ports = Ports::new();
    let interruptor = Interruptor::new();
    ports.add_device(vdp);
    let mut core = Core::new(clock, memory, pc_state, ports, interruptor);

    core.step();
    println!("{}", core.pc_state.to_string());
    core.step();
    assert_eq!(core.pc_state.get_pc(), 2);
    assert_eq!(core.clock.cycles, 8);
}
