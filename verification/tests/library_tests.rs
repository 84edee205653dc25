use rustsega::audio::sound::Sound;
use rustsega::audio::soundchannel::SoundChannel;
use rustsega::clocks::Clock;
use rustsega::cpu::cpu_core::Core;
use rustsega::cpu::instructions::Instruction;
use rustsega::cpu::pc_state::{PcState, PcStatusFlagFields};
use rustsega::graphics::display::Colour;
use rustsega::graphics::vdp::{Mode1Settings, Mode2Settings, VDPInterrupts, VDP};
use rustsega::interruptor::{Interrupt, Interruptor, PollForInterrupt};
use rustsega::interuptor::Interuptor;
use rustsega::memory::cartridge::Cartridge;
use rustsega::memory::memory::{FlatMemory, MemoryAbsolute, MemoryRW};
use rustsega::ports::Ports;
use rustsega::sega::Sega;

struct Cpu {
    clock: Clock,
    memory: FlatMemory,
    pc_state: PcState,
    ports: Ports,
    interruptor: Interruptor,
}

impl Cpu {
    fn with_code(code: Vec<u8>) -> Self {
        Cpu {
            clock: Clock::new(),
            memory: FlatMemory::from_bytes(&code),
            pc_state: PcState::new(),
            ports: Ports::new(),
            interruptor: Interruptor::new(),
        }
    }

    fn step(&mut self) {
        let op = self.memory.read(self.pc_state.get_pc());
        assert!(Instruction::supported(op, &self.memory, &self.pc_state, &self.ports, self.clock.cycles));
        Instruction::execute(op, &mut self.clock, &mut self.memory, &mut self.pc_state, &mut self.ports, &mut self.interruptor);
    }

    fn supported(&self) -> bool {
        let op = self.memory.read(self.pc_state.get_pc());
        Instruction::supported(op, &self.memory, &self.pc_state, &self.ports, self.clock.cycles)
    }
}

#[test]
fn clock_increments_add_and_roll_over() {
    let mut clock = Clock::new();
    clock.increment(7);
    clock.increment(5);
    assert_eq!(clock.cycles, 12);
    clock.cycles = 0xFFFF_FFFE;
    clock.increment(3);
    assert_eq!(clock.cycles, 1);
}

#[test]
fn register_pair_roundtrip() {
    let mut s = PcState::new();
    s.set_de(0xBEEF);
    assert_eq!(s.get_de(), 0xBEEF);
    assert_eq!(s.get_d(), 0xBE);
    assert_eq!(s.get_e(), 0xEF);
    s.set_h(0x12);
    s.set_l(0x34);
    assert_eq!(s.get_hl(), 0x1234);
}

#[test]
fn inc_then_dec_restores_registers() {
    // INC r; DEC r for B, C, D, E, H, L and A, each starting at 0xFF.
    let mut code = Vec::new();
    for r in [0u8, 1, 2, 3, 4, 5, 7] {
        code.push(0x04 | (r << 3));
        code.push(0x05 | (r << 3));
    }
    let mut cpu = Cpu::with_code(code);
    cpu.pc_state.set_bc(0xFFFF);
    cpu.pc_state.set_de(0xFFFF);
    cpu.pc_state.set_hl(0xFFFF);
    cpu.pc_state.set_a(0xFF);
    cpu.step();
    assert_eq!(cpu.pc_state.get_b(), 0x00);
    cpu.step();
    assert_eq!(cpu.pc_state.get_b(), 0xFF);
    for _ in 0..12 {
        cpu.step();
    }
    assert_eq!(cpu.pc_state.get_pc(), 14);
    assert_eq!(cpu.pc_state.get_bc(), 0xFFFF);
    assert_eq!(cpu.pc_state.get_de(), 0xFFFF);
    assert_eq!(cpu.pc_state.get_hl(), 0xFFFF);
    assert_eq!(cpu.pc_state.get_a(), 0xFF);
}

#[test]
fn flag_fields_set_and_clear() {
    let mut f = PcStatusFlagFields(0xFF);
    f.set_z(0);
    assert_eq!(f.0, 0xBF);
    assert_eq!(f.get_z(), 0);
    assert_eq!(f.get_s(), 1);
    f.set_z(1);
    assert_eq!(f.0, 0xFF);
    assert_eq!(PcStatusFlagFields(0x41).to_string(), "(C:1 N:0 PV:0 X1:0 H:0 X2:0 Z:1 S:0)");
}

#[test]
fn flat_memory_read_after_write() {
    let mut m = FlatMemory::new();
    m.write(0x1234, 0x56);
    assert_eq!(m.read(0x1234), 0x56);
    assert_eq!(m.read(0x1235), 0);
    assert_eq!(m.read16(0x1233), 0x5600);
}

#[test]
fn ram_read_after_write_and_mirror() {
    let mut m = MemoryAbsolute::new();
    m.write(0xC123, 0x42);
    assert_eq!(m.read(0xC123), 0x42);
    // 0xE000 to 0xFFFF mirror the 8 KiB of RAM.
    assert_eq!(m.read(0xE123), 0x42);
    m.write(0xF000, 0x17);
    assert_eq!(m.read(0xD000), 0x17);
}

#[test]
fn rom_is_not_written() {
    let mut m = MemoryAbsolute::new();
    let before = m.read(0x0100);
    m.write(0x0100, 0x99);
    assert_eq!(m.read(0x0100), before);
    m.write(0x7FFF, 0x99);
    assert_eq!(m.read(0x7FFF), 0);
}

#[test]
fn cartridge_banks_are_paged() {
    let mut cartridge = Cartridge::new("test.rom");
    let mut image = vec![0u8; 0x4000 * 3];
    image[0x0010] = 0x11; // bank 0
    image[0x4010] = 0x22; // bank 1
    image[0x8010] = 0x33; // bank 2
    cartridge.load_banks(&mut image);
    assert_eq!(cartridge.num_banks, 64);
    assert_eq!(cartridge.read(1, 0x10), 0x22);
    let mut m = MemoryAbsolute::new();
    m.set_cartridge(cartridge);
    assert_eq!(m.read(0x0010), 0x11);
    assert_eq!(m.read(0x4010), 0x22);
    assert_eq!(m.read(0x8010), 0x33);
    // Selecting bank 2 for page 1.
    m.write(0xFFFE, 2);
    assert_eq!(m.read(0x4010), 0x33);
    assert_eq!(m.read(0xFFFE), 2);
}

#[test]
fn memory_copy_and_write_multi() {
    let mut m = MemoryAbsolute::new();
    m.write(0xC000, 1);
    m.write(0xC001, 2);
    let bytes = m.read_array(0xC000, 2);
    assert_eq!(bytes, vec![1, 2]);
    assert!(m.write_multi(0xC010, 0xC000, 2));
    assert_eq!(m.read(0xC011), 2);
    // A copy that would run past the top of memory is refused.
    assert!(!m.write_multi(0xFFF0, 0xC000, 0x20));
}

#[test]
fn push_then_pop_restores_value() {
    // PUSH BC; POP DE
    let mut cpu = Cpu::with_code(vec![0xC5, 0xD1]);
    cpu.pc_state.set_sp(0x8000);
    cpu.pc_state.set_bc(0xCAFE);
    cpu.step();
    assert_eq!(cpu.pc_state.get_sp(), 0x7FFE);
    assert_eq!(cpu.memory.read(0x7FFF), 0xCA);
    assert_eq!(cpu.memory.read(0x7FFE), 0xFE);
    cpu.step();
    assert_eq!(cpu.pc_state.get_de(), 0xCAFE);
    assert_eq!(cpu.pc_state.get_sp(), 0x8000);
    assert_eq!(cpu.clock.cycles, 21);
}

#[test]
fn exx_twice_restores_registers() {
    let mut cpu = Cpu::with_code(vec![0xD9, 0xD9]);
    cpu.pc_state.set_bc(0x1111);
    cpu.pc_state.shadow_bc_reg.low = 0x22;
    cpu.step();
    assert_eq!(cpu.pc_state.get_bc(), 0x0022);
    cpu.step();
    assert_eq!(cpu.pc_state.get_bc(), 0x1111);
    assert_eq!(cpu.pc_state.get_pc(), 2);
}

#[test]
fn exchanges_twice_restore_registers() {
    // EX AF, AF' twice, then EX DE, HL twice.
    let mut cpu = Cpu::with_code(vec![0x08, 0x08, 0xEB, 0xEB]);
    cpu.pc_state.set_a(0x12);
    cpu.pc_state.set_de(0x3456);
    cpu.pc_state.set_hl(0x789A);
    cpu.step();
    assert_eq!(cpu.pc_state.get_a(), 0x00);
    cpu.step();
    assert_eq!(cpu.pc_state.get_a(), 0x12);
    cpu.step();
    assert_eq!(cpu.pc_state.get_de(), 0x789A);
    assert_eq!(cpu.pc_state.get_hl(), 0x3456);
    cpu.step();
    assert_eq!(cpu.pc_state.get_de(), 0x3456);
    assert_eq!(cpu.pc_state.get_hl(), 0x789A);
    assert_eq!(cpu.pc_state.get_pc(), 4);
    assert_eq!(cpu.clock.cycles, 16);
}

#[test]
fn ei_executes_next_then_interrupts() {
    // EI; NOP with interrupt mode 1: the NOP runs, then PC is pushed and
    // execution goes to 0x38.
    let mut cpu = Cpu::with_code(vec![0xFB, 0x00]);
    cpu.pc_state.set_sp(0x9000);
    cpu.pc_state.set_im(1);
    cpu.step();
    assert_eq!(cpu.pc_state.get_pc(), 0x38);
    assert_eq!(cpu.pc_state.get_sp(), 0x8FFE);
    assert_eq!(cpu.memory.read(0x8FFE), 0x02);
    assert_eq!(cpu.pc_state.get_iff1(), false);
    assert_eq!(cpu.pc_state.get_iff2(), true);
    assert_eq!(cpu.clock.cycles, 8);
}

#[test]
fn unsupported_op_codes_are_reported() {
    // HALT, EI in interrupt mode 0, NEG and INC IX.
    for code in [vec![0x76], vec![0xFB, 0x00], vec![0xED, 0x44], vec![0xDD, 0x23]] {
        let cpu = Cpu::with_code(code);
        assert!(!cpu.supported());
    }
    let cpu = Cpu::with_code(vec![0xED, 0x57]);
    assert!(cpu.supported());
}

#[test]
fn sbc_r_subtracts_with_carry() {
    // SBC A, B with the carry set: 0x10 - 0x01 - 1.
    let mut cpu = Cpu::with_code(vec![0x98]);
    cpu.pc_state.set_a(0x10);
    cpu.pc_state.set_b(0x01);
    let mut f = cpu.pc_state.get_f();
    f.set_c(1);
    cpu.pc_state.set_f(f);
    cpu.step();
    assert_eq!(cpu.pc_state.get_a(), 0x0E);
    assert_eq!(cpu.pc_state.get_f().get_n(), 1);
    assert_eq!(cpu.clock.cycles, 4);
}

#[test]
fn sub_r_subtracts() {
    // SUB B: 0x10 - 0x01, the carry ignored.
    let mut cpu = Cpu::with_code(vec![0x90]);
    cpu.pc_state.set_a(0x10);
    cpu.pc_state.set_b(0x01);
    let mut f = cpu.pc_state.get_f();
    f.set_c(1);
    cpu.pc_state.set_f(f);
    cpu.step();
    assert_eq!(cpu.pc_state.get_a(), 0x0F);
    assert_eq!(cpu.pc_state.get_f().get_n(), 1);
    assert_eq!(cpu.clock.cycles, 4);
}

#[test]
fn cp_hl_compares_without_storing() {
    // LD HL, 0x8000; CP (HL) with A == (HL): Z set, A kept.
    let mut cpu = Cpu::with_code(vec![0x21, 0x00, 0x80, 0xBE]);
    cpu.memory.write(0x8000, 0x42);
    cpu.pc_state.set_a(0x42);
    cpu.step();
    cpu.step();
    assert_eq!(cpu.pc_state.get_a(), 0x42);
    assert_eq!(cpu.pc_state.get_f().get_z(), 1);
    assert_eq!(cpu.pc_state.get_f().get_n(), 1);
    assert_eq!(cpu.pc_state.get_pc(), 4);
    assert_eq!(cpu.clock.cycles, 17);
}

#[test]
fn rst_pushes_and_jumps() {
    // RST 38h at 0x0100: PC + 1 pushed, execution at 0x38, 11 cycles.
    let mut code = vec![0u8; 0x101];
    code[0x100] = 0xFF;
    let mut cpu = Cpu::with_code(code);
    cpu.pc_state.set_pc(0x100);
    cpu.pc_state.set_sp(0xC100);
    cpu.step();
    assert_eq!(cpu.pc_state.get_pc(), 0x38);
    assert_eq!(cpu.pc_state.get_sp(), 0xC0FE);
    assert_eq!(cpu.memory.read(0xC0FF), 0x01);
    assert_eq!(cpu.memory.read(0xC0FE), 0x01);
    assert_eq!(cpu.clock.cycles, 11);
    // RST 08h.
    let mut cpu = Cpu::with_code(vec![0xCF]);
    cpu.pc_state.set_sp(0x9000);
    cpu.step();
    assert_eq!(cpu.pc_state.get_pc(), 0x08);
    assert_eq!(cpu.memory.read16(0x8FFE), 0x0001);
}

#[test]
fn daa_gives_decimal_sum_and_carry() {
    // LD A, 0x99; LD B, 0x01; ADD A, B; DAA -> 0x00 with C set (99 + 1 = 100).
    let mut cpu = Cpu::with_code(vec![0x3E, 0x99, 0x06, 0x01, 0x80, 0x27]);
    for _ in 0..4 {
        cpu.step();
    }
    assert_eq!(cpu.pc_state.get_a(), 0x00);
    assert_eq!(cpu.pc_state.get_f().get_c(), 1);
    // LD A, 0x58; LD B, 0x46; ADC A, B with carry in; DAA -> 0x05, C set (58 + 46 + 1 = 105).
    let mut cpu = Cpu::with_code(vec![0x3E, 0x58, 0x06, 0x46, 0x88, 0x27]);
    cpu.step();
    cpu.step();
    let mut f = cpu.pc_state.get_f();
    f.set_c(1);
    cpu.pc_state.set_f(f);
    cpu.step();
    cpu.step();
    assert_eq!(cpu.pc_state.get_a(), 0x05);
    assert_eq!(cpu.pc_state.get_f().get_c(), 1);
}

#[test]
fn add_carry_flag_is_the_carry_out() {
    // ADD A, B with 0x80 + 0x7F = 0xFF: no carry; ADC with carry in: carry.
    let mut cpu = Cpu::with_code(vec![0x80]);
    cpu.pc_state.set_a(0x80);
    cpu.pc_state.set_b(0x7F);
    cpu.step();
    assert_eq!(cpu.pc_state.get_a(), 0xFF);
    assert_eq!(cpu.pc_state.get_f().get_c(), 0);
    let mut cpu = Cpu::with_code(vec![0x88]);
    cpu.pc_state.set_a(0x80);
    cpu.pc_state.set_b(0x7F);
    let mut f = cpu.pc_state.get_f();
    f.set_c(1);
    cpu.pc_state.set_f(f);
    cpu.step();
    assert_eq!(cpu.pc_state.get_a(), 0x00);
    assert_eq!(cpu.pc_state.get_f().get_c(), 1);
    // ADD HL, DE with 0x8000 + 0x7FFF: no carry.
    let mut cpu = Cpu::with_code(vec![0x19]);
    cpu.pc_state.set_hl(0x8000);
    cpu.pc_state.set_de(0x7FFF);
    cpu.step();
    assert_eq!(cpu.pc_state.get_hl(), 0xFFFF);
    assert_eq!(cpu.pc_state.get_f().get_c(), 0);
}

#[test]
fn conditional_jump_taken_and_not() {
    // JP Z, 0x1234 with Z clear, then with Z set.
    let mut cpu = Cpu::with_code(vec![0xCA, 0x34, 0x12]);
    cpu.step();
    assert_eq!(cpu.pc_state.get_pc(), 3);
    assert_eq!(cpu.clock.cycles, 10);
    let mut cpu = Cpu::with_code(vec![0xCA, 0x34, 0x12]);
    let mut f = cpu.pc_state.get_f();
    f.set_z(1);
    cpu.pc_state.set_f(f);
    cpu.step();
    assert_eq!(cpu.pc_state.get_pc(), 0x1234);
    assert_eq!(cpu.clock.cycles, 15);
}

#[test]
fn call_and_return() {
    // CALL 0x0010; ...; at 0x10: RET
    let mut code = vec![0u8; 0x11];
    code[0] = 0xCD;
    code[1] = 0x10;
    code[2] = 0x00;
    code[0x10] = 0xC9;
    let mut cpu = Cpu::with_code(code);
    cpu.pc_state.set_sp(0xA000);
    cpu.step();
    assert_eq!(cpu.pc_state.get_pc(), 0x10);
    cpu.step();
    assert_eq!(cpu.pc_state.get_pc(), 3);
    assert_eq!(cpu.pc_state.get_sp(), 0xA000);
}

#[test]
fn daa_adjusts_bcd_addition() {
    // LD A, 0x15; LD B, 0x27; ADD A, B; DAA -> 0x42
    let mut cpu = Cpu::with_code(vec![0x3E, 0x15, 0x06, 0x27, 0x80, 0x27]);
    cpu.step();
    cpu.step();
    cpu.step();
    assert_eq!(cpu.pc_state.get_a(), 0x3C);
    assert_eq!(cpu.pc_state.get_f().get_h(), 0);
    cpu.step();
    assert_eq!(cpu.pc_state.get_a(), 0x42);
}

#[test]
fn bit_set_and_reset_through_cb() {
    // SET 3, B; BIT 3, B; RES 3, B
    let mut cpu = Cpu::with_code(vec![0xCB, 0xD8, 0xCB, 0x58, 0xCB, 0x98]);
    cpu.step();
    assert_eq!(cpu.pc_state.get_b(), 0x08);
    cpu.step();
    assert_eq!(cpu.pc_state.get_f().get_z(), 0);
    cpu.step();
    assert_eq!(cpu.pc_state.get_b(), 0x00);
    assert_eq!(cpu.clock.cycles, 24);
}

#[test]
fn indexed_load_and_compare() {
    // LD IX, 0x0100; LD (IX+2), 0x55; CP (IX+2) with A = 0x55
    let mut cpu = Cpu::with_code(vec![0xDD, 0x21, 0x00, 0x01, 0xDD, 0x36, 0x02, 0x55, 0xDD, 0xBE, 0x02]);
    cpu.pc_state.set_a(0x55);
    cpu.step();
    assert_eq!(cpu.pc_state.get_ix(), 0x0100);
    cpu.step();
    assert_eq!(cpu.memory.read(0x0102), 0x55);
    cpu.step();
    assert_eq!(cpu.pc_state.get_f().get_z(), 1);
    assert_eq!(cpu.pc_state.get_a(), 0x55);
}

#[test]
fn in_and_out_through_ports() {
    // OUT (0xBF), A twice sets the VDP address; IN A, (0xDC) reads the
    // joystick as nothing pressed.
    let mut cpu = Cpu::with_code(vec![0xD3, 0xBF, 0xD3, 0xBF, 0xDB, 0xDC]);
    cpu.ports.add_device(VDP::new());
    cpu.pc_state.set_a(0x05);
    cpu.step();
    cpu.step();
    cpu.step();
    assert_eq!(cpu.pc_state.get_a(), 0xFF);
    assert_eq!(cpu.clock.cycles, 33);
}

#[test]
fn interrupt_takes_mode_1() {
    let mut s = PcState::new();
    let mut m = FlatMemory::new();
    s.set_pc(0x1234);
    s.set_sp(0x8000);
    s.set_iff1(true);
    s.set_im(1);
    Interruptor::interrupt(&mut s, &mut m);
    assert_eq!(s.get_pc(), 0x38);
    assert_eq!(s.get_sp(), 0x7FFE);
    assert_eq!(m.read16(0x7FFE), 0x1234);
    assert_eq!(s.get_iff1(), false);
    // Disabled: nothing happens.
    Interruptor::interrupt(&mut s, &mut m);
    assert_eq!(s.get_pc(), 0x38);
    let i = Interuptor::new();
    assert_eq!(i.next_interupt, 0);
}

#[test]
fn vram_reads_back_written_byte() {
    let mut vdp = VDP::new();
    let clock = Clock::new();
    // Address 0x0123, code 1 (VRAM write).
    vdp.write_port_bf(&clock, 0x23);
    vdp.write_port_bf(&clock, 0x41);
    assert_eq!(vdp.get_address(), 0x0123);
    vdp.write_port_be(&clock, 0xA5);
    assert_eq!(vdp.get_address(), 0x0124);
    // Address 0x0123 again, code 0 (VRAM read).
    vdp.write_port_bf(&clock, 0x23);
    vdp.write_port_bf(&clock, 0x01);
    assert_eq!(vdp.read_port_be(&clock), 0xA5);
}

#[test]
fn vdp_registers_and_palette() {
    let mut vdp = VDP::new();
    let clock = Clock::new();
    // Register 0 <- 0x04 (mode 4), through the control port.
    vdp.write_port_bf(&clock, 0x04);
    vdp.write_port_bf(&clock, 0x80);
    // Colour RAM entry 1 <- 0x3F (white).
    vdp.write_port_bf(&clock, 0x01);
    vdp.write_port_bf(&clock, 0xC0);
    vdp.write_port_be(&clock, 0x3F);
    assert_eq!(vdp.read_port_bf(&clock), 0x03);
    assert_eq!(vdp.read_port_7f(&clock), 0);
}

#[test]
fn line_counter_counts_scan_lines() {
    let mut vdp = VDP::new();
    let mut clock = Clock::new();
    clock.cycles = 216 * 10 + 5;
    assert_eq!(vdp.read_port_7e(&clock), 10);
}

#[test]
fn mode_settings_decode_registers() {
    let mut m1 = Mode1Settings::new();
    m1.update_mode_1_settings(0x56);
    assert_eq!(m1.y_scroll, 16);
    assert_eq!(m1.x_scroll, 192);
    assert_eq!(m1.h_sync_interrupt_enabled, true);
    assert_eq!(m1.start_x, 0);
    assert_eq!(m1.display_mode_1, 10);
    let mut m2 = Mode2Settings::new();
    m2.update_mode_2_settings(0x62);
    assert_eq!(m2.v_sync_interrupt_enabled, true);
    assert_eq!(m2.enable_display, true);
    assert_eq!(m2.sprite_height, 16);
    assert_eq!(m2.display_mode_2, 0);
}

#[test]
fn ports_joystick_reads_released() {
    let mut ports = Ports::new();
    let clock = Clock::new();
    assert_eq!(ports.port_read(&clock, 0xdc), 0xff);
    assert_eq!(ports.port_read(&clock, 0xdd), 0xff);
    // No device: other ports read 0.
    assert_eq!(ports.port_read(&clock, 0x7e), 0);
}

#[test]
fn core_takes_frame_interrupt() {
    // EI; then NOPs: the VDP requests a line interrupt at once.
    let mut memory = MemoryAbsolute::new();
    let mut cartridge = Cartridge::new("code.rom");
    let mut image = vec![0u8; 0x4000];
    image[0] = 0xED;
    image[1] = 0x47; // LD I, A
    cartridge.load_banks(&mut image);
    memory.set_cartridge(cartridge);
    let mut ports = Ports::new();
    ports.add_device(VDP::new());
    let mut pc_state = PcState::new();
    pc_state.set_sp(0xDFF0);
    pc_state.set_iff1(true);
    pc_state.set_im(1);
    let mut core = Core::new(Clock::new(), memory, pc_state, ports, Interruptor::new());
    assert!(core.can_step());
    core.step();
    assert_eq!(core.pc_state.get_pc(), 0x38);
    assert_eq!(core.memory.read16(0xDFEE), 2);
    let mut buffer = vec![1u8; core.raw_display.len()];
    core.generate_display(&mut buffer, 1024);
    assert!(buffer.iter().all(|b| *b == 0));
}

#[test]
fn sega_run_helpers() {
    let sega = Sega::new(false, true, 100, Cartridge::new("none.rom"), false);
    assert_eq!(sega.clock_expired(), false);
    assert_eq!(Sega::audio_due(0), true);
    assert_eq!(Sega::audio_due(49), false);
    assert_eq!(Sega::audio_due(100), true);
    assert_eq!(sega.frame_complete(0), false);
}

#[test]
fn sega_window_size() {
    let windowed = Sega::new(false, true, 0, Cartridge::new("none.rom"), false).window_size();
    assert_eq!((windowed.frame_width, windowed.frame_height), (768, 576));
    assert_eq!((windowed.console_width, windowed.console_height), (256, 192));
    assert_eq!(windowed.fullscreen, false);
    let full = Sega::new(false, true, 0, Cartridge::new("none.rom"), true).window_size();
    assert_eq!((full.frame_width, full.frame_height), (256, 192));
    assert_eq!(full.fullscreen, true);
}

#[test]
fn interrupt_traits_deliver_and_poll() {
    let mut s = PcState::new();
    let mut m = FlatMemory::new();
    s.set_pc(0x0102);
    s.set_sp(0x9000);
    s.set_iff1(true);
    s.set_im(1);
    <Interruptor as Interrupt>::interrupt(&mut s, &mut m);
    assert_eq!(s.get_pc(), 0x38);
    assert_eq!(m.read16(0x8FFE), 0x0102);
    let mut handler = VDPInterrupts::new();
    let mut clock = Clock::new();
    // Line 0's interrupt comes due at once.
    assert_eq!(PollForInterrupt::poll_interrupts(&mut handler, &clock), true);
    assert_eq!(handler.h_int_pending, true);
    assert_eq!(handler.v_int_pending, false);
    // The frame interrupt comes when the display ends.
    clock.increment(47803);
    assert_eq!(PollForInterrupt::poll_interrupts(&mut handler, &clock), true);
    assert_eq!(handler.v_int_pending, true);
}

#[test]
fn sound_chunk_has_requested_length() {
    let mut sound = Sound::new();
    assert_eq!(sound.get_next_audio_chunk(0).len(), 0);
    let chunk = sound.get_next_audio_chunk(64);
    assert_eq!(chunk.len(), 64);
    // Fully attenuated channels fade in from the neutral level: sample 0
    // has 99 of 100 steps to go, 30 from each of the four channels.
    assert_eq!(chunk[0], 120);
}

#[test]
fn sound_latch_sets_volume_and_period() {
    let mut sound = Sound::new();
    // Channel 1 attenuation 3, then tone period 0x2A5 in two bytes.
    sound.write_port(0x90 | (1 << 5) | 3);
    sound.write_port(0x80 | (1 << 5) | 0x5);
    sound.write_port(0x2A);
    let chunk = sound.get_next_audio_chunk(8);
    assert_eq!(chunk.len(), 8);
}

#[test]
fn channel_wave_repeats_pattern() {
    let mut channel = SoundChannel::new();
    channel.set_volume(40);
    channel.set_frequency(11025, 44100);
    let first = channel.get_wave(200);
    assert_eq!(first.len(), 200);
    // After the fade-in the square wave alternates between 0 and 10.
    let later = channel.get_wave(8);
    assert_eq!(later, vec![10, 10, 0, 0, 10, 10, 0, 0]);
}

#[test]
fn colour_conversions() {
    let c = Colour::new(0x12, 0x34, 0x56);
    let mut dst = [0u8; 3];
    c.convert_rgb888(&mut dst);
    assert_eq!(dst, [0x56, 0x34, 0x12]);
    c.convert_rgb24(&mut dst);
    assert_eq!(dst, [0x12, 0x34, 0x56]);
    let mut small = [0u8; 2];
    c.convert_rgb444(&mut small);
    assert_eq!(small, [0x35, 0x01]);
}
