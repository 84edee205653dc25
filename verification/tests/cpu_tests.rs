use rustsega::clocks::Clock;
use rustsega::cpu::flagtables;
use rustsega::cpu::instruction_set;
use rustsega::cpu::instructions::Instruction;
use rustsega::cpu::pc_state::{PcState, PcStatusFlagFields, Reg16RW};
use rustsega::cpu::status_flags;
use rustsega::interruptor::Interruptor;
use rustsega::memory::memory::{FlatMemory, MemoryRW};
use rustsega::ports::Ports;

/// A CPU over a flat 64 KiB memory, with no devices.
pub struct TestCore {
    pub clock: Clock,
    pub memory: FlatMemory,
    pub pc_state: PcState,
    pub ports: Ports,
    pub interruptor: Interruptor,
}

impl TestCore {
    pub fn new() -> Self {
        Self {
            clock: Clock::new(),
            memory: FlatMemory::new(),
            pc_state: PcState::new(),
            ports: Ports::new(),
            interruptor: Interruptor::new(),
        }
    }

    fn execute(&mut self, op_code: u8) {
        Instruction::execute(op_code, &mut self.clock, &mut self.memory, &mut self.pc_state, &mut self.ports, &mut self.interruptor);
    }
}

fn simple_execute(test_core: &mut TestCore, op_code: Vec<u8>) {
    // Reset the PC and the clock, load the code at 0 and execute it.
    test_core.pc_state.set_pc(0);
    test_core.clock.cycles = 0;
    let initial_op_code = op_code[0];
    test_core.memory = FlatMemory::from_bytes(&op_code);
    test_core.execute(initial_op_code);
}

fn test_op_code_cycle_count(test_core: &mut TestCore, op_code: Vec<u8>, expected_pc: u16, expected_cycles: u32) {
    simple_execute(test_core, op_code);
    assert_eq!(test_core.pc_state.get_pc(), expected_pc);
    assert_eq!(test_core.clock.cycles, expected_cycles);
}

#[test]
fn flagtables_test_parity() {
    assert_eq!(flagtables::calculate_parity(0b11001001), true);
    assert_eq!(flagtables::calculate_parity(0b00101000), true);
    assert_eq!(flagtables::calculate_parity(0b10101001), true);
    assert_eq!(flagtables::calculate_parity(0b00101001), false);
    assert_eq!(flagtables::calculate_parity(0b00000001), false);
    assert_eq!(flagtables::calculate_parity(0b10000000), false);
}

#[test]
fn status_flags_test_parity() {
    assert_eq!(status_flags::calculate_parity(0b11001001), true);
    assert_eq!(status_flags::calculate_parity(0b00101000), true);
    assert_eq!(status_flags::calculate_parity(0b10101001), true);
    assert_eq!(status_flags::calculate_parity(0b00101001), false);
    assert_eq!(status_flags::calculate_parity(0b00000001), false);
    assert_eq!(status_flags::calculate_parity(0b10000000), false);
}

#[test]
fn test_bit_set() {
    let mut f_status = PcStatusFlagFields(0);
    status_flags::set_bit_test_flags(0x30, 5, &mut f_status);
    assert_eq!(f_status.get_z(), 0);
    status_flags::set_bit_test_flags(0x30, 3, &mut f_status);
    assert_eq!(f_status.get_z(), 1);
}

#[test]
fn test_add_sub_functions() {
    let mut pc_state = PcState::new();
    assert_eq!(instruction_set::signed_char_to_int(-1 as i8), -1 as i16);

    assert_eq!(instruction_set::add8c(0, 0, false, &mut pc_state.af_reg), 0);
    assert_eq!(pc_state.get_f().get_z(), 1);

    assert_eq!(instruction_set::add8c(0, 0, true, &mut pc_state.af_reg), 1);
    assert_eq!(pc_state.get_f().get_z(), 0);

    assert_eq!(instruction_set::add8c(0x7, 0x9, true, &mut pc_state.af_reg), 0x11);
    assert_eq!(pc_state.get_f().get_z(), 0);
    assert_eq!(pc_state.get_f().get_h(), 1);
    assert_eq!(pc_state.get_f().get_n(), 0);

    assert_eq!(instruction_set::add8c(0xFF, 0xFF, true, &mut pc_state.af_reg), 0xFF);
    assert_eq!(pc_state.get_f().get_z(), 0);
    assert_eq!(pc_state.get_f().get_c(), 1);
    assert_eq!(pc_state.get_f().get_pv(), 0);

    assert_eq!(instruction_set::sub8c(0xFF, 0xFF, true, &mut pc_state.af_reg), 0xFF);
    assert_eq!(instruction_set::sub8c(0x7F, 0xFF, true, &mut pc_state.af_reg), 0x7F);
    assert_eq!(pc_state.get_f().get_pv(), 0);
    assert_eq!(pc_state.get_f().get_c(), 0);
    assert_eq!(pc_state.get_f().get_n(), 1);

    assert_eq!(instruction_set::sub8c(0xFF, 0x2, true, &mut pc_state.af_reg), 0xFC);
    assert_eq!(pc_state.get_f().get_pv(), 0);
    assert_eq!(pc_state.get_f().get_c(), 1);

    assert_eq!(instruction_set::add16c(0xFFFF, 0xFFFF, true, &mut pc_state.af_reg), 0xFFFF);
    assert_eq!(instruction_set::add16c(0, 0, false, &mut pc_state.af_reg), 0);
    assert_eq!(pc_state.get_f().get_z(), 1);
    assert_eq!(pc_state.get_f().get_n(), 0);

    assert_eq!(instruction_set::add16c(0x3FFF, 0x7001, true, &mut pc_state.af_reg), 0xB001);
    assert_eq!(pc_state.get_f().get_h(), 1);

    assert_eq!(instruction_set::sub16c(0x0000, 0x000F, true, &mut pc_state.af_reg), 0xFFF0);
    assert_eq!(pc_state.get_f().get_n(), 1);
}

#[test]
fn test_instruction_match_style_check() {
    #[derive(PartialEq, Debug)]
    enum Ops {
        Op0x70,
        Op0x71,
        Op0x72,
        Op0x73,
        Op0x74,
        Op0x75,
        Op0x76,
        Op0x77,
        Unknown,
    }
    fn check_match(value: u8) -> Ops {
        match value {
            n if (n & 0x78 == 0x70) && (n != 0x76) => match n & 0x7 {
                0 => Ops::Op0x70,
                1 => Ops::Op0x71,
                2 => Ops::Op0x72,
                3 => Ops::Op0x73,
                4 => Ops::Op0x74,
                5 => Ops::Op0x75,
                7 => Ops::Op0x77,
                _ => {
                    panic!("Code path that was thought to be unreachable was reached! {}", n);
                }
            },
            0x76 => Ops::Op0x76,
            _ => Ops::Unknown,
        }
    }
    assert_eq!(check_match(0x72), Ops::Op0x72);
    assert_eq!(check_match(0x76), Ops::Op0x76);
    assert_eq!(check_match(0x77), Ops::Op0x77);
}

#[test]
fn test_ld_r_r_functions() {
    let mut test_core = TestCore::new();

    assert_eq!(test_core.clock.cycles, 0);
    assert_eq!(test_core.pc_state.get_b(), 0);

    test_core.pc_state.set_c(0x42);
    test_core.execute(0b01000001); // LD B, C
    assert_eq!(test_core.pc_state.get_b(), 0x42);
    assert_eq!(test_core.clock.cycles, 4);
}

#[test]
fn test_jump_functions() {
    let mut test_core = TestCore::new();

    test_core.pc_state.set_hl(0x4233);
    test_core.pc_state.set_pc(0x2003);
    test_core.execute(0xE9); // JP (HL)
    assert_eq!(test_core.pc_state.get_pc(), 0x4233);
}

#[test]
fn test_dec_functions() {
    let mut test_core = TestCore::new();

    test_core.pc_state.set_h(0x80);
    let mut flags = test_core.pc_state.get_f();
    flags.set_c(1);
    test_core.pc_state.set_f(flags);
    test_core.execute(0b00100101); // DEC H
    assert_eq!(test_core.pc_state.get_h(), 0x7F);
    assert_eq!(test_core.pc_state.get_f().get_h(), 1);
    assert_eq!(test_core.pc_state.get_f().get_c(), 1);
    assert_eq!(test_core.pc_state.get_f().get_s(), 0);
}

#[test]
fn test_specific_opcodes() {
    let mut test_core = TestCore::new();

    test_core.memory = FlatMemory::from_bytes(&vec![0x00]);
    test_core.execute(0x00); // NOP
    assert_eq!(test_core.pc_state.get_pc(), 0x1);
    assert_eq!(test_core.clock.cycles, 4);

    // LD dd, nn: for BC
    test_core.pc_state.set_pc(0);
    test_core.clock.cycles = 0;
    let test_op_code = 0x01;
    test_core.memory = FlatMemory::from_bytes(&vec![test_op_code, 0x10, 0x33]);
    test_core.execute(test_op_code);
    assert_eq!(test_core.pc_state.get_pc(), 0x3);
    assert_eq!(test_core.pc_state.get_bc(), 0x3310);
    assert_eq!(test_core.clock.cycles, 10);
}

#[test]
fn test_opcode_cycle_times() {
    let mut test_core = TestCore::new();

    test_op_code_cycle_count(&mut test_core, vec![0x00], 1, 4); // NOP
    test_op_code_cycle_count(&mut test_core, vec![0x01, 0x10, 0x33], 3, 10); // LD dd, nn
}

#[test]
fn test_rotate_opcode_cycle_times() {
    let mut test_core = TestCore::new();

    test_core.pc_state.set_a(0xAB);
    test_core.pc_state.set_hl(0x02);
    test_op_code_cycle_count(&mut test_core, vec![0xED, 0x67, 0xCD], 2, 18); // RRD
    assert_eq!(test_core.memory.read(2), 0xBC);
    assert_eq!(test_core.pc_state.get_a(), 0xAD);

    test_core.pc_state.set_a(0xAB);
    test_core.pc_state.set_hl(0x02);
    test_op_code_cycle_count(&mut test_core, vec![0xED, 0x6F, 0xCD], 2, 18); // RLD
    assert_eq!(test_core.pc_state.get_a(), 0xAC);
    assert_eq!(test_core.memory.read(2), 0xDB);

    test_core.pc_state.set_ix(0x04);
    test_op_code_cycle_count(&mut test_core, vec![0xDD, 0x34, 0xFF, 0x09], 3, 23); // INC (IX+d), d = -1
    assert_eq!(test_core.memory.read(3), 0xA);

    test_core.pc_state.set_iy(0x06);
    test_op_code_cycle_count(&mut test_core, vec![0xFD, 0x35, 0xFD, 0x09], 3, 23); // DEC (IY+d), d = -3
    assert_eq!(test_core.memory.read(3), 0x8);
}

#[test]
fn test_pc_status_flag_fields() {
    let mut pc_status_flags = PcStatusFlagFields(0);
    pc_status_flags.set_c(1);
    assert_eq!(pc_status_flags.get_c(), 1);
    pc_status_flags.set_n(1);
    assert_eq!(pc_status_flags.0, 3);
}

#[test]
fn test_pc_state_16_changes() {
    let mut pc_state = PcState::new();
    let value_8: u8 = 7;
    let mut value_16: u16 = 0x312;

    pc_state.set_b(value_8);
    assert_eq!(pc_state.get_b(), 7);
    assert_eq!(pc_state.get_c(), 0);
    assert_eq!(pc_state.get_bc(), 0x700);

    pc_state.set_bc(value_16);
    assert_eq!(pc_state.get_bc(), 0x312);
    assert_eq!(pc_state.get_b(), 0x3);
    assert_eq!(pc_state.get_c(), 0x12);

    assert_eq!(pc_state.get_af(), 0x0);
    pc_state.set_af(value_16);
    assert_eq!(pc_state.get_a(), 0x03);
    assert_eq!(pc_state.get_f().get_c(), 0x0);
    assert_eq!(pc_state.get_f().get_n(), 0x1);
    assert_eq!(pc_state.get_f().get_pv(), 0x0);
    assert_eq!(pc_state.get_f().get_x1(), 0x0);
    assert_eq!(pc_state.get_f().get_h(), 0x1);
    assert_eq!(pc_state.get_f().get_x2(), 0x0);
    assert_eq!(pc_state.get_f().get_z(), 0x0);
    assert_eq!(pc_state.get_f().get_s(), 0x0);

    value_16 = 0x80FE;
    pc_state.set_af(value_16);
    assert_eq!(pc_state.get_a(), 0x80);
    assert_eq!(pc_state.get_f().get_c(), 0x0);
    assert_eq!(pc_state.get_f().get_n(), 0x1);
    assert_eq!(pc_state.get_f().get_pv(), 0x1);
    assert_eq!(pc_state.get_f().get_x1(), 0x1);
    assert_eq!(pc_state.get_f().get_h(), 0x1);
    assert_eq!(pc_state.get_f().get_x2(), 0x1);
    assert_eq!(pc_state.get_f().get_z(), 0x1);
    assert_eq!(pc_state.get_f().get_s(), 0x1);
    assert_eq!(pc_state.to_string(), "A:80 SP:0 B:3 C:12 D:0 E:0 H:0 L:0 F:fe PCHigh:0 PCLow:0 SPHigh:0 SPLow:0 IXHigh:0 IXLow:0 IYHigh:0 IYLow:0 (C:0 N:1 PV:1 X1:1 H:1 X2:1 Z:1 S:1)");

    value_16 = 0xdffd;
    pc_state.sp_reg.set(value_16);
    let mut flags = pc_state.get_f();
    flags.set_x1(0);
    pc_state.set_f(flags);
    // Use the formatted state to check the output.
    assert_eq!(pc_state.to_string(), "A:80 SP:dffd B:3 C:12 D:0 E:0 H:0 L:0 F:f6 PCHigh:0 PCLow:0 SPHigh:df SPLow:fd IXHigh:0 IXLow:0 IYHigh:0 IYLow:0 (C:0 N:1 PV:1 X1:0 H:1 X2:1 Z:1 S:1)");
}
