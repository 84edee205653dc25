use vstd::prelude::*;
use crate::clocks::{Clock, tick};
use crate::cpu::pc_state::{
    PcState, PcStatusFlagFields, Flags, FlagReg, Reg16RW, flags_of, byte_of, bit, w8, w16, u16_of,
    lemma_byte_of_flags_of, lemma_flags_of_byte_of, lemma_reg_of_value, lemma_value_reg_of,
};
use crate::cpu::status_flags::{
    self, u8_carry_result, u8_carry_flags, u16_carry_flags, parity_even, zs, dec_flags, inc_flags,
    logic_flags,
};
use crate::memory::memory::{MemoryRW, read16_view};
use crate::ports::{Ports, devices_wf, ports_read_spec, ports_write_ok, ports_write_spec};

verus! {

broadcast use {lemma_byte_of_flags_of, lemma_flags_of_byte_of, lemma_reg_of_value, lemma_value_reg_of};

/// Flags of an 8-bit addition (N cleared).
pub open spec fn add_flags(f: Flags, a: u8, b: u8, c: bool) -> Flags {
    Flags { n: false, ..u8_carry_flags(f, a, b, c) }
}

/// Result of the 8-bit `a - b - c`, computed as `a + !b + !c`.
pub open spec fn sub_result(a: u8, b: u8, c: bool) -> u8 {
    u8_carry_result(a, (255 - b) as u8, !c)
}

/// Flags of the 8-bit `a - b - c` (N set), computed as those of `a + !b + !c`.
pub open spec fn sub_flags(f: Flags, a: u8, b: u8, c: bool) -> Flags {
    Flags { n: true, ..u8_carry_flags(f, a, (255 - b) as u8, !c) }
}

proof fn lemma_not_bits(b: u8, w: u16)
    ensures
        !b == (255 - b) as u8,
        !w == (0xFFFF - w) as u16,
        b ^ 0xFF == (255 - b) as u8,
        (b >> 4) & 0xF == b / 16,
        b & 0xF == b % 16,
{
    crate::bits::lemma_u8_bits(b);
    crate::bits::lemma_u16_bits(w);
}

/// What the shifts and rotations compute, in arithmetic terms.
proof fn lemma_shift_rotate_bits(input: u8, carry: bool)
    by (bit_vector)
    ensures
        ((input >> 1) | (input & 0x80)) == input / 2 + (if input >= 128 { 128u8 } else { 0u8 }),
        (input & 0b1 == 1) == (input % 2 == 1),
        input >> 1 == input / 2,
        input << 1 == w8(input * 2),
        ((input >> 7) & 0b1 == 1) == (input >= 128),
        (input << 1) | 0x1 == w8(input * 2 + 1),
        (input >> 1) | ((if input & 0b1 == 1 { 1u8 } else { 0u8 }) << 7) == input / 2 + 128 * (input % 2),
        (input >> 1) | ((if carry { 1u8 } else { 0u8 }) << 7) == input / 2 + 128 * (if carry { 1u8 } else { 0u8 }),
        (input << 1) | (if (input >> 7) & 0b1 == 1 { 1u8 } else { 0u8 }) == w8(input * 2) + input / 128,
        (input << 1) | (if carry { 1u8 } else { 0u8 }) == w8(input * 2) + (if carry { 1u8 } else { 0u8 }),
{
}

/// IN A, (n): read the I/O port named by the byte after the op code into A.
/// PC + 2, 11 cycles.
#[verifier::spinoff_prover]
pub fn in_a_n<M: MemoryRW>(clock: &mut Clock, memory: &mut M, pc_state: &mut PcState, ports: &mut Ports)
    requires
        devices_wf(old(ports)@),
    ensures
        ({
            let port = M::read_view(old(memory)@, w16(old(pc_state).pc() + 1));
            let (devices, value) = ports_read_spec(old(ports)@, old(clock).cycles, port);
            &&& final(ports)@ == devices
            &&& *final(pc_state) == old(pc_state).with_a(value).adv_pc(2)
        }),
        devices_wf(final(ports)@),
        final(memory)@ == old(memory)@,
        final(clock).cycles == tick(old(clock).cycles, 11),
{
    let port = memory.read(pc_state.get_pc().wrapping_add(1));
    let value = ports.port_read(clock, port);
    pc_state.set_a(value);
    pc_state.increment_pc(2);
    clock.increment(11);
}

/// OUT (n), A: write A to the I/O port named by the byte after the op code.
/// PC + 2, 11 cycles.
#[verifier::spinoff_prover]
pub fn out_n_a<M: MemoryRW>(clock: &mut Clock, memory: &mut M, pc_state: &mut PcState, ports: &mut Ports)
    requires
        devices_wf(old(ports)@),
        ports_write_ok(old(ports)@, M::read_view(old(memory)@, w16(old(pc_state).pc() + 1)), old(pc_state).a()),
    ensures
        final(ports)@ == ports_write_spec(old(ports)@, M::read_view(old(memory)@, w16(old(pc_state).pc() + 1)), old(pc_state).a()),
        devices_wf(final(ports)@),
        *final(pc_state) == old(pc_state).adv_pc(2),
        final(memory)@ == old(memory)@,
        final(clock).cycles == tick(old(clock).cycles, 11),
{
    let port = memory.read(pc_state.get_pc().wrapping_add(1));
    ports.port_write(clock, port, pc_state.get_a());
    pc_state.increment_pc(2);
    clock.increment(11);
}

/// No operation: PC + 1, 4 cycles.
#[verifier::spinoff_prover]
pub fn noop(clock: &mut Clock, pc_state: &mut PcState)
    ensures
        *final(pc_state) == old(pc_state).adv_pc(1),
        final(clock).cycles == tick(old(clock).cycles, 4),
{
    pc_state.increment_pc(1);
    clock.increment(4);
}

/// Enable interrupts (IFF1 and IFF2 set), 4 cycles; PC is moved by the caller.
#[verifier::spinoff_prover]
pub fn ei(clock: &mut Clock, pc_state: &mut PcState)
    ensures
        *final(pc_state) == (PcState { iff1: true, iff2: true, ..*old(pc_state) }),
        final(clock).cycles == tick(old(clock).cycles, 4),
{
    pc_state.set_iff1(true);
    pc_state.set_iff2(true);
    clock.increment(4);
}

/// Disable interrupts (IFF1 and IFF2 cleared): PC + 1, 4 cycles.
#[verifier::spinoff_prover]
pub fn di(clock: &mut Clock, pc_state: &mut PcState)
    ensures
        *final(pc_state) == (PcState { iff1: false, iff2: false, ..*old(pc_state) }).adv_pc(1),
        final(clock).cycles == tick(old(clock).cycles, 4),
{
    pc_state.set_iff1(false);
    pc_state.set_iff2(false);
    pc_state.increment_pc(1);
    clock.increment(4);
}

/// `v` widened to 16 bits.
#[verifier::spinoff_prover]
pub fn signed_char_to_int(v: i8) -> (r: i16)
    ensures
        r == v,
{
    v as i16
}

/// Shift right keeping the sign bit; bit 0 goes to the carry.
#[verifier::spinoff_prover]
pub fn shift_right_arithmetic(input: u8) -> (r: (u8, bool))
    ensures
        r.0 == input / 2 + (if input >= 128 { 128int } else { 0 }),
        r.1 == (input % 2 == 1),
{
    let bit0 = input & 0b1 == 1;
    let result = (input >> 1) | (input & 0x80);
    proof {
        lemma_shift_rotate_bits(input, false);
    }
    (result, bit0)
}

/// Shift right, a zero into bit 7; bit 0 goes to the carry.
#[verifier::spinoff_prover]
pub fn shift_right_logical(input: u8) -> (r: (u8, bool))
    ensures
        r.0 == input / 2,
        r.1 == (input % 2 == 1),
{
    let bit0 = input & 0b1 == 1;
    let result = input >> 1;
    proof {
        lemma_shift_rotate_bits(input, false);
    }
    (result, bit0)
}

/// Shift left, a zero into bit 0; bit 7 goes to the carry.
#[verifier::spinoff_prover]
pub fn shift_left_arithmetic(input: u8) -> (r: (u8, bool))
    ensures
        r.0 == w8(input * 2),
        r.1 == (input >= 128),
{
    let bit7 = (input >> 7) & 0b1 == 1;
    let result = input << 1;
    proof {
        lemma_shift_rotate_bits(input, false);
    }
    (result, bit7)
}

/// Shift left, a one into bit 0; bit 7 goes to the carry.
#[verifier::spinoff_prover]
pub fn shift_left_logical(input: u8) -> (r: (u8, bool))
    ensures
        r.0 == w8(input * 2 + 1),
        r.1 == (input >= 128),
{
    let bit7 = (input >> 7) & 0b1 == 1;
    let result = (input << 1) | 0x1;
    proof {
        lemma_shift_rotate_bits(input, false);
    }
    (result, bit7)
}

/// Rotate right: bit 0 goes to bit 7 and to the carry.
#[verifier::spinoff_prover]
pub fn rotate_right_carry(input: u8) -> (r: (u8, bool))
    ensures
        r.0 == input / 2 + 128 * (input % 2),
        r.1 == (input % 2 == 1),
{
    let bit0 = input & 0b1 == 1;
    let result = (input >> 1) | ((if bit0 { 1u8 } else { 0u8 }) << 7);
    proof {
        lemma_shift_rotate_bits(input, false);
    }
    (result, bit0)
}

/// Rotate right through the carry: the carry goes to bit 7, bit 0 to the carry.
#[verifier::spinoff_prover]
pub fn rotate_right(input: u8, carry: bool) -> (r: (u8, bool))
    ensures
        r.0 == input / 2 + 128 * bit(carry),
        r.1 == (input % 2 == 1),
{
    let bit0 = input & 0b1 == 1;
    let result = (input >> 1) | ((if carry { 1u8 } else { 0u8 }) << 7);
    proof {
        lemma_shift_rotate_bits(input, carry);
    }
    (result, bit0)
}

/// Rotate left: bit 7 goes to bit 0 and to the carry.
#[verifier::spinoff_prover]
pub fn rotate_left_carry(input: u8) -> (r: (u8, bool))
    ensures
        r.0 == w8(input * 2) + input / 128,
        r.1 == (input >= 128),
{
    let bit7 = (input >> 7) & 0b1 == 1;
    let result = (input << 1) | (if bit7 { 1u8 } else { 0u8 });
    proof {
        lemma_shift_rotate_bits(input, false);
    }
    (result, bit7)
}

/// Rotate left through the carry: the carry goes to bit 0, bit 7 to the carry.
#[verifier::spinoff_prover]
pub fn rotate_left(input: u8, carry: bool) -> (r: (u8, bool))
    ensures
        r.0 == w8(input * 2) + bit(carry),
        r.1 == (input >= 128),
{
    let bit7 = (input >> 7) & 0b1 == 1;
    let result = (input << 1) | (if carry { 1u8 } else { 0u8 });
    proof {
        lemma_shift_rotate_bits(input, carry);
    }
    (result, bit7)
}

/// `a + b`, setting the flags of an addition.
#[verifier::spinoff_prover]
pub fn add8<F16: FlagReg>(a: u8, b: u8, af_reg: &mut F16) -> (r: u8)
    ensures
        r == u8_carry_result(a, b, false),
        flags_of(final(af_reg).flag_byte()) == add_flags(flags_of(old(af_reg).flag_byte()), a, b, false),
        final(af_reg).other_byte() == old(af_reg).other_byte(),
{
    add8c(a, b, false, af_reg)
}

/// `a - b`, setting the flags of a subtraction.
#[verifier::spinoff_prover]
pub fn sub8<F16: FlagReg>(a: u8, b: u8, af_reg: &mut F16) -> (r: u8)
    ensures
        r == sub_result(a, b, false),
        flags_of(final(af_reg).flag_byte()) == sub_flags(flags_of(old(af_reg).flag_byte()), a, b, false),
        final(af_reg).other_byte() == old(af_reg).other_byte(),
{
    sub8c(a, b, false, af_reg)
}

/// `a + b + c`, setting the flags of an addition.
#[verifier::spinoff_prover]
pub fn add8c<F16: FlagReg>(a: u8, b: u8, c: bool, af_reg: &mut F16) -> (r: u8)
    ensures
        r == u8_carry_result(a, b, c),
        flags_of(final(af_reg).flag_byte()) == add_flags(flags_of(old(af_reg).flag_byte()), a, b, c),
        final(af_reg).other_byte() == old(af_reg).other_byte(),
{
    let mut f_status = af_reg.get_flags();
    let result = status_flags::u8_carry(a, b, c, &mut f_status);
    f_status.set_n(0);
    af_reg.set_flags(&f_status);
    result
}

/// Set the flags of `a - b` and discard the result.
#[verifier::spinoff_prover]
pub fn cp_flags<F16: FlagReg>(a: u8, b: u8, af_reg: &mut F16)
    ensures
        flags_of(final(af_reg).flag_byte()) == sub_flags(flags_of(old(af_reg).flag_byte()), a, b, false),
        final(af_reg).other_byte() == old(af_reg).other_byte(),
{
    sub8c(a, b, false, af_reg);
}

/// `a - b - c`, computed as `a + !b + !c`, setting the flags of a subtraction.
#[verifier::spinoff_prover]
pub fn sub8c<F16: FlagReg>(a: u8, b: u8, c: bool, af_reg: &mut F16) -> (r: u8)
    ensures
        r == sub_result(a, b, c),
        flags_of(final(af_reg).flag_byte()) == sub_flags(flags_of(old(af_reg).flag_byte()), a, b, c),
        final(af_reg).other_byte() == old(af_reg).other_byte(),
{
    proof {
        lemma_not_bits(b, 0);
    }
    let mut f_status = af_reg.get_flags();
    let result = status_flags::u8_carry(a, !b, !c, &mut f_status);
    f_status.set_n(1);
    af_reg.set_flags(&f_status);
    result
}

/// 16-bit `a + b + c`, setting the flags of an addition.
#[verifier::spinoff_prover]
pub fn add16c<F16: FlagReg>(a: u16, b: u16, c: bool, af_reg: &mut F16) -> (r: u16)
    ensures
        r == w16(a + b + bit(c)),
        flags_of(final(af_reg).flag_byte()) == (Flags { n: false, ..u16_carry_flags(flags_of(old(af_reg).flag_byte()), a, b, c) }),
        final(af_reg).other_byte() == old(af_reg).other_byte(),
{
    let mut f_status = af_reg.get_flags();
    let result = status_flags::u16_carry(a, b, c, &mut f_status);
    f_status.set_n(0);
    af_reg.set_flags(&f_status);
    result
}

/// 16-bit `a - b - c`, computed as `a + !b + !c`, setting the flags of a subtraction.
#[verifier::spinoff_prover]
pub fn sub16c<F16: FlagReg>(a: u16, b: u16, c: bool, af_reg: &mut F16) -> (r: u16)
    ensures
        r == w16(a + (0xFFFF - b) + bit(!c)),
        flags_of(final(af_reg).flag_byte()) == (Flags { n: true, ..u16_carry_flags(flags_of(old(af_reg).flag_byte()), a, (0xFFFF - b) as u16, !c) }),
        final(af_reg).other_byte() == old(af_reg).other_byte(),
{
    proof {
        lemma_not_bits(0, b);
    }
    let mut f_status = af_reg.get_flags();
    let result = status_flags::u16_carry(a, !b, !c, &mut f_status);
    f_status.set_n(1);
    af_reg.set_flags(&f_status);
    result
}

/// The spec of 8-bit arithmetic on the accumulator: A gets `result`, F gets `fl`,
/// PC moves by `len`.
pub open spec fn acc_op(s: PcState, result: u8, fl: Flags, len: int) -> PcState {
    s.with_a(result).with_flags(fl).adv_pc(len)
}

/// LD dd, nn: load a 16-bit register from the two bytes after the op code.
/// PC + 3, 10 cycles.
#[verifier::spinoff_prover]
pub fn ld_16_nn<M: MemoryRW, R16: Reg16RW>(clock: &mut Clock, memory: &mut M, pc_reg: &mut R16, r16_reg: &mut R16)
    ensures
        final(r16_reg).word() == read16_view::<M>(old(memory)@, w16(old(pc_reg).word() + 1)),
        final(pc_reg).word() == w16(old(pc_reg).word() + 3),
        final(memory)@ == old(memory)@,
        final(clock).cycles == tick(old(clock).cycles, 10),
{
    r16_reg.set(memory.read16(pc_reg.get().wrapping_add(1)));
    PcState::increment_reg(pc_reg, 3);
    clock.increment(10);
}

/// LD (rr), r: store `r` at the address in `address_reg`. PC + 1, 7 cycles.
#[verifier::spinoff_prover]
pub fn ld_mem_r<M: MemoryRW, R16: Reg16RW>(clock: &mut Clock, memory: &mut M, r: u8, pc_reg: &mut R16, address_reg: &R16)
    ensures
        final(memory)@ == M::write_view(old(memory)@, address_reg.word(), r),
        final(pc_reg).word() == w16(old(pc_reg).word() + 1),
        final(clock).cycles == tick(old(clock).cycles, 7),
{
    memory.write(address_reg.get(), r);
    PcState::increment_reg(pc_reg, 1);
    clock.increment(7);
}

/// LD r, r': copy `src` into the register that `dst` selects. PC + 1, 4 cycles.
#[verifier::spinoff_prover]
pub fn ld_r_r(clock: &mut Clock, src: u8, pc_state: &mut PcState, dst: u8)
    requires
        dst & 7 != 6,
    ensures
        *final(pc_state) == old(pc_state).with_reg8(dst, src).adv_pc(1),
        final(clock).cycles == tick(old(clock).cycles, 4),
{
    pc_state.set_reg8(dst, src);
    pc_state.increment_pc(1);
    clock.increment(4);
}

/// LD r, (rr): load the register that `dst` selects from `addr_reg_value`.
/// PC + 1, 7 cycles.
#[verifier::spinoff_prover]
pub fn ld_r_mem<M: MemoryRW>(clock: &mut Clock, memory: &mut M, pc_state: &mut PcState, dst: u8, addr_reg_value: u16)
    requires
        dst & 7 != 6,
    ensures
        *final(pc_state) == old(pc_state).with_reg8(dst, M::read_view(old(memory)@, addr_reg_value)).adv_pc(1),
        final(memory)@ == old(memory)@,
        final(clock).cycles == tick(old(clock).cycles, 7),
{
    let v = memory.read(addr_reg_value);
    pc_state.set_reg8(dst, v);
    pc_state.increment_pc(1);
    clock.increment(7);
}

/// LD r, n: load the register that `dst` selects from the byte after the op
/// code. PC + 2, 7 cycles.
#[verifier::spinoff_prover]
pub fn ld_r<M: MemoryRW>(clock: &mut Clock, memory: &mut M, pc_state: &mut PcState, dst: u8)
    requires
        dst & 7 != 6,
    ensures
        *final(pc_state) == old(pc_state).with_reg8(dst, M::read_view(old(memory)@, w16(old(pc_state).pc() + 1))).adv_pc(2),
        final(memory)@ == old(memory)@,
        final(clock).cycles == tick(old(clock).cycles, 7),
{
    let v = memory.read(pc_state.get_pc().wrapping_add(1));
    pc_state.set_reg8(dst, v);
    pc_state.increment_pc(2);
    clock.increment(7);
}

/// LD rr, (nn): load a 16-bit register from the address after the op code.
/// PC + 3, 20 cycles.
#[verifier::spinoff_prover]
pub fn ld_r16_mem<M: MemoryRW, R16: Reg16RW>(clock: &mut Clock, memory: &mut M, pc_reg: &mut R16, r16_reg: &mut R16)
    ensures
        final(r16_reg).word() == read16_view::<M>(old(memory)@, read16_view::<M>(old(memory)@, w16(old(pc_reg).word() + 1))),
        final(pc_reg).word() == w16(old(pc_reg).word() + 3),
        final(memory)@ == old(memory)@,
        final(clock).cycles == tick(old(clock).cycles, 20),
{
    let address = memory.read16(pc_reg.get().wrapping_add(1));
    r16_reg.set(memory.read16(address));
    PcState::increment_reg(pc_reg, 3);
    clock.increment(20);
}

/// LD (rr), n: store the byte after the op code at the address in `r16_reg`.
/// PC + 2, 10 cycles.
#[verifier::spinoff_prover]
pub fn ld_mem_n<M: MemoryRW, R16: Reg16RW>(clock: &mut Clock, memory: &mut M, pc_reg: &mut R16, r16_reg: &mut R16)
    ensures
        final(memory)@ == M::write_view(old(memory)@, old(r16_reg).word(), M::read_view(old(memory)@, w16(old(pc_reg).word() + 1))),
        final(pc_reg).word() == w16(old(pc_reg).word() + 2),
        *final(r16_reg) == *old(r16_reg),
        final(clock).cycles == tick(old(clock).cycles, 10),
{
    let v = memory.read(pc_reg.get().wrapping_add(1));
    memory.write(r16_reg.get(), v);
    PcState::increment_reg(pc_reg, 2);
    clock.increment(10);
}

/// LD A, (nn): load the register that `dst` selects from the address after
/// the op code. PC + 3, 13 cycles.
#[verifier::spinoff_prover]
pub fn ld_r8_mem<M: MemoryRW>(clock: &mut Clock, memory: &mut M, pc_state: &mut PcState, dst: u8)
    requires
        dst & 7 != 6,
    ensures
        *final(pc_state) == old(pc_state).with_reg8(
            dst,
            M::read_view(old(memory)@, read16_view::<M>(old(memory)@, w16(old(pc_state).pc() + 1))),
        ).adv_pc(3),
        final(memory)@ == old(memory)@,
        final(clock).cycles == tick(old(clock).cycles, 13),
{
    let address = memory.read16(pc_state.get_pc().wrapping_add(1));
    let v = memory.read(address);
    pc_state.set_reg8(dst, v);
    pc_state.increment_pc(3);
    clock.increment(13);
}

/// LD SP, HL. PC + 1, 6 cycles.
#[verifier::spinoff_prover]
pub fn ld_sp_hl<R16: Reg16RW>(clock: &mut Clock, hl_reg: &R16, pc_reg: &mut R16, sp_reg: &mut R16)
    ensures
        final(sp_reg).word() == hl_reg.word(),
        final(pc_reg).word() == w16(old(pc_reg).word() + 1),
        final(clock).cycles == tick(old(clock).cycles, 6),
{
    sp_reg.set(hl_reg.get());
    PcState::increment_reg(pc_reg, 1);
    clock.increment(6);
}

/// LD (nn), r: store `r` at the address after the op code. PC + 3, 13 cycles.
#[verifier::spinoff_prover]
pub fn ld_nn_r<M: MemoryRW, R16: Reg16RW>(clock: &mut Clock, memory: &mut M, r: u8, pc_reg: &mut R16)
    ensures
        final(memory)@ == M::write_view(old(memory)@, read16_view::<M>(old(memory)@, w16(old(pc_reg).word() + 1)), r),
        final(pc_reg).word() == w16(old(pc_reg).word() + 3),
        final(clock).cycles == tick(old(clock).cycles, 13),
{
    let address = memory.read16(pc_reg.get().wrapping_add(1));
    memory.write(address, r);
    PcState::increment_reg(pc_reg, 3);
    clock.increment(13);
}

/// CP n: the flags of A - n, A kept. PC + 2, 7 cycles.
#[verifier::spinoff_prover]
#[verifier::rlimit(50)]
pub fn cp_n<M: MemoryRW>(clock: &mut Clock, memory: &mut M, pc_state: &mut PcState)
    ensures
        *final(pc_state) == old(pc_state).with_flags(
            sub_flags(old(pc_state).flags(), old(pc_state).a(), M::read_view(old(memory)@, w16(old(pc_state).pc() + 1)), false),
        ).adv_pc(2),
        final(memory)@ == old(memory)@,
        final(clock).cycles == tick(old(clock).cycles, 7),
{
    let n = memory.read(pc_state.get_pc().wrapping_add(1));
    let a = pc_state.get_a();
    cp_flags(a, n, &mut pc_state.af_reg);
    pc_state.increment_pc(2);
    clock.increment(7);
}

/// CP r: the flags of A - r, A kept. PC + 1, 4 cycles.
#[verifier::spinoff_prover]
#[verifier::rlimit(50)]
pub fn cp_r(clock: &mut Clock, r: u8, pc_state: &mut PcState)
    ensures
        *final(pc_state) == old(pc_state).with_flags(sub_flags(old(pc_state).flags(), old(pc_state).a(), r, false)).adv_pc(1),
        final(clock).cycles == tick(old(clock).cycles, 4),
{
    let a = pc_state.get_a();
    cp_flags(a, r, &mut pc_state.af_reg);
    pc_state.increment_pc(1);
    clock.increment(4);
}

/// CP (HL): the flags of A - (HL), A kept. PC + 1, 7 cycles.
#[verifier::spinoff_prover]
#[verifier::rlimit(50)]
pub fn cp_hl<M: MemoryRW>(clock: &mut Clock, memory: &mut M, pc_state: &mut PcState)
    ensures
        *final(pc_state) == old(pc_state).with_flags(
            sub_flags(old(pc_state).flags(), old(pc_state).a(), M::read_view(old(memory)@, old(pc_state).hl()), false),
        ).adv_pc(1),
        final(memory)@ == old(memory)@,
        final(clock).cycles == tick(old(clock).cycles, 7),
{
    let v = memory.read(pc_state.get_hl());
    let a = pc_state.get_a();
    cp_flags(a, v, &mut pc_state.af_reg);
    pc_state.increment_pc(1);
    clock.increment(7);
}

/// JP nn: jump to the address after the op code, 10 cycles.
#[verifier::spinoff_prover]
pub fn jp_nn<M: MemoryRW>(clock: &mut Clock, memory: &mut M, pc_state: &mut PcState)
    ensures
        *final(pc_state) == old(pc_state).with_pc(read16_view::<M>(old(memory)@, w16(old(pc_state).pc() + 1))),
        final(memory)@ == old(memory)@,
        final(clock).cycles == tick(old(clock).cycles, 10),
{
    let address = memory.read16(pc_state.get_pc().wrapping_add(1));
    pc_state.set_pc(address);
    clock.increment(10);
}

/// JP (HL): jump to the address in HL, 4 cycles.
#[verifier::spinoff_prover]
pub fn jp_hl<R16: Reg16RW>(clock: &mut Clock, hl_reg: &R16, pc_reg: &mut R16)
    ensures
        final(pc_reg).word() == hl_reg.word(),
        final(clock).cycles == tick(old(clock).cycles, 4),
{
    pc_reg.set(hl_reg.get());
    clock.increment(4);
}

/// JR cc, e: when `condition` holds, move PC by the signed byte after the op
/// code (12 cycles); then PC + 2 either way (7 cycles when not taken).
#[verifier::spinoff_prover]
pub fn jr_cc_e<M: MemoryRW>(clock: &mut Clock, memory: &mut M, pc_state: &mut PcState, condition: bool)
    ensures
        *final(pc_state) == (if condition {
            old(pc_state).adv_pc(status_flags::signed8(M::read_view(old(memory)@, w16(old(pc_state).pc() + 1))))
        } else {
            *old(pc_state)
        }).adv_pc(2),
        final(memory)@ == old(memory)@,
        final(clock).cycles == (if condition {
            tick(tick(old(clock).cycles, 7), 5)
        } else {
            tick(old(clock).cycles, 7)
        }),
{
    clock.increment(7);
    if condition {
        let e = memory.read(pc_state.get_pc().wrapping_add(1));
        let d = e as i8;
        proof {
            status_flags::lemma_as_i8(e);
        }
        pc_state.increment_pc(d);
        clock.increment(5);
    }
    pc_state.increment_pc(2);
}

/// JR NZ, e.
#[verifier::spinoff_prover]
pub fn jrnz_e<M: MemoryRW>(clock: &mut Clock, memory: &mut M, pc_state: &mut PcState)
    ensures
        *final(pc_state) == (if !old(pc_state).flags().z {
            old(pc_state).adv_pc(status_flags::signed8(M::read_view(old(memory)@, w16(old(pc_state).pc() + 1))))
        } else {
            *old(pc_state)
        }).adv_pc(2),
        final(memory)@ == old(memory)@,
        final(clock).cycles == (if !old(pc_state).flags().z { tick(tick(old(clock).cycles, 7), 5) } else { tick(old(clock).cycles, 7) }),
{
    let condition = pc_state.get_f().get_z() == 0;
    jr_cc_e(clock, memory, pc_state, condition);
}

/// JR Z, e.
#[verifier::spinoff_prover]
pub fn jrz_e<M: MemoryRW>(clock: &mut Clock, memory: &mut M, pc_state: &mut PcState)
    ensures
        *final(pc_state) == (if old(pc_state).flags().z {
            old(pc_state).adv_pc(status_flags::signed8(M::read_view(old(memory)@, w16(old(pc_state).pc() + 1))))
        } else {
            *old(pc_state)
        }).adv_pc(2),
        final(memory)@ == old(memory)@,
        final(clock).cycles == (if old(pc_state).flags().z { tick(tick(old(clock).cycles, 7), 5) } else { tick(old(clock).cycles, 7) }),
{
    let condition = pc_state.get_f().get_z() == 1;
    jr_cc_e(clock, memory, pc_state, condition);
}

/// JR NC, e.
#[verifier::spinoff_prover]
pub fn jrnc_e<M: MemoryRW>(clock: &mut Clock, memory: &mut M, pc_state: &mut PcState)
    ensures
        *final(pc_state) == (if !old(pc_state).flags().c {
            old(pc_state).adv_pc(status_flags::signed8(M::read_view(old(memory)@, w16(old(pc_state).pc() + 1))))
        } else {
            *old(pc_state)
        }).adv_pc(2),
        final(memory)@ == old(memory)@,
        final(clock).cycles == (if !old(pc_state).flags().c { tick(tick(old(clock).cycles, 7), 5) } else { tick(old(clock).cycles, 7) }),
{
    let condition = pc_state.get_f().get_c() == 0;
    jr_cc_e(clock, memory, pc_state, condition);
}

/// JR C, e.
#[verifier::spinoff_prover]
pub fn jrc_e<M: MemoryRW>(clock: &mut Clock, memory: &mut M, pc_state: &mut PcState)
    ensures
        *final(pc_state) == (if old(pc_state).flags().c {
            old(pc_state).adv_pc(status_flags::signed8(M::read_view(old(memory)@, w16(old(pc_state).pc() + 1))))
        } else {
            *old(pc_state)
        }).adv_pc(2),
        final(memory)@ == old(memory)@,
        final(clock).cycles == (if old(pc_state).flags().c { tick(tick(old(clock).cycles, 7), 5) } else { tick(old(clock).cycles, 7) }),
{
    let condition = pc_state.get_f().get_c() == 1;
    jr_cc_e(clock, memory, pc_state, condition);
}

/// JR e: always taken, timed as a taken conditional jump.
#[verifier::spinoff_prover]
pub fn jr_e<M: MemoryRW>(clock: &mut Clock, memory: &mut M, pc_state: &mut PcState)
    ensures
        *final(pc_state) == old(pc_state).adv_pc(status_flags::signed8(M::read_view(old(memory)@, w16(old(pc_state).pc() + 1)))).adv_pc(2),
        final(memory)@ == old(memory)@,
        final(clock).cycles == tick(tick(old(clock).cycles, 7), 5),
{
    jr_cc_e(clock, memory, pc_state, true);
}

/// JP cc, nn: when `condition` holds jump to the address after the op code
/// (15 cycles), else PC + 3 (10 cycles).
#[verifier::spinoff_prover]
pub fn jump_cc_nn<M: MemoryRW>(clock: &mut Clock, memory: &mut M, pc_state: &mut PcState, condition: bool)
    ensures
        *final(pc_state) == (if condition {
            old(pc_state).with_pc(read16_view::<M>(old(memory)@, w16(old(pc_state).pc() + 1)))
        } else {
            old(pc_state).adv_pc(3)
        }),
        final(memory)@ == old(memory)@,
        final(clock).cycles == (if condition { tick(tick(old(clock).cycles, 5), 10) } else { tick(old(clock).cycles, 10) }),
{
    if condition {
        let address = memory.read16(pc_state.get_pc().wrapping_add(1));
        pc_state.set_pc(address);
        clock.increment(5);
    } else {
        pc_state.increment_pc(3);
    }
    clock.increment(10);
}

/// DJNZ e: B - 1; when B is then not zero move PC by the signed byte after
/// the op code (13 cycles, else 8); then PC + 2.
#[verifier::spinoff_prover]
pub fn djnz<M: MemoryRW>(clock: &mut Clock, memory: &mut M, pc_state: &mut PcState)
    ensures
        ({
            let s1 = old(pc_state).with_b(w8(old(pc_state).b() - 1));
            let e = status_flags::signed8(M::read_view(old(memory)@, w16(old(pc_state).pc() + 1)));
            &&& *final(pc_state) == (if s1.b() != 0 { s1.adv_pc(e) } else { s1 }).adv_pc(2)
            &&& final(clock).cycles == (if s1.b() != 0 { tick(old(clock).cycles, 13) } else { tick(old(clock).cycles, 8) })
        }),
        final(memory)@ == old(memory)@,
{
    let b = pc_state.get_b().wrapping_sub(1);
    pc_state.set_b(b);
    if pc_state.get_b() != 0 {
        let e = memory.read(pc_state.get_pc().wrapping_add(1));
        let d = e as i8;
        proof {
            status_flags::lemma_as_i8(e);
        }
        pc_state.increment_pc(d);
        clock.increment(13);
    } else {
        clock.increment(8);
    }
    pc_state.increment_pc(2);
}

#[verifier::spinoff_prover]
fn exchange_reg<R16: Reg16RW>(first: &mut R16, second: &mut R16)
    ensures
        final(first).word() == old(second).word(),
        final(second).word() == old(first).word(),
{
    let tmp_high = first.get_high();
    let tmp_low = first.get_low();
    first.set_high(second.get_high());
    first.set_low(second.get_low());
    second.set_low(tmp_low);
    second.set_high(tmp_high);
}

/// EXX: exchange BC, DE and HL with their shadows. PC + 1, 4 cycles.
#[verifier::spinoff_prover]
#[verifier::rlimit(50)]
pub fn exx(clock: &mut Clock, pc_state: &mut PcState)
    ensures
        *final(pc_state) == (PcState {
            bc_reg: old(pc_state).shadow_bc_reg,
            de_reg: old(pc_state).shadow_de_reg,
            hl_reg: old(pc_state).shadow_hl_reg,
            shadow_bc_reg: old(pc_state).bc_reg,
            shadow_de_reg: old(pc_state).de_reg,
            shadow_hl_reg: old(pc_state).hl_reg,
            ..*old(pc_state)
        }).adv_pc(1),
        final(clock).cycles == tick(old(clock).cycles, 4),
{
    let bc = pc_state.bc_reg;
    pc_state.bc_reg = pc_state.shadow_bc_reg;
    pc_state.shadow_bc_reg = bc;
    let de = pc_state.de_reg;
    pc_state.de_reg = pc_state.shadow_de_reg;
    pc_state.shadow_de_reg = de;
    let hl = pc_state.hl_reg;
    pc_state.hl_reg = pc_state.shadow_hl_reg;
    pc_state.shadow_hl_reg = hl;
    pc_state.increment_pc(1);
    clock.increment(4);
}

/// EX: exchange two registers (AF and AF', or DE and HL). PC + 1, 4 cycles.
#[verifier::spinoff_prover]
pub fn ex<R1: Reg16RW, R2: Reg16RW>(clock: &mut Clock, pc_reg: &mut R1, first: &mut R2, second: &mut R2)
    ensures
        final(first).word() == old(second).word(),
        final(second).word() == old(first).word(),
        final(pc_reg).word() == w16(old(pc_reg).word() + 1),
        final(clock).cycles == tick(old(clock).cycles, 4),
{
    exchange_reg(first, second);
    PcState::increment_reg(pc_reg, 1);
    clock.increment(4);
}

/// EX (SP), HL: exchange L with (SP) and H with (SP + 1). PC + 1, 19 cycles.
#[verifier::spinoff_prover]
pub fn ex_sp_hl<M: MemoryRW>(clock: &mut Clock, memory: &mut M, pc_state: &mut PcState)
    ensures
        ({
            let s = *old(pc_state);
            let m0 = old(memory)@;
            let m1 = M::write_view(m0, s.sp(), s.l());
            let m2 = M::write_view(m1, w16(s.sp() + 1), s.h());
            &&& final(memory)@ == m2
            &&& *final(pc_state) == s.with_l(M::read_view(m0, s.sp())).with_h(M::read_view(m1, w16(s.sp() + 1))).adv_pc(1)
        }),
        final(clock).cycles == tick(old(clock).cycles, 19),
{
    let mut tmp8 = memory.read(pc_state.sp_reg.get());
    memory.write(pc_state.sp_reg.get(), pc_state.get_l());
    pc_state.set_l(tmp8);
    tmp8 = memory.read(pc_state.sp_reg.get().wrapping_add(1));
    memory.write(pc_state.sp_reg.get().wrapping_add(1), pc_state.get_h());
    pc_state.set_h(tmp8);
    pc_state.increment_pc(1);
    clock.increment(19);
}

/// The memory after pushing `high` then `low` below `sp`.
pub open spec fn push_view<M: MemoryRW>(m: M::V, sp: u16, high: u8, low: u8) -> M::V {
    M::write_view(M::write_view(m, w16(sp - 1), high), w16(sp - 2), low)
}

/// CALL cc, nn: PC + 3; when `condition` holds push PC and jump to the
/// address after the op code, read after the push (17 cycles), else 10 cycles.
#[verifier::spinoff_prover]
#[verifier::rlimit(50)]
pub fn call_cc_nn<M: MemoryRW>(clock: &mut Clock, memory: &mut M, pc_state: &mut PcState, condition: bool)
    ensures
        ({
            let s1 = old(pc_state).adv_pc(3);
            let m1 = push_view::<M>(old(memory)@, s1.sp(), s1.pc_reg.high, s1.pc_reg.low);
            if condition {
                &&& final(memory)@ == m1
                &&& *final(pc_state) == s1.with_sp(w16(s1.sp() - 2)).with_pc(read16_view::<M>(m1, w16(s1.pc() - 2)))
                &&& final(clock).cycles == tick(old(clock).cycles, 17)
            } else {
                &&& final(memory)@ == old(memory)@
                &&& *final(pc_state) == s1
                &&& final(clock).cycles == tick(old(clock).cycles, 10)
            }
        }),
{
    pc_state.increment_pc(3);
    if condition {
        pc_state.increment_sp(-1);
        memory.write(pc_state.sp_reg.get(), pc_state.pc_reg.high);
        pc_state.increment_sp(-1);
        memory.write(pc_state.sp_reg.get(), pc_state.pc_reg.low);
        let address = memory.read16(pc_state.pc_reg.get().wrapping_sub(2));
        pc_state.pc_reg.set(address);
        clock.increment(17);
    } else {
        clock.increment(10);
    }
}

/// CALL nn: a conditional call whose condition holds.
#[verifier::spinoff_prover]
pub fn call_nn<M: MemoryRW>(clock: &mut Clock, memory: &mut M, pc_state: &mut PcState)
    ensures
        ({
            let s1 = old(pc_state).adv_pc(3);
            let m1 = push_view::<M>(old(memory)@, s1.sp(), s1.pc_reg.high, s1.pc_reg.low);
            &&& final(memory)@ == m1
            &&& *final(pc_state) == s1.with_sp(w16(s1.sp() - 2)).with_pc(read16_view::<M>(m1, w16(s1.pc() - 2)))
            &&& final(clock).cycles == tick(old(clock).cycles, 17)
        }),
{
    call_cc_nn(clock, memory, pc_state, true);
}

/// RST: PC + 1, push PC, jump to `rst_addr`. 11 cycles.
#[verifier::spinoff_prover]
pub fn rst<M: MemoryRW>(clock: &mut Clock, memory: &mut M, pc_state: &mut PcState, rst_addr: u8)
    ensures
        ({
            let s1 = old(pc_state).adv_pc(1);
            &&& final(memory)@ == push_view::<M>(old(memory)@, s1.sp(), s1.pc_reg.high, s1.pc_reg.low)
            &&& *final(pc_state) == s1.with_sp(w16(s1.sp() - 2)).with_pc(rst_addr as u16)
        }),
        final(clock).cycles == tick(old(clock).cycles, 11),
{
    pc_state.increment_pc(1);
    pc_state.increment_sp(-1);
    memory.write(pc_state.sp_reg.get(), pc_state.get_pc_high());
    pc_state.increment_sp(-1);
    memory.write(pc_state.sp_reg.get(), pc_state.get_pc_low());
    pc_state.set_pc(rst_addr as u16);
    clock.increment(11);
}

/// DEC r: `src - 1` into the register that `dst` selects, with the flags of
/// a decrement. PC + 1, 4 cycles.
#[verifier::spinoff_prover]
#[verifier::rlimit(50)]
pub fn dec_r(clock: &mut Clock, pc_state: &mut PcState, dst: u8, src: u8)
    requires
        dst & 7 != 6,
    ensures
        *final(pc_state) == old(pc_state).with_reg8(dst, w8(src - 1)).with_flags(
            dec_flags(old(pc_state).with_reg8(dst, w8(src - 1)).flags(), w8(src - 1)),
        ).adv_pc(1),
        final(clock).cycles == tick(old(clock).cycles, 4),
{
    let new_value = src.wrapping_sub(1);
    pc_state.set_reg8(dst, new_value);
    let mut f_value = pc_state.get_f();
    status_flags::calculate_dec_flags(&mut f_value, new_value);
    pc_state.set_f(f_value);
    pc_state.increment_pc(1);
    clock.increment(4);
}

/// DEC ss: `original - 1` into the pair that `sel` selects. PC + 1, 6 cycles.
#[verifier::spinoff_prover]
pub fn dec_16(clock: &mut Clock, sel: u8, pc_state: &mut PcState, original: u16)
    ensures
        *final(pc_state) == old(pc_state).with_reg16(sel, w16(original - 1)).adv_pc(1),
        final(clock).cycles == tick(old(clock).cycles, 6),
{
    pc_state.set_reg16(sel, original.wrapping_sub(1));
    pc_state.increment_pc(1);
    clock.increment(6);
}

/// DEC (HL), with the flags of a decrement. PC + 1, 11 cycles.
#[verifier::spinoff_prover]
#[verifier::rlimit(50)]
pub fn dec_hl<M: MemoryRW>(clock: &mut Clock, memory: &mut M, pc_state: &mut PcState)
    ensures
        ({
            let s = *old(pc_state);
            let v = w8(M::read_view(old(memory)@, s.hl()) - 1);
            &&& final(memory)@ == M::write_view(old(memory)@, s.hl(), v)
            &&& *final(pc_state) == s.with_flags(dec_flags(s.flags(), v)).adv_pc(1)
        }),
        final(clock).cycles == tick(old(clock).cycles, 11),
{
    let new_value = memory.read(pc_state.get_hl()).wrapping_sub(1);
    memory.write(pc_state.get_hl(), new_value);
    let mut f_value = pc_state.get_f();
    status_flags::calculate_dec_flags(&mut f_value, new_value);
    pc_state.set_f(f_value);
    pc_state.increment_pc(1);
    clock.increment(11);
}

/// DEC (I + d) with an unsigned displacement `d`, the byte two after the op
/// code, and the flags of a decrement. PC + 3, 23 cycles.
#[verifier::spinoff_prover]
pub fn dec_i_d<M: MemoryRW, F16: FlagReg, R16: Reg16RW>(clock: &mut Clock, memory: &mut M, pc_reg: &mut R16, af_reg: &mut F16, i16_reg: &R16)
    ensures
        ({
            let address = w16(i16_reg.word() + M::read_view(old(memory)@, w16(old(pc_reg).word() + 2)));
            let v = w8(M::read_view(old(memory)@, address) - 1);
            &&& final(memory)@ == M::write_view(old(memory)@, address, v)
            &&& flags_of(final(af_reg).flag_byte()) == dec_flags(flags_of(old(af_reg).flag_byte()), v)
        }),
        final(af_reg).other_byte() == old(af_reg).other_byte(),
        final(pc_reg).word() == w16(old(pc_reg).word() + 3),
        final(clock).cycles == tick(old(clock).cycles, 23),
{
    let d = memory.read(pc_reg.get().wrapping_add(2));
    let address = i16_reg.get().wrapping_add(d as u16);
    let new_value = memory.read(address).wrapping_sub(1);
    memory.write(address, new_value);
    let mut f_value = af_reg.get_flags();
    status_flags::calculate_dec_flags(&mut f_value, new_value);
    af_reg.set_flags(&f_value);
    PcState::increment_reg(pc_reg, 3);
    clock.increment(23);
}

/// INC r: `src + 1` into the register that `dst` selects, with the flags of
/// an increment. PC + 1, 4 cycles.
#[verifier::spinoff_prover]
#[verifier::rlimit(50)]
pub fn inc_r(clock: &mut Clock, pc_state: &mut PcState, dst: u8, src: u8)
    requires
        dst & 7 != 6,
    ensures
        *final(pc_state) == old(pc_state).with_reg8(dst, w8(src + 1)).with_flags(
            inc_flags(old(pc_state).with_reg8(dst, w8(src + 1)).flags(), w8(src + 1)),
        ).adv_pc(1),
        final(clock).cycles == tick(old(clock).cycles, 4),
{
    let new_value = src.wrapping_add(1);
    pc_state.set_reg8(dst, new_value);
    let mut f_value = pc_state.get_f();
    status_flags::calculate_inc_flags(&mut f_value, new_value);
    pc_state.set_f(f_value);
    pc_state.increment_pc(1);
    clock.increment(4);
}

/// INC ss: `original + 1` into the pair that `sel` selects. PC + 1, 6 cycles.
#[verifier::spinoff_prover]
pub fn inc_16(clock: &mut Clock, sel: u8, pc_state: &mut PcState, original: u16)
    ensures
        *final(pc_state) == old(pc_state).with_reg16(sel, w16(original + 1)).adv_pc(1),
        final(clock).cycles == tick(old(clock).cycles, 6),
{
    pc_state.set_reg16(sel, original.wrapping_add(1));
    pc_state.increment_pc(1);
    clock.increment(6);
}

/// INC (HL), with the flags of an increment. PC + 1, 11 cycles.
#[verifier::spinoff_prover]
#[verifier::rlimit(50)]
pub fn inc_hl<M: MemoryRW>(clock: &mut Clock, memory: &mut M, pc_state: &mut PcState)
    ensures
        ({
            let s = *old(pc_state);
            let v = w8(M::read_view(old(memory)@, s.hl()) + 1);
            &&& final(memory)@ == M::write_view(old(memory)@, s.hl(), v)
            &&& *final(pc_state) == s.with_flags(inc_flags(s.flags(), v)).adv_pc(1)
        }),
        final(clock).cycles == tick(old(clock).cycles, 11),
{
    let new_value = memory.read(pc_state.get_hl()).wrapping_add(1);
    memory.write(pc_state.get_hl(), new_value);
    let mut f_value = pc_state.get_f();
    status_flags::calculate_inc_flags(&mut f_value, new_value);
    pc_state.set_f(f_value);
    pc_state.increment_pc(1);
    clock.increment(11);
}

/// LD (nn), HL: L to nn, H to nn + 1, where nn is read after the op code
/// (again after the first store). PC + 3, 16 cycles.
#[verifier::spinoff_prover]
pub fn ld_mem_nn_hl<M: MemoryRW>(clock: &mut Clock, memory: &mut M, pc_state: &mut PcState)
    ensures
        ({
            let s = *old(pc_state);
            let m1 = M::write_view(old(memory)@, read16_view::<M>(old(memory)@, w16(s.pc() + 1)), s.l());
            &&& final(memory)@ == M::write_view(m1, w16(read16_view::<M>(m1, w16(s.pc() + 1)) + 1), s.h())
            &&& *final(pc_state) == s.adv_pc(3)
        }),
        final(clock).cycles == tick(old(clock).cycles, 16),
{
    let address = memory.read16(pc_state.get_pc().wrapping_add(1));
    memory.write(address, pc_state.get_l());
    let address2 = memory.read16(pc_state.get_pc().wrapping_add(1));
    memory.write(address2.wrapping_add(1), pc_state.get_h());
    pc_state.increment_pc(3);
    clock.increment(16);
}

/// LD (nn), HL in the extended group: nn is two bytes on. PC + 4, 20 cycles.
#[verifier::spinoff_prover]
pub fn ld_mem_nn_hl_extended<M: MemoryRW>(clock: &mut Clock, memory: &mut M, pc_state: &mut PcState)
    ensures
        ({
            let s = *old(pc_state);
            let m1 = M::write_view(old(memory)@, read16_view::<M>(old(memory)@, w16(s.pc() + 2)), s.l());
            &&& final(memory)@ == M::write_view(m1, w16(read16_view::<M>(m1, w16(s.pc() + 2)) + 1), s.h())
            &&& *final(pc_state) == s.adv_pc(4)
        }),
        final(clock).cycles == tick(old(clock).cycles, 20),
{
    let address = memory.read16(pc_state.get_pc().wrapping_add(2));
    memory.write(address, pc_state.get_l());
    let address2 = memory.read16(pc_state.get_pc().wrapping_add(2));
    memory.write(address2.wrapping_add(1), pc_state.get_h());
    pc_state.increment_pc(4);
    clock.increment(20);
}

/// ADD A, r: A + r with the flags of an addition. PC + 1, 4 cycles.
#[verifier::spinoff_prover]
#[verifier::rlimit(50)]
pub fn add_r(clock: &mut Clock, r: u8, pc_state: &mut PcState)
    ensures
        *final(pc_state) == acc_op(*old(pc_state), u8_carry_result(old(pc_state).a(), r, false), add_flags(old(pc_state).flags(), old(pc_state).a(), r, false), 1),
        final(clock).cycles == tick(old(clock).cycles, 4),
{
    let v = r;
    let a = pc_state.get_a();
    let result = add8(a, v, &mut pc_state.af_reg);
    pc_state.set_a(result);
    pc_state.increment_pc(1);
    clock.increment(4);
}

/// ADC A, r: A + r + carry. PC + 1, 4 cycles.
#[verifier::spinoff_prover]
#[verifier::rlimit(50)]
pub fn adc_r(clock: &mut Clock, r: u8, pc_state: &mut PcState)
    ensures
        *final(pc_state) == acc_op(*old(pc_state), u8_carry_result(old(pc_state).a(), r, old(pc_state).flags().c), add_flags(old(pc_state).flags(), old(pc_state).a(), r, old(pc_state).flags().c), 1),
        final(clock).cycles == tick(old(clock).cycles, 4),
{
    let v = r;
    let carry = pc_state.get_f().get_c() == 1;
    let a = pc_state.get_a();
    let result = add8c(a, v, carry, &mut pc_state.af_reg);
    pc_state.set_a(result);
    pc_state.increment_pc(1);
    clock.increment(4);
}

/// ADD A, (HL). PC + 1, 7 cycles.
#[verifier::spinoff_prover]
#[verifier::rlimit(50)]
pub fn add_hl<M: MemoryRW>(clock: &mut Clock, memory: &mut M, pc_state: &mut PcState)
    ensures
        *final(pc_state) == acc_op(*old(pc_state), u8_carry_result(old(pc_state).a(), M::read_view(old(memory)@, old(pc_state).hl()), false), add_flags(old(pc_state).flags(), old(pc_state).a(), M::read_view(old(memory)@, old(pc_state).hl()), false), 1),
        final(memory)@ == old(memory)@,
        final(clock).cycles == tick(old(clock).cycles, 7),
{
    let v = memory.read(pc_state.hl_reg.get());
    let a = pc_state.get_a();
    let result = add8(a, v, &mut pc_state.af_reg);
    pc_state.set_a(result);
    pc_state.increment_pc(1);
    clock.increment(7);
}

/// ADC A, (HL). PC + 1, 7 cycles.
#[verifier::spinoff_prover]
#[verifier::rlimit(50)]
pub fn adc_hl<M: MemoryRW>(clock: &mut Clock, memory: &mut M, pc_state: &mut PcState)
    ensures
        *final(pc_state) == acc_op(*old(pc_state), u8_carry_result(old(pc_state).a(), M::read_view(old(memory)@, old(pc_state).hl()), old(pc_state).flags().c), add_flags(old(pc_state).flags(), old(pc_state).a(), M::read_view(old(memory)@, old(pc_state).hl()), old(pc_state).flags().c), 1),
        final(memory)@ == old(memory)@,
        final(clock).cycles == tick(old(clock).cycles, 7),
{
    let v = memory.read(pc_state.hl_reg.get());
    let carry = pc_state.get_f().get_c() == 1;
    let a = pc_state.get_a();
    let result = add8c(a, v, carry, &mut pc_state.af_reg);
    pc_state.set_a(result);
    pc_state.increment_pc(1);
    clock.increment(7);
}

/// ADD A, n: the sum, after which the flags are set as by AND on it. PC + 2, 7 cycles.
#[verifier::spinoff_prover]
#[verifier::rlimit(50)]
pub fn add_n<M: MemoryRW>(clock: &mut Clock, memory: &mut M, pc_state: &mut PcState)
    ensures
        *final(pc_state) == acc_op(*old(pc_state), u8_carry_result(old(pc_state).a(), M::read_view(old(memory)@, w16(old(pc_state).pc() + 1)), false), logic_flags(add_flags(old(pc_state).flags(), old(pc_state).a(), M::read_view(old(memory)@, w16(old(pc_state).pc() + 1)), false), u8_carry_result(old(pc_state).a(), M::read_view(old(memory)@, w16(old(pc_state).pc() + 1)), false), true), 2),
        final(memory)@ == old(memory)@,
        final(clock).cycles == tick(old(clock).cycles, 7),
{
    let v = memory.read(pc_state.pc_reg.get().wrapping_add(1));
    let a = pc_state.get_a();
    let result = add8(a, v, &mut pc_state.af_reg);
    let mut f_status = pc_state.get_f();
    status_flags::and_flags(&mut f_status, result);
    pc_state.set_f(f_status);
    pc_state.set_a(result);
    pc_state.increment_pc(2);
    clock.increment(7);
}

/// ADC A, n: the sum with carry, after which the flags are set as by AND on it. PC + 2, 7 cycles.
#[verifier::spinoff_prover]
#[verifier::rlimit(50)]
pub fn adc_n<M: MemoryRW>(clock: &mut Clock, memory: &mut M, pc_state: &mut PcState)
    ensures
        *final(pc_state) == acc_op(*old(pc_state), u8_carry_result(old(pc_state).a(), M::read_view(old(memory)@, w16(old(pc_state).pc() + 1)), old(pc_state).flags().c), logic_flags(add_flags(old(pc_state).flags(), old(pc_state).a(), M::read_view(old(memory)@, w16(old(pc_state).pc() + 1)), old(pc_state).flags().c), u8_carry_result(old(pc_state).a(), M::read_view(old(memory)@, w16(old(pc_state).pc() + 1)), old(pc_state).flags().c), true), 2),
        final(memory)@ == old(memory)@,
        final(clock).cycles == tick(old(clock).cycles, 7),
{
    let v = memory.read(pc_state.pc_reg.get().wrapping_add(1));
    let carry = pc_state.get_f().get_c() == 1;
    let a = pc_state.get_a();
    let result = add8c(a, v, carry, &mut pc_state.af_reg);
    let mut f_status = pc_state.get_f();
    status_flags::and_flags(&mut f_status, result);
    pc_state.set_f(f_status);
    pc_state.set_a(result);
    pc_state.increment_pc(2);
    clock.increment(7);
}

/// SUB r: A - r with the flags of a subtraction. PC + 1, 4 cycles.
#[verifier::spinoff_prover]
#[verifier::rlimit(50)]
pub fn sub_r(clock: &mut Clock, r: u8, pc_state: &mut PcState)
    ensures
        *final(pc_state) == acc_op(*old(pc_state), sub_result(old(pc_state).a(), r, false), sub_flags(old(pc_state).flags(), old(pc_state).a(), r, false), 1),
        final(clock).cycles == tick(old(clock).cycles, 4),
{
    let v = r;
    let a = pc_state.get_a();
    let result = sub8(a, v, &mut pc_state.af_reg);
    pc_state.set_a(result);
    pc_state.increment_pc(1);
    clock.increment(4);
}

/// SBC A, r: A - r - carry. PC + 1, 4 cycles.
#[verifier::spinoff_prover]
#[verifier::rlimit(50)]
pub fn sbc_r(clock: &mut Clock, r: u8, pc_state: &mut PcState)
    ensures
        *final(pc_state) == acc_op(*old(pc_state), sub_result(old(pc_state).a(), r, old(pc_state).flags().c), sub_flags(old(pc_state).flags(), old(pc_state).a(), r, old(pc_state).flags().c), 1),
        final(clock).cycles == tick(old(clock).cycles, 4),
{
    let v = r;
    let carry = pc_state.get_f().get_c() == 1;
    let a = pc_state.get_a();
    let result = sub8c(a, v, carry, &mut pc_state.af_reg);
    pc_state.set_a(result);
    pc_state.increment_pc(1);
    clock.increment(4);
}

/// SUB (HL). PC + 1, 7 cycles.
#[verifier::spinoff_prover]
#[verifier::rlimit(50)]
pub fn sub_hl<M: MemoryRW>(clock: &mut Clock, memory: &mut M, pc_state: &mut PcState)
    ensures
        *final(pc_state) == acc_op(*old(pc_state), sub_result(old(pc_state).a(), M::read_view(old(memory)@, old(pc_state).hl()), false), sub_flags(old(pc_state).flags(), old(pc_state).a(), M::read_view(old(memory)@, old(pc_state).hl()), false), 1),
        final(memory)@ == old(memory)@,
        final(clock).cycles == tick(old(clock).cycles, 7),
{
    let v = memory.read(pc_state.hl_reg.get());
    let a = pc_state.get_a();
    let result = sub8(a, v, &mut pc_state.af_reg);
    pc_state.set_a(result);
    pc_state.increment_pc(1);
    clock.increment(7);
}

/// SBC A, (HL). PC + 1, 7 cycles.
#[verifier::spinoff_prover]
#[verifier::rlimit(50)]
pub fn sbc_hl<M: MemoryRW>(clock: &mut Clock, memory: &mut M, pc_state: &mut PcState)
    ensures
        *final(pc_state) == acc_op(*old(pc_state), sub_result(old(pc_state).a(), M::read_view(old(memory)@, old(pc_state).hl()), old(pc_state).flags().c), sub_flags(old(pc_state).flags(), old(pc_state).a(), M::read_view(old(memory)@, old(pc_state).hl()), old(pc_state).flags().c), 1),
        final(memory)@ == old(memory)@,
        final(clock).cycles == tick(old(clock).cycles, 7),
{
    let v = memory.read(pc_state.hl_reg.get());
    let carry = pc_state.get_f().get_c() == 1;
    let a = pc_state.get_a();
    let result = sub8c(a, v, carry, &mut pc_state.af_reg);
    pc_state.set_a(result);
    pc_state.increment_pc(1);
    clock.increment(7);
}

/// SUB n: the difference, after which the flags are set as by AND on it. PC + 2, 7 cycles.
#[verifier::spinoff_prover]
#[verifier::rlimit(50)]
pub fn sub_n<M: MemoryRW>(clock: &mut Clock, memory: &mut M, pc_state: &mut PcState)
    ensures
        *final(pc_state) == acc_op(*old(pc_state), sub_result(old(pc_state).a(), M::read_view(old(memory)@, w16(old(pc_state).pc() + 1)), false), logic_flags(sub_flags(old(pc_state).flags(), old(pc_state).a(), M::read_view(old(memory)@, w16(old(pc_state).pc() + 1)), false), sub_result(old(pc_state).a(), M::read_view(old(memory)@, w16(old(pc_state).pc() + 1)), false), true), 2),
        final(memory)@ == old(memory)@,
        final(clock).cycles == tick(old(clock).cycles, 7),
{
    let v = memory.read(pc_state.pc_reg.get().wrapping_add(1));
    let a = pc_state.get_a();
    let result = sub8(a, v, &mut pc_state.af_reg);
    let mut f_status = pc_state.get_f();
    status_flags::and_flags(&mut f_status, result);
    pc_state.set_f(f_status);
    pc_state.set_a(result);
    pc_state.increment_pc(2);
    clock.increment(7);
}

/// SBC A, n: the difference with carry, after which the flags are set as by AND on it. PC + 2, 7 cycles.
#[verifier::spinoff_prover]
#[verifier::rlimit(50)]
pub fn sbc_n<M: MemoryRW>(clock: &mut Clock, memory: &mut M, pc_state: &mut PcState)
    ensures
        *final(pc_state) == acc_op(*old(pc_state), sub_result(old(pc_state).a(), M::read_view(old(memory)@, w16(old(pc_state).pc() + 1)), old(pc_state).flags().c), logic_flags(sub_flags(old(pc_state).flags(), old(pc_state).a(), M::read_view(old(memory)@, w16(old(pc_state).pc() + 1)), old(pc_state).flags().c), sub_result(old(pc_state).a(), M::read_view(old(memory)@, w16(old(pc_state).pc() + 1)), old(pc_state).flags().c), true), 2),
        final(memory)@ == old(memory)@,
        final(clock).cycles == tick(old(clock).cycles, 7),
{
    let v = memory.read(pc_state.pc_reg.get().wrapping_add(1));
    let carry = pc_state.get_f().get_c() == 1;
    let a = pc_state.get_a();
    let result = sub8c(a, v, carry, &mut pc_state.af_reg);
    let mut f_status = pc_state.get_f();
    status_flags::and_flags(&mut f_status, result);
    pc_state.set_f(f_status);
    pc_state.set_a(result);
    pc_state.increment_pc(2);
    clock.increment(7);
}

/// AND r: A & r; C, N clear, H set, P/V parity. PC + 1, 4 cycles.
#[verifier::spinoff_prover]
#[verifier::rlimit(50)]
pub fn and_r(clock: &mut Clock, r: u8, pc_state: &mut PcState)
    ensures
        *final(pc_state) == acc_op(*old(pc_state), (old(pc_state).a() & r), logic_flags(old(pc_state).flags(), (old(pc_state).a() & r), true), 1),
        final(clock).cycles == tick(old(clock).cycles, 4),
{
    let v = r;
    let result = pc_state.get_a() & v;
    let mut f_status = pc_state.get_f();
    status_flags::and_flags(&mut f_status, result);
    pc_state.set_f(f_status);
    pc_state.set_a(result);
    pc_state.increment_pc(1);
    clock.increment(4);
}

/// AND (HL). PC + 1, 7 cycles.
#[verifier::spinoff_prover]
#[verifier::rlimit(50)]
pub fn and_hl<M: MemoryRW>(clock: &mut Clock, memory: &mut M, pc_state: &mut PcState)
    ensures
        *final(pc_state) == acc_op(*old(pc_state), (old(pc_state).a() & M::read_view(old(memory)@, old(pc_state).hl())), logic_flags(old(pc_state).flags(), (old(pc_state).a() & M::read_view(old(memory)@, old(pc_state).hl())), true), 1),
        final(memory)@ == old(memory)@,
        final(clock).cycles == tick(old(clock).cycles, 7),
{
    let v = memory.read(pc_state.hl_reg.get());
    let result = pc_state.get_a() & v;
    let mut f_status = pc_state.get_f();
    status_flags::and_flags(&mut f_status, result);
    pc_state.set_f(f_status);
    pc_state.set_a(result);
    pc_state.increment_pc(1);
    clock.increment(7);
}

/// XOR r: A ^ r; C, N, H clear, P/V parity. PC + 1, 4 cycles.
#[verifier::spinoff_prover]
#[verifier::rlimit(50)]
pub fn xor_r(clock: &mut Clock, r: u8, pc_state: &mut PcState)
    ensures
        *final(pc_state) == acc_op(*old(pc_state), (old(pc_state).a() ^ r), logic_flags(old(pc_state).flags(), (old(pc_state).a() ^ r), false), 1),
        final(clock).cycles == tick(old(clock).cycles, 4),
{
    let v = r;
    let result = pc_state.get_a() ^ v;
    let mut f_status = pc_state.get_f();
    status_flags::xor_flags(&mut f_status, result);
    pc_state.set_f(f_status);
    pc_state.set_a(result);
    pc_state.increment_pc(1);
    clock.increment(4);
}

/// XOR (HL). PC + 1, 7 cycles.
#[verifier::spinoff_prover]
#[verifier::rlimit(50)]
pub fn xor_hl<M: MemoryRW>(clock: &mut Clock, memory: &mut M, pc_state: &mut PcState)
    ensures
        *final(pc_state) == acc_op(*old(pc_state), (old(pc_state).a() ^ M::read_view(old(memory)@, old(pc_state).hl())), logic_flags(old(pc_state).flags(), (old(pc_state).a() ^ M::read_view(old(memory)@, old(pc_state).hl())), false), 1),
        final(memory)@ == old(memory)@,
        final(clock).cycles == tick(old(clock).cycles, 7),
{
    let v = memory.read(pc_state.hl_reg.get());
    let result = pc_state.get_a() ^ v;
    let mut f_status = pc_state.get_f();
    status_flags::xor_flags(&mut f_status, result);
    pc_state.set_f(f_status);
    pc_state.set_a(result);
    pc_state.increment_pc(1);
    clock.increment(7);
}

/// OR r: A | r; C, N, H clear, P/V parity. PC + 1, 4 cycles.
#[verifier::spinoff_prover]
#[verifier::rlimit(50)]
pub fn or_r(clock: &mut Clock, r: u8, pc_state: &mut PcState)
    ensures
        *final(pc_state) == acc_op(*old(pc_state), (old(pc_state).a() | r), logic_flags(old(pc_state).flags(), (old(pc_state).a() | r), false), 1),
        final(clock).cycles == tick(old(clock).cycles, 4),
{
    let v = r;
    let result = pc_state.get_a() | v;
    let mut f_status = pc_state.get_f();
    status_flags::or_flags(&mut f_status, result);
    pc_state.set_f(f_status);
    pc_state.set_a(result);
    pc_state.increment_pc(1);
    clock.increment(4);
}

/// OR (HL). PC + 1, 7 cycles.
#[verifier::spinoff_prover]
#[verifier::rlimit(50)]
pub fn or_hl<M: MemoryRW>(clock: &mut Clock, memory: &mut M, pc_state: &mut PcState)
    ensures
        *final(pc_state) == acc_op(*old(pc_state), (old(pc_state).a() | M::read_view(old(memory)@, old(pc_state).hl())), logic_flags(old(pc_state).flags(), (old(pc_state).a() | M::read_view(old(memory)@, old(pc_state).hl())), false), 1),
        final(memory)@ == old(memory)@,
        final(clock).cycles == tick(old(clock).cycles, 7),
{
    let v = memory.read(pc_state.hl_reg.get());
    let result = pc_state.get_a() | v;
    let mut f_status = pc_state.get_f();
    status_flags::or_flags(&mut f_status, result);
    pc_state.set_f(f_status);
    pc_state.set_a(result);
    pc_state.increment_pc(1);
    clock.increment(7);
}

/// AND n. PC + 2, 7 cycles.
#[verifier::spinoff_prover]
#[verifier::rlimit(50)]
pub fn and_n<M: MemoryRW>(clock: &mut Clock, memory: &mut M, pc_state: &mut PcState)
    ensures
        *final(pc_state) == acc_op(*old(pc_state), (old(pc_state).a() & M::read_view(old(memory)@, w16(old(pc_state).pc() + 1))), logic_flags(old(pc_state).flags(), (old(pc_state).a() & M::read_view(old(memory)@, w16(old(pc_state).pc() + 1))), true), 2),
        final(memory)@ == old(memory)@,
        final(clock).cycles == tick(old(clock).cycles, 7),
{
    let v = memory.read(pc_state.pc_reg.get().wrapping_add(1));
    let result = pc_state.get_a() & v;
    let mut f_status = pc_state.get_f();
    status_flags::and_flags(&mut f_status, result);
    pc_state.set_f(f_status);
    pc_state.set_a(result);
    pc_state.increment_pc(2);
    clock.increment(7);
}

/// XOR n. PC + 2, 7 cycles.
#[verifier::spinoff_prover]
#[verifier::rlimit(50)]
pub fn xor_n<M: MemoryRW>(clock: &mut Clock, memory: &mut M, pc_state: &mut PcState)
    ensures
        *final(pc_state) == acc_op(*old(pc_state), (old(pc_state).a() ^ M::read_view(old(memory)@, w16(old(pc_state).pc() + 1))), logic_flags(old(pc_state).flags(), (old(pc_state).a() ^ M::read_view(old(memory)@, w16(old(pc_state).pc() + 1))), false), 2),
        final(memory)@ == old(memory)@,
        final(clock).cycles == tick(old(clock).cycles, 7),
{
    let v = memory.read(pc_state.pc_reg.get().wrapping_add(1));
    let result = pc_state.get_a() ^ v;
    let mut f_status = pc_state.get_f();
    status_flags::xor_flags(&mut f_status, result);
    pc_state.set_f(f_status);
    pc_state.set_a(result);
    pc_state.increment_pc(2);
    clock.increment(7);
}

/// OR n. PC + 2, 7 cycles.
#[verifier::spinoff_prover]
#[verifier::rlimit(50)]
pub fn or_n<M: MemoryRW>(clock: &mut Clock, memory: &mut M, pc_state: &mut PcState)
    ensures
        *final(pc_state) == acc_op(*old(pc_state), (old(pc_state).a() | M::read_view(old(memory)@, w16(old(pc_state).pc() + 1))), logic_flags(old(pc_state).flags(), (old(pc_state).a() | M::read_view(old(memory)@, w16(old(pc_state).pc() + 1))), false), 2),
        final(memory)@ == old(memory)@,
        final(clock).cycles == tick(old(clock).cycles, 7),
{
    let v = memory.read(pc_state.pc_reg.get().wrapping_add(1));
    let result = pc_state.get_a() | v;
    let mut f_status = pc_state.get_f();
    status_flags::or_flags(&mut f_status, result);
    pc_state.set_f(f_status);
    pc_state.set_a(result);
    pc_state.increment_pc(2);
    clock.increment(7);
}

/// ADD HL, ss (HL or another destination): `hl_reg + src_value` with the
/// flags of a 16-bit addition. PC + 1, 11 cycles.
#[verifier::spinoff_prover]
pub fn add16<R16: Reg16RW, F16: FlagReg>(clock: &mut Clock, src_value: u16, pc_reg: &mut R16, hl_reg: &mut R16, af_reg: &mut F16)
    ensures
        final(hl_reg).word() == w16(old(hl_reg).word() + src_value),
        flags_of(final(af_reg).flag_byte()) == (Flags {
            n: false,
            ..u16_carry_flags(flags_of(old(af_reg).flag_byte()), old(hl_reg).word(), src_value, false)
        }),
        final(af_reg).other_byte() == old(af_reg).other_byte(),
        final(pc_reg).word() == w16(old(pc_reg).word() + 1),
        final(clock).cycles == tick(old(clock).cycles, 11),
{
    let v = add16c(hl_reg.get(), src_value, false, af_reg);
    hl_reg.set(v);
    PcState::increment_reg(pc_reg, 1);
    clock.increment(11);
}

/// The register file after rotating `src` into the register `dst` selects:
/// C from `carry`, H and N clear (flags taken from `fl`). PC + 1.
pub open spec fn rotate_acc_spec(s: PcState, dst: u8, value: u8, carry: bool, fl: Flags) -> PcState {
    s.with_reg8(dst, value).with_flags(Flags { c: carry, h: false, n: false, ..fl }).adv_pc(1)
}

/// RRCA: rotate right, bit 0 to bit 7 and the carry. PC + 1, 4 cycles.
#[verifier::rlimit(50)]
#[verifier::spinoff_prover]
pub fn rrca(clock: &mut Clock, pc_state: &mut PcState, dst: u8, src: u8)
    requires
        dst & 7 != 6,
    ensures
        *final(pc_state) == rotate_acc_spec(*old(pc_state), dst, (src / 2 + 128 * (src % 2)) as u8, src % 2 == 1,
            old(pc_state).with_reg8(dst, (src / 2 + 128 * (src % 2)) as u8).flags()),
        final(clock).cycles == tick(old(clock).cycles, 4),
{
    let (new_value, carry) = rotate_right_carry(src);
    pc_state.set_reg8(dst, new_value);
    let mut f_value = pc_state.get_f();
    status_flags::set_rotate_accumulator_flags(carry, &mut f_value);
    pc_state.set_f(f_value);
    pc_state.increment_pc(1);
    clock.increment(4);
}

/// RRA: rotate right through the carry. PC + 1, 4 cycles.
#[verifier::rlimit(50)]
#[verifier::spinoff_prover]
pub fn rra(clock: &mut Clock, pc_state: &mut PcState, dst: u8, src: u8)
    requires
        dst & 7 != 6,
    ensures
        *final(pc_state) == rotate_acc_spec(*old(pc_state), dst, (src / 2 + 128 * bit(old(pc_state).flags().c)) as u8,
            src % 2 == 1, old(pc_state).flags()),
        final(clock).cycles == tick(old(clock).cycles, 4),
{
    let mut f_value = pc_state.get_f();
    let (new_value, carry) = rotate_right(src, f_value.get_c() == 1);
    pc_state.set_reg8(dst, new_value);
    status_flags::set_rotate_accumulator_flags(carry, &mut f_value);
    pc_state.set_f(f_value);
    pc_state.increment_pc(1);
    clock.increment(4);
}

/// RLCA: rotate left, bit 7 to bit 0 and the carry. PC + 1, 4 cycles.
#[verifier::rlimit(50)]
#[verifier::spinoff_prover]
pub fn rlca(clock: &mut Clock, pc_state: &mut PcState, dst: u8, src: u8)
    requires
        dst & 7 != 6,
    ensures
        *final(pc_state) == rotate_acc_spec(*old(pc_state), dst, (w8(src * 2) + src / 128) as u8, src >= 128,
            old(pc_state).with_reg8(dst, (w8(src * 2) + src / 128) as u8).flags()),
        final(clock).cycles == tick(old(clock).cycles, 4),
{
    let (new_value, carry) = rotate_left_carry(src);
    pc_state.set_reg8(dst, new_value);
    let mut f_value = pc_state.get_f();
    status_flags::set_rotate_accumulator_flags(carry, &mut f_value);
    pc_state.set_f(f_value);
    pc_state.increment_pc(1);
    clock.increment(4);
}

/// RLA: rotate left through the carry. PC + 1, 4 cycles.
#[verifier::rlimit(50)]
#[verifier::spinoff_prover]
pub fn rla(clock: &mut Clock, pc_state: &mut PcState, dst: u8, src: u8)
    requires
        dst & 7 != 6,
    ensures
        *final(pc_state) == rotate_acc_spec(*old(pc_state), dst, (w8(src * 2) + bit(old(pc_state).flags().c)) as u8,
            src >= 128, old(pc_state).flags()),
        final(clock).cycles == tick(old(clock).cycles, 4),
{
    let mut f_value = pc_state.get_f();
    let (new_value, carry) = rotate_left(src, f_value.get_c() == 1);
    pc_state.set_reg8(dst, new_value);
    status_flags::set_rotate_accumulator_flags(carry, &mut f_value);
    pc_state.set_f(f_value);
    pc_state.increment_pc(1);
    clock.increment(4);
}

/// The register file after popping the return address: PC from (SP), SP + 2.
pub open spec fn ret_spec<M: MemoryRW>(s: PcState, m: M::V) -> PcState {
    s.with_pc(read16_view::<M>(m, s.sp())).with_sp(w16(s.sp() + 2))
}

/// RET: pop PC. 10 cycles.
#[verifier::spinoff_prover]
pub fn ret<M: MemoryRW>(clock: &mut Clock, memory: &mut M, pc_state: &mut PcState)
    ensures
        *final(pc_state) == ret_spec::<M>(*old(pc_state), old(memory)@),
        final(memory)@ == old(memory)@,
        final(clock).cycles == tick(old(clock).cycles, 10),
{
    let low = memory.read(pc_state.sp_reg.get());
    pc_state.set_pc_low(low);
    pc_state.increment_sp(1);
    let high = memory.read(pc_state.sp_reg.get());
    pc_state.set_pc_high(high);
    pc_state.increment_sp(1);
    clock.increment(10);
}

/// RET cc: when `condition` holds pop PC (11 cycles), else PC + 1 (5 cycles).
#[verifier::spinoff_prover]
pub fn ret_cc<M: MemoryRW>(clock: &mut Clock, memory: &mut M, pc_state: &mut PcState, condition: bool)
    ensures
        *final(pc_state) == (if condition { ret_spec::<M>(*old(pc_state), old(memory)@) } else { old(pc_state).adv_pc(1) }),
        final(memory)@ == old(memory)@,
        final(clock).cycles == tick(old(clock).cycles, if condition { 11 } else { 5 }),
{
    if condition {
        let low = memory.read(pc_state.sp_reg.get());
        pc_state.set_pc_low(low);
        pc_state.increment_sp(1);
        let high = memory.read(pc_state.sp_reg.get());
        pc_state.set_pc_high(high);
        pc_state.increment_sp(1);
        clock.increment(11);
    } else {
        pc_state.increment_pc(1);
        clock.increment(5);
    }
}

/// POP qq: `dst_reg` from the two bytes at SP, SP + 2. PC + 1, 10 cycles.
#[verifier::spinoff_prover]
pub fn pop<M: MemoryRW, R1: Reg16RW, R2: Reg16RW>(clock: &mut Clock, memory: &mut M, pc_reg: &mut R1, sp_reg: &mut R1, dst_reg: &mut R2)
    ensures
        final(dst_reg).word() == read16_view::<M>(old(memory)@, old(sp_reg).word()),
        final(sp_reg).word() == w16(old(sp_reg).word() + 2),
        final(pc_reg).word() == w16(old(pc_reg).word() + 1),
        final(memory)@ == old(memory)@,
        final(clock).cycles == tick(old(clock).cycles, 10),
{
    dst_reg.set_low(memory.read(sp_reg.get()));
    PcState::increment_reg(sp_reg, 1);
    dst_reg.set_high(memory.read(sp_reg.get()));
    PcState::increment_reg(sp_reg, 1);
    PcState::increment_reg(pc_reg, 1);
    clock.increment(10);
}

/// PUSH qq: the high byte of `src_reg` to SP - 1, the low byte to SP - 2,
/// SP - 2. PC + 1, 11 cycles.
#[verifier::spinoff_prover]
pub fn push<M: MemoryRW, R1: Reg16RW, R2: Reg16RW>(clock: &mut Clock, memory: &mut M, pc_reg: &mut R1, sp_reg: &mut R1, src_reg: &R2)
    ensures
        final(memory)@ == push_view::<M>(old(memory)@, old(sp_reg).word(), (src_reg.word() / 256) as u8, (src_reg.word() % 256) as u8),
        final(sp_reg).word() == w16(old(sp_reg).word() - 2),
        final(pc_reg).word() == w16(old(pc_reg).word() + 1),
        final(clock).cycles == tick(old(clock).cycles, 11),
{
    PcState::increment_reg(sp_reg, -1);
    memory.write(sp_reg.get(), src_reg.get_high());
    PcState::increment_reg(sp_reg, -1);
    memory.write(sp_reg.get(), src_reg.get_low());
    PcState::increment_reg(pc_reg, 1);
    clock.increment(11);
}

/// The amount DAA adds to A after an addition, and whether it sets the
/// carry, from A's upper and lower nibbles and the H and C flags.
pub open spec fn daa_add_adjust(a: u8, h: bool, c: bool) -> (int, bool) {
    let upper = a / 16;
    let lower = a % 16;
    if !c {
        if upper <= 9 && !h && lower <= 9 {
            (0, false)
        } else if upper <= 8 && !h && lower >= 0xA {
            (0x06, false)
        } else if upper <= 9 && h && lower <= 3 {
            (0x06, false)
        } else if upper >= 0xA && !h && lower <= 9 {
            (0x60, true)
        } else if upper >= 9 && !h && lower >= 0xA {
            (0x66, true)
        } else if upper >= 0xA && h && lower <= 3 {
            (0x66, true)
        } else {
            (0, false)
        }
    } else {
        if upper <= 2 && !h && lower <= 9 {
            (0x60, false)
        } else if upper <= 2 && !h && lower >= 0xA {
            (0x66, false)
        } else if upper <= 3 && h && lower <= 3 {
            (0x66, false)
        } else {
            (0, false)
        }
    }
}

/// The amount DAA adds to A after a subtraction, and whether it clears H.
pub open spec fn daa_sub_adjust(a: u8, h: bool, c: bool) -> (int, bool) {
    let upper = a / 16;
    let lower = a % 16;
    if !c {
        if upper <= 9 && !h && lower <= 9 {
            (0, false)
        } else if upper <= 8 && h && lower >= 6 {
            (0xFA, false)
        } else {
            (0, false)
        }
    } else {
        if upper >= 7 && !h && lower <= 9 {
            (0xA0, false)
        } else if upper >= 6 && h && lower >= 6 {
            (0x9A, true)
        } else {
            (0, false)
        }
    }
}

/// The register file after DAA: A adjusted to decimal, C set by the adjust,
/// H cleared where the adjust says, P/V parity, S and Z from the new A.
pub open spec fn daa_spec(s: PcState) -> PcState {
    let a = s.a();
    let f = s.flags();
    if !f.n {
        let (adj, set_c) = daa_add_adjust(a, f.h, f.c);
        let na = w8(a + adj);
        s.with_a(na).with_flags(zs(Flags { c: f.c || set_c, pv: parity_even(na), ..f }, na))
    } else {
        let (adj, clear_h) = daa_sub_adjust(a, f.h, f.c);
        let na = w8(a + adj);
        s.with_a(na).with_flags(zs(Flags { h: f.h && !clear_h, pv: parity_even(na), ..f }, na))
    }
}

/// The adjustment of DAA after an addition, from the upper and lower
/// nibbles of A and the H and C flags.
#[verifier::spinoff_prover]
fn daa_add_adjustment(upper: u8, lower: u8, h: u8, c: u8) -> (r: (u8, bool))
    requires
        upper < 16,
        lower < 16,
        h <= 1,
        c <= 1,
    ensures
        r.0 as int == daa_add_adjust((upper * 16 + lower) as u8, h == 1, c == 1).0,
        r.1 == daa_add_adjust((upper * 16 + lower) as u8, h == 1, c == 1).1,
{
    if c == 0 {
        if (upper <= 9) && (h == 0) && (lower <= 9) {
            (0, false)
        } else if (upper <= 8) && (h == 0) && ((lower >= 0xA) && (lower <= 0xF)) {
            (0x06, false)
        } else if (upper <= 9) && (h == 1) && (lower <= 0x3) {
            (0x06, false)
        } else if ((upper >= 0xA) && (upper <= 0xF)) && (h == 0) && (lower <= 0x9) {
            (0x60, true)
        } else if ((upper >= 0x9) && (upper <= 0xF)) && (h == 0) && ((lower >= 0xA) && (lower <= 0xF)) {
            (0x66, true)
        } else if ((upper >= 0xA) && (upper <= 0xF)) && (h == 1) && (lower <= 0x3) {
            (0x66, true)
        } else {
            (0, false)
        }
    } else {
        if (upper <= 0x2) && (h == 0) && (lower <= 0x9) {
            (0x60, false)
        } else if (upper <= 0x2) && (h == 0) && ((lower >= 0xA) && (lower <= 0xF)) {
            (0x66, false)
        } else if (upper <= 0x3) && (h == 1) && (lower <= 0x3) {
            (0x66, false)
        } else {
            (0, false)
        }
    }
}

/// The adjustment of DAA after a subtraction, and whether it clears H.
#[verifier::spinoff_prover]
fn daa_sub_adjustment(upper: u8, lower: u8, h: u8, c: u8) -> (r: (u8, bool))
    requires
        upper < 16,
        lower < 16,
        h <= 1,
        c <= 1,
    ensures
        r.0 as int == daa_sub_adjust((upper * 16 + lower) as u8, h == 1, c == 1).0,
        r.1 == daa_sub_adjust((upper * 16 + lower) as u8, h == 1, c == 1).1,
{
    if c == 0 {
        if (upper <= 9) && (h == 0) && (lower <= 9) {
            (0, false)
        } else if (upper <= 0x8) && (h == 1) && ((lower >= 0x6) && (lower <= 0xF)) {
            (0xFA, false)
        } else {
            (0, false)
        }
    } else {
        if ((upper >= 0x7) && (upper <= 0xF)) && (h == 0) && (lower <= 0x9) {
            (0xA0, false)
        } else if ((upper >= 0x6) && (upper <= 0xF)) && (h == 1) && ((lower >= 0x6) && (lower <= 0xF)) {
            (0x9A, true)
        } else {
            (0, false)
        }
    }
}

#[verifier::spinoff_prover]
#[verifier::rlimit(80)]
fn calculate_daa_add(pc_state: &mut PcState)
    requires
        !old(pc_state).flags().n,
    ensures
        *final(pc_state) == daa_spec(*old(pc_state)),
{
    let a = pc_state.get_a();
    proof {
        lemma_not_bits(a, 0);
    }
    let upper = (a >> 4) & 0xF;
    let lower = a & 0xF;
    let mut f_status = pc_state.get_f();
    assert(upper * 16 + lower == a);
    let ghost f0 = old(pc_state).flags();
    let (adjust, set_carry) = daa_add_adjustment(upper, lower, f_status.get_h(), f_status.get_c());
    if adjust != 0 {
        pc_state.set_a(pc_state.get_a().wrapping_add(adjust));
    }
    assert(pc_state.a() == w8(a + daa_add_adjust(a, f0.h, f0.c).0));
    if set_carry {
        f_status.set_c(1);
    }
    assert(f_status@ == Flags { c: f0.c || daa_add_adjust(a, f0.h, f0.c).1, ..f0 });
    f_status.set_pv(if status_flags::calculate_parity(pc_state.get_a()) { 1 } else { 0 });
    status_flags::zero_and_sign_flags(&mut f_status, pc_state.get_a());
    pc_state.set_f(f_status);
}

#[verifier::rlimit(50)]
#[verifier::spinoff_prover]
fn calculate_daa_sub(pc_state: &mut PcState)
    requires
        old(pc_state).flags().n,
    ensures
        *final(pc_state) == daa_spec(*old(pc_state)),
{
    let a = pc_state.get_a();
    proof {
        lemma_not_bits(a, 0);
    }
    let upper = (a >> 4) & 0xF;
    let lower = a & 0xF;
    let mut f_status = pc_state.get_f();
    assert(upper * 16 + lower == a);
    let (adjust, clear_h) = daa_sub_adjustment(upper, lower, f_status.get_h(), f_status.get_c());
    if clear_h {
        f_status.set_h(0);
    }
    if adjust != 0 {
        pc_state.set_a(pc_state.get_a().wrapping_add(adjust));
    }
    f_status.set_pv(if status_flags::calculate_parity(pc_state.get_a()) { 1 } else { 0 });
    status_flags::zero_and_sign_flags(&mut f_status, pc_state.get_a());
    pc_state.set_f(f_status);
}

/// DAA: decimal adjust A after an addition (N clear) or a subtraction (N set).
/// PC + 1, 4 cycles.
#[verifier::spinoff_prover]
pub fn daa(clock: &mut Clock, pc_state: &mut PcState)
    ensures
        *final(pc_state) == daa_spec(*old(pc_state)).adv_pc(1),
        final(clock).cycles == tick(old(clock).cycles, 4),
{
    if pc_state.get_f().get_n() == 0 {
        calculate_daa_add(pc_state);
    } else {
        calculate_daa_sub(pc_state);
    }
    pc_state.increment_pc(1);
    clock.increment(4);
}

/// CPL: A = !A, H and N set. PC + 1, 4 cycles.
#[verifier::spinoff_prover]
pub fn cpl(clock: &mut Clock, pc_state: &mut PcState)
    ensures
        *final(pc_state) == old(pc_state).with_flags(Flags { h: true, n: true, ..old(pc_state).flags() }).with_a(
            (255 - old(pc_state).a()) as u8,
        ).adv_pc(1),
        final(clock).cycles == tick(old(clock).cycles, 4),
{
    proof {
        lemma_not_bits(pc_state.a(), 0);
    }
    let mut f_status = pc_state.get_f();
    f_status.set_h(1);
    f_status.set_n(1);
    pc_state.set_f(f_status);
    pc_state.set_a(pc_state.get_a() ^ 0xFF);
    pc_state.increment_pc(1);
    clock.increment(4);
}

/// SCF: set the carry, H and N clear. PC + 1, 4 cycles.
#[verifier::spinoff_prover]
pub fn scf<R16: Reg16RW, F16: FlagReg>(clock: &mut Clock, pc_reg: &mut R16, af_reg: &mut F16)
    ensures
        flags_of(final(af_reg).flag_byte()) == (Flags { h: false, n: false, c: true, ..flags_of(old(af_reg).flag_byte()) }),
        final(af_reg).other_byte() == old(af_reg).other_byte(),
        final(pc_reg).word() == w16(old(pc_reg).word() + 1),
        final(clock).cycles == tick(old(clock).cycles, 4),
{
    let mut f_status = af_reg.get_flags();
    f_status.set_h(0);
    f_status.set_n(0);
    f_status.set_c(1);
    af_reg.set_flags(&f_status);
    PcState::increment_reg(pc_reg, 1);
    clock.increment(4);
}

/// CCF: invert the carry; H takes the old carry, N clear. PC + 1, 4 cycles.
#[verifier::spinoff_prover]
pub fn ccf<R16: Reg16RW, F16: FlagReg>(clock: &mut Clock, pc_reg: &mut R16, af_reg: &mut F16)
    ensures
        ({
            let f = flags_of(old(af_reg).flag_byte());
            flags_of(final(af_reg).flag_byte()) == (Flags { h: f.c, n: false, c: !f.c, ..f })
        }),
        final(af_reg).other_byte() == old(af_reg).other_byte(),
        final(pc_reg).word() == w16(old(pc_reg).word() + 1),
        final(clock).cycles == tick(old(clock).cycles, 4),
{
    let mut f_status = af_reg.get_flags();
    f_status.set_h(f_status.get_c());
    f_status.set_n(0);
    let c = f_status.get_c();
    proof {
        crate::bits::lemma_u8_bits(c);
    }
    f_status.set_c(c ^ 1);
    af_reg.set_flags(&f_status);
    PcState::increment_reg(pc_reg, 1);
    clock.increment(4);
}

} // verus!
