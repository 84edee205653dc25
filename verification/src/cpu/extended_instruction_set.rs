use vstd::prelude::*;
use crate::clocks::{Clock, tick};
use crate::cpu::pc_state::{
    PcState, PcStatusFlagFields, Flags, FlagReg, Reg16RW, Reg16, flags_of, byte_of, bit, w8, w16, u16_of,
    lemma_byte_of_flags_of, lemma_flags_of_byte_of, lemma_reg_of_value, lemma_value_reg_of,
};
use crate::cpu::status_flags::{
    self, u16_carry_flags, parity_even, zs, dec_flags, inc_flags, bit_test_flags, signed8,
};
use crate::cpu::instruction_set::{self, sub_flags};
use crate::memory::memory::{MemoryRW, read16_view};

verus! {

broadcast use {lemma_byte_of_flags_of, lemma_flags_of_byte_of, lemma_reg_of_value, lemma_value_reg_of};

/// The address `base + d`, `d` the signed displacement byte.
pub open spec fn indexed(base: u16, d: u8) -> u16 {
    w16(base + signed8(d))
}

/// `base` plus the signed displacement `d`, wrapping at 16 bits.
#[verifier::spinoff_prover]
fn index_address(base: u16, d: u8) -> (r: u16)
    ensures
        r == indexed(base, d),
{
    proof {
        status_flags::lemma_as_i8(d);
    }
    let e = d as i8;
    if e >= 0 {
        base.wrapping_add(e as u16)
    } else {
        base.wrapping_sub((0 - (e as i16)) as u16)
    }
}

/// LD (I + d), r: store `r` at the index register plus the displacement two
/// bytes after the prefix. PC + 3, 19 cycles.
#[verifier::spinoff_prover]
pub fn ld_i_d_r<M: MemoryRW, R16: Reg16RW>(clock: &mut Clock, memory: &mut M, r: u8, pc_reg: &mut R16, i16_reg: &R16)
    ensures
        final(memory)@ == M::write_view(
            old(memory)@,
            indexed(i16_reg.word(), M::read_view(old(memory)@, w16(old(pc_reg).word() + 2))),
            r,
        ),
        final(pc_reg).word() == w16(old(pc_reg).word() + 3),
        final(clock).cycles == tick(old(clock).cycles, 19),
{
    let d = memory.read(pc_reg.get().wrapping_add(2));
    let address = index_address(i16_reg.get(), d);
    memory.write(address, r);
    PcState::increment_reg(pc_reg, 3);
    clock.increment(19);
}

/// LD I, nn: load an index register from the two bytes after the op code.
/// PC + 4, 20 cycles.
#[verifier::spinoff_prover]
pub fn ld_i_nn<M: MemoryRW, R16: Reg16RW>(clock: &mut Clock, memory: &mut M, pc_reg: &mut R16, i16_reg: &mut R16)
    ensures
        final(i16_reg).word() == read16_view::<M>(old(memory)@, w16(old(pc_reg).word() + 2)),
        final(pc_reg).word() == w16(old(pc_reg).word() + 4),
        final(memory)@ == old(memory)@,
        final(clock).cycles == tick(old(clock).cycles, 20),
{
    i16_reg.set(memory.read16(pc_reg.get().wrapping_add(2)));
    PcState::increment_reg(pc_reg, 4);
    clock.increment(20);
}

/// LD I, (nn): load an index register from the address after the op code.
/// PC + 4, 20 cycles.
#[verifier::spinoff_prover]
pub fn ld_i_mem_nn<M: MemoryRW, R16: Reg16RW>(clock: &mut Clock, memory: &mut M, pc_reg: &mut R16, i16_reg: &mut R16)
    ensures
        final(i16_reg).word() == read16_view::<M>(old(memory)@, read16_view::<M>(old(memory)@, w16(old(pc_reg).word() + 2))),
        final(pc_reg).word() == w16(old(pc_reg).word() + 4),
        final(memory)@ == old(memory)@,
        final(clock).cycles == tick(old(clock).cycles, 20),
{
    let address = memory.read16(pc_reg.get().wrapping_add(2));
    i16_reg.set(memory.read16(address));
    PcState::increment_reg(pc_reg, 4);
    clock.increment(20);
}

/// LD (nn), rr: store a register pair at the address after the op code, low
/// byte first (the address is read again for the high byte). PC + 4, 20 cycles.
#[verifier::spinoff_prover]
pub fn ld_mem_nn_reg16<M: MemoryRW, R16: Reg16RW>(clock: &mut Clock, memory: &mut M, pc_reg: &mut R16, reg16: &Reg16)
    ensures
        ({
            let m1 = M::write_view(old(memory)@, read16_view::<M>(old(memory)@, w16(old(pc_reg).word() + 2)), reg16.low);
            final(memory)@ == M::write_view(m1, w16(read16_view::<M>(m1, w16(old(pc_reg).word() + 2)) + 1), reg16.high)
        }),
        final(pc_reg).word() == w16(old(pc_reg).word() + 4),
        final(clock).cycles == tick(old(clock).cycles, 20),
{
    let address = memory.read16(pc_reg.get().wrapping_add(2));
    memory.write(address, reg16.low);
    let address2 = memory.read16(pc_reg.get().wrapping_add(2));
    memory.write(address2.wrapping_add(1), reg16.high);
    PcState::increment_reg(pc_reg, 4);
    clock.increment(20);
}

/// LD dd, (nn): load the pair that `sel` selects from the address after the
/// op code. PC + 4, 20 cycles.
#[verifier::spinoff_prover]
pub fn ld_dd_mem_nn<M: MemoryRW>(clock: &mut Clock, memory: &mut M, sel: u8, pc_state: &mut PcState)
    ensures
        *final(pc_state) == old(pc_state).with_reg16(
            sel,
            read16_view::<M>(old(memory)@, read16_view::<M>(old(memory)@, w16(old(pc_state).pc() + 2))),
        ).adv_pc(4),
        final(memory)@ == old(memory)@,
        final(clock).cycles == tick(old(clock).cycles, 20),
{
    let address = memory.read16(pc_state.get_pc().wrapping_add(2));
    let v = memory.read16(address);
    pc_state.set_reg16(sel, v);
    pc_state.increment_pc(4);
    clock.increment(20);
}

/// LD (I + d), n: store the byte three after the prefix at the index register
/// plus the displacement. PC + 4, 19 cycles.
#[verifier::spinoff_prover]
pub fn ld_i_d_n<M: MemoryRW, R16: Reg16RW>(clock: &mut Clock, memory: &mut M, pc_reg: &mut R16, i16_reg: &mut R16)
    ensures
        final(memory)@ == M::write_view(
            old(memory)@,
            indexed(old(i16_reg).word(), M::read_view(old(memory)@, w16(old(pc_reg).word() + 2))),
            M::read_view(old(memory)@, w16(old(pc_reg).word() + 3)),
        ),
        *final(i16_reg) == *old(i16_reg),
        final(pc_reg).word() == w16(old(pc_reg).word() + 4),
        final(clock).cycles == tick(old(clock).cycles, 19),
{
    let d = memory.read(pc_reg.get().wrapping_add(2));
    let tmp16 = index_address(i16_reg.get(), d);
    let n = memory.read(pc_reg.get().wrapping_add(3));
    memory.write(tmp16, n);
    PcState::increment_reg(pc_reg, 4);
    clock.increment(19);
}

/// LD r, (I + d): load the register that `dst` selects from `i16_value` plus
/// the displacement. PC + 3, 16 cycles.
#[verifier::spinoff_prover]
pub fn ld_r_i_d<M: MemoryRW>(clock: &mut Clock, memory: &mut M, pc_state: &mut PcState, i16_value: u16, dst: u8)
    requires
        dst & 7 != 6,
    ensures
        *final(pc_state) == old(pc_state).with_reg8(
            dst,
            M::read_view(old(memory)@, indexed(i16_value, M::read_view(old(memory)@, w16(old(pc_state).pc() + 2)))),
        ).adv_pc(3),
        final(memory)@ == old(memory)@,
        final(clock).cycles == tick(old(clock).cycles, 16),
{
    let d = memory.read(pc_state.get_pc().wrapping_add(2));
    let v = memory.read(index_address(i16_value, d));
    pc_state.set_reg8(dst, v);
    pc_state.increment_pc(3);
    clock.increment(16);
}

/// The register file after loading A from `v`: N and H clear, P/V copies IFF2,
/// S and Z from `v`. PC + 2.
pub open spec fn load_a_spec(s: PcState, v: u8) -> PcState {
    s.with_a(v).with_flags(zs(Flags { n: false, h: false, pv: s.iff2, ..s.flags() }, v)).adv_pc(2)
}

/// LD A, R: R's low 7 bits follow the clock (cycles / 4), its top bit is kept;
/// A takes the new R. PC + 2, 9 cycles.
#[verifier::spinoff_prover]
pub fn ld_a_r(clock: &mut Clock, pc_state: &mut PcState)
    ensures
        ({
            let r = ((old(clock).cycles / 4) % 128 + (if old(pc_state).r >= 128 { 128int } else { 0 })) as u8;
            *final(pc_state) == load_a_spec(PcState { r: r, ..*old(pc_state) }, r)
        }),
        final(clock).cycles == tick(old(clock).cycles, 9),
{
    let c = clock.cycles;
    let old_r = pc_state.get_r();
    let r = ((c >> 2) & 0x7F) as u8 | (old_r & 0x80);
    assert(r == ((c / 4) % 128 + (if old_r >= 128 { 128int } else { 0 })) as u8) by (bit_vector)
        requires
            r == ((c >> 2) & 0x7F) as u8 | (old_r & 0x80),
    ;
    pc_state.set_r(r);
    pc_state.set_a(pc_state.get_r());
    let mut f_status = pc_state.get_f();
    status_flags::accumulator_flags(&mut f_status, pc_state.get_a(), pc_state.get_iff2());
    pc_state.set_f(f_status);
    pc_state.increment_pc(2);
    clock.increment(9);
}

/// LD A, I. PC + 2, 9 cycles.
#[verifier::spinoff_prover]
pub fn ld_a_i(clock: &mut Clock, pc_state: &mut PcState)
    ensures
        *final(pc_state) == load_a_spec(*old(pc_state), old(pc_state).i),
        final(clock).cycles == tick(old(clock).cycles, 9),
{
    pc_state.set_a(pc_state.get_i());
    let mut f_status = pc_state.get_f();
    status_flags::accumulator_flags(&mut f_status, pc_state.get_a(), pc_state.get_iff2());
    pc_state.set_f(f_status);
    pc_state.increment_pc(2);
    clock.increment(9);
}

/// LD R, A. PC + 2, 9 cycles.
#[verifier::spinoff_prover]
pub fn ld_r_a(clock: &mut Clock, pc_state: &mut PcState)
    ensures
        *final(pc_state) == (PcState { r: old(pc_state).a(), ..*old(pc_state) }).adv_pc(2),
        final(clock).cycles == tick(old(clock).cycles, 9),
{
    pc_state.set_r(pc_state.get_a());
    pc_state.increment_pc(2);
    clock.increment(9);
}

/// LD I, A. PC + 2, 9 cycles.
#[verifier::spinoff_prover]
pub fn ld_i_a(clock: &mut Clock, pc_state: &mut PcState)
    ensures
        *final(pc_state) == (PcState { i: old(pc_state).a(), ..*old(pc_state) }).adv_pc(2),
        final(clock).cycles == tick(old(clock).cycles, 9),
{
    pc_state.set_i(pc_state.get_a());
    pc_state.increment_pc(2);
    clock.increment(9);
}

/// BIT b, r: test bit `bit_pos` of `r`. PC + 2, 8 cycles.
#[verifier::spinoff_prover]
pub fn bit_b_r<R16: Reg16RW, F16: FlagReg>(clock: &mut Clock, bit_pos: u8, r: u8, pc_reg: &mut R16, af_reg: &mut F16)
    ensures
        flags_of(final(af_reg).flag_byte()) == bit_test_flags(flags_of(old(af_reg).flag_byte()), r, bit_pos),
        final(af_reg).other_byte() == old(af_reg).other_byte(),
        final(pc_reg).word() == w16(old(pc_reg).word() + 2),
        final(clock).cycles == tick(old(clock).cycles, 8),
{
    let mut f_status = af_reg.get_flags();
    status_flags::set_bit_test_flags(r, bit_pos, &mut f_status);
    af_reg.set_flags(&f_status);
    PcState::increment_reg(pc_reg, 2);
    clock.increment(8);
}

/// BIT b, (HL): test bit `bit_pos` of the byte at `addr_reg`. PC + 2, 12 cycles.
#[verifier::spinoff_prover]
pub fn bit_b_mem<M: MemoryRW, R16: Reg16RW, F16: FlagReg>(clock: &mut Clock, memory: &mut M, bit_pos: u8, pc_reg: &mut R16, af_reg: &mut F16, addr_reg: &R16)
    ensures
        flags_of(final(af_reg).flag_byte()) == bit_test_flags(
            flags_of(old(af_reg).flag_byte()),
            M::read_view(old(memory)@, addr_reg.word()),
            bit_pos,
        ),
        final(af_reg).other_byte() == old(af_reg).other_byte(),
        final(pc_reg).word() == w16(old(pc_reg).word() + 2),
        final(memory)@ == old(memory)@,
        final(clock).cycles == tick(old(clock).cycles, 12),
{
    let mut f_status = af_reg.get_flags();
    status_flags::set_bit_test_flags(memory.read(addr_reg.get()), bit_pos, &mut f_status);
    af_reg.set_flags(&f_status);
    PcState::increment_reg(pc_reg, 2);
    clock.increment(12);
}

/// `v` with bit `bit_pos` set.
pub open spec fn with_bit(v: u8, bit_pos: u8) -> u8 {
    v | (1u8 << bit_pos)
}

/// `v` with bit `bit_pos` cleared.
pub open spec fn without_bit(v: u8, bit_pos: u8) -> u8 {
    v & !(1u8 << bit_pos)
}

/// SET b, r: `original_value` with bit `bit_pos` set into the register `dst`
/// selects. PC + 2, 8 cycles.
#[verifier::spinoff_prover]
pub fn set_b_r(clock: &mut Clock, bit_pos: u8, pc_state: &mut PcState, dst: u8, original_value: u8)
    requires
        bit_pos < 8,
        dst & 7 != 6,
    ensures
        *final(pc_state) == old(pc_state).with_reg8(dst, with_bit(original_value, bit_pos)).adv_pc(2),
        final(clock).cycles == tick(old(clock).cycles, 8),
{
    pc_state.set_reg8(dst, original_value | (0x1 << bit_pos));
    pc_state.increment_pc(2);
    clock.increment(8);
}

/// SET b, (HL). PC + 2, 12 cycles.
#[verifier::spinoff_prover]
pub fn set_b_mem<M: MemoryRW, R16: Reg16RW>(clock: &mut Clock, memory: &mut M, bit_pos: u8, pc_reg: &mut R16, addr_reg: &R16)
    requires
        bit_pos < 8,
    ensures
        final(memory)@ == M::write_view(old(memory)@, addr_reg.word(), with_bit(M::read_view(old(memory)@, addr_reg.word()), bit_pos)),
        final(pc_reg).word() == w16(old(pc_reg).word() + 2),
        final(clock).cycles == tick(old(clock).cycles, 12),
{
    let v = memory.read(addr_reg.get());
    memory.write(addr_reg.get(), v | (0x1 << bit_pos));
    PcState::increment_reg(pc_reg, 2);
    clock.increment(12);
}

/// RES b, r: `original_value` with bit `bit_pos` cleared into the register
/// `dst` selects. PC + 2, 8 cycles.
#[verifier::spinoff_prover]
pub fn res_b_r(clock: &mut Clock, bit_pos: u8, pc_state: &mut PcState, dst: u8, original_value: u8)
    requires
        bit_pos < 8,
        dst & 7 != 6,
    ensures
        *final(pc_state) == old(pc_state).with_reg8(dst, without_bit(original_value, bit_pos)).adv_pc(2),
        final(clock).cycles == tick(old(clock).cycles, 8),
{
    pc_state.set_reg8(dst, original_value & !(0x1 << bit_pos));
    pc_state.increment_pc(2);
    clock.increment(8);
}

/// RES b, (HL). PC + 2, 12 cycles.
#[verifier::spinoff_prover]
pub fn res_b_mem<M: MemoryRW, R16: Reg16RW>(clock: &mut Clock, memory: &mut M, bit_pos: u8, pc_reg: &mut R16, addr_reg: &R16)
    requires
        bit_pos < 8,
    ensures
        final(memory)@ == M::write_view(old(memory)@, addr_reg.word(), without_bit(M::read_view(old(memory)@, addr_reg.word()), bit_pos)),
        final(pc_reg).word() == w16(old(pc_reg).word() + 2),
        final(clock).cycles == tick(old(clock).cycles, 12),
{
    let v = memory.read(addr_reg.get());
    memory.write(addr_reg.get(), v & !(0x1 << bit_pos));
    PcState::increment_reg(pc_reg, 2);
    clock.increment(12);
}

/// BIT, RES or SET b, (I + d): the byte three after the prefix selects the
/// operation by its top two bits (01 BIT, 10 RES, 11 SET) and the bit by bits
/// 3 to 5. PC + 4, 23 cycles.
#[verifier::spinoff_prover]
pub fn bit_res_set_b_i_d<M: MemoryRW, R16: Reg16RW, F16: FlagReg>(clock: &mut Clock, memory: &mut M, pc_reg: &mut R16, af_reg: &mut F16, i16_reg: &R16)
    requires
        M::read_view(old(memory)@, w16(old(pc_reg).word() + 3)) >= 0x40,
    ensures
        ({
            let m0 = old(memory)@;
            let address = indexed(i16_reg.word(), M::read_view(m0, w16(old(pc_reg).word() + 2)));
            let v = M::read_view(m0, address);
            let op = M::read_view(m0, w16(old(pc_reg).word() + 3));
            let bit_pos = (op / 8) % 8;
            if op < 0x80 {
                &&& flags_of(final(af_reg).flag_byte()) == bit_test_flags(flags_of(old(af_reg).flag_byte()), v, bit_pos as u8)
                &&& final(memory)@ == m0
            } else if op < 0xC0 {
                &&& final(memory)@ == M::write_view(m0, address, without_bit(v, bit_pos as u8))
                &&& final(af_reg).flag_byte() == old(af_reg).flag_byte()
            } else {
                &&& final(memory)@ == M::write_view(m0, address, with_bit(v, bit_pos as u8))
                &&& final(af_reg).flag_byte() == old(af_reg).flag_byte()
            }
        }),
        final(af_reg).other_byte() == old(af_reg).other_byte(),
        final(pc_reg).word() == w16(old(pc_reg).word() + 4),
        final(clock).cycles == tick(old(clock).cycles, 23),
{
    let d = memory.read(pc_reg.get().wrapping_add(2));
    let tmp16 = index_address(i16_reg.get(), d);
    let test_value = memory.read(tmp16);
    let op_details = memory.read(pc_reg.get().wrapping_add(3));
    let bit_pos = (op_details >> 3) & 0x7;
    proof {
        crate::bits::lemma_u8_bits(op_details);
    }
    let kind = op_details >> 6;
    if kind == 0b01 {
        let mut f_status = af_reg.get_flags();
        status_flags::set_bit_test_flags(test_value, bit_pos, &mut f_status);
        af_reg.set_flags(&f_status);
    } else if kind == 0b10 {
        memory.write(tmp16, test_value & !(0x1 << bit_pos));
    } else {
        memory.write(tmp16, test_value | (0x1 << bit_pos));
    }
    PcState::increment_reg(pc_reg, 4);
    clock.increment(23);
}

/// JP (IX), JP (IY): jump to the index register. 8 cycles.
#[verifier::spinoff_prover]
pub fn jp_i<R16: Reg16RW>(clock: &mut Clock, pc_reg: &mut R16, i16_reg: &R16)
    ensures
        final(pc_reg).word() == i16_reg.word(),
        final(clock).cycles == tick(old(clock).cycles, 8),
{
    pc_reg.set(i16_reg.get());
    clock.increment(8);
}

/// CP (I + d): the flags of A minus the byte at `i16_value` plus the
/// displacement, A kept. PC + 3, 19 cycles.
#[verifier::rlimit(50)]
#[verifier::spinoff_prover]
pub fn cp_i_d<M: MemoryRW>(clock: &mut Clock, memory: &mut M, i16_value: u16, pc_state: &mut PcState)
    ensures
        *final(pc_state) == old(pc_state).with_flags(
            sub_flags(
                old(pc_state).flags(),
                old(pc_state).a(),
                M::read_view(old(memory)@, indexed(i16_value, M::read_view(old(memory)@, w16(old(pc_state).pc() + 2)))),
                false,
            ),
        ).adv_pc(3),
        final(memory)@ == old(memory)@,
        final(clock).cycles == tick(old(clock).cycles, 19),
{
    let d = memory.read(pc_state.get_pc().wrapping_add(2));
    let v = memory.read(index_address(i16_value, d));
    let a = pc_state.get_a();
    instruction_set::cp_flags(a, v, &mut pc_state.af_reg);
    pc_state.increment_pc(3);
    clock.increment(19);
}

/// ADD IX, ss / ADD IY, ss: as ADD HL, ss but 15 cycles.
#[verifier::spinoff_prover]
pub fn add16<R16: Reg16RW, F16: FlagReg>(clock: &mut Clock, src_value: u16, pc_reg: &mut R16, dst_reg: &mut R16, af_reg: &mut F16)
    ensures
        final(dst_reg).word() == w16(old(dst_reg).word() + src_value),
        flags_of(final(af_reg).flag_byte()) == (Flags {
            n: false,
            ..u16_carry_flags(flags_of(old(af_reg).flag_byte()), old(dst_reg).word(), src_value, false)
        }),
        final(af_reg).other_byte() == old(af_reg).other_byte(),
        final(pc_reg).word() == w16(old(pc_reg).word() + 1),
        final(clock).cycles == tick(old(clock).cycles, 15),
{
    let v = instruction_set::add16c(dst_reg.get(), src_value, false, af_reg);
    dst_reg.set(v);
    PcState::increment_reg(pc_reg, 1);
    clock.increment(15);
}

/// The shift or rotation that `op` names, on `v` with carry in `c`: the new
/// value and the carry out. 0 RLC, 1 RRC, 2 RL, 3 RR, 4 SLA, 5 SRA, 6 SLL, 7 SRL.
pub open spec fn shift_rot(op: u8, v: u8, c: bool) -> (u8, bool) {
    if op == 0 {
        ((w8(v * 2) + v / 128) as u8, v >= 128)
    } else if op == 1 {
        ((v / 2 + 128 * (v % 2)) as u8, v % 2 == 1)
    } else if op == 2 {
        ((w8(v * 2) + bit(c)) as u8, v >= 128)
    } else if op == 3 {
        ((v / 2 + 128 * bit(c)) as u8, v % 2 == 1)
    } else if op == 4 {
        (w8(v * 2), v >= 128)
    } else if op == 5 {
        ((v / 2 + (if v >= 128 { 128int } else { 0 })) as u8, v % 2 == 1)
    } else if op == 6 {
        (w8(v * 2 + 1), v >= 128)
    } else {
        ((v / 2) as u8, v % 2 == 1)
    }
}

/// The flags after a register shift or rotation produced `v` with carry out
/// `carry`: N, H clear, P/V parity, S and Z from `v`.
pub open spec fn shift_flags(f: Flags, v: u8, carry: bool) -> Flags {
    zs(Flags { c: carry, n: false, h: false, pv: parity_even(v), ..f }, v)
}

#[verifier::spinoff_prover]
fn shift_rotate(op: u8, input: u8, carry: bool) -> (r: (u8, bool))
    ensures
        r == shift_rot(op, input, carry),
{
    if op == 0 {
        instruction_set::rotate_left_carry(input)
    } else if op == 1 {
        instruction_set::rotate_right_carry(input)
    } else if op == 2 {
        instruction_set::rotate_left(input, carry)
    } else if op == 3 {
        instruction_set::rotate_right(input, carry)
    } else if op == 4 {
        instruction_set::shift_left_arithmetic(input)
    } else if op == 5 {
        instruction_set::shift_right_arithmetic(input)
    } else if op == 6 {
        instruction_set::shift_left_logical(input)
    } else {
        instruction_set::shift_right_logical(input)
    }
}

/// The register file after shifting or rotating `src` into the register `dst`
/// selects. PC + 2.
pub open spec fn shift_reg_spec(s: PcState, op: u8, dst: u8, src: u8) -> PcState {
    let (v, carry) = shift_rot(op, src, s.flags().c);
    s.with_reg8(dst, v).with_flags(shift_flags(s.flags(), v, carry)).adv_pc(2)
}

#[verifier::rlimit(50)]
#[verifier::spinoff_prover]
fn common_rotate_shift(op: u8, clock: &mut Clock, pc_state: &mut PcState, dst: u8, src: u8)
    requires
        dst & 7 != 6,
    ensures
        *final(pc_state) == shift_reg_spec(*old(pc_state), op, dst, src),
        final(clock).cycles == tick(old(clock).cycles, 8),
{
    let mut f_value = pc_state.get_f();
    let (new_value, carry) = shift_rotate(op, src, f_value.get_c() == 1);
    pc_state.set_reg8(dst, new_value);
    status_flags::set_shift_register_flags(new_value, carry, &mut f_value);
    pc_state.set_f(f_value);
    pc_state.increment_pc(2);
    clock.increment(8);
}

/// RLC r: rotate left, bit 7 to bit 0 and the carry. PC + 2, 8 cycles.
#[verifier::spinoff_prover]
pub fn rlc_r(clock: &mut Clock, pc_state: &mut PcState, dst: u8, src: u8)
    requires
        dst & 7 != 6,
    ensures
        *final(pc_state) == shift_reg_spec(*old(pc_state), 0, dst, src),
        final(clock).cycles == tick(old(clock).cycles, 8),
{
    common_rotate_shift(0, clock, pc_state, dst, src);
}

/// RRC r: rotate right, bit 0 to bit 7 and the carry. PC + 2, 8 cycles.
#[verifier::spinoff_prover]
pub fn rrc_r(clock: &mut Clock, pc_state: &mut PcState, dst: u8, src: u8)
    requires
        dst & 7 != 6,
    ensures
        *final(pc_state) == shift_reg_spec(*old(pc_state), 1, dst, src),
        final(clock).cycles == tick(old(clock).cycles, 8),
{
    common_rotate_shift(1, clock, pc_state, dst, src);
}

/// RL r: rotate left through the carry. PC + 2, 8 cycles.
#[verifier::spinoff_prover]
pub fn rl_r(clock: &mut Clock, pc_state: &mut PcState, dst: u8, src: u8)
    requires
        dst & 7 != 6,
    ensures
        *final(pc_state) == shift_reg_spec(*old(pc_state), 2, dst, src),
        final(clock).cycles == tick(old(clock).cycles, 8),
{
    common_rotate_shift(2, clock, pc_state, dst, src);
}

/// RR r: rotate right through the carry. PC + 2, 8 cycles.
#[verifier::spinoff_prover]
pub fn rr_r(clock: &mut Clock, pc_state: &mut PcState, dst: u8, src: u8)
    requires
        dst & 7 != 6,
    ensures
        *final(pc_state) == shift_reg_spec(*old(pc_state), 3, dst, src),
        final(clock).cycles == tick(old(clock).cycles, 8),
{
    common_rotate_shift(3, clock, pc_state, dst, src);
}

/// SLA r: shift left, a zero into bit 0. PC + 2, 8 cycles.
#[verifier::spinoff_prover]
pub fn sla_r(clock: &mut Clock, pc_state: &mut PcState, dst: u8, src: u8)
    requires
        dst & 7 != 6,
    ensures
        *final(pc_state) == shift_reg_spec(*old(pc_state), 4, dst, src),
        final(clock).cycles == tick(old(clock).cycles, 8),
{
    common_rotate_shift(4, clock, pc_state, dst, src);
}

/// SRA r: shift right keeping the sign bit. PC + 2, 8 cycles.
#[verifier::spinoff_prover]
pub fn sra_r(clock: &mut Clock, pc_state: &mut PcState, dst: u8, src: u8)
    requires
        dst & 7 != 6,
    ensures
        *final(pc_state) == shift_reg_spec(*old(pc_state), 5, dst, src),
        final(clock).cycles == tick(old(clock).cycles, 8),
{
    common_rotate_shift(5, clock, pc_state, dst, src);
}

/// SLL r (undocumented): shift left, a one into bit 0. PC + 2, 8 cycles.
#[verifier::spinoff_prover]
pub fn sll_r(clock: &mut Clock, pc_state: &mut PcState, dst: u8, src: u8)
    requires
        dst & 7 != 6,
    ensures
        *final(pc_state) == shift_reg_spec(*old(pc_state), 6, dst, src),
        final(clock).cycles == tick(old(clock).cycles, 8),
{
    common_rotate_shift(6, clock, pc_state, dst, src);
}

/// SRL r: shift right, a zero into bit 7. PC + 2, 8 cycles.
#[verifier::spinoff_prover]
pub fn srl_r(clock: &mut Clock, pc_state: &mut PcState, dst: u8, src: u8)
    requires
        dst & 7 != 6,
    ensures
        *final(pc_state) == shift_reg_spec(*old(pc_state), 7, dst, src),
        final(clock).cycles == tick(old(clock).cycles, 8),
{
    common_rotate_shift(7, clock, pc_state, dst, src);
}

/// RLC (HL): shift or rotate the byte at `addr_reg` in place. PC + 2, 15 cycles.
#[verifier::spinoff_prover]
pub fn rlc_hl<M: MemoryRW, R16: Reg16RW, F16: FlagReg>(clock: &mut Clock, memory: &mut M, pc_reg: &mut R16, af_reg: &mut F16, addr_reg: &R16)
    ensures
        ({
            let (v, carry) = shift_rot(0, M::read_view(old(memory)@, addr_reg.word()), false);
            &&& final(memory)@ == M::write_view(old(memory)@, addr_reg.word(), v)
            &&& flags_of(final(af_reg).flag_byte()) == shift_flags(flags_of(old(af_reg).flag_byte()), v, carry)
        }),
        final(af_reg).other_byte() == old(af_reg).other_byte(),
        final(pc_reg).word() == w16(old(pc_reg).word() + 2),
        final(clock).cycles == tick(old(clock).cycles, 15),
{
    let src = memory.read(addr_reg.get());
    let mut f_value = af_reg.get_flags();
    let (new_value, carry) = shift_rotate(0, src, false);
    status_flags::set_shift_register_flags(new_value, carry, &mut f_value);
    af_reg.set_flags(&f_value);
    memory.write(addr_reg.get(), new_value);
    PcState::increment_reg(pc_reg, 2);
    clock.increment(15);
}

/// RRC (HL): shift or rotate the byte at `addr_reg` in place. PC + 2, 15 cycles.
#[verifier::spinoff_prover]
pub fn rrc_hl<M: MemoryRW, R16: Reg16RW, F16: FlagReg>(clock: &mut Clock, memory: &mut M, pc_reg: &mut R16, af_reg: &mut F16, addr_reg: &R16)
    ensures
        ({
            let (v, carry) = shift_rot(1, M::read_view(old(memory)@, addr_reg.word()), false);
            &&& final(memory)@ == M::write_view(old(memory)@, addr_reg.word(), v)
            &&& flags_of(final(af_reg).flag_byte()) == shift_flags(flags_of(old(af_reg).flag_byte()), v, carry)
        }),
        final(af_reg).other_byte() == old(af_reg).other_byte(),
        final(pc_reg).word() == w16(old(pc_reg).word() + 2),
        final(clock).cycles == tick(old(clock).cycles, 15),
{
    let src = memory.read(addr_reg.get());
    let mut f_value = af_reg.get_flags();
    let (new_value, carry) = shift_rotate(1, src, false);
    status_flags::set_shift_register_flags(new_value, carry, &mut f_value);
    af_reg.set_flags(&f_value);
    memory.write(addr_reg.get(), new_value);
    PcState::increment_reg(pc_reg, 2);
    clock.increment(15);
}

/// SLA (HL): shift or rotate the byte at `addr_reg` in place. PC + 2, 15 cycles.
#[verifier::spinoff_prover]
pub fn sla_hl<M: MemoryRW, R16: Reg16RW, F16: FlagReg>(clock: &mut Clock, memory: &mut M, pc_reg: &mut R16, af_reg: &mut F16, addr_reg: &R16)
    ensures
        ({
            let (v, carry) = shift_rot(4, M::read_view(old(memory)@, addr_reg.word()), false);
            &&& final(memory)@ == M::write_view(old(memory)@, addr_reg.word(), v)
            &&& flags_of(final(af_reg).flag_byte()) == shift_flags(flags_of(old(af_reg).flag_byte()), v, carry)
        }),
        final(af_reg).other_byte() == old(af_reg).other_byte(),
        final(pc_reg).word() == w16(old(pc_reg).word() + 2),
        final(clock).cycles == tick(old(clock).cycles, 15),
{
    let src = memory.read(addr_reg.get());
    let mut f_value = af_reg.get_flags();
    let (new_value, carry) = shift_rotate(4, src, false);
    status_flags::set_shift_register_flags(new_value, carry, &mut f_value);
    af_reg.set_flags(&f_value);
    memory.write(addr_reg.get(), new_value);
    PcState::increment_reg(pc_reg, 2);
    clock.increment(15);
}

/// SRA (HL): shift or rotate the byte at `addr_reg` in place. PC + 2, 15 cycles.
#[verifier::spinoff_prover]
pub fn sra_hl<M: MemoryRW, R16: Reg16RW, F16: FlagReg>(clock: &mut Clock, memory: &mut M, pc_reg: &mut R16, af_reg: &mut F16, addr_reg: &R16)
    ensures
        ({
            let (v, carry) = shift_rot(5, M::read_view(old(memory)@, addr_reg.word()), false);
            &&& final(memory)@ == M::write_view(old(memory)@, addr_reg.word(), v)
            &&& flags_of(final(af_reg).flag_byte()) == shift_flags(flags_of(old(af_reg).flag_byte()), v, carry)
        }),
        final(af_reg).other_byte() == old(af_reg).other_byte(),
        final(pc_reg).word() == w16(old(pc_reg).word() + 2),
        final(clock).cycles == tick(old(clock).cycles, 15),
{
    let src = memory.read(addr_reg.get());
    let mut f_value = af_reg.get_flags();
    let (new_value, carry) = shift_rotate(5, src, false);
    status_flags::set_shift_register_flags(new_value, carry, &mut f_value);
    af_reg.set_flags(&f_value);
    memory.write(addr_reg.get(), new_value);
    PcState::increment_reg(pc_reg, 2);
    clock.increment(15);
}

/// SRL (HL): shift or rotate the byte at `addr_reg` in place. PC + 2, 15 cycles.
#[verifier::spinoff_prover]
pub fn srl_hl<M: MemoryRW, R16: Reg16RW, F16: FlagReg>(clock: &mut Clock, memory: &mut M, pc_reg: &mut R16, af_reg: &mut F16, addr_reg: &R16)
    ensures
        ({
            let (v, carry) = shift_rot(7, M::read_view(old(memory)@, addr_reg.word()), false);
            &&& final(memory)@ == M::write_view(old(memory)@, addr_reg.word(), v)
            &&& flags_of(final(af_reg).flag_byte()) == shift_flags(flags_of(old(af_reg).flag_byte()), v, carry)
        }),
        final(af_reg).other_byte() == old(af_reg).other_byte(),
        final(pc_reg).word() == w16(old(pc_reg).word() + 2),
        final(clock).cycles == tick(old(clock).cycles, 15),
{
    let src = memory.read(addr_reg.get());
    let mut f_value = af_reg.get_flags();
    let (new_value, carry) = shift_rotate(7, src, false);
    status_flags::set_shift_register_flags(new_value, carry, &mut f_value);
    af_reg.set_flags(&f_value);
    memory.write(addr_reg.get(), new_value);
    PcState::increment_reg(pc_reg, 2);
    clock.increment(15);
}

/// INC (I + d): increment the byte at the index register plus the signed
/// displacement, with the flags of an increment. PC + 3, 23 cycles.
#[verifier::spinoff_prover]
pub fn inc_i_d<M: MemoryRW, R16: Reg16RW, F16: FlagReg>(clock: &mut Clock, memory: &mut M, pc_reg: &mut R16, af_reg: &mut F16, i16_reg: &R16)
    ensures
        ({
            let address = indexed(i16_reg.word(), M::read_view(old(memory)@, w16(old(pc_reg).word() + 2)));
            let v = w8(M::read_view(old(memory)@, address) + 1);
            &&& final(memory)@ == M::write_view(old(memory)@, address, v)
            &&& flags_of(final(af_reg).flag_byte()) == inc_flags(flags_of(old(af_reg).flag_byte()), v)
        }),
        final(af_reg).other_byte() == old(af_reg).other_byte(),
        final(pc_reg).word() == w16(old(pc_reg).word() + 3),
        final(clock).cycles == tick(old(clock).cycles, 23),
{
    let d = memory.read(pc_reg.get().wrapping_add(2));
    let address = index_address(i16_reg.get(), d);
    let new_value = memory.read(address).wrapping_add(1);
    memory.write(address, new_value);
    let mut f_value = af_reg.get_flags();
    status_flags::calculate_inc_flags(&mut f_value, new_value);
    af_reg.set_flags(&f_value);
    PcState::increment_reg(pc_reg, 3);
    clock.increment(23);
}

/// DEC (I + d): decrement the byte at the index register plus the signed
/// displacement, with the flags of a decrement. PC + 3, 23 cycles.
#[verifier::spinoff_prover]
pub fn dec_i_d<M: MemoryRW, R16: Reg16RW, F16: FlagReg>(clock: &mut Clock, memory: &mut M, pc_reg: &mut R16, af_reg: &mut F16, i16_reg: &R16)
    ensures
        ({
            let address = indexed(i16_reg.word(), M::read_view(old(memory)@, w16(old(pc_reg).word() + 2)));
            let v = w8(M::read_view(old(memory)@, address) - 1);
            &&& final(memory)@ == M::write_view(old(memory)@, address, v)
            &&& flags_of(final(af_reg).flag_byte()) == dec_flags(flags_of(old(af_reg).flag_byte()), v)
        }),
        final(af_reg).other_byte() == old(af_reg).other_byte(),
        final(pc_reg).word() == w16(old(pc_reg).word() + 3),
        final(clock).cycles == tick(old(clock).cycles, 23),
{
    let d = memory.read(pc_reg.get().wrapping_add(2));
    let address = index_address(i16_reg.get(), d);
    let new_value = memory.read(address).wrapping_sub(1);
    memory.write(address, new_value);
    let mut f_value = af_reg.get_flags();
    status_flags::calculate_dec_flags(&mut f_value, new_value);
    af_reg.set_flags(&f_value);
    PcState::increment_reg(pc_reg, 3);
    clock.increment(23);
}

/// The flags after RRD or RLD left `a` in A: carry kept, N and H clear, P/V
/// parity, S and Z from `a`.
pub open spec fn decimal_rotate_flags(f: Flags, a: u8) -> Flags {
    zs(Flags { n: false, h: false, pv: parity_even(a), ..f }, a)
}

proof fn lemma_nibbles(a: u8, m: u8)
    by (bit_vector)
    ensures
        (a & 0xF0) | (m & 0xF) == (a / 16) * 16 + m % 16,
        ((m >> 4) & 0xF) | ((a << 4) & 0xF0) == m / 16 + (a % 16) * 16,
        (a & 0xF0) | (m >> 4) == (a / 16) * 16 + m / 16,
        ((m << 4) & 0xF0) | (a & 0xF) == (m % 16) * 16 + a % 16,
{
}

/// RRD: the low nibble of (HL) goes to the low nibble of A, the low nibble of
/// A to the high nibble of (HL), the high nibble of (HL) to its low nibble.
/// PC + 2, 18 cycles.
#[verifier::rlimit(50)]
#[verifier::spinoff_prover]
pub fn rrd<M: MemoryRW>(clock: &mut Clock, memory: &mut M, pc_state: &mut PcState)
    ensures
        ({
            let s = *old(pc_state);
            let m = M::read_view(old(memory)@, s.hl());
            let a = ((s.a() / 16) * 16 + m % 16) as u8;
            &&& final(memory)@ == M::write_view(old(memory)@, s.hl(), (m / 16 + (s.a() % 16) * 16) as u8)
            &&& *final(pc_state) == s.with_a(a).with_flags(decimal_rotate_flags(s.flags(), a)).adv_pc(2)
        }),
        final(clock).cycles == tick(old(clock).cycles, 18),
{
    let tmp8 = pc_state.get_a();
    let m = memory.read(pc_state.get_hl());
    proof {
        lemma_nibbles(tmp8, m);
    }
    pc_state.set_a((tmp8 & 0xF0) | (m & 0xF));
    memory.write(pc_state.get_hl(), ((m >> 4) & 0xF) | ((tmp8 << 4) & 0xF0));
    let mut f_status = pc_state.get_f();
    status_flags::rotate_decimal_flags(&mut f_status, pc_state.get_a());
    pc_state.set_f(f_status);
    pc_state.increment_pc(2);
    clock.increment(18);
}

/// RLD: the high nibble of (HL) goes to the low nibble of A, the low nibble
/// of (HL) to its high nibble, the low nibble of A to the low nibble of (HL).
/// PC + 2, 18 cycles.
#[verifier::rlimit(50)]
#[verifier::spinoff_prover]
pub fn rld<M: MemoryRW>(clock: &mut Clock, memory: &mut M, pc_state: &mut PcState)
    ensures
        ({
            let s = *old(pc_state);
            let m = M::read_view(old(memory)@, s.hl());
            let a = ((s.a() / 16) * 16 + m / 16) as u8;
            &&& final(memory)@ == M::write_view(old(memory)@, s.hl(), ((m % 16) * 16 + s.a() % 16) as u8)
            &&& *final(pc_state) == s.with_a(a).with_flags(decimal_rotate_flags(s.flags(), a)).adv_pc(2)
        }),
        final(clock).cycles == tick(old(clock).cycles, 18),
{
    let tmp8 = pc_state.get_a();
    let m = memory.read(pc_state.get_hl());
    proof {
        lemma_nibbles(tmp8, m);
    }
    pc_state.set_a((tmp8 & 0xF0) | (m >> 4));
    memory.write(pc_state.get_hl(), ((m << 4) & 0xF0) | (tmp8 & 0xF));
    let mut f_status = pc_state.get_f();
    status_flags::rotate_decimal_flags(&mut f_status, pc_state.get_a());
    pc_state.set_f(f_status);
    pc_state.increment_pc(2);
    clock.increment(18);
}

} // verus!
