use vstd::prelude::*;
use crate::cpu::instructions::{Machine, cpu_step, block0_step, block2_step, block3_step, condition};
use crate::cpu::pc_state::{w16, PcState, Flags};
use crate::cpu::instruction_set::{acc_op, add_flags, sub_flags, sub_result};
use crate::cpu::status_flags::{u8_carry_result, u8_carry_flags};
use crate::cpu::status_flags::{logic_flags, dec_flags, inc_flags};
use crate::cpu::extended_instruction_set::{shift_rot, shift_flags, shift_reg_spec};
use crate::memory::memory::{FlatMemory, MemoryRW, read16_view};

verus! {

/// The op codes the instruction laws rest on: JP cc, nn (condition `k`),
/// the arithmetic and logical operations (group `g` on operand `k`), the
/// immediate logical operations, JR cc, and INC r and DEC r (register `r`).
proof fn lemma_instruction_bits(k: u8, g: u8, r: u8)
    by (bit_vector)
    requires
        k < 8,
        g < 8,
        r < 8,
    ensures
        0xC2 | (k << 3) == 0xC2 + 8 * k,
        (0xC2 | (k << 3)) & 0xC7 == 0xC2,
        ((0xC2 | (k << 3)) >> 3) & 7 == k,
        k & 7 == k,
        r & 7 == r,
        0xE6u8 & 0xC7 == 0xC6u8,
        0xEEu8 & 0xC7 == 0xC6u8,
        0xF6u8 & 0xC7 == 0xC6u8,
        0x20u8 & 0xCF == 0x00u8,
        0x28u8 & 0xCF == 0x08u8,
        0x30u8 & 0xCF == 0x00u8,
        0x38u8 & 0xCF == 0x08u8,
        0x20u8 & 0xC7 == 0x00u8,
        0x28u8 & 0xC7 == 0x00u8,
        0x30u8 & 0xC7 == 0x00u8,
        0x38u8 & 0xC7 == 0x00u8,
        0x80 | (g << 3) | k == 0x80 + 8 * g + k,
        (0x80 | (g << 3) | k) & 7 == k,
        ((0x80 | (g << 3) | k) >> 3) & 7 == g,
        0x04 | (r << 3) == 4 + 8 * r,
        0x05 | (r << 3) == 5 + 8 * r,
        ((0x04 | (r << 3)) >> 3) & 7 == r,
        ((0x05 | (r << 3)) >> 3) & 7 == r,
        (0x04 | (r << 3)) & 0xC7 == 0x04,
        (0x05 | (r << 3)) & 0xC7 == 0x05,
        (0x04 | (r << 3)) & 0xCF != 0x09,
        (0x04 | (r << 3)) & 0xCF != 0x03,
        (0x04 | (r << 3)) & 0xCF != 0x0B,
        (0x05 | (r << 3)) & 0xCF != 0x09,
        (0x05 | (r << 3)) & 0xCF != 0x03,
        (0x05 | (r << 3)) & 0xCF != 0x0B,
        (0x05 | (r << 3)) & 0xC7 != 0x04,
{
}


/// JP cc, nn jumps exactly when its condition holds of the flag byte F:
/// NZ (0) when bit 6 (Z) is clear, Z (1) when it is set, NC (2) and C (3) by
/// bit 0, PO (4) and PE (5) by bit 2, P (6) when bit 7 (S) is clear and M (7)
/// when it is set. Taken, PC is the operand; not taken, PC moves past the
/// three bytes.
#[verifier::spinoff_prover]
#[verifier::rlimit(50)]
pub proof fn law_jp_cc_conditions(x: Machine<Seq<u8>>, k: u8)
    requires
        k < 8,
        x.mem.len() == 0x10000,
    ensures
        ({
            let f = x.cpu.f();
            let taken = if k == 0 {
                f & 0x40 == 0
            } else if k == 1 {
                f & 0x40 != 0
            } else if k == 2 {
                f & 0x01 == 0
            } else if k == 3 {
                f & 0x01 != 0
            } else if k == 4 {
                f & 0x04 == 0
            } else if k == 5 {
                f & 0x04 != 0
            } else if k == 6 {
                f & 0x80 == 0
            } else {
                f & 0x80 != 0
            };
            let y = cpu_step::<FlatMemory>(0xC2 | (k << 3), x);
            &&& taken ==> y.cpu.pc() == read16_view::<FlatMemory>(x.mem, w16(x.cpu.pc() + 1))
            &&& !taken ==> y.cpu.pc() == w16(x.cpu.pc() + 3)
        }),
{
    lemma_instruction_bits(k, 4, 0);
    crate::bits::lemma_selectors();
    let op = 0xC2 | (k << 3);
    assert(cpu_step::<FlatMemory>(op, x) == block3_step::<FlatMemory>(op, x));
    assert(x.cpu.flags() == crate::cpu::pc_state::flags_of(x.cpu.f()));
    let y = block3_step::<FlatMemory>(op, x);
    assert(y.cpu == (if condition(x.cpu, k) { x.cpu.with_pc(read16_view::<FlatMemory>(x.mem, w16(x.cpu.pc() + 1))) } else { x.cpu.adv_pc(3) }));
}


/// AND, XOR and OR of A with a register or (HL) (op codes 0xA0 to 0xB7): A
/// becomes `a & v`, `a ^ v` or `a | v`; C and N are cleared whatever they
/// were, H is set by AND and cleared by XOR and OR, Z says whether the result
/// is zero and S is its bit 7.
#[verifier::spinoff_prover]
#[verifier::rlimit(50)]
pub proof fn law_logic_ops(x: Machine<Seq<u8>>, g: u8, k: u8)
    requires
        4 <= g <= 6,
        k < 8,
        x.mem.len() == 0x10000,
    ensures
        ({
            let a = x.cpu.a();
            let v = if k == 6 { FlatMemory::read_view(x.mem, x.cpu.hl()) } else { x.cpu.reg8(k) };
            let r = if g == 4 { a & v } else if g == 5 { a ^ v } else { a | v };
            let y = cpu_step::<FlatMemory>(0x80 | (g << 3) | k, x).cpu;
            let f = y.f();
            &&& y.a() == r
            &&& f & 0x01 == 0
            &&& f & 0x02 == 0
            &&& (f & 0x10 != 0) == (g == 4)
            &&& (f & 0x40 != 0) == (r == 0)
            &&& (f & 0x80 != 0) == (r >= 128)
            &&& y.pc() == w16(x.cpu.pc() + 1)
        }),
{
    lemma_instruction_bits(k, g, 0);
    let op = 0x80 | (g << 3) | k;
    assert(cpu_step::<FlatMemory>(op, x) == block2_step::<FlatMemory>(op, x));
    let a = x.cpu.a();
    let v = if k == 6 { FlatMemory::read_view(x.mem, x.cpu.hl()) } else { x.cpu.reg8(k) };
    let r = if g == 4 { a & v } else if g == 5 { a ^ v } else { a | v };
    let fl = logic_flags(x.cpu.flags(), r, g == 4);
    crate::cpu::pc_state::lemma_flags_of_byte_of(fl);
    assert(block2_step::<FlatMemory>(op, x).cpu == acc_op(x.cpu, r, fl, 1));
}


/// AND n, XOR n and OR n (0xE6, 0xEE, 0xF6) with the byte `n` after the op
/// code: A becomes `a & n`, `a ^ n` or `a | n`; C and N are cleared, H is set
/// by AND only, Z and S follow the result; PC moves two bytes on.
#[verifier::spinoff_prover]
#[verifier::rlimit(50)]
pub proof fn law_logic_immediate(x: Machine<Seq<u8>>, op: u8)
    requires
        op == 0xE6 || op == 0xEE || op == 0xF6,
        x.mem.len() == 0x10000,
    ensures
        ({
            let a = x.cpu.a();
            let n = FlatMemory::read_view(x.mem, w16(x.cpu.pc() + 1));
            let r = if op == 0xE6 { a & n } else if op == 0xEE { a ^ n } else { a | n };
            let y = cpu_step::<FlatMemory>(op, x).cpu;
            let f = y.f();
            &&& y.a() == r
            &&& f & 0x01 == 0
            &&& f & 0x02 == 0
            &&& (f & 0x10 != 0) == (op == 0xE6)
            &&& (f & 0x40 != 0) == (r == 0)
            &&& (f & 0x80 != 0) == (r >= 128)
            &&& y.pc() == w16(x.cpu.pc() + 2)
        }),
{
    lemma_instruction_bits(0, 4, 0);
    assert(cpu_step::<FlatMemory>(op, x) == block3_step::<FlatMemory>(op, x));
    let a = x.cpu.a();
    let n = FlatMemory::read_view(x.mem, w16(x.cpu.pc() + 1));
    let r = if op == 0xE6 { a & n } else if op == 0xEE { a ^ n } else { a | n };
    let fl = logic_flags(x.cpu.flags(), r, op == 0xE6);
    crate::cpu::pc_state::lemma_flags_of_byte_of(fl);
    assert(block3_step::<FlatMemory>(op, x).cpu == acc_op(x.cpu, r, fl, 2));
}


/// What DEC r does, as register file.
#[verifier::spinoff_prover]
#[verifier::rlimit(50)]
proof fn lemma_dec_r_step(x: Machine<Seq<u8>>, r: u8)
    requires
        r < 8,
        r != 6,
    ensures
        ({
            let s = x.cpu;
            let nv = crate::cpu::pc_state::w8(s.reg8(r) - 1);
            cpu_step::<FlatMemory>(0x05 | (r << 3), x).cpu == s.with_reg8(r, nv).with_flags(dec_flags(s.flags(), nv)).adv_pc(1)
        }),
{
    lemma_instruction_bits(0, 4, r);
    crate::bits::lemma_selectors();
    let op = 0x05 | (r << 3);
    assert(cpu_step::<FlatMemory>(op, x) == block0_step::<FlatMemory>(op, x));
    let s = x.cpu;
    let nv = crate::cpu::pc_state::w8(s.reg8(r) - 1);
    assert(s.with_reg8(r, nv).flags() == s.flags());
}

/// What INC r does, as register file.
#[verifier::spinoff_prover]
#[verifier::rlimit(50)]
proof fn lemma_inc_r_step(x: Machine<Seq<u8>>, r: u8)
    requires
        r < 8,
        r != 6,
    ensures
        ({
            let s = x.cpu;
            let nv = crate::cpu::pc_state::w8(s.reg8(r) + 1);
            cpu_step::<FlatMemory>(0x04 | (r << 3), x).cpu == s.with_reg8(r, nv).with_flags(inc_flags(s.flags(), nv)).adv_pc(1)
        }),
{
    lemma_instruction_bits(0, 4, r);
    crate::bits::lemma_selectors();
    let op = 0x04 | (r << 3);
    assert(cpu_step::<FlatMemory>(op, x) == block0_step::<FlatMemory>(op, x));
    let s = x.cpu;
    let nv = crate::cpu::pc_state::w8(s.reg8(r) + 1);
    assert(s.with_reg8(r, nv).flags() == s.flags());
}

/// The byte after a decrement of `v` and its nibble and sign.
proof fn lemma_dec_arith(v: u8)
    ensures
        ({
            let nv = crate::cpu::pc_state::w8(v - 1);
            &&& nv as int == (if v == 0 { 255 } else { v - 1 })
            &&& (nv == 0) == (v == 1)
            &&& (nv >= 128) == (v == 0 || v > 0x80)
            &&& (nv % 16 == 15) == (v % 16 == 0)
            &&& (nv == 0x7F) == (v == 0x80)
        }),
{
}

/// The byte after an increment of `v` and its nibble and sign.
proof fn lemma_inc_arith(v: u8)
    ensures
        ({
            let nv = crate::cpu::pc_state::w8(v + 1);
            &&& nv as int == (if v == 255 { 0 } else { v + 1 })
            &&& (nv == 0) == (v == 255)
            &&& (nv >= 128) == (0x7F <= v < 0xFF)
            &&& (nv % 16 == 0) == (v % 16 == 15)
            &&& (nv == 0x80) == (v == 0x7F)
        }),
{
}

/// Reading back a register just written, under a new flag byte and PC.
proof fn lemma_reg_after_flags(s: PcState, r: u8, nv: u8, fl: Flags, d: int)
    requires
        r < 8,
        r != 6,
    ensures
        s.with_reg8(r, nv).with_flags(fl).adv_pc(d).reg8(r) == nv,
        s.with_reg8(r, nv).with_flags(fl).adv_pc(d).flags() == fl,
{
    crate::bits::lemma_selectors();
    crate::cpu::pc_state::lemma_flags_of_byte_of(fl);
    lemma_instruction_bits(0, 4, r);
}

/// DEC r (B, C, D, E, H, L or A) on a register holding `v`: the register
/// holds `v - 1` (0xFF from 0); Z is set exactly when `v` was 1, S exactly
/// when the new value has bit 7 set (`v` was 0 or above 0x80), N is set, H
/// is set exactly when the low nibble borrowed (`v % 16 == 0`), P/V exactly
/// when `v` was 0x80, and C is kept.
#[verifier::spinoff_prover]
#[verifier::rlimit(50)]
pub proof fn law_dec_r(x: Machine<Seq<u8>>, r: u8)
    requires
        r < 8,
        r != 6,
    ensures
        ({
            let v = x.cpu.reg8(r);
            let y = cpu_step::<FlatMemory>(0x05 | (r << 3), x).cpu;
            let f = y.f();
            &&& y.reg8(r) as int == (if v == 0 { 255 } else { v - 1 })
            &&& (f & 0x40 != 0) == (v == 1)
            &&& (f & 0x80 != 0) == (v == 0 || v > 0x80)
            &&& f & 0x02 != 0
            &&& (f & 0x10 != 0) == (v % 16 == 0)
            &&& (f & 0x04 != 0) == (v == 0x80)
            &&& (f & 0x01 != 0) == (x.cpu.f() & 0x01 != 0)
        }),
{
    lemma_dec_r_step(x, r);
    let s = x.cpu;
    let nv = crate::cpu::pc_state::w8(s.reg8(r) - 1);
    lemma_reg_after_flags(s, r, nv, dec_flags(s.flags(), nv), 1);
    lemma_dec_arith(s.reg8(r));
}

/// INC r (B, C, D, E, H, L or A) on a register holding `v`: the register
/// holds `v + 1` (0 from 0xFF); Z is set exactly when `v` was 0xFF, S exactly
/// when the new value has bit 7 set (`v` from 0x7F to 0xFE), N is cleared, H
/// is set exactly when the low nibble carried (`v % 16 == 15`), P/V exactly
/// when `v` was 0x7F, and C is kept.
#[verifier::spinoff_prover]
#[verifier::rlimit(50)]
pub proof fn law_inc_r(x: Machine<Seq<u8>>, r: u8)
    requires
        r < 8,
        r != 6,
    ensures
        ({
            let v = x.cpu.reg8(r);
            let y = cpu_step::<FlatMemory>(0x04 | (r << 3), x).cpu;
            let f = y.f();
            &&& y.reg8(r) as int == (if v == 255 { 0 } else { v + 1 })
            &&& (f & 0x40 != 0) == (v == 255)
            &&& (f & 0x80 != 0) == (0x7F <= v < 0xFF)
            &&& f & 0x02 == 0
            &&& (f & 0x10 != 0) == (v % 16 == 15)
            &&& (f & 0x04 != 0) == (v == 0x7F)
            &&& (f & 0x01 != 0) == (x.cpu.f() & 0x01 != 0)
        }),
{
    lemma_inc_r_step(x, r);
    let s = x.cpu;
    let nv = crate::cpu::pc_state::w8(s.reg8(r) + 1);
    lemma_reg_after_flags(s, r, nv, inc_flags(s.flags(), nv), 1);
    lemma_inc_arith(s.reg8(r));
}

/// What a 0xCB-prefixed shift or rotation of a register does, as register file.
#[verifier::spinoff_prover]
#[verifier::rlimit(50)]
proof fn lemma_cb_shift_step(x: Machine<Seq<u8>>, b: u8, r: u8)
    requires
        b < 8,
        r < 8,
        r != 6,
        x.mem.len() == 0x10000,
        FlatMemory::read_view(x.mem, w16(x.cpu.pc() + 1)) == 8 * b + r,
    ensures
        cpu_step::<FlatMemory>(0xCB, x).cpu == shift_reg_spec(x.cpu, b, r, x.cpu.reg8(r)),
{
    let op = FlatMemory::read_view(x.mem, w16(x.cpu.pc() + 1));
    crate::bits::lemma_u8_bits(op);
    assert(cpu_step::<FlatMemory>(0xCB, x).cpu == crate::cpu::instructions::cb_step::<FlatMemory>(x.cpu, x.mem, x.cycles).cpu);
}

/// The value and carry out of each shift or rotation, in arithmetic.
proof fn lemma_shift_values(b: u8, v: u8, c: bool)
    requires
        b < 8,
    ensures
        ({
            let cin: int = if c { 1 } else { 0 };
            let left = b == 0 || b == 2 || b == 4 || b == 6;
            let low: int = (2 * v) % 256;
            let high: int = v as int / 2;
            let expected: int = if b == 0 {
                low + v / 128
            } else if b == 1 {
                high + 128 * (v % 2)
            } else if b == 2 {
                low + cin
            } else if b == 3 {
                high + 128 * cin
            } else if b == 4 {
                low
            } else if b == 5 {
                high + 128 * (v / 128)
            } else if b == 6 {
                low + 1
            } else {
                high
            };
            &&& shift_rot(b, v, c).0 as int == expected
            &&& shift_rot(b, v, c).1 == (if left { v >= 128 } else { v % 2 == 1 })
        }),
{
    let low: int = (2 * v) % 256;
    assert(low % 2 == 0 && low <= 254);
    assert(crate::cpu::pc_state::w8(v * 2) as int == low);
    assert(crate::cpu::pc_state::w8(v * 2 + 1) as int == low + 1);
}

/// The 0xCB-prefixed shifts and rotations of a register (second byte
/// `8 * b + r`, r not (HL)) on a register holding `v` with carry `c` in:
/// RLC (0) moves bit 7 round to bit 0, RRC (1) bit 0 round to bit 7, RL (2)
/// and RR (3) shift the carry in, SLA (4) shifts a 0 in at bit 0, SRA (5)
/// keeps bit 7, SLL (6) shifts a 1 in at bit 0 and SRL (7) a 0 in at bit 7.
/// The bit shifted out is the new carry: bit 7 for the left shifts, bit 0 for
/// the right ones.
#[verifier::spinoff_prover]
pub proof fn law_cb_shifts(x: Machine<Seq<u8>>, b: u8, r: u8)
    requires
        b < 8,
        r < 8,
        r != 6,
        x.mem.len() == 0x10000,
        FlatMemory::read_view(x.mem, w16(x.cpu.pc() + 1)) == 8 * b + r,
    ensures
        ({
            let v = x.cpu.reg8(r);
            let cin: int = if x.cpu.f() & 0x01 != 0 { 1 } else { 0 };
            let y = cpu_step::<FlatMemory>(0xCB, x).cpu;
            let left = b == 0 || b == 2 || b == 4 || b == 6;
            let low: int = (2 * v) % 256;
            let high: int = v as int / 2;
            let expected: int = if b == 0 {
                low + v / 128
            } else if b == 1 {
                high + 128 * (v % 2)
            } else if b == 2 {
                low + cin
            } else if b == 3 {
                high + 128 * cin
            } else if b == 4 {
                low
            } else if b == 5 {
                high + 128 * (v / 128)
            } else if b == 6 {
                low + 1
            } else {
                high
            };
            &&& y.reg8(r) as int == expected
            &&& (y.f() & 0x01 != 0) == (if left { v >= 128 } else { v % 2 == 1 })
            &&& y.pc() == w16(x.cpu.pc() + 2)
        }),
{
    lemma_cb_shift_step(x, b, r);
    let s = x.cpu;
    let (nv, carry) = shift_rot(b, s.reg8(r), s.flags().c);
    lemma_reg_after_flags(s, r, nv, shift_flags(s.flags(), nv, carry), 2);
    lemma_shift_values(b, s.reg8(r), s.flags().c);
}

/// What JR cc does, as register file.
#[verifier::spinoff_prover]
#[verifier::rlimit(50)]
proof fn lemma_jr_cc_step(x: Machine<Seq<u8>>, op: u8)
    requires
        op == 0x20 || op == 0x28 || op == 0x30 || op == 0x38,
        x.mem.len() == 0x10000,
    ensures
        ({
            let f = x.cpu.flags();
            let e = crate::cpu::status_flags::signed8(FlatMemory::read_view(x.mem, w16(x.cpu.pc() + 1)));
            let taken = if op == 0x20 { !f.z } else if op == 0x28 { f.z } else if op == 0x30 { !f.c } else { f.c };
            cpu_step::<FlatMemory>(op, x).cpu == (if taken { x.cpu.adv_pc(e) } else { x.cpu }).adv_pc(2)
        }),
{
    lemma_instruction_bits(0, 4, 0);
    assert(cpu_step::<FlatMemory>(op, x) == block0_step::<FlatMemory>(op, x));
}

/// JR NZ, JR Z, JR NC and JR C (0x20, 0x28, 0x30, 0x38) with displacement
/// byte `n`: taken exactly when Z (bit 6 of F) is clear, Z set, C (bit 0)
/// clear, C set, respectively; taken, PC moves by `n` read as a signed byte
/// past the two bytes of the instruction, else just past them.
#[verifier::spinoff_prover]
#[verifier::rlimit(50)]
pub proof fn law_jr_cc(x: Machine<Seq<u8>>, op: u8)
    requires
        op == 0x20 || op == 0x28 || op == 0x30 || op == 0x38,
        x.mem.len() == 0x10000,
    ensures
        ({
            let f = x.cpu.f();
            let n = FlatMemory::read_view(x.mem, w16(x.cpu.pc() + 1));
            let e: int = if n < 128 { n as int } else { n - 256 };
            let taken = if op == 0x20 {
                f & 0x40 == 0
            } else if op == 0x28 {
                f & 0x40 != 0
            } else if op == 0x30 {
                f & 0x01 == 0
            } else {
                f & 0x01 != 0
            };
            let y = cpu_step::<FlatMemory>(op, x).cpu;
            &&& taken ==> y.pc() == w16(x.cpu.pc() + 2 + e)
            &&& !taken ==> y.pc() == w16(x.cpu.pc() + 2)
        }),
{
    lemma_jr_cc_step(x, op);
    let pc = x.cpu.pc();
    let n = FlatMemory::read_view(x.mem, w16(pc + 1));
    let e = crate::cpu::status_flags::signed8(n);
    lemma_wrap_adds(pc, e);
}

/// Moving PC by `e` then by 2 is moving it by `2 + e`.
proof fn lemma_wrap_adds(pc: u16, e: int)
    ensures
        w16(w16(pc + e) + 2) == w16(pc + 2 + e),
{
    vstd::arithmetic::div_mod::lemma_add_mod_noop(pc + e, 2, 0x10000);
    vstd::arithmetic::div_mod::lemma_mod_twice(pc + e, 0x10000);
    vstd::arithmetic::div_mod::lemma_small_mod(2, 0x10000);
}

/// What ADD A, r and SUB r do, as register file.
#[verifier::spinoff_prover]
#[verifier::rlimit(50)]
proof fn lemma_add_sub_step(x: Machine<Seq<u8>>, g: u8, k: u8)
    requires
        g == 0 || g == 2,
        k < 8,
        x.mem.len() == 0x10000,
    ensures
        ({
            let a = x.cpu.a();
            let v = if k == 6 { FlatMemory::read_view(x.mem, x.cpu.hl()) } else { x.cpu.reg8(k) };
            let y = cpu_step::<FlatMemory>(0x80 | (g << 3) | k, x).cpu;
            &&& g == 0 ==> y == acc_op(x.cpu, u8_carry_result(a, v, false), add_flags(x.cpu.flags(), a, v, false), 1)
            &&& g == 2 ==> y == acc_op(x.cpu, sub_result(a, v, false), sub_flags(x.cpu.flags(), a, v, false), 1)
        }),
{
    lemma_instruction_bits(k, g, 0);
    let op = 0x80 | (g << 3) | k;
    assert(cpu_step::<FlatMemory>(op, x) == block2_step::<FlatMemory>(op, x));
}

/// The result and flags of an 8-bit add, in arithmetic.
proof fn lemma_add_arith(f: Flags, a: u8, v: u8)
    ensures
        ({
            let r = u8_carry_result(a, v, false);
            let fl = u8_carry_flags(f, a, v, false);
            let sa: int = if a < 128 { a as int } else { a - 256 };
            let sv: int = if v < 128 { v as int } else { v - 256 };
            &&& r as int == (a + v) % 256
            &&& fl.c == (a + v > 255)
            &&& fl.h == (a % 16 + v % 16 > 15)
            &&& fl.pv == (sa + sv > 127 || sa + sv < -128)
            &&& fl.z == (r == 0)
            &&& fl.s == (r >= 128)
        }),
{
}

/// The result and flags of an 8-bit subtract done as `a + !v + 1`, in arithmetic.
proof fn lemma_sub_arith(f: Flags, a: u8, v: u8)
    ensures
        ({
            let r = sub_result(a, v, false);
            let fl = sub_flags(f, a, v, false);
            let sa: int = if a < 128 { a as int } else { a - 256 };
            let sv: int = if v < 128 { v as int } else { v - 256 };
            &&& r as int == (a - v + 256) % 256
            &&& fl.c == (a >= v)
            &&& fl.h == (a % 16 >= v % 16)
            &&& fl.pv == (sa - sv > 127 || sa - sv < -128)
            &&& fl.z == (r == 0)
            &&& fl.s == (r >= 128)
            &&& fl.n
        }),
{
    let nv = (255 - v) as u8;
    assert(nv % 16 == 15 - v % 16);
}

/// The accumulator and flags after an ADD or SUB, from the operands.
#[verifier::spinoff_prover]
#[verifier::rlimit(50)]
proof fn lemma_add_sub_values(s: PcState, a: u8, v: u8, g: u8)
    requires
        g == 0 || g == 2,
    ensures
        ({
            let res = if g == 0 { u8_carry_result(a, v, false) } else { sub_result(a, v, false) };
            let fl = if g == 0 { add_flags(s.flags(), a, v, false) } else { sub_flags(s.flags(), a, v, false) };
            let y = acc_op(s, res, fl, 1);
            let f = y.f();
            let r = y.a();
            let sa: int = if a < 128 { a as int } else { a - 256 };
            let sv: int = if v < 128 { v as int } else { v - 256 };
            &&& g == 0 ==> r as int == (a + v) % 256
            &&& g == 0 ==> (f & 0x01 != 0) == (a + v > 255)
            &&& g == 0 ==> (f & 0x10 != 0) == (a % 16 + v % 16 > 15)
            &&& g == 0 ==> f & 0x02 == 0
            &&& g == 0 ==> (f & 0x04 != 0) == (sa + sv > 127 || sa + sv < -128)
            &&& g == 2 ==> r as int == (a - v + 256) % 256
            &&& g == 2 ==> (f & 0x01 != 0) == (a >= v)
            &&& g == 2 ==> (f & 0x10 != 0) == (a % 16 >= v % 16)
            &&& g == 2 ==> f & 0x02 != 0
            &&& g == 2 ==> (f & 0x04 != 0) == (sa - sv > 127 || sa - sv < -128)
            &&& (f & 0x40 != 0) == (r == 0)
            &&& (f & 0x80 != 0) == (r >= 128)
            &&& y.pc() == w16(s.pc() + 1)
        }),
{
    let fl = if g == 0 { add_flags(s.flags(), a, v, false) } else { sub_flags(s.flags(), a, v, false) };
    crate::cpu::pc_state::lemma_flags_of_byte_of(fl);
    if g == 0 {
        lemma_add_arith(s.flags(), a, v);
    } else {
        lemma_sub_arith(s.flags(), a, v);
    }
}

/// ADD A, r and SUB r (r a register or (HL)) on A holding `a` and an operand
/// `v`: ADD leaves `(a + v) mod 256` with C set exactly when the sum passes
/// 255, H exactly when the low nibbles carry, N clear; SUB leaves
/// `(a - v) mod 256` with N set, and C and H set exactly when no borrow comes
/// out of bit 7 and bit 3 (`a >= v`, low nibble of `a` >= that of `v`).
/// Either way Z says whether the result is zero, S is its bit 7, and P/V is
/// set exactly when the signed result overflows.
#[verifier::spinoff_prover]
#[verifier::rlimit(50)]
pub proof fn law_add_sub(x: Machine<Seq<u8>>, g: u8, k: u8)
    requires
        g == 0 || g == 2,
        k < 8,
        x.mem.len() == 0x10000,
    ensures
        ({
            let a = x.cpu.a();
            let v = if k == 6 { FlatMemory::read_view(x.mem, x.cpu.hl()) } else { x.cpu.reg8(k) };
            let y = cpu_step::<FlatMemory>(0x80 | (g << 3) | k, x).cpu;
            let f = y.f();
            let r = y.a();
            let sa: int = if a < 128 { a as int } else { a - 256 };
            let sv: int = if v < 128 { v as int } else { v - 256 };
            &&& g == 0 ==> r as int == (a + v) % 256
            &&& g == 0 ==> (f & 0x01 != 0) == (a + v > 255)
            &&& g == 0 ==> (f & 0x10 != 0) == (a % 16 + v % 16 > 15)
            &&& g == 0 ==> f & 0x02 == 0
            &&& g == 0 ==> (f & 0x04 != 0) == (sa + sv > 127 || sa + sv < -128)
            &&& g == 2 ==> r as int == (a - v + 256) % 256
            &&& g == 2 ==> (f & 0x01 != 0) == (a >= v)
            &&& g == 2 ==> (f & 0x10 != 0) == (a % 16 >= v % 16)
            &&& g == 2 ==> f & 0x02 != 0
            &&& g == 2 ==> (f & 0x04 != 0) == (sa - sv > 127 || sa - sv < -128)
            &&& (f & 0x40 != 0) == (r == 0)
            &&& (f & 0x80 != 0) == (r >= 128)
            &&& y.pc() == w16(x.cpu.pc() + 1)
        }),
{
    lemma_add_sub_step(x, g, k);
    let v = if k == 6 { FlatMemory::read_view(x.mem, x.cpu.hl()) } else { x.cpu.reg8(k) };
    lemma_add_sub_values(x.cpu, x.cpu.a(), v, g);
}

} // verus!
