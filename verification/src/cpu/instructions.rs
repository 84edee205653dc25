use vstd::prelude::*;
use crate::clocks::{Clock, tick};
use crate::cpu::pc_state::{
    PcState, Flags, bit, w8, w16, lemma_byte_of_flags_of, lemma_flags_of_byte_of, lemma_reg_of_value,
    lemma_value_reg_of,
};
use crate::cpu::status_flags::{signed8, u8_carry_result, u16_carry_flags, dec_flags, inc_flags, logic_flags, bit_test_flags};
use crate::cpu::instruction_set::{
    self, add_flags, sub_result, sub_flags, acc_op, push_view, rotate_acc_spec, ret_spec, daa_spec,
};
use crate::cpu::extended_instruction_set::{
    self, indexed, load_a_spec, with_bit, without_bit, shift_rot, shift_flags, shift_reg_spec,
    decimal_rotate_flags,
};
use crate::graphics::vdp::VdpView;
use crate::interruptor::{Interruptor, interrupt_spec};
use crate::memory::memory::{MemoryRW, read16_view};
use crate::ports::{Ports, devices_wf, ports_read_spec, ports_write_ok, ports_write_spec};

verus! {

broadcast use {lemma_byte_of_flags_of, lemma_flags_of_byte_of, lemma_reg_of_value, lemma_value_reg_of};

/// Everything an instruction can change: registers, memory, the clock and
/// the devices on the I/O ports.
pub struct Machine<V> {
    pub cpu: PcState,
    pub mem: V,
    pub cycles: u32,
    pub devices: Seq<VdpView>,
}

pub open spec fn machine<V>(cpu: PcState, mem: V, cycles: u32, devices: Seq<VdpView>) -> Machine<V> {
    Machine { cpu, mem, cycles, devices }
}

/// `x` with registers `s`, after `n` cycles.
pub open spec fn go<V>(x: Machine<V>, s: PcState, n: int) -> Machine<V> {
    Machine { cpu: s, cycles: tick(x.cycles, n), ..x }
}

/// `x` with registers `s` and memory `m`, after `n` cycles.
pub open spec fn go_mem<V>(x: Machine<V>, s: PcState, m: V, n: int) -> Machine<V> {
    Machine { cpu: s, mem: m, cycles: tick(x.cycles, n), ..x }
}

/// Condition `cc & 7` of a conditional jump, call or return: NZ, Z, NC, C,
/// PO, PE, P, M.
pub open spec fn condition(s: PcState, cc: u8) -> bool {
    let f = s.flags();
    let k = cc & 7;
    if k == 0 {
        !f.z
    } else if k == 1 {
        f.z
    } else if k == 2 {
        !f.c
    } else if k == 3 {
        f.c
    } else if k == 4 {
        !f.pv
    } else if k == 5 {
        f.pv
    } else if k == 6 {
        !f.s
    } else {
        f.s
    }
}

/// A relative jump by `e` past a two-byte instruction when `cond` holds.
pub open spec fn jr_step<V>(x: Machine<V>, cond: bool, e: int) -> Machine<V> {
    Machine {
        cpu: (if cond { x.cpu.adv_pc(e) } else { x.cpu }).adv_pc(2),
        cycles: if cond { tick(tick(x.cycles, 7), 5) } else { tick(x.cycles, 7) },
        ..x
    }
}

/// Op codes 0x00 to 0x3F: loads, 16-bit arithmetic, increments,
/// rotations of A and relative jumps.
pub open spec fn block0_step<M: MemoryRW>(op: u8, x: Machine<M::V>) -> Machine<M::V> {
    let s = x.cpu;
    let m = x.mem;
    let a = s.a();
    let n = M::read_view(m, w16(s.pc() + 1));
    let nn = read16_view::<M>(m, w16(s.pc() + 1));
    let e = signed8(n);
    let d = (op >> 3) & 7;
    let ss = (op >> 4) & 3;
    if op == 0x00 {
        go(x, s.adv_pc(1), 4)
    } else if op == 0x01 {
        go(x, s.with_bc(nn).adv_pc(3), 10)
    } else if op == 0x02 {
        go_mem(x, s.adv_pc(1), M::write_view(m, s.bc(), a), 7)
    } else if op == 0x12 {
        go_mem(x, s.adv_pc(1), M::write_view(m, s.de(), a), 7)
    } else if op & 0xCF == 0x09 {
        let src = s.reg16(ss);
        go(x, s.with_hl(w16(s.hl() + src)).with_flags(Flags { n: false, ..u16_carry_flags(s.flags(), s.hl(), src, false) }).adv_pc(1), 11)
    } else if op == 0x0f {
        let v = (a / 2 + 128 * (a % 2)) as u8;
        go(x, rotate_acc_spec(s, 7, v, a % 2 == 1, s.with_reg8(7, v).flags()), 4)
    } else if op == 0x1f {
        go(x, rotate_acc_spec(s, 7, (a / 2 + 128 * bit(s.flags().c)) as u8, a % 2 == 1, s.flags()), 4)
    } else if op == 0x07 {
        let v = (w8(a * 2) + a / 128) as u8;
        go(x, rotate_acc_spec(s, 7, v, a >= 128, s.with_reg8(7, v).flags()), 4)
    } else if op == 0x17 {
        go(x, rotate_acc_spec(s, 7, (w8(a * 2) + bit(s.flags().c)) as u8, a >= 128, s.flags()), 4)
    } else if op == 0x10 {
        let s1 = s.with_b(w8(s.b() - 1));
        Machine {
            cpu: (if s1.b() != 0 { s1.adv_pc(e) } else { s1 }).adv_pc(2),
            cycles: if s1.b() != 0 { tick(x.cycles, 13) } else { tick(x.cycles, 8) },
            ..x
        }
    } else if op == 0x11 {
        go(x, s.with_de(nn).adv_pc(3), 10)
    } else if op == 0x21 {
        go(x, s.with_hl(nn).adv_pc(3), 10)
    } else if op == 0x2a {
        go(x, s.with_hl(read16_view::<M>(m, nn)).adv_pc(3), 20)
    } else if op == 0x31 {
        go(x, s.with_sp(nn).adv_pc(3), 10)
    } else if op == 0x20 {
        jr_step(x, !s.flags().z, e)
    } else if op == 0x28 {
        jr_step(x, s.flags().z, e)
    } else if op & 0xCF == 0x03 {
        go(x, s.with_reg16(ss, w16(s.reg16(ss) + 1)).adv_pc(1), 6)
    } else if op & 0xCF == 0x0B {
        go(x, s.with_reg16(ss, w16(s.reg16(ss) - 1)).adv_pc(1), 6)
    } else if op == 0x34 {
        let v = w8(M::read_view(m, s.hl()) + 1);
        go_mem(x, s.with_flags(inc_flags(s.flags(), v)).adv_pc(1), M::write_view(m, s.hl(), v), 11)
    } else if op == 0x35 {
        let v = w8(M::read_view(m, s.hl()) - 1);
        go_mem(x, s.with_flags(dec_flags(s.flags(), v)).adv_pc(1), M::write_view(m, s.hl(), v), 11)
    } else if op == 0x36 {
        go_mem(x, s.adv_pc(2), M::write_view(m, s.hl(), n), 10)
    } else if op == 0x3a {
        go(x, s.with_reg8(7, M::read_view(m, nn)).adv_pc(3), 13)
    } else if op & 0xC7 == 0x04 {
        let v = w8(s.reg8(d) + 1);
        go(x, s.with_reg8(d, v).with_flags(inc_flags(s.with_reg8(d, v).flags(), v)).adv_pc(1), 4)
    } else if op & 0xC7 == 0x05 {
        let v = w8(s.reg8(d) - 1);
        go(x, s.with_reg8(d, v).with_flags(dec_flags(s.with_reg8(d, v).flags(), v)).adv_pc(1), 4)
    } else if op == 0x0a {
        go(x, s.with_reg8(7, M::read_view(m, s.bc())).adv_pc(1), 7)
    } else if op == 0x1a {
        go(x, s.with_reg8(7, M::read_view(m, s.de())).adv_pc(1), 7)
    } else if op & 0xC7 == 0x06 {
        go(x, s.with_reg8(d, n).adv_pc(2), 7)
    } else if op == 0x08 {
        go(x, (PcState { af_reg: s.shadow_af_reg, shadow_af_reg: s.af_reg, ..s }).adv_pc(1), 4)
    } else if op == 0x18 {
        Machine { cpu: s.adv_pc(e).adv_pc(2), cycles: tick(tick(x.cycles, 7), 5), ..x }
    } else if op == 0x22 {
        let m1 = M::write_view(m, nn, s.l());
        go_mem(x, s.adv_pc(3), M::write_view(m1, w16(read16_view::<M>(m1, w16(s.pc() + 1)) + 1), s.h()), 16)
    } else if op == 0x27 {
        go(x, daa_spec(s).adv_pc(1), 4)
    } else if op == 0x2f {
        go(x, s.with_flags(Flags { h: true, n: true, ..s.flags() }).with_a((255 - a) as u8).adv_pc(1), 4)
    } else if op == 0x30 {
        jr_step(x, !s.flags().c, e)
    } else if op == 0x32 {
        go_mem(x, s.adv_pc(3), M::write_view(m, nn, a), 13)
    } else if op == 0x37 {
        go(x, s.with_flags(Flags { h: false, n: false, c: true, ..s.flags() }).adv_pc(1), 4)
    } else if op == 0x38 {
        jr_step(x, s.flags().c, e)
    } else {
        let f = s.flags();
        go(x, s.with_flags(Flags { h: f.c, n: false, c: !f.c, ..f }).adv_pc(1), 4)
    }
}

/// Op codes 0x40 to 0x7F: 8-bit loads between registers and (HL).
pub open spec fn block1_step<M: MemoryRW>(op: u8, x: Machine<M::V>) -> Machine<M::V> {
    let s = x.cpu;
    let m = x.mem;
    if op & 0xF8 == 0x70 {
        go_mem(x, s.adv_pc(1), M::write_view(m, s.hl(), s.reg8(op & 7)), 7)
    } else if op & 7 == 6 {
        go(x, s.with_reg8((op >> 3) & 7, M::read_view(m, s.hl())).adv_pc(1), 7)
    } else {
        go(x, s.with_reg8((op >> 3) & 7, s.reg8(op & 7)).adv_pc(1), 4)
    }
}

/// Op codes 0x80 to 0xBF: 8-bit arithmetic and logic on A.
pub open spec fn block2_step<M: MemoryRW>(op: u8, x: Machine<M::V>) -> Machine<M::V> {
    let s = x.cpu;
    let f = s.flags();
    let a = s.a();
    let k = op & 7;
    let g = (op >> 3) & 7;
    let (v, len) = if k == 6 { (M::read_view(x.mem, s.hl()), 7int) } else { (s.reg8(k), 4int) };
    if g == 0 {
        go(x, acc_op(s, u8_carry_result(a, v, false), add_flags(f, a, v, false), 1), len)
    } else if g == 1 {
        go(x, acc_op(s, u8_carry_result(a, v, f.c), add_flags(f, a, v, f.c), 1), len)
    } else if g == 2 {
        go(x, acc_op(s, sub_result(a, v, false), sub_flags(f, a, v, false), 1), len)
    } else if g == 3 {
        go(x, acc_op(s, sub_result(a, v, f.c), sub_flags(f, a, v, f.c), 1), len)
    } else if g == 4 {
        go(x, acc_op(s, a & v, logic_flags(f, a & v, true), 1), len)
    } else if g == 5 {
        go(x, acc_op(s, a ^ v, logic_flags(f, a ^ v, false), 1), len)
    } else if g == 6 {
        go(x, acc_op(s, a | v, logic_flags(f, a | v, false), 1), len)
    } else {
        go(x, s.with_flags(sub_flags(f, a, v, false)).adv_pc(1), len)
    }
}

/// The register pair that pops and pushes name: 0 BC, 1 DE, 2 HL, 3 AF.
pub open spec fn stack_pair(op: u8) -> u8 {
    if op < 0xD0 { 0 } else if op < 0xE0 { 1 } else if op < 0xF0 { 2 } else { 3 }
}

/// Op codes 0xC0 to 0xFF, but for the prefixes and EI: jumps, calls,
/// returns, the stack, exchanges, I/O and arithmetic with an immediate byte.
pub open spec fn block3_step<M: MemoryRW>(op: u8, x: Machine<M::V>) -> Machine<M::V> {
    let s = x.cpu;
    let m = x.mem;
    let f = s.flags();
    let a = s.a();
    let n = M::read_view(m, w16(s.pc() + 1));
    let nn = read16_view::<M>(m, w16(s.pc() + 1));
    let cond = condition(s, (op >> 3) & 7);
    let s1 = s.adv_pc(3);
    let pushed = push_view::<M>(m, s1.sp(), s1.pc_reg.high, s1.pc_reg.low);
    let called = s1.with_sp(w16(s1.sp() - 2)).with_pc(read16_view::<M>(pushed, w16(s1.pc() - 2)));
    if op & 0xC7 == 0xC7 {
        let r1 = s.adv_pc(1);
        go_mem(
            x,
            r1.with_sp(w16(r1.sp() - 2)).with_pc((op & 0x38) as u16),
            push_view::<M>(m, r1.sp(), r1.pc_reg.high, r1.pc_reg.low),
            11,
        )
    } else if op & 0xC7 == 0xC0 {
        Machine {
            cpu: if cond { ret_spec::<M>(s, m) } else { s.adv_pc(1) },
            cycles: tick(x.cycles, if cond { 11 } else { 5 }),
            ..x
        }
    } else if op & 0xC7 == 0xC2 {
        Machine {
            cpu: if cond { s.with_pc(nn) } else { s.adv_pc(3) },
            cycles: if cond { tick(tick(x.cycles, 5), 10) } else { tick(x.cycles, 10) },
            ..x
        }
    } else if op & 0xC7 == 0xC4 {
        if cond { go_mem(x, called, pushed, 17) } else { go(x, s1, 10) }
    } else if op == 0xc1 || op == 0xd1 || op == 0xe1 || op == 0xf1 {
        go(x, s.with_reg16(stack_pair(op), read16_view::<M>(m, s.sp())).with_sp(w16(s.sp() + 2)).adv_pc(1), 10)
    } else if op == 0xc5 || op == 0xd5 || op == 0xe5 || op == 0xf5 {
        let src = s.reg16(stack_pair(op));
        go_mem(x, s.with_sp(w16(s.sp() - 2)).adv_pc(1), push_view::<M>(m, s.sp(), (src / 256) as u8, (src % 256) as u8), 11)
    } else if op == 0xc3 {
        go(x, s.with_pc(nn), 10)
    } else if op == 0xc6 {
        let r = u8_carry_result(a, n, false);
        go(x, acc_op(s, r, logic_flags(add_flags(f, a, n, false), r, true), 2), 7)
    } else if op == 0xce {
        let r = u8_carry_result(a, n, f.c);
        go(x, acc_op(s, r, logic_flags(add_flags(f, a, n, f.c), r, true), 2), 7)
    } else if op == 0xd6 {
        let r = sub_result(a, n, false);
        go(x, acc_op(s, r, logic_flags(sub_flags(f, a, n, false), r, true), 2), 7)
    } else if op == 0xde {
        let r = sub_result(a, n, f.c);
        go(x, acc_op(s, r, logic_flags(sub_flags(f, a, n, f.c), r, true), 2), 7)
    } else if op == 0xe6 {
        go(x, acc_op(s, a & n, logic_flags(f, a & n, true), 2), 7)
    } else if op == 0xee {
        go(x, acc_op(s, a ^ n, logic_flags(f, a ^ n, false), 2), 7)
    } else if op == 0xf6 {
        go(x, acc_op(s, a | n, logic_flags(f, a | n, false), 2), 7)
    } else if op == 0xfe {
        go(x, s.with_flags(sub_flags(f, a, n, false)).adv_pc(2), 7)
    } else if op == 0xc9 {
        go(x, ret_spec::<M>(s, m), 10)
    } else if op == 0xcd {
        go_mem(x, called, pushed, 17)
    } else if op == 0xd3 {
        Machine { cpu: s.adv_pc(2), cycles: tick(x.cycles, 11), devices: ports_write_spec(x.devices, n, a), ..x }
    } else if op == 0xdb {
        let (devices, value) = ports_read_spec(x.devices, x.cycles, n);
        Machine { cpu: s.with_a(value).adv_pc(2), cycles: tick(x.cycles, 11), devices, ..x }
    } else if op == 0xd9 {
        go(
            x,
            (PcState {
                bc_reg: s.shadow_bc_reg,
                de_reg: s.shadow_de_reg,
                hl_reg: s.shadow_hl_reg,
                shadow_bc_reg: s.bc_reg,
                shadow_de_reg: s.de_reg,
                shadow_hl_reg: s.hl_reg,
                ..s
            }).adv_pc(1),
            4,
        )
    } else if op == 0xe3 {
        let m1 = M::write_view(m, s.sp(), s.l());
        let m2 = M::write_view(m1, w16(s.sp() + 1), s.h());
        go_mem(x, s.with_l(M::read_view(m, s.sp())).with_h(M::read_view(m1, w16(s.sp() + 1))).adv_pc(1), m2, 19)
    } else if op == 0xe9 {
        go(x, s.with_pc(s.hl()), 4)
    } else if op == 0xeb {
        go(x, (PcState { de_reg: s.hl_reg, hl_reg: s.de_reg, ..s }).adv_pc(1), 4)
    } else if op == 0xf3 {
        go(x, (PcState { iff1: false, iff2: false, ..s }).adv_pc(1), 4)
    } else {
        go(x, s.with_sp(s.hl()).adv_pc(1), 6)
    }
}

/// Whether op code `op` of 0xC0 to 0xFF (but the prefixes and EI) is
/// executed in machine `x`: a port write must suit the devices.
pub open spec fn block3_ok<M: MemoryRW>(op: u8, x: Machine<M::V>) -> bool {
    op == 0xd3 ==> ports_write_ok(x.devices, M::read_view(x.mem, w16(x.cpu.pc() + 1)), x.cpu.a())
}

/// The 0xCB-prefixed instructions: bit tests, sets, resets, shifts and
/// rotations of a register or (HL).
pub open spec fn cb_step<M: MemoryRW>(s: PcState, m: M::V, c: u32) -> Machine<M::V> {
    let x = machine(s, m, c, Seq::empty());
    let op = M::read_view(m, w16(s.pc() + 1));
    let k = op & 7;
    let b = (op >> 3) & 7;
    let hlv = M::read_view(m, s.hl());
    if op >= 0x40 && op < 0x80 {
        if k != 6 {
            go(x, s.with_flags(bit_test_flags(s.flags(), s.reg8(k), b)).adv_pc(2), 8)
        } else {
            go(x, s.with_flags(bit_test_flags(s.flags(), hlv, b)).adv_pc(2), 12)
        }
    } else if op >= 0xC0 {
        if k != 6 {
            go(x, s.with_reg8(k, with_bit(s.reg8(k), b)).adv_pc(2), 8)
        } else {
            go_mem(x, s.adv_pc(2), M::write_view(m, s.hl(), with_bit(hlv, b)), 12)
        }
    } else if op >= 0x80 {
        if k != 6 {
            go(x, s.with_reg8(k, without_bit(s.reg8(k), b)).adv_pc(2), 8)
        } else {
            go_mem(x, s.adv_pc(2), M::write_view(m, s.hl(), without_bit(hlv, b)), 12)
        }
    } else if k != 6 {
        go(x, shift_reg_spec(s, b, k, s.reg8(k)), 8)
    } else {
        let (v, carry) = shift_rot(if b == 6 { 7u8 } else { b }, hlv, false);
        go_mem(x, s.with_flags(shift_flags(s.flags(), v, carry)).adv_pc(2), M::write_view(m, s.hl(), v), 15)
    }
}

/// Whether the 0xCB-prefixed instruction at PC is executed: of the
/// shifts and rotations of (HL), only RLC, RRC, SLA, SRA and 0x36 are.
pub open spec fn cb_ok<M: MemoryRW>(s: PcState, m: M::V) -> bool {
    let op = M::read_view(m, w16(s.pc() + 1));
    let b = (op >> 3) & 7;
    op >= 0x40 || op & 7 != 6 || b == 0 || b == 1 || b == 4 || b == 5 || b == 6
}

/// The index register, IY when `iy`, else IX.
pub open spec fn index_reg(s: PcState, iy: bool) -> u16 {
    if iy { s.iy() } else { s.ix() }
}

/// `s` with the index register set to `v`.
pub open spec fn with_index(s: PcState, iy: bool, v: u16) -> PcState {
    if iy { s.with_iy(v) } else { s.with_ix(v) }
}

/// The 0xDD (IX) and 0xFD (IY) prefixed instructions.
pub open spec fn index_step<M: MemoryRW>(s: PcState, m: M::V, c: u32, iy: bool) -> Machine<M::V> {
    let x = machine(s, m, c, Seq::empty());
    let f = s.flags();
    let op = M::read_view(m, w16(s.pc() + 1));
    let iv = index_reg(s, iy);
    let ireg = if iy { s.iy_reg } else { s.ix_reg };
    let address = indexed(iv, M::read_view(m, w16(s.pc() + 2)));
    let nn = read16_view::<M>(m, w16(s.pc() + 2));
    if op == 0xcb {
        let v = M::read_view(m, address);
        let op4 = M::read_view(m, w16(s.pc() + 3));
        let bit_pos = ((op4 / 8) % 8) as u8;
        if op4 < 0x80 {
            go(x, s.with_flags(bit_test_flags(f, v, bit_pos)).adv_pc(4), 23)
        } else if op4 < 0xC0 {
            go_mem(x, s.adv_pc(4), M::write_view(m, address, without_bit(v, bit_pos)), 23)
        } else {
            go_mem(x, s.adv_pc(4), M::write_view(m, address, with_bit(v, bit_pos)), 23)
        }
    } else if op == 0x22 {
        let m1 = M::write_view(m, nn, ireg.low);
        go_mem(x, s.adv_pc(4), M::write_view(m1, w16(read16_view::<M>(m1, w16(s.pc() + 2)) + 1), ireg.high), 20)
    } else if op == 0x2A {
        go(x, with_index(s, iy, read16_view::<M>(m, nn)).adv_pc(4), 20)
    } else if op == 0x36 {
        go_mem(x, s.adv_pc(4), M::write_view(m, address, M::read_view(m, w16(s.pc() + 3))), 19)
    } else if op & 0xC7 == 0x46 {
        go(x, s.with_reg8((op >> 3) & 7, M::read_view(m, address)).adv_pc(3), 16)
    } else if op & 0xF8 == 0x70 {
        go_mem(x, s.adv_pc(3), M::write_view(m, address, s.reg8(op & 7)), 19)
    } else if op == 0xE9 {
        go(x, s.with_pc(iv), 8)
    } else if op == 0x21 {
        go(x, with_index(s, iy, nn).adv_pc(4), 20)
    } else if op == 0xBE {
        go(x, s.with_flags(sub_flags(f, s.a(), M::read_view(m, address), false)).adv_pc(3), 19)
    } else if op & 0xCF == 0x09 {
        let src = s.reg16((op >> 4) & 3);
        go(x, with_index(s, iy, w16(iv + src)).with_flags(Flags { n: false, ..u16_carry_flags(f, iv, src, false) }).adv_pc(1), 15)
    } else if op == 0x34 {
        let v = w8(M::read_view(m, address) + 1);
        go_mem(x, s.with_flags(inc_flags(f, v)).adv_pc(3), M::write_view(m, address, v), 23)
    } else {
        let v = w8(M::read_view(m, address) - 1);
        go_mem(x, s.with_flags(dec_flags(f, v)).adv_pc(3), M::write_view(m, address, v), 23)
    }
}

/// Whether the 0xDD/0xFD-prefixed instruction at PC is executed.
pub open spec fn index_ok<M: MemoryRW>(s: PcState, m: M::V) -> bool {
    let op = M::read_view(m, w16(s.pc() + 1));
    let k = op & 7;
    ||| op == 0xcb && M::read_view(m, w16(s.pc() + 3)) >= 0x40
    ||| op == 0x22 || op == 0x2A || op == 0x36 || op == 0xE9 || op == 0x21 || op == 0xBE || op == 0x34 || op == 0x35
    ||| op & 0xC7 == 0x46 && (op >> 3) & 7 != 6
    ||| op & 0xF8 == 0x70 && k != 6
    ||| op & 0xCF == 0x09
}

/// The 0xED-prefixed instructions.
pub open spec fn ed_step<M: MemoryRW>(s: PcState, m: M::V, c: u32) -> Machine<M::V> {
    let x = machine(s, m, c, Seq::empty());
    let op = M::read_view(m, w16(s.pc() + 1));
    let nn = read16_view::<M>(m, w16(s.pc() + 2));
    let hlv = M::read_view(m, s.hl());
    if op == 0x00 {
        go(x, s.adv_pc(1), 4)
    } else if op & 0xCF == 0x01 {
        go(x, s.with_reg16((op >> 4) & 3, read16_view::<M>(m, nn)).adv_pc(4), 20)
    } else if op == 0x43 || op == 0x53 || op == 0x63 || op == 0x73 {
        let r = if op == 0x43 { s.bc_reg } else if op == 0x53 { s.de_reg } else if op == 0x63 { s.hl_reg } else { s.sp_reg };
        let m1 = M::write_view(m, nn, r.low);
        go_mem(x, s.adv_pc(4), M::write_view(m1, w16(read16_view::<M>(m1, w16(s.pc() + 2)) + 1), r.high), 20)
    } else if op == 0x5F {
        let r = ((x.cycles / 4) % 128 + (if s.r >= 128 { 128int } else { 0 })) as u8;
        go(x, load_a_spec(PcState { r: r, ..s }, r), 9)
    } else if op == 0x57 {
        go(x, load_a_spec(s, s.i), 9)
    } else if op == 0x47 {
        go(x, (PcState { i: s.a(), ..s }).adv_pc(2), 9)
    } else if op == 0x4F {
        go(x, (PcState { r: s.a(), ..s }).adv_pc(2), 9)
    } else if op == 0x67 {
        let a = ((s.a() / 16) * 16 + hlv % 16) as u8;
        go_mem(x, s.with_a(a).with_flags(decimal_rotate_flags(s.flags(), a)).adv_pc(2),
            M::write_view(m, s.hl(), (hlv / 16 + (s.a() % 16) * 16) as u8), 18)
    } else {
        let a = ((s.a() / 16) * 16 + hlv / 16) as u8;
        go_mem(x, s.with_a(a).with_flags(decimal_rotate_flags(s.flags(), a)).adv_pc(2),
            M::write_view(m, s.hl(), ((hlv % 16) * 16 + s.a() % 16) as u8), 18)
    }
}

/// Whether the 0xED-prefixed instruction at PC is executed.
pub open spec fn ed_ok<M: MemoryRW>(s: PcState, m: M::V) -> bool {
    let op = M::read_view(m, w16(s.pc() + 1));
    ||| op == 0x00 || op & 0xCF == 0x01
    ||| op == 0x43 || op == 0x53 || op == 0x63 || op == 0x73
    ||| op == 0x5F || op == 0x57 || op == 0x47 || op == 0x4F || op == 0x67 || op == 0x6f
}

/// The value of the 8-bit register that `reg_select & 7` selects.
fn select_8_bit_read_register(pc_state: &PcState, reg_select: u8) -> (r: u8)
    requires
        reg_select & 7 != 6,
    ensures
        r == pc_state.reg8(reg_select),
{
    pc_state.get_reg8(reg_select)
}

/// Whether condition `condition_select & 7` holds.
fn get_condition_result(pc_state: &PcState, condition_select: u8) -> (r: bool)
    ensures
        r == condition(*pc_state, condition_select),
{
    let f = pc_state.get_f();
    let k = condition_select & 0b111;
    if k == 0 {
        f.get_z() == 0
    } else if k == 1 {
        f.get_z() == 1
    } else if k == 2 {
        f.get_c() == 0
    } else if k == 3 {
        f.get_c() == 1
    } else if k == 4 {
        f.get_pv() == 0
    } else if k == 5 {
        f.get_pv() == 1
    } else if k == 6 {
        f.get_s() == 0
    } else {
        f.get_s() == 1
    }
}

/// The value of the register pair that `reg_select & 3` selects.
fn select_16_bit_read_register(pc_state: &PcState, reg_select: u8) -> (r: u16)
    ensures
        r == pc_state.reg16(reg_select),
{
    pc_state.get_reg16(reg_select)
}

/// Op codes 0x00 to 0x3F.
#[verifier::spinoff_prover]
#[verifier::rlimit(100)]
fn execute_block0<M: MemoryRW>(op: u8, clock: &mut Clock, memory: &mut M, pc_state: &mut PcState, Ghost(devices): Ghost<Seq<VdpView>>)
    requires
        op < 0x40,
    ensures
        block0_step::<M>(op, machine(*old(pc_state), old(memory)@, old(clock).cycles, devices))
            == machine(*final(pc_state), final(memory)@, final(clock).cycles, devices),
{
    let ghost d = (op >> 3) & 7;
    proof {
        crate::bits::lemma_selectors();
    }
    assert((op & 0xC7 == 0x04 || op & 0xC7 == 0x05 || op & 0xC7 == 0x06 ==> d != 6 || op == 0x34 || op == 0x35 || op == 0x36) && d & 7 == d) by (bit_vector)
        requires
            d == (op >> 3) & 7,
    ;
    if op == 0x00 {
        instruction_set::noop(clock, pc_state);
    } else if op == 0x01 {
        instruction_set::ld_16_nn(clock, memory, &mut pc_state.pc_reg, &mut pc_state.bc_reg);
    } else if op == 0x02 {
        let a = pc_state.get_a();
        instruction_set::ld_mem_r(clock, memory, a, &mut pc_state.pc_reg, &pc_state.bc_reg);
    } else if op == 0x12 {
        let a = pc_state.get_a();
        instruction_set::ld_mem_r(clock, memory, a, &mut pc_state.pc_reg, &pc_state.de_reg);
    } else if op & 0b11001111 == 0b00001001 {
        let ss = (op >> 4) & 0x3;
        let src = select_16_bit_read_register(pc_state, ss);
        instruction_set::add16(clock, src, &mut pc_state.pc_reg, &mut pc_state.hl_reg, &mut pc_state.af_reg);
    } else if op == 0x0f {
        let a = pc_state.get_a();
        instruction_set::rrca(clock, pc_state, 7, a);
    } else if op == 0x1f {
        let a = pc_state.get_a();
        instruction_set::rra(clock, pc_state, 7, a);
    } else if op == 0x07 {
        let a = pc_state.get_a();
        instruction_set::rlca(clock, pc_state, 7, a);
    } else if op == 0x17 {
        let a = pc_state.get_a();
        instruction_set::rla(clock, pc_state, 7, a);
    } else if op == 0x10 {
        instruction_set::djnz(clock, memory, pc_state);
    } else if op == 0x11 {
        instruction_set::ld_16_nn(clock, memory, &mut pc_state.pc_reg, &mut pc_state.de_reg);
    } else if op == 0x21 {
        instruction_set::ld_16_nn(clock, memory, &mut pc_state.pc_reg, &mut pc_state.hl_reg);
    } else if op == 0x2a {
        instruction_set::ld_r16_mem(clock, memory, &mut pc_state.pc_reg, &mut pc_state.hl_reg);
    } else if op == 0x31 {
        instruction_set::ld_16_nn(clock, memory, &mut pc_state.pc_reg, &mut pc_state.sp_reg);
    } else if op == 0x20 {
        instruction_set::jrnz_e(clock, memory, pc_state);
    } else if op == 0x28 {
        instruction_set::jrz_e(clock, memory, pc_state);
    } else if op & 0b11001111 == 0b00000011 {
        let ss = (op >> 4) & 0x3;
        let v = select_16_bit_read_register(pc_state, ss);
        instruction_set::inc_16(clock, ss, pc_state, v);
    } else if op & 0b11001111 == 0b00001011 {
        let ss = (op >> 4) & 0x3;
        let v = select_16_bit_read_register(pc_state, ss);
        instruction_set::dec_16(clock, ss, pc_state, v);
    } else if op == 0x34 {
        instruction_set::inc_hl(clock, memory, pc_state);
    } else if op == 0x35 {
        instruction_set::dec_hl(clock, memory, pc_state);
    } else if op == 0x36 {
        instruction_set::ld_mem_n(clock, memory, &mut pc_state.pc_reg, &mut pc_state.hl_reg);
    } else if op == 0x3a {
        instruction_set::ld_r8_mem(clock, memory, pc_state, 7);
    } else if op & 0b11000111 == 0b00000100 {
        let reg_index = (op >> 3) & 0x7;
        let v = select_8_bit_read_register(pc_state, reg_index);
        instruction_set::inc_r(clock, pc_state, reg_index, v);
    } else if op & 0b11000111 == 0b00000101 {
        let reg_index = (op >> 3) & 0x7;
        let v = select_8_bit_read_register(pc_state, reg_index);
        instruction_set::dec_r(clock, pc_state, reg_index, v);
    } else if op == 0x0a {
        let address = pc_state.bc_reg.get();
        instruction_set::ld_r_mem(clock, memory, pc_state, 7, address);
    } else if op == 0x1a {
        let address = pc_state.de_reg.get();
        instruction_set::ld_r_mem(clock, memory, pc_state, 7, address);
    } else if op & 0b11000111 == 0b00000110 {
        let reg_index = (op >> 3) & 0x7;
        instruction_set::ld_r(clock, memory, pc_state, reg_index);
    } else if op == 0x08 {
        instruction_set::ex(clock, &mut pc_state.pc_reg, &mut pc_state.af_reg, &mut pc_state.shadow_af_reg);
    } else if op == 0x18 {
        instruction_set::jr_e(clock, memory, pc_state);
    } else if op == 0x22 {
        instruction_set::ld_mem_nn_hl(clock, memory, pc_state);
    } else if op == 0x27 {
        instruction_set::daa(clock, pc_state);
    } else if op == 0x2f {
        instruction_set::cpl(clock, pc_state);
    } else if op == 0x30 {
        instruction_set::jrnc_e(clock, memory, pc_state);
    } else if op == 0x32 {
        let a = pc_state.get_a();
        instruction_set::ld_nn_r(clock, memory, a, &mut pc_state.pc_reg);
    } else if op == 0x37 {
        instruction_set::scf(clock, &mut pc_state.pc_reg, &mut pc_state.af_reg);
    } else if op == 0x38 {
        instruction_set::jrc_e(clock, memory, pc_state);
    } else {
        assert(op == 0x3f) by (bit_vector)
            requires
                op < 0x40,
                op != 0x00 && op != 0x01 && op != 0x02 && op != 0x12 && op & 0xCF != 0x09 && op != 0x0f && op != 0x1f,
                op != 0x07 && op != 0x17 && op != 0x10 && op != 0x11 && op != 0x21 && op != 0x2a && op != 0x31,
                op != 0x20 && op != 0x28 && op & 0xCF != 0x03 && op & 0xCF != 0x0B && op != 0x34 && op != 0x35,
                op != 0x36 && op != 0x3a && op & 0xC7 != 0x04 && op & 0xC7 != 0x05 && op != 0x0a && op != 0x1a,
                op & 0xC7 != 0x06 && op != 0x08 && op != 0x18 && op != 0x22 && op != 0x27 && op != 0x2f,
                op != 0x30 && op != 0x32 && op != 0x37 && op != 0x38,
        ;
        instruction_set::ccf(clock, &mut pc_state.pc_reg, &mut pc_state.af_reg);
    }
}

/// Op codes 0x40 to 0x7F but HALT.
#[verifier::spinoff_prover]
#[verifier::rlimit(50)]
fn execute_block1<M: MemoryRW>(op: u8, clock: &mut Clock, memory: &mut M, pc_state: &mut PcState, Ghost(devices): Ghost<Seq<VdpView>>)
    requires
        0x40 <= op < 0x80,
        op != 0x76,
    ensures
        block1_step::<M>(op, machine(*old(pc_state), old(memory)@, old(clock).cycles, devices))
            == machine(*final(pc_state), final(memory)@, final(clock).cycles, devices),
{
    let reg_index = op & 0x7;
    let dst = (op >> 3) & 0x7;
    assert(reg_index & 7 == reg_index && dst & 7 == dst && (op & 0xF8 == 0x70 ==> reg_index != 6 || op == 0x76)
        && (op & 0xF8 != 0x70 && 0x40 <= op < 0x80 ==> dst != 6)) by (bit_vector)
        requires
            reg_index == op & 0x7,
            dst == (op >> 3) & 0x7,
    ;
    if op & 0b11111000 == 0b01110000 {
        let r = select_8_bit_read_register(pc_state, reg_index);
        instruction_set::ld_mem_r(clock, memory, r, &mut pc_state.pc_reg, &pc_state.hl_reg);
    } else if reg_index == 6 {
        let address = pc_state.hl_reg.get();
        instruction_set::ld_r_mem(clock, memory, pc_state, dst, address);
    } else {
        let r = select_8_bit_read_register(pc_state, reg_index);
        instruction_set::ld_r_r(clock, r, pc_state, dst);
    }
}

/// Op codes 0x80 to 0xBF that are executed.
#[verifier::spinoff_prover]
#[verifier::rlimit(100)]
fn execute_block2<M: MemoryRW>(op: u8, clock: &mut Clock, memory: &mut M, pc_state: &mut PcState, Ghost(devices): Ghost<Seq<VdpView>>)
    requires
        0x80 <= op < 0xC0,
    ensures
        block2_step::<M>(op, machine(*old(pc_state), old(memory)@, old(clock).cycles, devices))
            == machine(*final(pc_state), final(memory)@, final(clock).cycles, devices),
{
    let k = op & 0x7;
    let g = (op >> 3) & 0x7;
    assert(k & 7 == k && g < 8 && k < 8) by (bit_vector)
        requires
            k == op & 0x7,
            g == (op >> 3) & 0x7,
    ;
    if k == 6 {
        if g == 0 {
            instruction_set::add_hl(clock, memory, pc_state);
        } else if g == 1 {
            instruction_set::adc_hl(clock, memory, pc_state);
        } else if g == 2 {
            instruction_set::sub_hl(clock, memory, pc_state);
        } else if g == 3 {
            instruction_set::sbc_hl(clock, memory, pc_state);
        } else if g == 4 {
            instruction_set::and_hl(clock, memory, pc_state);
        } else if g == 5 {
            instruction_set::xor_hl(clock, memory, pc_state);
        } else if g == 6 {
            instruction_set::or_hl(clock, memory, pc_state);
        } else {
            instruction_set::cp_hl(clock, memory, pc_state);
        }
    } else {
        let r = select_8_bit_read_register(pc_state, k);
        if g == 0 {
            instruction_set::add_r(clock, r, pc_state);
        } else if g == 1 {
            instruction_set::adc_r(clock, r, pc_state);
        } else if g == 2 {
            instruction_set::sub_r(clock, r, pc_state);
        } else if g == 3 {
            instruction_set::sbc_r(clock, r, pc_state);
        } else if g == 4 {
            instruction_set::and_r(clock, r, pc_state);
        } else if g == 5 {
            instruction_set::xor_r(clock, r, pc_state);
        } else if g == 6 {
            instruction_set::or_r(clock, r, pc_state);
        } else {
            instruction_set::cp_r(clock, r, pc_state);
        }
    }
}

/// Op codes 0xC0 to 0xFF that are executed, but the prefixes and EI.
#[verifier::spinoff_prover]
#[verifier::rlimit(100)]
fn execute_block3<M: MemoryRW>(op: u8, clock: &mut Clock, memory: &mut M, pc_state: &mut PcState, ports: &mut Ports)
    requires
        op >= 0xC0,
        op != 0xCB && op != 0xDD && op != 0xED && op != 0xFD && op != 0xFB,
        block3_ok::<M>(op, machine(*old(pc_state), old(memory)@, old(clock).cycles, old(ports)@)),
        devices_wf(old(ports)@),
    ensures
        block3_step::<M>(op, machine(*old(pc_state), old(memory)@, old(clock).cycles, old(ports)@))
            == machine(*final(pc_state), final(memory)@, final(clock).cycles, final(ports)@),
        devices_wf(final(ports)@),
{
    proof {
        crate::bits::lemma_selectors();
    }
    let cc = (op >> 3) & 0b111;
    if op & 0b11000111 == 0b11000111 {
        instruction_set::rst(clock, memory, pc_state, op & 0x38);
    } else if op & 0b11000111 == 0b11000000 {
        let condition = get_condition_result(pc_state, cc);
        instruction_set::ret_cc(clock, memory, pc_state, condition);
    } else if op & 0b11000111 == 0b11000010 {
        let condition = get_condition_result(pc_state, cc);
        instruction_set::jump_cc_nn(clock, memory, pc_state, condition);
    } else if op & 0b11000111 == 0b11000100 {
        let condition = get_condition_result(pc_state, cc);
        instruction_set::call_cc_nn(clock, memory, pc_state, condition);
    } else if op == 0xc1 {
        instruction_set::pop(clock, memory, &mut pc_state.pc_reg, &mut pc_state.sp_reg, &mut pc_state.bc_reg);
    } else if op == 0xd1 {
        instruction_set::pop(clock, memory, &mut pc_state.pc_reg, &mut pc_state.sp_reg, &mut pc_state.de_reg);
    } else if op == 0xe1 {
        instruction_set::pop(clock, memory, &mut pc_state.pc_reg, &mut pc_state.sp_reg, &mut pc_state.hl_reg);
    } else if op == 0xf1 {
        instruction_set::pop(clock, memory, &mut pc_state.pc_reg, &mut pc_state.sp_reg, &mut pc_state.af_reg);
    } else if op == 0xc5 {
        instruction_set::push(clock, memory, &mut pc_state.pc_reg, &mut pc_state.sp_reg, &pc_state.bc_reg);
    } else if op == 0xd5 {
        instruction_set::push(clock, memory, &mut pc_state.pc_reg, &mut pc_state.sp_reg, &pc_state.de_reg);
    } else if op == 0xe5 {
        instruction_set::push(clock, memory, &mut pc_state.pc_reg, &mut pc_state.sp_reg, &pc_state.hl_reg);
    } else if op == 0xf5 {
        instruction_set::push(clock, memory, &mut pc_state.pc_reg, &mut pc_state.sp_reg, &pc_state.af_reg);
    } else if op == 0xc3 {
        instruction_set::jp_nn(clock, memory, pc_state);
    } else if op == 0xc6 {
        instruction_set::add_n(clock, memory, pc_state);
    } else if op == 0xce {
        instruction_set::adc_n(clock, memory, pc_state);
    } else if op == 0xd6 {
        instruction_set::sub_n(clock, memory, pc_state);
    } else if op == 0xde {
        instruction_set::sbc_n(clock, memory, pc_state);
    } else if op == 0xe6 {
        instruction_set::and_n(clock, memory, pc_state);
    } else if op == 0xee {
        instruction_set::xor_n(clock, memory, pc_state);
    } else if op == 0xf6 {
        instruction_set::or_n(clock, memory, pc_state);
    } else if op == 0xfe {
        instruction_set::cp_n(clock, memory, pc_state);
    } else if op == 0xc9 {
        instruction_set::ret(clock, memory, pc_state);
    } else if op == 0xcd {
        instruction_set::call_nn(clock, memory, pc_state);
    } else if op == 0xd3 {
        instruction_set::out_n_a(clock, memory, pc_state, ports);
    } else if op == 0xdb {
        instruction_set::in_a_n(clock, memory, pc_state, ports);
    } else if op == 0xd9 {
        instruction_set::exx(clock, pc_state);
    } else if op == 0xe3 {
        instruction_set::ex_sp_hl(clock, memory, pc_state);
    } else if op == 0xe9 {
        instruction_set::jp_hl(clock, &pc_state.hl_reg, &mut pc_state.pc_reg);
    } else if op == 0xeb {
        instruction_set::ex(clock, &mut pc_state.pc_reg, &mut pc_state.de_reg, &mut pc_state.hl_reg);
    } else if op == 0xf3 {
        instruction_set::di(clock, pc_state);
    } else {
        assert(op == 0xf9) by (bit_vector)
            requires
                op >= 0xC0,
                op & 0xC7 != 0xC7,
                op != 0xCB && op != 0xDD && op != 0xED && op != 0xFD && op != 0xFB,
                op & 0xC7 != 0xC0 && op & 0xC7 != 0xC2 && op & 0xC7 != 0xC4,
                op != 0xc1 && op != 0xd1 && op != 0xe1 && op != 0xf1 && op != 0xc5 && op != 0xd5 && op != 0xe5,
                op != 0xf5 && op != 0xc3 && op != 0xc6 && op != 0xce && op != 0xd6 && op != 0xde && op != 0xe6,
                op != 0xee && op != 0xf6 && op != 0xfe && op != 0xc9 && op != 0xcd && op != 0xd3 && op != 0xdb,
                op != 0xd9 && op != 0xe3 && op != 0xe9 && op != 0xeb && op != 0xf3,
        ;
        instruction_set::ld_sp_hl(clock, &pc_state.hl_reg, &mut pc_state.pc_reg, &mut pc_state.sp_reg);
    }
}

/// The machine after instruction `op` of the 0xCB, 0xDD, 0xED or 0xFD
/// group, with the devices `devices` left alone.
pub open spec fn with_devices<V>(x: Machine<V>, devices: Seq<VdpView>) -> Machine<V> {
    Machine { devices, ..x }
}

/// How many EI op codes follow one another from address `a`, counting no
/// more than `k`.
pub open spec fn ei_run<M: MemoryRW>(m: M::V, a: u16, k: nat) -> nat
    decreases k,
{
    if k == 0 {
        0
    } else if M::read_view(m, a) == 0xFB {
        1 + ei_run::<M>(m, w16(a + 1), (k - 1) as nat)
    } else {
        0
    }
}

/// A run that ends before the count does is counted in full.
pub proof fn lemma_ei_run_stable<M: MemoryRW>(m: M::V, a: u16, k: nat)
    requires
        ei_run::<M>(m, a, k) < k,
    ensures
        ei_run::<M>(m, a, k + 1) == ei_run::<M>(m, a, k),
    decreases k,
{
    if k > 0 && M::read_view(m, a) == 0xFB {
        lemma_ei_run_stable::<M>(m, w16(a + 1), (k - 1) as nat);
    }
}

/// EI executes the next instruction before it takes effect; this bounds how
/// deep a run of EIs goes.
pub open spec fn ei_measure<M: MemoryRW>(op: u8, s: PcState, m: M::V) -> nat {
    if op == 0xFB { 1 + ei_run::<M>(m, w16(s.pc() + 1), 0x10000) } else { 0 }
}

/// The machine after executing op code `op` (already read from PC) in
/// machine `x`.
pub open spec fn cpu_step<M: MemoryRW>(op: u8, x: Machine<M::V>) -> Machine<M::V>
    decreases ei_measure::<M>(op, x.cpu, x.mem),
{
    let s = x.cpu;
    let m = x.mem;
    if op == 0xCB {
        with_devices(cb_step::<M>(s, m, x.cycles), x.devices)
    } else if op == 0xDD {
        with_devices(index_step::<M>(s, m, x.cycles, false), x.devices)
    } else if op == 0xED {
        with_devices(ed_step::<M>(s, m, x.cycles), x.devices)
    } else if op == 0xFD {
        with_devices(index_step::<M>(s, m, x.cycles, true), x.devices)
    } else if op == 0xFB {
        if ei_run::<M>(m, w16(s.pc() + 1), 0x10000) < 0x10000 {
            // The instruction after EI runs first; then interrupts are
            // enabled and one is taken.
            let x1 = Machine { cpu: s.adv_pc(1), ..x };
            let next = M::read_view(m, w16(s.pc() + 1));
            proof {
                if next == 0xFB {
                    lemma_ei_run_stable::<M>(m, w16(w16(s.pc() + 1) + 1), 0xFFFF);
                }
            }
            let x2 = cpu_step::<M>(next, x1);
            let (s4, m4) = interrupt_spec::<M>(PcState { iff1: true, iff2: true, ..x2.cpu }, x2.mem);
            Machine { cpu: s4, mem: m4, cycles: tick(x2.cycles, 4), devices: x2.devices }
        } else {
            x
        }
    } else if op < 0x40 {
        block0_step::<M>(op, x)
    } else if op < 0x80 {
        block1_step::<M>(op, x)
    } else if op < 0xC0 {
        block2_step::<M>(op, x)
    } else {
        block3_step::<M>(op, x)
    }
}

/// Whether op code `op` is executed in machine `x`: the instruction is
/// implemented, its operands suit it, and after EI the instruction that
/// follows is executed and interrupt mode 1 is set. HALT is not, nor are the
/// prefixed instructions outside `cb_ok`, `index_ok` and `ed_ok`.
pub open spec fn step_ok<M: MemoryRW>(op: u8, x: Machine<M::V>) -> bool
    decreases ei_measure::<M>(op, x.cpu, x.mem),
{
    let s = x.cpu;
    let m = x.mem;
    &&& devices_wf(x.devices)
    &&& if op == 0xCB {
        cb_ok::<M>(s, m)
    } else if op == 0xDD || op == 0xFD {
        index_ok::<M>(s, m)
    } else if op == 0xED {
        ed_ok::<M>(s, m)
    } else if op == 0xFB {
        if ei_run::<M>(m, w16(s.pc() + 1), 0x10000) < 0x10000 {
            let x1 = Machine { cpu: s.adv_pc(1), ..x };
            let next = M::read_view(m, w16(s.pc() + 1));
            proof {
                if next == 0xFB {
                    lemma_ei_run_stable::<M>(m, w16(w16(s.pc() + 1) + 1), 0xFFFF);
                }
            }
            step_ok::<M>(next, x1) && cpu_step::<M>(next, x1).cpu.im == 1
        } else {
            false
        }
    } else if op < 0x40 {
        true
    } else if op < 0x80 {
        op != 0x76
    } else if op < 0xC0 {
        true
    } else {
        block3_ok::<M>(op, x)
    }
}

#[verifier::spinoff_prover]
#[verifier::rlimit(100)]
proof fn lemma_block0_keeps_im<M: MemoryRW>(op: u8, x: Machine<M::V>)
    ensures
        block0_step::<M>(op, x).cpu.im == x.cpu.im,
{
}

#[verifier::spinoff_prover]
#[verifier::rlimit(100)]
proof fn lemma_block3_keeps_im<M: MemoryRW>(op: u8, x: Machine<M::V>)
    ensures
        block3_step::<M>(op, x).cpu.im == x.cpu.im,
{
}

#[verifier::spinoff_prover]
#[verifier::rlimit(100)]
proof fn lemma_prefixed_keep_im<M: MemoryRW>(s: PcState, m: M::V, c: u32)
    ensures
        cb_step::<M>(s, m, c).cpu.im == s.im,
        index_step::<M>(s, m, c, false).cpu.im == s.im,
        index_step::<M>(s, m, c, true).cpu.im == s.im,
        ed_step::<M>(s, m, c).cpu.im == s.im,
{
}

/// No instruction that is executed changes the interrupt mode.
pub proof fn lemma_step_keeps_im<M: MemoryRW>(op: u8, x: Machine<M::V>)
    requires
        step_ok::<M>(op, x),
    ensures
        cpu_step::<M>(op, x).cpu.im == x.cpu.im,
    decreases ei_measure::<M>(op, x.cpu, x.mem),
{
    let s = x.cpu;
    lemma_block0_keeps_im::<M>(op, x);
    lemma_block3_keeps_im::<M>(op, x);
    lemma_prefixed_keep_im::<M>(s, x.mem, x.cycles);
    if op == 0xFB {
        let x1 = Machine { cpu: s.adv_pc(1), ..x };
        let next = M::read_view(x.mem, w16(s.pc() + 1));
        if next == 0xFB {
            lemma_ei_run_stable::<M>(x.mem, w16(w16(s.pc() + 1) + 1), 0xFFFF);
        }
        lemma_step_keeps_im::<M>(next, x1);
    }
}

/// Register selectors in the index instructions that are executed.
proof fn lemma_index_op(op: u8)
    by (bit_vector)
    requires
        op == 0xcb || op == 0x22 || op == 0x2A || op == 0x36 || op == 0xE9 || op == 0x21 || op == 0xBE || op == 0x34
            || op == 0x35 || (op & 0xC7 == 0x46 && (op >> 3) & 7 != 6) || (op & 0xF8 == 0x70 && op & 7 != 6) || op & 0xCF == 0x09,
    ensures
        op & 0xC7 == 0x46 ==> (op >> 3) & 7 != 6,
        op & 0xF8 == 0x70 && op & 0xC7 != 0x46 ==> op & 7 != 6,
        ((op >> 3) & 7) & 7 == (op >> 3) & 7,
        (op & 7) & 7 == op & 7,
        op == 0xcb ==> op & 0xC7 != 0x46 && op & 0xF8 != 0x70 && op & 0xCF != 0x09,
{
}

/// The length of the run of EI op codes from `address`, counting no more
/// than 0x10000.
fn ei_run_length<M: MemoryRW>(memory: &M, address: u16) -> (r: u32)
    ensures
        r == ei_run::<M>(memory@, address, 0x10000),
{
    let mut count: u32 = 0;
    let mut a = address;
    while count < 0x10000 && memory.read(a) == 0xFB
        invariant
            count <= 0x10000,
            ei_run::<M>(memory@, address, 0x10000) == count + ei_run::<M>(memory@, a, (0x10000 - count) as nat),
        decreases 0x10000 - count,
    {
        count = count + 1;
        a = a.wrapping_add(1);
    }
    count
}

pub struct Instruction {}

impl Instruction {
    /// Execute the 0xCB-prefixed instruction at PC: bit tests, sets and
    /// resets, and shifts and rotations.
    #[verifier::spinoff_prover]
    #[verifier::rlimit(100)]
    pub fn execute_cb<M: MemoryRW>(clock: &mut Clock, memory: &mut M, pc_state: &mut PcState, interruptor: &mut Interruptor)
        requires
            cb_ok::<M>(*old(pc_state), old(memory)@),
        ensures
            cb_step::<M>(*old(pc_state), old(memory)@, old(clock).cycles)
                == machine(*final(pc_state), final(memory)@, final(clock).cycles, Seq::<VdpView>::empty()),
            *final(interruptor) == *old(interruptor),
    {
        let op_code = memory.read(pc_state.get_pc().wrapping_add(1));
        let reg_index = op_code & 0x7;
        let bit_pos = (op_code >> 3) & 0x7;
        assert(reg_index & 7 == reg_index && bit_pos < 8) by (bit_vector)
            requires
                reg_index == op_code & 0x7,
                bit_pos == (op_code >> 3) & 0x7,
        ;
        if op_code >= 0x40 && op_code < 0x80 {
            if reg_index != 6 {
                let r = select_8_bit_read_register(pc_state, reg_index);
                extended_instruction_set::bit_b_r(clock, bit_pos, r, &mut pc_state.pc_reg, &mut pc_state.af_reg);
            } else {
                extended_instruction_set::bit_b_mem(clock, memory, bit_pos, &mut pc_state.pc_reg, &mut pc_state.af_reg, &pc_state.hl_reg);
            }
        } else if op_code >= 0xC0 {
            if reg_index != 6 {
                let current_r = select_8_bit_read_register(pc_state, reg_index);
                extended_instruction_set::set_b_r(clock, bit_pos, pc_state, reg_index, current_r);
            } else {
                extended_instruction_set::set_b_mem(clock, memory, bit_pos, &mut pc_state.pc_reg, &pc_state.hl_reg);
            }
        } else if op_code >= 0x80 {
            if reg_index != 6 {
                let current_r = select_8_bit_read_register(pc_state, reg_index);
                extended_instruction_set::res_b_r(clock, bit_pos, pc_state, reg_index, current_r);
            } else {
                extended_instruction_set::res_b_mem(clock, memory, bit_pos, &mut pc_state.pc_reg, &pc_state.hl_reg);
            }
        } else if reg_index != 6 {
            let current_r = select_8_bit_read_register(pc_state, reg_index);
            if bit_pos == 0 {
                extended_instruction_set::rlc_r(clock, pc_state, reg_index, current_r);
            } else if bit_pos == 1 {
                extended_instruction_set::rrc_r(clock, pc_state, reg_index, current_r);
            } else if bit_pos == 2 {
                extended_instruction_set::rl_r(clock, pc_state, reg_index, current_r);
            } else if bit_pos == 3 {
                extended_instruction_set::rr_r(clock, pc_state, reg_index, current_r);
            } else if bit_pos == 4 {
                extended_instruction_set::sla_r(clock, pc_state, reg_index, current_r);
            } else if bit_pos == 5 {
                extended_instruction_set::sra_r(clock, pc_state, reg_index, current_r);
            } else if bit_pos == 6 {
                extended_instruction_set::sll_r(clock, pc_state, reg_index, current_r);
            } else {
                extended_instruction_set::srl_r(clock, pc_state, reg_index, current_r);
            }
        } else if bit_pos == 0 {
            extended_instruction_set::rlc_hl(clock, memory, &mut pc_state.pc_reg, &mut pc_state.af_reg, &pc_state.hl_reg);
        } else if bit_pos == 1 {
            extended_instruction_set::rrc_hl(clock, memory, &mut pc_state.pc_reg, &mut pc_state.af_reg, &pc_state.hl_reg);
        } else if bit_pos == 4 {
            extended_instruction_set::sla_hl(clock, memory, &mut pc_state.pc_reg, &mut pc_state.af_reg, &pc_state.hl_reg);
        } else if bit_pos == 5 {
            extended_instruction_set::sra_hl(clock, memory, &mut pc_state.pc_reg, &mut pc_state.af_reg, &pc_state.hl_reg);
        } else {
            extended_instruction_set::srl_hl(clock, memory, &mut pc_state.pc_reg, &mut pc_state.af_reg, &pc_state.hl_reg);
        }
    }

    /// Execute the 0xDD-prefixed (IX) instruction at PC.
    #[verifier::spinoff_prover]
    #[verifier::rlimit(100)]
    pub fn execute_dd<M: MemoryRW>(clock: &mut Clock, memory: &mut M, pc_state: &mut PcState, interruptor: &mut Interruptor)
        requires
            index_ok::<M>(*old(pc_state), old(memory)@),
        ensures
            index_step::<M>(*old(pc_state), old(memory)@, old(clock).cycles, false)
                == machine(*final(pc_state), final(memory)@, final(clock).cycles, Seq::<VdpView>::empty()),
            *final(interruptor) == *old(interruptor),
    {
        let op_code = memory.read(pc_state.get_pc().wrapping_add(1));
        proof {
            lemma_index_op(op_code);
        }
        if op_code == 0xcb {
            extended_instruction_set::bit_res_set_b_i_d(clock, memory, &mut pc_state.pc_reg, &mut pc_state.af_reg, &pc_state.ix_reg);
        } else if op_code == 0x22 {
            extended_instruction_set::ld_mem_nn_reg16(clock, memory, &mut pc_state.pc_reg, &pc_state.ix_reg);
        } else if op_code == 0x2A {
            extended_instruction_set::ld_i_mem_nn(clock, memory, &mut pc_state.pc_reg, &mut pc_state.ix_reg);
        } else if op_code == 0x36 {
            extended_instruction_set::ld_i_d_n(clock, memory, &mut pc_state.pc_reg, &mut pc_state.ix_reg);
        } else if op_code & 0b11000111 == 0b01000110 {
            let reg_index = (op_code >> 3) & 0x7;
            let index = pc_state.ix_reg.get();
            extended_instruction_set::ld_r_i_d(clock, memory, pc_state, index, reg_index);
        } else if op_code & 0b11111000 == 0b01110000 {
            let reg_index = op_code & 0x7;
            let r = select_8_bit_read_register(pc_state, reg_index);
            extended_instruction_set::ld_i_d_r(clock, memory, r, &mut pc_state.pc_reg, &pc_state.ix_reg);
        } else if op_code == 0xE9 {
            extended_instruction_set::jp_i(clock, &mut pc_state.pc_reg, &pc_state.ix_reg);
        } else if op_code == 0x21 {
            extended_instruction_set::ld_i_nn(clock, memory, &mut pc_state.pc_reg, &mut pc_state.ix_reg);
        } else if op_code == 0xBE {
            let index = pc_state.ix_reg.get();
            extended_instruction_set::cp_i_d(clock, memory, index, pc_state);
        } else if op_code & 0b11001111 == 0b00001001 {
            let ss = (op_code >> 4) & 0x3;
            let src = select_16_bit_read_register(pc_state, ss);
            extended_instruction_set::add16(clock, src, &mut pc_state.pc_reg, &mut pc_state.ix_reg, &mut pc_state.af_reg);
        } else if op_code == 0x34 {
            extended_instruction_set::inc_i_d(clock, memory, &mut pc_state.pc_reg, &mut pc_state.af_reg, &pc_state.ix_reg);
        } else {
            extended_instruction_set::dec_i_d(clock, memory, &mut pc_state.pc_reg, &mut pc_state.af_reg, &pc_state.ix_reg);
        }
    }

    /// Execute the 0xFD-prefixed (IY) instruction at PC.
    #[verifier::spinoff_prover]
    #[verifier::rlimit(100)]
    pub fn execute_fd<M: MemoryRW>(clock: &mut Clock, memory: &mut M, pc_state: &mut PcState, interruptor: &mut Interruptor)
        requires
            index_ok::<M>(*old(pc_state), old(memory)@),
        ensures
            index_step::<M>(*old(pc_state), old(memory)@, old(clock).cycles, true)
                == machine(*final(pc_state), final(memory)@, final(clock).cycles, Seq::<VdpView>::empty()),
            *final(interruptor) == *old(interruptor),
    {
        let op_code = memory.read(pc_state.get_pc().wrapping_add(1));
        proof {
            lemma_index_op(op_code);
        }
        if op_code == 0xcb {
            extended_instruction_set::bit_res_set_b_i_d(clock, memory, &mut pc_state.pc_reg, &mut pc_state.af_reg, &pc_state.iy_reg);
        } else if op_code == 0x22 {
            extended_instruction_set::ld_mem_nn_reg16(clock, memory, &mut pc_state.pc_reg, &pc_state.iy_reg);
        } else if op_code == 0x2A {
            extended_instruction_set::ld_i_mem_nn(clock, memory, &mut pc_state.pc_reg, &mut pc_state.iy_reg);
        } else if op_code == 0x36 {
            extended_instruction_set::ld_i_d_n(clock, memory, &mut pc_state.pc_reg, &mut pc_state.iy_reg);
        } else if op_code & 0b11000111 == 0b01000110 {
            let reg_index = (op_code >> 3) & 0x7;
            let index = pc_state.iy_reg.get();
            extended_instruction_set::ld_r_i_d(clock, memory, pc_state, index, reg_index);
        } else if op_code & 0b11111000 == 0b01110000 {
            let reg_index = op_code & 0x7;
            let r = select_8_bit_read_register(pc_state, reg_index);
            extended_instruction_set::ld_i_d_r(clock, memory, r, &mut pc_state.pc_reg, &pc_state.iy_reg);
        } else if op_code == 0xE9 {
            extended_instruction_set::jp_i(clock, &mut pc_state.pc_reg, &pc_state.iy_reg);
        } else if op_code == 0x21 {
            extended_instruction_set::ld_i_nn(clock, memory, &mut pc_state.pc_reg, &mut pc_state.iy_reg);
        } else if op_code == 0xBE {
            let index = pc_state.iy_reg.get();
            extended_instruction_set::cp_i_d(clock, memory, index, pc_state);
        } else if op_code & 0b11001111 == 0b00001001 {
            let ss = (op_code >> 4) & 0x3;
            let src = select_16_bit_read_register(pc_state, ss);
            extended_instruction_set::add16(clock, src, &mut pc_state.pc_reg, &mut pc_state.iy_reg, &mut pc_state.af_reg);
        } else if op_code == 0x34 {
            extended_instruction_set::inc_i_d(clock, memory, &mut pc_state.pc_reg, &mut pc_state.af_reg, &pc_state.iy_reg);
        } else {
            extended_instruction_set::dec_i_d(clock, memory, &mut pc_state.pc_reg, &mut pc_state.af_reg, &pc_state.iy_reg);
        }
    }

    /// Execute the 0xED-prefixed instruction at PC.
    #[verifier::spinoff_prover]
    #[verifier::rlimit(100)]
    pub fn execute_ed<M: MemoryRW>(clock: &mut Clock, memory: &mut M, pc_state: &mut PcState, ports: &mut Ports, interruptor: &mut Interruptor)
        requires
            ed_ok::<M>(*old(pc_state), old(memory)@),
        ensures
            ed_step::<M>(*old(pc_state), old(memory)@, old(clock).cycles)
                == machine(*final(pc_state), final(memory)@, final(clock).cycles, Seq::<VdpView>::empty()),
            final(ports)@ == old(ports)@,
            *final(interruptor) == *old(interruptor),
    {
        let op_code = memory.read(pc_state.get_pc().wrapping_add(1));
        if op_code == 0x00 {
            instruction_set::noop(clock, pc_state);
        } else if op_code & 0b11001111 == 0b00000001 {
            let dd = (op_code >> 4) & 0x3;
            extended_instruction_set::ld_dd_mem_nn(clock, memory, dd, pc_state);
        } else if op_code == 0x43 {
            extended_instruction_set::ld_mem_nn_reg16(clock, memory, &mut pc_state.pc_reg, &pc_state.bc_reg);
        } else if op_code == 0x53 {
            extended_instruction_set::ld_mem_nn_reg16(clock, memory, &mut pc_state.pc_reg, &pc_state.de_reg);
        } else if op_code == 0x63 {
            extended_instruction_set::ld_mem_nn_reg16(clock, memory, &mut pc_state.pc_reg, &pc_state.hl_reg);
        } else if op_code == 0x73 {
            extended_instruction_set::ld_mem_nn_reg16(clock, memory, &mut pc_state.pc_reg, &pc_state.sp_reg);
        } else if op_code == 0x5F {
            extended_instruction_set::ld_a_r(clock, pc_state);
        } else if op_code == 0x57 {
            extended_instruction_set::ld_a_i(clock, pc_state);
        } else if op_code == 0x47 {
            extended_instruction_set::ld_i_a(clock, pc_state);
        } else if op_code == 0x4F {
            extended_instruction_set::ld_r_a(clock, pc_state);
        } else if op_code == 0x67 {
            extended_instruction_set::rrd(clock, memory, pc_state);
        } else {
            extended_instruction_set::rld(clock, memory, pc_state);
        }
    }

    /// Execute op code `op_code`, already read from PC.
    #[verifier::spinoff_prover]
    #[verifier::rlimit(100)]
    pub fn execute<M: MemoryRW>(
        op_code: u8,
        clock: &mut Clock,
        memory: &mut M,
        pc_state: &mut PcState,
        ports: &mut Ports,
        interruptor: &mut Interruptor,
    )
        requires
            step_ok::<M>(op_code, machine(*old(pc_state), old(memory)@, old(clock).cycles, old(ports)@)),
        ensures
            cpu_step::<M>(op_code, machine(*old(pc_state), old(memory)@, old(clock).cycles, old(ports)@))
                == machine(*final(pc_state), final(memory)@, final(clock).cycles, final(ports)@),
            devices_wf(final(ports)@),
            *final(interruptor) == *old(interruptor),
        decreases ei_measure::<M>(op_code, *old(pc_state), old(memory)@),
    {
        let ghost x = machine(*pc_state, memory@, clock.cycles, ports@);
        if op_code == 0xcb {
            Self::execute_cb(clock, memory, pc_state, interruptor);
        } else if op_code == 0xdd {
            Self::execute_dd(clock, memory, pc_state, interruptor);
        } else if op_code == 0xed {
            Self::execute_ed(clock, memory, pc_state, ports, interruptor);
        } else if op_code == 0xfd {
            Self::execute_fd(clock, memory, pc_state, interruptor);
        } else if op_code == 0xfb {
            pc_state.increment_pc(1);
            // Execute the next instruction before interrupts are enabled.
            let next_op_code = memory.read(pc_state.get_pc());
            proof {
                if next_op_code == 0xFB {
                    lemma_ei_run_stable::<M>(x.mem, w16(w16(x.cpu.pc() + 1) + 1), 0xFFFF);
                }
            }
            Self::execute(next_op_code, clock, memory, pc_state, ports, interruptor);
            instruction_set::ei(clock, pc_state);
            Interruptor::interrupt(pc_state, memory);
        } else if op_code < 0x40 {
            execute_block0(op_code, clock, memory, pc_state, Ghost(ports@));
        } else if op_code < 0x80 {
            execute_block1(op_code, clock, memory, pc_state, Ghost(ports@));
        } else if op_code < 0xC0 {
            execute_block2(op_code, clock, memory, pc_state, Ghost(ports@));
        } else {
            execute_block3(op_code, clock, memory, pc_state, ports);
        }
    }

    /// Whether op code `op_code` is executed in the given state: see
    /// `step_ok`.
    pub fn supported<M: MemoryRW>(op_code: u8, memory: &M, pc_state: &PcState, ports: &Ports, cycles: u32) -> (r: bool)
        requires
            devices_wf(ports@),
        ensures
            r == step_ok::<M>(op_code, machine(*pc_state, memory@, cycles, ports@)),
        decreases ei_measure::<M>(op_code, *pc_state, memory@),
    {
        let ghost x = machine(*pc_state, memory@, cycles, ports@);
        let pc = pc_state.get_pc();
        if op_code == 0xcb {
            let op = memory.read(pc.wrapping_add(1));
            let b = (op >> 3) & 7;
            op >= 0x40 || op & 7 != 6 || b == 0 || b == 1 || b == 4 || b == 5 || b == 6
        } else if op_code == 0xdd || op_code == 0xfd {
            let op = memory.read(pc.wrapping_add(1));
            let k = op & 7;
            (op == 0xcb && memory.read(pc.wrapping_add(3)) >= 0x40) || op == 0x22 || op == 0x2A || op == 0x36 || op == 0xE9
                || op == 0x21 || op == 0xBE || op == 0x34 || op == 0x35 || (op & 0xC7 == 0x46 && (op >> 3) & 7 != 6) || (op
                & 0xF8 == 0x70 && k != 6) || op & 0xCF == 0x09
        } else if op_code == 0xed {
            let op = memory.read(pc.wrapping_add(1));
            op == 0x00 || op & 0xCF == 0x01 || op == 0x43 || op == 0x53 || op == 0x63 || op == 0x73 || op == 0x5F || op == 0x57
                || op == 0x47 || op == 0x4F || op == 0x67 || op == 0x6f
        } else if op_code == 0xfb {
            if ei_run_length(memory, pc.wrapping_add(1)) < 0x10000 {
                let mut next_state = *pc_state;
                next_state.increment_pc(1);
                let next = memory.read(pc.wrapping_add(1));
                proof {
                    if next == 0xFB {
                        lemma_ei_run_stable::<M>(x.mem, w16(w16(x.cpu.pc() + 1) + 1), 0xFFFF);
                    }
                }
                let ok = Self::supported(next, memory, &next_state, ports, cycles);
                proof {
                    if ok {
                        lemma_step_keeps_im::<M>(next, machine(next_state, memory@, cycles, ports@));
                    }
                }
                ok && pc_state.get_im() == 1
            } else {
                false
            }
        } else if op_code < 0x40 {
            true
        } else if op_code < 0x80 {
            op_code != 0x76
        } else if op_code < 0xC0 {
            true
        } else {
            op_code != 0xd3 || ports.accepts_write(memory.read(pc.wrapping_add(1)), pc_state.get_a())
        }
    }
}

} // verus!
