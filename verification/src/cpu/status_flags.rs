use vstd::prelude::*;
use crate::cpu::pc_state::{PcStatusFlagFields, Flags, bit, w8, w16};

verus! {

/// The number of set bits of `v`.
pub open spec fn ones(v: u8) -> int {
    (v & 1) as int + ((v >> 1) & 1) as int + ((v >> 2) & 1) as int + ((v >> 3) & 1) as int
        + ((v >> 4) & 1) as int + ((v >> 5) & 1) as int + ((v >> 6) & 1) as int + ((v >> 7)
        & 1) as int
}

/// Even parity: `v` has an even number of set bits.
pub open spec fn parity_even(v: u8) -> bool {
    ones(v) % 2 == 0
}

/// `v` read as a two's complement signed byte.
pub open spec fn signed8(v: u8) -> int {
    if v < 128 { v as int } else { v - 256 }
}

/// A byte reinterpreted as signed.
pub proof fn lemma_as_i8(e: u8)
    by (bit_vector)
    ensures
        e < 128 ==> (e as i8) as i16 == e as i16,
        e >= 128 ==> (e as i8) as i16 == (e as i16) - 256,
{
}

/// The flags with S and Z set from `v`: S is its top bit, Z whether it is zero.
pub open spec fn zs(f: Flags, v: u8) -> Flags {
    Flags { s: v >= 128, z: v == 0, ..f }
}

/// Result of `a + b + c` on bytes.
pub open spec fn u8_carry_result(a: u8, b: u8, c: bool) -> u8 {
    w8(a + b + bit(c))
}

/// Flags after `a + b + c` on bytes (N and bits 3, 5 kept): C is the carry
/// out of bit 7.
pub open spec fn u8_carry_flags(f: Flags, a: u8, b: u8, c: bool) -> Flags {
    let r = u8_carry_result(a, b, c);
    zs(
        Flags {
            pv: (a >= 128) == (b >= 128) && (a >= 128) != (r >= 128),
            h: a % 16 + b % 16 + bit(c) >= 16,
            c: a + b + bit(c) > 255,
            ..f
        },
        r,
    )
}

/// `a - b - c` with `a` unsigned and `b` signed, as `i8_carry` computes it.
pub open spec fn i8_carry_diff(a: u8, b: u8, c: bool) -> int {
    a - signed8(b) - bit(c)
}

/// Flags after `i8_carry(a, b, c)` (bits 3 and 5 kept).
pub open spec fn i8_carry_flags(f: Flags, a: u8, b: u8, c: bool) -> Flags {
    let d = i8_carry_diff(a, b, c);
    Flags {
        s: w8(d) >= 128,
        z: d == 0,
        h: a % 16 < b % 16 + bit(c),
        pv: 128 <= d < 384,
        n: true,
        c: d < 0 || d >= 256,
        ..f
    }
}

/// Flags after `i8_no_carry(a, b)` (bits 3 and 5 kept).
pub open spec fn i8_no_carry_flags(f: Flags, a: u8, b: u8) -> Flags {
    let d = signed8(a) - signed8(b);
    Flags {
        s: w8(a - b) >= 128,
        z: a == b,
        h: a % 16 < b % 16,
        pv: d >= 128 || d < -128,
        n: true,
        c: a < b,
        ..f
    }
}

/// Flags after the 16-bit `a + b + c` (N and bits 3, 5 kept).
pub open spec fn u16_carry_flags(f: Flags, a: u16, b: u16, c: bool) -> Flags {
    let r = w16(a + b + bit(c));
    Flags {
        s: r >= 0x8000,
        z: r == 0,
        pv: (a >= 0x8000) == (b >= 0x8000) && (a >= 0x8000) != (r >= 0x8000),
        h: a % 4096 + b % 4096 + bit(c) >= 4096,
        c: a + b + bit(c) > 0xFFFF,
        ..f
    }
}

/// Flags after the 16-bit `a + b` without carry: only H and C change.
pub open spec fn u16_no_carry_flags(f: Flags, a: u16, b: u16) -> Flags {
    Flags { h: a % 4096 + b % 4096 >= 4096, c: a + b > 0xFFFF, ..f }
}

proof fn lemma_byte_bits(x: u8)
    ensures
        (x & 0x80 != 0) == (x >= 128),
        (x & 0x80 == 0x80) == (x >= 128),
        x & 0xF == x % 16,
        (x & 0x80) >> 7 == (if x >= 128 { 1u8 } else { 0u8 }),
{
    crate::bits::lemma_u8_bits(x);
}

proof fn lemma_small_sum_bits(x: u8, y: u16)
    by (bit_vector)
    ensures
        x < 32 ==> (((x & 0x10) == 0x10) == (x >= 16)),
        y < 0x2000 ==> (((y & 0x1000) == 0x1000) == (y >= 0x1000)),
{
}

proof fn lemma_sign_xor8(x: u8, y: u8)
    by (bit_vector)
    ensures
        (((x & 0x80) ^ (y & 0x80)) == 0) == ((x >= 128) == (y >= 128)),
        (((x & 0x80) ^ (y & 0x80)) == 0x80) == ((x >= 128) != (y >= 128)),
{
}

proof fn lemma_word_bits(x: u16, y: u16)
    by (bit_vector)
    ensures
        ((x & 0x8000) != 0) == (x >= 0x8000),
        (x & 0xFFFF) == x,
        x & 0xFFF == x % 4096,
        (((x & 0x8000) ^ (y & 0x8000)) == 0) == ((x >= 0x8000) == (y >= 0x8000)),
        (((x & 0x8000) ^ (y & 0x8000)) == 0x8000) == ((x >= 0x8000) != (y >= 0x8000)),
{
}

/// What the bit tests of `i8_carry` compute, in arithmetic terms.
proof fn lemma_i8_carry_bits(a: u8, b: u8, ci: i16)
    by (bit_vector)
    requires
        0 <= ci <= 1,
    ensures
        ({
            let sb = (b as i8) as i16;
            let d = ((a as i16) - sb - ci) as i16;
            &&& sb == (if b < 128 { b as int } else { b as int - 256 })
            &&& -128 <= d <= 384
            &&& (d as u8) == (if d < 0 { (d + 256) as u8 } else if d < 256 { d as u8 } else { (d - 256) as u8 })
            &&& (((d as u8) & 0x80 != 0) == ((d as u8) >= 128))
            &&& (((d as u16) == 0) == (d == 0))
            &&& ((((a & 0xF).wrapping_sub(b & 0xF).wrapping_sub(ci as u8)) & 0x10 != 0) == ((a & 0xF) < (b & 0xF) + ci))
            &&& ((((((d as u16) & 0xFFF) & 0x180) != 0) && ((((d as u16) & 0xFFF) & 0x180) != 0x180)) == (128 <= d && d < 384))
            &&& ((0 != ((d as u16) & 0x100)) == (d < 0 || d >= 256))
            &&& a & 0xF == a % 16
            &&& b & 0xF == b % 16
        }),
{
}

/// What the bit tests of `i8_no_carry` compute, in arithmetic terms.
proof fn lemma_i8_no_carry_bits(a: u8, b: u8)
    by (bit_vector)
    ensures
        ({
            let sa = (a as i8) as i16;
            let sb = (b as i8) as i16;
            let d = (sa - sb) as i16;
            &&& sa == (if a < 128 { a as int } else { a as int - 256 })
            &&& sb == (if b < 128 { b as int } else { b as int - 256 })
            &&& 0 <= sa & 0xF < 16
            &&& 0 <= sb & 0xF < 16
            &&& (a as i16) & 0xFF == a
            &&& (b as i16) & 0xFF == b
            &&& ((0 != ((d & 0xFF) & 0x80)) == ((if a >= b { (a - b) as u8 } else { (a + 256 - b) as u8 }) >= 128))
            &&& (((d as u16) == 0) == (a == b))
            &&& ((0 != ((((sa & 0xF) - (sb & 0xF)) as u8) & 0x10)) == ((a & 0xF) < (b & 0xF)))
            &&& ((((((d as u16) & 0xFFF) & 0x180) != 0) && ((((d as u16) & 0xFFF) & 0x180) != 0x180)) == (d >= 128 || d < -128))
            &&& ((0 != ((((a as i16) - (b as i16)) as i16) as u16) & 0x100) == (a < b))
            &&& (((((a as i16) - (b as i16)) as i16) as u16) as u8) == (if a >= b { (a - b) as u8 } else { (a + 256 - b) as u8 })
            &&& a & 0xF == a % 16
            &&& b & 0xF == b % 16
        }),
{
}

/// `v` widened to 16 bits.
pub fn signed_char_to_int(v: i8) -> (r: i16)
    ensures
        r == v,
{
    v as i16
}

/// Even parity: true when `a` has an even number of set bits.
pub fn calculate_parity(a: u8) -> (r: bool)
    ensures
        r == parity_even(a),
{
    let mut h = (a >> 4) ^ (a & 0xF);
    h = (h >> 2) ^ (h & 0x3);
    let r = (h >> 1) == (h & 0x1);
    assert(r == parity_even(a)) by (bit_vector)
        requires
            h == (((a >> 4) ^ (a & 0xF)) >> 2) ^ (((a >> 4) ^ (a & 0xF)) & 0x3),
            r == ((h >> 1) == (h & 0x1)),
    ;
    r
}

/// Add two bytes and a carry; set P/V, H, C, Z and S accordingly.
pub fn u8_carry(a: u8, b: u8, c: bool, f_status: &mut PcStatusFlagFields) -> (r: u8)
    ensures
        r == u8_carry_result(a, b, c),
        final(f_status)@ == u8_carry_flags(old(f_status)@, a, b, c),
{
    let cv: u8 = if c { 1 } else { 0 };
    let r = a.wrapping_add(b).wrapping_add(cv);
    proof {
        lemma_byte_bits(a);
        lemma_byte_bits(b);
        lemma_byte_bits(r);
        lemma_sign_xor8(a, b);
        lemma_sign_xor8(a, r);
    }
    if (((a & 0x80) ^ (b & 0x80)) == 0x00) && (((a & 0x80) ^ (r & 0x80)) == 0x80) {
        f_status.set_pv(1);
    } else {
        f_status.set_pv(0);
    }
    f_status.set_h(0);
    proof {
        lemma_small_sum_bits(((a & 0xF) + (b & 0xF) + cv) as u8, 0);
    }
    if (((a & 0xF) + (b & 0xF) + cv) & 0x10) == 0x10 {
        f_status.set_h(1);
    } else {
        f_status.set_h(0);
    }
    // Carry out of bit 7: a + b + carry above 0xFF.
    if c {
        if a >= 0xFF - b {
            f_status.set_c(1);
        } else {
            f_status.set_c(0);
        }
    } else {
        if a > 0xFF - b {
            f_status.set_c(1);
        } else {
            f_status.set_c(0);
        }
    }
    zero_and_sign_flags(f_status, r);
    r
}

/// 16-bit `a - b - c` with `a` unsigned and `b` signed, and its flags: S, Z,
/// H, P/V, C from the difference, N set.
pub fn i8_carry(a: u8, b: u8, c: bool, f_status: &mut PcStatusFlagFields) -> (r: u8)
    ensures
        r == w8(i8_carry_diff(a, b, c)),
        final(f_status)@ == i8_carry_flags(old(f_status)@, a, b, c),
{
    let ci: i16 = if c { 1 } else { 0 };
    let d: i16 = (a as i16) - ((b as i8) as i16) - ci;
    let mut r: u16 = d as u16;
    let rc: u8 = d as u8;
    let hr: u8 = (a & 0xF).wrapping_sub(b & 0xF).wrapping_sub(ci as u8);
    proof {
        lemma_i8_carry_bits(a, b, ci);
    }
    if 0 != (rc & 0x80) {
        f_status.set_s(1);
    } else {
        f_status.set_s(0);
    }
    if r == 0 {
        f_status.set_z(1);
    } else {
        f_status.set_z(0);
    }
    if 0 != (hr & 0x10) {
        f_status.set_h(1);
    } else {
        f_status.set_h(0);
    }
    r = (d as u16) & 0xFFF;
    if ((r & 0x180) != 0) && ((r & 0x180) != 0x180) {
        f_status.set_pv(1);
    } else {
        f_status.set_pv(0);
    }
    f_status.set_n(1);
    r = d as u16;
    if 0 != (r & 0x100) {
        f_status.set_c(1);
    } else {
        f_status.set_c(0);
    }
    rc
}

/// `a - b` on signed bytes, setting S, Z, H, P/V and N from the signed
/// difference, and C from the unsigned borrow (`a < b`).
pub fn i8_no_carry(a: u8, b: u8, f_status: &mut PcStatusFlagFields) -> (r: u8)
    ensures
        r == w8(a - b),
        final(f_status)@ == i8_no_carry_flags(old(f_status)@, a, b),
{
    let sa = signed_char_to_int(a as i8);
    let sb = signed_char_to_int(b as i8);
    proof {
        lemma_i8_no_carry_bits(a, b);
    }
    let d: i16 = sa - sb;
    let mut r: u16 = d as u16;
    let rc: i16 = d & 0xFF;
    let hr: u8 = ((sa & 0xF) - (sb & 0xF)) as u8;
    if 0 != (rc & 0x80) {
        f_status.set_s(1);
    } else {
        f_status.set_s(0);
    }
    if r == 0 {
        f_status.set_z(1);
    } else {
        f_status.set_z(0);
    }
    if 0 != (hr & 0x10) {
        f_status.set_h(1);
    } else {
        f_status.set_h(0);
    }
    r = (d as u16) & 0xFFF;
    if ((r & 0x180) != 0) && ((r & 0x180) != 0x180) {
        f_status.set_pv(1);
    } else {
        f_status.set_pv(0);
    }
    f_status.set_n(1);
    r = (((a as i16) & 0xFF) - ((b as i16) & 0xFF)) as u16;
    if 0 != (r & 0x100) {
        f_status.set_c(1);
    } else {
        f_status.set_c(0);
    }
    r as u8
}

/// 16-bit `a + b + c`, setting S, Z, P/V, H and C (N is left to the caller).
pub fn u16_carry(a: u16, b: u16, c: bool, f_status: &mut PcStatusFlagFields) -> (r: u16)
    ensures
        r == w16(a + b + bit(c)),
        final(f_status)@ == u16_carry_flags(old(f_status)@, a, b, c),
{
    let cv: u16 = if c { 1 } else { 0 };
    let r = a.wrapping_add(b).wrapping_add(cv);
    proof {
        lemma_word_bits(r, r);
        lemma_word_bits(a, b);
        lemma_word_bits(a, r);
        lemma_word_bits(b, b);
    }
    if (r & 0x8000) != 0 {
        f_status.set_s(1);
    } else {
        f_status.set_s(0);
    }
    if (r & 0xFFFF) == 0 {
        f_status.set_z(1);
    } else {
        f_status.set_z(0);
    }
    if (((a & 0x8000) ^ (b & 0x8000)) == 0x0000) && (((a & 0x8000) ^ (r & 0x8000)) == 0x8000) {
        f_status.set_pv(1);
    } else {
        f_status.set_pv(0);
    }
    f_status.set_h(0);
    proof {
        lemma_small_sum_bits(0, ((a & 0xFFF) + (b & 0xFFF) + cv) as u16);
    }
    if (((a & 0xFFF) + (b & 0xFFF) + cv) & 0x1000) == 0x1000 {
        f_status.set_h(1);
    } else {
        f_status.set_h(0);
    }
    // Carry out of bit 15: a + b + carry above 0xFFFF.
    if c {
        if a >= 0xFFFF - b {
            f_status.set_c(1);
        } else {
            f_status.set_c(0);
        }
    } else {
        if a > 0xFFFF - b {
            f_status.set_c(1);
        } else {
            f_status.set_c(0);
        }
    }
    r
}

/// 16-bit `a + b`, setting H and C only.
pub fn u16_no_carry(a: u16, b: u16, f_status: &mut PcStatusFlagFields) -> (r: u16)
    ensures
        r == w16(a + b),
        final(f_status)@ == u16_no_carry_flags(old(f_status)@, a, b),
{
    let r = a.wrapping_add(b);
    proof {
        lemma_word_bits(a, b);
        lemma_word_bits(b, a);
    }
    f_status.set_h(0);
    proof {
        lemma_small_sum_bits(0, ((a & 0xFFF) + (b & 0xFFF)) as u16);
    }
    if (((a & 0xFFF) + (b & 0xFFF)) & 0x1000) == 0x1000 {
        f_status.set_h(1);
    } else {
        f_status.set_h(0);
    }
    if a > 0xFFFF - b {
        f_status.set_c(1);
    } else {
        f_status.set_c(0);
    }
    r
}

/// Flags after a decrement produced `new_value`: N set, H when the low
/// nibble borrowed, P/V when it went from 0x80 to 0x7F, S and Z from the value.
pub open spec fn dec_flags(f: Flags, v: u8) -> Flags {
    zs(Flags { n: true, h: v % 16 == 15, pv: v == 0x7F, ..f }, v)
}

/// Flags after an increment produced `new_value`: N clear, H when the low
/// nibble carried, P/V when it went from 0x7F to 0x80, S and Z from the value.
pub open spec fn inc_flags(f: Flags, v: u8) -> Flags {
    zs(Flags { n: false, h: v % 16 == 0, pv: v == 0x80, ..f }, v)
}

/// Flags after a logical operation produced `v`: C and N clear, H as given,
/// P/V the parity of `v`, S and Z from `v`.
pub open spec fn logic_flags(f: Flags, v: u8, h: bool) -> Flags {
    zs(Flags { c: false, n: false, h: h, pv: parity_even(v), ..f }, v)
}

pub fn calculate_dec_flags(status: &mut PcStatusFlagFields, new_value: u8)
    ensures
        final(status)@ == dec_flags(old(status)@, new_value),
{
    proof {
        lemma_byte_bits(new_value);
    }
    status.set_n(1);
    if (new_value & 0xF) == 0xF {
        status.set_h(1);
    } else {
        status.set_h(0);
    }
    if new_value == 0x7F {
        status.set_pv(1);
    } else {
        status.set_pv(0);
    }
    status.set_n(1);
    zero_and_sign_flags(status, new_value);
}

pub fn calculate_inc_flags(status: &mut PcStatusFlagFields, new_value: u8)
    ensures
        final(status)@ == inc_flags(old(status)@, new_value),
{
    proof {
        lemma_byte_bits(new_value);
    }
    if (new_value & 0xF) == 0x0 {
        status.set_h(1);
    } else {
        status.set_h(0);
    }
    if new_value == 0x80 {
        status.set_pv(1);
    } else {
        status.set_pv(0);
    }
    status.set_n(0);
    zero_and_sign_flags(status, new_value);
}

/// Flags of `LD A, I` and `LD A, R`: N and H clear, P/V copies IFF2.
pub fn accumulator_flags(status: &mut PcStatusFlagFields, accumulator: u8, iff2: bool)
    ensures
        final(status)@ == zs(Flags { n: false, h: false, pv: iff2, ..old(status)@ }, accumulator),
{
    status.set_n(0);
    status.set_h(0);
    status.set_pv(if iff2 { 1 } else { 0 });
    zero_and_sign_flags(status, accumulator)
}

/// Flags of `AND`: C and N clear, H set, P/V parity.
pub fn and_flags(status: &mut PcStatusFlagFields, value: u8)
    ensures
        final(status)@ == logic_flags(old(status)@, value, true),
{
    status.set_c(0);
    status.set_n(0);
    status.set_h(1);
    status.set_pv(if calculate_parity(value) { 1 } else { 0 });
    zero_and_sign_flags(status, value)
}

/// Flags of `XOR`: C, N and H clear, P/V parity.
pub fn xor_flags(status: &mut PcStatusFlagFields, value: u8)
    ensures
        final(status)@ == logic_flags(old(status)@, value, false),
{
    status.set_c(0);
    status.set_n(0);
    status.set_h(0);
    status.set_pv(if calculate_parity(value) { 1 } else { 0 });
    zero_and_sign_flags(status, value)
}

/// Flags of rotating the accumulator: C from `carry`, H and N clear.
pub fn set_rotate_accumulator_flags(carry: bool, status: &mut PcStatusFlagFields)
    ensures
        final(status)@ == (Flags { c: carry, h: false, n: false, ..old(status)@ }),
{
    status.set_c(if carry { 1 } else { 0 });
    status.set_h(0);
    status.set_n(0);
}

/// Flags of rotating or shifting a register to `value`: C from `carry`,
/// N and H clear, P/V parity, S and Z from `value`.
pub fn set_shift_register_flags(value: u8, carry: bool, status: &mut PcStatusFlagFields)
    ensures
        final(status)@ == zs(
            Flags { c: carry, n: false, h: false, pv: parity_even(value), ..old(status)@ },
            value,
        ),
{
    status.set_c(if carry { 1 } else { 0 });
    status.set_n(0);
    status.set_h(0);
    status.set_pv(if calculate_parity(value) { 1 } else { 0 });
    zero_and_sign_flags(status, value)
}

/// Flags of `RRD` and `RLD`: carry kept, N and H clear, P/V parity.
pub fn rotate_decimal_flags(status: &mut PcStatusFlagFields, value: u8)
    ensures
        final(status)@ == zs(
            Flags { n: false, h: false, pv: parity_even(value), ..old(status)@ },
            value,
        ),
{
    status.set_n(0);
    status.set_h(0);
    status.set_pv(if calculate_parity(value) { 1 } else { 0 });
    zero_and_sign_flags(status, value)
}

/// Set S to the top bit of `value` and Z when it is zero.
pub fn zero_and_sign_flags(status: &mut PcStatusFlagFields, value: u8)
    ensures
        final(status)@ == zs(old(status)@, value),
{
    proof {
        lemma_byte_bits(value);
    }
    status.set_s((value & 0x80) >> 7);
    if value == 0 {
        status.set_z(1);
    } else {
        status.set_z(0);
    }
}

/// Flags of `OR`, the same as those of `XOR`.
pub fn or_flags(status: &mut PcStatusFlagFields, value: u8)
    ensures
        final(status)@ == logic_flags(old(status)@, value, false),
{
    xor_flags(status, value);
}

/// Whether bit `bit_pos & 7` of `r` is set.
pub open spec fn bit_is_set(r: u8, bit_pos: u8) -> bool {
    (r >> (bit_pos & 7)) & 1 == 1
}

/// Flags of `BIT b, r`: Z and P/V set when the bit is clear, H set, N and S clear.
pub open spec fn bit_test_flags(f: Flags, r: u8, bit_pos: u8) -> Flags {
    Flags { z: !bit_is_set(r, bit_pos), pv: !bit_is_set(r, bit_pos), h: true, n: false, s: false, ..f }
}

pub fn set_bit_test_flags(r: u8, bit_pos: u8, f_status: &mut PcStatusFlagFields)
    ensures
        final(f_status)@ == bit_test_flags(old(f_status)@, r, bit_pos),
{
    assert(bit_pos & 7 < 8) by (bit_vector);
    let bit = (r >> (bit_pos & 7)) & 0x1;
    assert((bit == 0 || bit == 1) && ((bit ^ 1) % 2 == 1) == (bit == 0) && (bit == 1) == bit_is_set(r, bit_pos)) by (bit_vector)
        requires
            bit == (r >> (bit_pos & 7)) & 0x1,
    ;
    assert(parity_even(0u8) && !parity_even(1u8)) by (bit_vector);
    f_status.set_z(bit ^ 0x1);
    f_status.set_pv(if calculate_parity(bit) { 1 } else { 0 });
    f_status.set_h(1);
    f_status.set_n(0);
    f_status.set_s(0);
}

} // verus!
