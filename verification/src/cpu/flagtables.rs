use vstd::prelude::*;
use crate::cpu::pc_state::{PcStatusFlagFields, Flags};
use crate::cpu::status_flags::{parity_even, zs};

verus! {

/// Even parity: true when `a` has an even number of set bits.
pub fn calculate_parity(a: u8) -> (r: bool)
    ensures
        r == parity_even(a),
{
    crate::cpu::status_flags::calculate_parity(a)
}

/// S, Z, H and P/V after a decrement produced `new_value` (N and C kept).
pub fn calculate_dec_flags(status: &mut PcStatusFlagFields, new_value: u8)
    ensures
        final(status)@ == zs(Flags { h: new_value % 16 == 15, pv: new_value == 0x7F, ..old(status)@ }, new_value),
{
    proof {
        crate::bits::lemma_u8_bits(new_value);
    }
    if new_value & 0x80 != 0 {
        status.set_s(1);
    } else {
        status.set_s(0);
    }
    if new_value == 0x0 {
        status.set_z(1);
    } else {
        status.set_z(0);
    }
    if (new_value & 0xF) == 0xF {
        status.set_h(1);
    } else {
        status.set_h(0);
    }
    if new_value == 0x7F {
        status.set_pv(1);
    } else {
        status.set_pv(0);
    }
}

/// S, Z, H and P/V after an increment produced `new_value` (N and C kept).
pub fn calculate_inc_flags(status: &mut PcStatusFlagFields, new_value: u8)
    ensures
        final(status)@ == zs(Flags { h: new_value % 16 == 0, pv: new_value == 0x80, ..old(status)@ }, new_value),
{
    proof {
        crate::bits::lemma_u8_bits(new_value);
    }
    if new_value & 0x80 != 0 {
        status.set_s(1);
    } else {
        status.set_s(0);
    }
    if new_value == 0 {
        status.set_z(1);
    } else {
        status.set_z(0);
    }
    if (new_value & 0xF) == 0x0 {
        status.set_h(1);
    } else {
        status.set_h(0);
    }
    if new_value == 0x80 {
        status.set_pv(1);
    } else {
        status.set_pv(0);
    }
}

} // verus!
