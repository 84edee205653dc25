use vstd::prelude::*;
use vstd::string::StringExecFns;
use crate::cpu::pc_state::{PcState, PcStatusFlagFields, Flags, bit};

verus! {

/// The lower-case hexadecimal digit `d`.
pub open spec fn hex_digit(d: nat) -> Seq<char> {
    if d == 0 {
        "0"@
    } else if d == 1 {
        "1"@
    } else if d == 2 {
        "2"@
    } else if d == 3 {
        "3"@
    } else if d == 4 {
        "4"@
    } else if d == 5 {
        "5"@
    } else if d == 6 {
        "6"@
    } else if d == 7 {
        "7"@
    } else if d == 8 {
        "8"@
    } else if d == 9 {
        "9"@
    } else if d == 10 {
        "a"@
    } else if d == 11 {
        "b"@
    } else if d == 12 {
        "c"@
    } else if d == 13 {
        "d"@
    } else if d == 14 {
        "e"@
    } else {
        "f"@
    }
}

/// `v` in lower-case hexadecimal, without leading zeros.
pub open spec fn hex_text(v: nat) -> Seq<char>
    decreases v,
{
    if v < 16 {
        hex_digit(v)
    } else {
        hex_text(v / 16) + hex_digit(v % 16)
    }
}

fn hex_digit_str(d: u16) -> (r: &'static str)
    requires
        d < 16,
    ensures
        r@ == hex_digit(d as nat),
{
    if d == 0 {
        "0"
    } else if d == 1 {
        "1"
    } else if d == 2 {
        "2"
    } else if d == 3 {
        "3"
    } else if d == 4 {
        "4"
    } else if d == 5 {
        "5"
    } else if d == 6 {
        "6"
    } else if d == 7 {
        "7"
    } else if d == 8 {
        "8"
    } else if d == 9 {
        "9"
    } else if d == 10 {
        "a"
    } else if d == 11 {
        "b"
    } else if d == 12 {
        "c"
    } else if d == 13 {
        "d"
    } else if d == 14 {
        "e"
    } else {
        "f"
    }
}

/// Append `v` in hexadecimal to `text`.
fn append_hex(text: &mut String, v: u16)
    ensures
        final(text)@ == old(text)@ + hex_text(v as nat),
    decreases v,
{
    if v >= 16 {
        append_hex(text, v / 16);
    }
    text.append(hex_digit_str(v % 16));
    assert(final(text)@ =~= old(text)@ + hex_text(v as nat)) by {
        if v >= 16 {
            assert(hex_text(v as nat) == hex_text((v / 16) as nat) + hex_digit((v % 16) as nat));
        }
    }
}

/// The flags as text: each as 0 or 1.
pub open spec fn flags_text(f: Flags) -> Seq<char> {
    "(C:"@ + hex_text(bit(f.c) as nat) + " N:"@ + hex_text(bit(f.n) as nat) + " PV:"@ + hex_text(bit(f.pv) as nat)
        + " X1:"@ + hex_text(bit(f.x1) as nat) + " H:"@ + hex_text(bit(f.h) as nat) + " X2:"@ + hex_text(
        bit(f.x2) as nat,
    ) + " Z:"@ + hex_text(bit(f.z) as nat) + " S:"@ + hex_text(bit(f.s) as nat) + ")"@
}

/// The registers as text, in hexadecimal, then the flags.
pub open spec fn pc_state_text(s: PcState) -> Seq<char> {
    "A:"@ + hex_text(s.a() as nat) + " SP:"@ + hex_text(s.sp() as nat) + " B:"@ + hex_text(s.b() as nat) + " C:"@
        + hex_text(s.c() as nat) + " D:"@ + hex_text(s.d() as nat) + " E:"@ + hex_text(s.e() as nat) + " H:"@
        + hex_text(s.h() as nat) + " L:"@ + hex_text(s.l() as nat) + " F:"@ + hex_text(s.f() as nat) + " PCHigh:"@
        + hex_text(s.pc_reg.high as nat) + " PCLow:"@ + hex_text(s.pc_reg.low as nat) + " SPHigh:"@ + hex_text(
        s.sp_reg.high as nat,
    ) + " SPLow:"@ + hex_text(s.sp_reg.low as nat) + " IXHigh:"@ + hex_text(s.ix_reg.high as nat) + " IXLow:"@
        + hex_text(s.ix_reg.low as nat) + " IYHigh:"@ + hex_text(s.iy_reg.high as nat) + " IYLow:"@ + hex_text(
        s.iy_reg.low as nat,
    ) + " "@ + flags_text(flags_of_state(s))
}

/// The flags of `s`.
pub open spec fn flags_of_state(s: PcState) -> Flags {
    s.flags()
}

impl PcStatusFlagFields {
    /// The flags as text, "(C:c N:n PV:p X1:x H:h X2:x Z:z S:s)".
    pub fn to_string(&self) -> (r: String)
        ensures
            r@ == flags_text(self@),
    {
        let mut text = String::new();
        text.append("(C:");
        append_hex(&mut text, self.get_c() as u16);
        text.append(" N:");
        append_hex(&mut text, self.get_n() as u16);
        text.append(" PV:");
        append_hex(&mut text, self.get_pv() as u16);
        text.append(" X1:");
        append_hex(&mut text, self.get_x1() as u16);
        text.append(" H:");
        append_hex(&mut text, self.get_h() as u16);
        text.append(" X2:");
        append_hex(&mut text, self.get_x2() as u16);
        text.append(" Z:");
        append_hex(&mut text, self.get_z() as u16);
        text.append(" S:");
        append_hex(&mut text, self.get_s() as u16);
        text.append(")");
        assert(text@ =~= flags_text(self@));
        text
    }
}

impl PcState {
    /// The registers as text: "A:a SP:sp B:b ... IYLow:l (C:c ... S:s)",
    /// each register in hexadecimal.
    pub fn to_string(&self) -> (r: String)
        ensures
            r@ == pc_state_text(*self),
    {
        let mut text = String::new();
        text.append("A:");
        append_hex(&mut text, self.get_a() as u16);
        text.append(" SP:");
        append_hex(&mut text, self.get_sp());
        text.append(" B:");
        append_hex(&mut text, self.get_b() as u16);
        text.append(" C:");
        append_hex(&mut text, self.get_c() as u16);
        text.append(" D:");
        append_hex(&mut text, self.get_d() as u16);
        text.append(" E:");
        append_hex(&mut text, self.get_e() as u16);
        text.append(" H:");
        append_hex(&mut text, self.get_h() as u16);
        text.append(" L:");
        append_hex(&mut text, self.get_l() as u16);
        text.append(" F:");
        append_hex(&mut text, self.get_f().0 as u16);
        text.append(" PCHigh:");
        append_hex(&mut text, self.get_pc_high() as u16);
        text.append(" PCLow:");
        append_hex(&mut text, self.get_pc_low() as u16);
        text.append(" SPHigh:");
        append_hex(&mut text, self.get_sp_high() as u16);
        text.append(" SPLow:");
        append_hex(&mut text, self.get_sp_low() as u16);
        text.append(" IXHigh:");
        append_hex(&mut text, self.get_ix_high() as u16);
        text.append(" IXLow:");
        append_hex(&mut text, self.get_ix_low() as u16);
        text.append(" IYHigh:");
        append_hex(&mut text, self.get_iy_high() as u16);
        text.append(" IYLow:");
        append_hex(&mut text, self.get_iy_low() as u16);
        text.append(" ");
        let flags = self.get_f().to_string();
        text.append(flags.as_str());
        assert(text@ =~= pc_state_text(*self));
        text
    }
}

} // verus!
