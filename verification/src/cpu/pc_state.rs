use vstd::prelude::*;

verus! {



/// The eight bits of the status register, one boolean per flag.
pub struct Flags {
    /// Carry.
    pub c: bool,
    /// Add/subtract: cleared by additions, set by subtractions.
    pub n: bool,
    /// Parity or overflow.
    pub pv: bool,
    /// Undocumented bit 3.
    pub x1: bool,
    /// Half carry.
    pub h: bool,
    /// Undocumented bit 5.
    pub x2: bool,
    /// Zero.
    pub z: bool,
    /// Sign (bit 7 of the result).
    pub s: bool,
}

/// The flags that the byte `v` holds: C is bit 0, N bit 1, P/V bit 2, bit 3,
/// H bit 4, bit 5, Z bit 6 and S bit 7.
pub open spec fn flags_of(v: u8) -> Flags {
    Flags {
        c: v & 0x01 != 0,
        n: v & 0x02 != 0,
        pv: v & 0x04 != 0,
        x1: v & 0x08 != 0,
        h: v & 0x10 != 0,
        x2: v & 0x20 != 0,
        z: v & 0x40 != 0,
        s: v & 0x80 != 0,
    }
}

/// 1 for a set flag, 0 for a clear one.
pub open spec fn bit(b: bool) -> u8 {
    if b { 1 } else { 0 }
}

/// Setting the single bit `m` of `x` changes that flag only.
pub proof fn lemma_or_single_bit(x: u8, m: u8)
    by (bit_vector)
    requires
        m == 1 || m == 2 || m == 4 || m == 8 || m == 16 || m == 32 || m == 64 || m == 128,
    ensures
        ((x | m) & 1 != 0) == (m == 1 || x & 1 != 0),
        ((x | m) & 2 != 0) == (m == 2 || x & 2 != 0),
        ((x | m) & 4 != 0) == (m == 4 || x & 4 != 0),
        ((x | m) & 8 != 0) == (m == 8 || x & 8 != 0),
        ((x | m) & 16 != 0) == (m == 16 || x & 16 != 0),
        ((x | m) & 32 != 0) == (m == 32 || x & 32 != 0),
        ((x | m) & 64 != 0) == (m == 64 || x & 64 != 0),
        ((x | m) & 128 != 0) == (m == 128 || x & 128 != 0),
        ((x & !m) & 1 != 0) == (m != 1 && x & 1 != 0),
        ((x & !m) & 2 != 0) == (m != 2 && x & 2 != 0),
        ((x & !m) & 4 != 0) == (m != 4 && x & 4 != 0),
        ((x & !m) & 8 != 0) == (m != 8 && x & 8 != 0),
        ((x & !m) & 16 != 0) == (m != 16 && x & 16 != 0),
        ((x & !m) & 32 != 0) == (m != 32 && x & 32 != 0),
        ((x & !m) & 64 != 0) == (m != 64 && x & 64 != 0),
        ((x & !m) & 128 != 0) == (m != 128 && x & 128 != 0),
{
}

/// A byte is determined by its flags.
pub proof fn lemma_flags_of_injective(x: u8, y: u8)
    ensures
        flags_of(x) == flags_of(y) <==> x == y,
{
    if flags_of(x) == flags_of(y) {
        assert(x == y) by (bit_vector)
            requires
                (x & 1 != 0) == (y & 1 != 0),
                (x & 2 != 0) == (y & 2 != 0),
                (x & 4 != 0) == (y & 4 != 0),
                (x & 8 != 0) == (y & 8 != 0),
                (x & 16 != 0) == (y & 16 != 0),
                (x & 32 != 0) == (y & 32 != 0),
                (x & 64 != 0) == (y & 64 != 0),
                (x & 128 != 0) == (y & 128 != 0),
        ;
    }
}

/// The byte that holds the flags `f`.
pub open spec fn byte_of(f: Flags) -> u8 {
    (bit(f.c) + 2 * bit(f.n) + 4 * bit(f.pv) + 8 * bit(f.x1) + 16 * bit(f.h) + 32 * bit(f.x2) + 64 * bit(f.z)
        + 128 * bit(f.s)) as u8
}

/// Reading the flags of a byte and packing them again gives the byte back.
pub broadcast proof fn lemma_byte_of_flags_of(x: u8)
    ensures
        byte_of(#[trigger] flags_of(x)) == x,
{
    let f = flags_of(x);
    assert(((if x & 1 != 0 { 1u8 } else { 0u8 }) + 2 * (if x & 2 != 0 { 1u8 } else { 0u8 }) + 4 * (if x & 4 != 0 { 1u8 } else { 0u8 })
        + 8 * (if x & 8 != 0 { 1u8 } else { 0u8 }) + 16 * (if x & 16 != 0 { 1u8 } else { 0u8 }) + 32 * (if x & 32 != 0 { 1u8 } else { 0u8 })
        + 64 * (if x & 64 != 0 { 1u8 } else { 0u8 }) + 128 * (if x & 128 != 0 { 1u8 } else { 0u8 })) == x) by (bit_vector);
}

/// The flags of the byte that packs `f` are `f`.
pub broadcast proof fn lemma_flags_of_byte_of(f: Flags)
    ensures
        #[trigger] flags_of(byte_of(f)) == f,
{
    let x = byte_of(f);
    lemma_flags_of_injective(x, x);
    let (c, n, pv, x1, h, x2, z, s) = (f.c, f.n, f.pv, f.x1, f.h, f.x2, f.z, f.s);
    assert({
        let y = ((if c { 1u8 } else { 0u8 }) + 2 * (if n { 1u8 } else { 0u8 }) + 4 * (if pv { 1u8 } else { 0u8 })
            + 8 * (if x1 { 1u8 } else { 0u8 }) + 16 * (if h { 1u8 } else { 0u8 }) + 32 * (if x2 { 1u8 } else { 0u8 })
            + 64 * (if z { 1u8 } else { 0u8 }) + 128 * (if s { 1u8 } else { 0u8 })) as u8;
        &&& (y & 1 != 0) == c
        &&& (y & 2 != 0) == n
        &&& (y & 4 != 0) == pv
        &&& (y & 8 != 0) == x1
        &&& (y & 16 != 0) == h
        &&& (y & 32 != 0) == x2
        &&& (y & 64 != 0) == z
        &&& (y & 128 != 0) == s
    }) by (bit_vector);
}

/// The status flag register: a byte read and written one flag at a time.
#[derive(Clone, Copy)]
pub struct PcStatusFlagFields(pub u8);

impl View for PcStatusFlagFields {
    type V = Flags;

    open spec fn view(&self) -> Flags {
        flags_of(self.0)
    }
}

impl PcStatusFlagFields {
    fn get_mask(&self, m: u8) -> (r: u8)
        ensures
            r == bit(self.0 & m != 0),
    {
        if self.0 & m != 0 { 1 } else { 0 }
    }

    fn set_mask(&mut self, m: u8, value: u8)
        requires
            m == 1 || m == 2 || m == 4 || m == 8 || m == 16 || m == 32 || m == 64 || m == 128,
        ensures
            final(self).0 == (if value % 2 == 1 { old(self).0 | m } else { old(self).0 & !m }),
            forall|k: u8| #![trigger (final(self).0 & k)]
                (k == 1 || k == 2 || k == 4 || k == 8 || k == 16 || k == 32 || k == 64 || k == 128)
                    ==> ((final(self).0 & k != 0) == (if k == m { value % 2 == 1 } else { old(self).0 & k != 0 })),
    {
        let x = self.0;
        proof {
            crate::bits::lemma_u8_bits(value);
        }
        proof {
            lemma_or_single_bit(x, m);
        }
        if value & 1 == 1 {
            self.0 = x | m;
        } else {
            self.0 = x & !m;
        }
    }

    /// Carry flag, as 0 or 1.
    pub fn get_c(&self) -> (r: u8)
        ensures
            r == bit(self@.c),
    {
        self.get_mask(0x01)
    }

    /// Add/subtract flag, as 0 or 1.
    pub fn get_n(&self) -> (r: u8)
        ensures
            r == bit(self@.n),
    {
        self.get_mask(0x02)
    }

    /// Parity/overflow flag, as 0 or 1.
    pub fn get_pv(&self) -> (r: u8)
        ensures
            r == bit(self@.pv),
    {
        self.get_mask(0x04)
    }

    /// Bit 3, as 0 or 1.
    pub fn get_x1(&self) -> (r: u8)
        ensures
            r == bit(self@.x1),
    {
        self.get_mask(0x08)
    }

    /// Half-carry flag, as 0 or 1.
    pub fn get_h(&self) -> (r: u8)
        ensures
            r == bit(self@.h),
    {
        self.get_mask(0x10)
    }

    /// Bit 5, as 0 or 1.
    pub fn get_x2(&self) -> (r: u8)
        ensures
            r == bit(self@.x2),
    {
        self.get_mask(0x20)
    }

    /// Zero flag, as 0 or 1.
    pub fn get_z(&self) -> (r: u8)
        ensures
            r == bit(self@.z),
    {
        self.get_mask(0x40)
    }

    /// Sign flag, as 0 or 1.
    pub fn get_s(&self) -> (r: u8)
        ensures
            r == bit(self@.s),
    {
        self.get_mask(0x80)
    }

    /// Set the carry flag to the lowest bit of `value`.
    pub fn set_c(&mut self, value: u8)
        ensures
            final(self)@ == (Flags { c: value % 2 == 1, ..old(self)@ }),
    {
        self.set_mask(0x1, value);
    }

    /// Set the add/subtract flag to the lowest bit of `value`.
    pub fn set_n(&mut self, value: u8)
        ensures
            final(self)@ == (Flags { n: value % 2 == 1, ..old(self)@ }),
    {
        self.set_mask(0x2, value);
    }

    /// Set the parity/overflow flag to the lowest bit of `value`.
    pub fn set_pv(&mut self, value: u8)
        ensures
            final(self)@ == (Flags { pv: value % 2 == 1, ..old(self)@ }),
    {
        self.set_mask(0x4, value);
    }

    /// Set the bit 3 to the lowest bit of `value`.
    pub fn set_x1(&mut self, value: u8)
        ensures
            final(self)@ == (Flags { x1: value % 2 == 1, ..old(self)@ }),
    {
        self.set_mask(0x8, value);
    }

    /// Set the half-carry flag to the lowest bit of `value`.
    pub fn set_h(&mut self, value: u8)
        ensures
            final(self)@ == (Flags { h: value % 2 == 1, ..old(self)@ }),
    {
        self.set_mask(0x10, value);
    }

    /// Set the bit 5 to the lowest bit of `value`.
    pub fn set_x2(&mut self, value: u8)
        ensures
            final(self)@ == (Flags { x2: value % 2 == 1, ..old(self)@ }),
    {
        self.set_mask(0x20, value);
    }

    /// Set the zero flag to the lowest bit of `value`.
    pub fn set_z(&mut self, value: u8)
        ensures
            final(self)@ == (Flags { z: value % 2 == 1, ..old(self)@ }),
    {
        self.set_mask(0x40, value);
    }

    /// Set the sign flag to the lowest bit of `value`.
    pub fn set_s(&mut self, value: u8)
        ensures
            final(self)@ == (Flags { s: value % 2 == 1, ..old(self)@ }),
    {
        self.set_mask(0x80, value);
    }
}

/// The 16-bit value of a register pair with high byte `high` and low byte `low`.
pub open spec fn u16_of(high: u8, low: u8) -> u16 {
    (high as int * 256 + low as int) as u16
}

/// `x` reduced modulo 2^16, as 16-bit registers wrap.
pub open spec fn w16(x: int) -> u16 {
    (x % 0x10000) as u16
}

/// `x` reduced modulo 2^8.
pub open spec fn w8(x: int) -> u8 {
    (x % 0x100) as u8
}

/// The register pair that holds `v`.
pub open spec fn reg_of(v: u16) -> Reg16 {
    Reg16 { high: (v / 256) as u8, low: (v % 256) as u8 }
}

/// A pair of 8-bit registers read and written together as one 16-bit register;
/// `high` is the first letter of the pair (B of BC).
#[derive(Clone, Copy)]
pub struct Reg16 {
    pub high: u8,
    pub low: u8,
}

/// A register pair is the pair that holds its value.
pub broadcast proof fn lemma_reg_of_value(r: Reg16)
    ensures
        #[trigger] reg_of(r.value()) == r,
{
}

/// The value of the pair that holds `v` is `v`.
pub broadcast proof fn lemma_value_reg_of(v: u16)
    ensures
        #[trigger] reg_of(v).value() == v,
{
}

impl Reg16 {
    /// The 16-bit value of the pair.
    pub open spec fn value(self) -> u16 {
        u16_of(self.high, self.low)
    }

    fn new() -> (r: Self)
        ensures
            r == reg_of(0),
    {
        Self { low: 0, high: 0 }
    }

    /// Store `input`: its high byte in `high`, its low byte in `low`.
    pub fn set(&mut self, input: u16)
        ensures
            *final(self) == reg_of(input),
    {
        self.low = (input % 256) as u8;
        self.high = (input / 256) as u8;
    }

    /// The 16-bit value `high * 256 + low`.
    pub fn get(&self) -> (r: u16)
        ensures
            r == self.value(),
    {
        self.low as u16 + (self.high as u16) * 256
    }
}

/// A 16-bit register that can also be read and written a byte at a time.
pub trait Reg16RW {
    /// The 16-bit value held.
    spec fn word(&self) -> u16;

    fn set(&mut self, input: u16)
        ensures
            final(self).word() == input,
    ;

    fn get(&self) -> (r: u16)
        ensures
            r == self.word(),
    ;

    fn set_low(&mut self, input: u8)
        ensures
            final(self).word() == u16_of((old(self).word() / 256) as u8, input),
    ;

    fn set_high(&mut self, input: u8)
        ensures
            final(self).word() == u16_of(input, (old(self).word() % 256) as u8),
    ;

    fn get_low(&self) -> (r: u8)
        ensures
            r == self.word() % 256,
    ;

    fn get_high(&self) -> (r: u8)
        ensures
            r == self.word() / 256,
    ;
}

/// A register whose low byte holds the status flags.
pub trait FlagReg {
    /// The flag byte.
    spec fn flag_byte(&self) -> u8;

    /// The other byte, which flag updates leave alone.
    spec fn other_byte(&self) -> u8;

    fn get_flags(&self) -> (r: PcStatusFlagFields)
        ensures
            r.0 == self.flag_byte(),
    ;

    fn set_flags(&mut self, flags: &PcStatusFlagFields)
        ensures
            final(self).flag_byte() == flags.0,
            final(self).other_byte() == old(self).other_byte(),
    ;
}

/// The AF register pair: accumulator and flags.
pub trait AfRegister {
    spec fn a_byte(&self) -> u8;

    spec fn f_byte(&self) -> u8;

    fn get_a(&self) -> (r: u8)
        ensures
            r == self.a_byte(),
    ;

    fn get_f(&self) -> (r: u8)
        ensures
            r == self.f_byte(),
    ;
}

impl Reg16RW for Reg16 {
    open spec fn word(&self) -> u16 {
        self.value()
    }

    fn get(&self) -> (r: u16) {
        self.low as u16 + (self.high as u16) * 256
    }

    fn set(&mut self, input: u16) {
        self.low = (input % 256) as u8;
        self.high = (input / 256) as u8;
    }

    fn set_low(&mut self, input: u8) {
        self.low = input;
    }

    fn set_high(&mut self, input: u8) {
        self.high = input;
    }

    fn get_low(&self) -> (r: u8) {
        self.low
    }

    fn get_high(&self) -> (r: u8) {
        self.high
    }
}

/// The AF pair: `reg16.high` is the accumulator, `reg16.low` the flags.
#[derive(Clone, Copy)]
pub struct FlagReg16 {
    pub reg16: Reg16,
}

impl FlagReg16 {
    fn new() -> (r: Self)
        ensures
            r.reg16 == reg_of(0),
    {
        Self { reg16: Reg16::new() }
    }
}

impl FlagReg for FlagReg16 {
    open spec fn flag_byte(&self) -> u8 {
        self.reg16.low
    }

    open spec fn other_byte(&self) -> u8 {
        self.reg16.high
    }

    fn get_flags(&self) -> (r: PcStatusFlagFields) {
        PcStatusFlagFields(self.reg16.low)
    }

    fn set_flags(&mut self, flags: &PcStatusFlagFields) {
        self.reg16.low = flags.0;
    }
}

impl AfRegister for FlagReg16 {
    open spec fn a_byte(&self) -> u8 {
        self.reg16.high
    }

    open spec fn f_byte(&self) -> u8 {
        self.reg16.low
    }

    fn get_a(&self) -> (r: u8) {
        self.reg16.high
    }

    fn get_f(&self) -> (r: u8) {
        self.reg16.low
    }
}

impl Reg16RW for FlagReg16 {
    open spec fn word(&self) -> u16 {
        self.reg16.value()
    }

    fn set(&mut self, input: u16) {
        self.reg16.set(input)
    }

    fn get(&self) -> (r: u16) {
        self.reg16.get()
    }

    fn set_low(&mut self, input: u8) {
        self.reg16.low = input;
    }

    fn set_high(&mut self, input: u8) {
        self.reg16.high = input;
    }

    fn get_low(&self) -> (r: u8) {
        self.reg16.low
    }

    fn get_high(&self) -> (r: u8) {
        self.reg16.high
    }
}

/// The Z80 register file.
#[derive(Clone, Copy)]
pub struct PcState {
    pub bc_reg: Reg16,
    pub de_reg: Reg16,
    pub af_reg: FlagReg16,
    pub hl_reg: Reg16,
    pub pc_reg: Reg16,
    pub sp_reg: Reg16,
    pub ix_reg: Reg16,
    pub iy_reg: Reg16,
    pub shadow_bc_reg: Reg16,
    pub shadow_de_reg: Reg16,
    pub shadow_hl_reg: Reg16,
    pub shadow_af_reg: FlagReg16,
    /// Memory refresh register.
    pub r: u8,
    /// Interrupt vector register.
    pub i: u8,
    pub iff1: bool,
    pub iff2: bool,
    /// Interrupt mode.
    pub im: u8,
}

/// The register file with every register zero and interrupts disabled.
pub open spec fn initial_pc_state() -> PcState {
    PcState {
        bc_reg: reg_of(0),
        de_reg: reg_of(0),
        af_reg: FlagReg16 { reg16: reg_of(0) },
        hl_reg: reg_of(0),
        pc_reg: reg_of(0),
        sp_reg: reg_of(0),
        ix_reg: reg_of(0),
        iy_reg: reg_of(0),
        shadow_bc_reg: reg_of(0),
        shadow_de_reg: reg_of(0),
        shadow_hl_reg: reg_of(0),
        shadow_af_reg: FlagReg16 { reg16: reg_of(0) },
        r: 0,
        i: 0,
        iff1: false,
        iff2: false,
        im: 0,
    }
}

impl PcState {
    /// The accumulator.
    pub open spec fn a(self) -> u8 {
        self.af_reg.reg16.high
    }

    /// The flag byte.
    pub open spec fn f(self) -> u8 {
        self.af_reg.reg16.low
    }

    /// The flags.
    pub open spec fn flags(self) -> Flags {
        flags_of(self.af_reg.reg16.low)
    }

    pub open spec fn af(self) -> u16 {
        self.af_reg.reg16.value()
    }

    pub open spec fn with_a(self, v: u8) -> PcState {
        PcState { af_reg: FlagReg16 { reg16: Reg16 { high: v, ..self.af_reg.reg16 } }, ..self }
    }

    pub open spec fn with_f(self, v: u8) -> PcState {
        PcState { af_reg: FlagReg16 { reg16: Reg16 { low: v, ..self.af_reg.reg16 } }, ..self }
    }

    pub open spec fn with_af(self, v: u16) -> PcState {
        PcState { af_reg: FlagReg16 { reg16: reg_of(v) }, ..self }
    }

    pub open spec fn bc(self) -> u16 {
        self.bc_reg.value()
    }

    pub open spec fn with_bc(self, v: u16) -> PcState {
        PcState { bc_reg: reg_of(v), ..self }
    }

    pub open spec fn de(self) -> u16 {
        self.de_reg.value()
    }

    pub open spec fn with_de(self, v: u16) -> PcState {
        PcState { de_reg: reg_of(v), ..self }
    }

    pub open spec fn hl(self) -> u16 {
        self.hl_reg.value()
    }

    pub open spec fn with_hl(self, v: u16) -> PcState {
        PcState { hl_reg: reg_of(v), ..self }
    }

    pub open spec fn pc(self) -> u16 {
        self.pc_reg.value()
    }

    pub open spec fn with_pc(self, v: u16) -> PcState {
        PcState { pc_reg: reg_of(v), ..self }
    }

    pub open spec fn sp(self) -> u16 {
        self.sp_reg.value()
    }

    pub open spec fn with_sp(self, v: u16) -> PcState {
        PcState { sp_reg: reg_of(v), ..self }
    }

    pub open spec fn ix(self) -> u16 {
        self.ix_reg.value()
    }

    pub open spec fn with_ix(self, v: u16) -> PcState {
        PcState { ix_reg: reg_of(v), ..self }
    }

    pub open spec fn iy(self) -> u16 {
        self.iy_reg.value()
    }

    pub open spec fn with_iy(self, v: u16) -> PcState {
        PcState { iy_reg: reg_of(v), ..self }
    }

    pub open spec fn b(self) -> u8 {
        self.bc_reg.high
    }

    pub open spec fn with_b(self, v: u8) -> PcState {
        PcState { bc_reg: Reg16 { high: v, ..self.bc_reg }, ..self }
    }

    pub open spec fn c(self) -> u8 {
        self.bc_reg.low
    }

    pub open spec fn with_c(self, v: u8) -> PcState {
        PcState { bc_reg: Reg16 { low: v, ..self.bc_reg }, ..self }
    }

    pub open spec fn d(self) -> u8 {
        self.de_reg.high
    }

    pub open spec fn with_d(self, v: u8) -> PcState {
        PcState { de_reg: Reg16 { high: v, ..self.de_reg }, ..self }
    }

    pub open spec fn e(self) -> u8 {
        self.de_reg.low
    }

    pub open spec fn with_e(self, v: u8) -> PcState {
        PcState { de_reg: Reg16 { low: v, ..self.de_reg }, ..self }
    }

    pub open spec fn h(self) -> u8 {
        self.hl_reg.high
    }

    pub open spec fn with_h(self, v: u8) -> PcState {
        PcState { hl_reg: Reg16 { high: v, ..self.hl_reg }, ..self }
    }

    pub open spec fn l(self) -> u8 {
        self.hl_reg.low
    }

    pub open spec fn with_l(self, v: u8) -> PcState {
        PcState { hl_reg: Reg16 { low: v, ..self.hl_reg }, ..self }
    }

    /// The register file with the flag register holding `fl`.
    pub open spec fn with_flags(self, fl: Flags) -> PcState {
        self.with_f(byte_of(fl))
    }

    /// The program counter moved by `d`, wrapping at 16 bits.
    pub open spec fn adv_pc(self, d: int) -> PcState {
        self.with_pc(w16(self.pc() + d))
    }

    /// The 8-bit register that `sel & 7` selects: 0 B, 1 C, 2 D, 3 E, 4 H,
    /// 5 L, 7 A (6 selects none).
    pub open spec fn reg8(self, sel: u8) -> u8 {
        let k = sel & 7;
        if k == 0 {
            self.b()
        } else if k == 1 {
            self.c()
        } else if k == 2 {
            self.d()
        } else if k == 3 {
            self.e()
        } else if k == 4 {
            self.h()
        } else if k == 5 {
            self.l()
        } else {
            self.a()
        }
    }

    /// The register file with the 8-bit register that `sel` selects set to `v`.
    pub open spec fn with_reg8(self, sel: u8, v: u8) -> PcState {
        let k = sel & 7;
        if k == 0 {
            self.with_b(v)
        } else if k == 1 {
            self.with_c(v)
        } else if k == 2 {
            self.with_d(v)
        } else if k == 3 {
            self.with_e(v)
        } else if k == 4 {
            self.with_h(v)
        } else if k == 5 {
            self.with_l(v)
        } else {
            self.with_a(v)
        }
    }

    /// The register pair that `sel & 3` selects: 0 BC, 1 DE, 2 HL, 3 AF.
    pub open spec fn reg16(self, sel: u8) -> u16 {
        let k = sel & 3;
        if k == 0 {
            self.bc()
        } else if k == 1 {
            self.de()
        } else if k == 2 {
            self.hl()
        } else {
            self.af()
        }
    }

    /// The register file with the pair that `sel` selects set to `v`.
    pub open spec fn with_reg16(self, sel: u8, v: u16) -> PcState {
        let k = sel & 3;
        if k == 0 {
            self.with_bc(v)
        } else if k == 1 {
            self.with_de(v)
        } else if k == 2 {
            self.with_hl(v)
        } else {
            self.with_af(v)
        }
    }

    /// A register file with every register zero and interrupts disabled.
    pub fn new() -> (r: Self)
        ensures
            r == initial_pc_state(),
    {
        Self {
            bc_reg: Reg16::new(),
            de_reg: Reg16::new(),
            af_reg: FlagReg16::new(),
            hl_reg: Reg16::new(),
            pc_reg: Reg16::new(),
            sp_reg: Reg16::new(),
            ix_reg: Reg16::new(),
            iy_reg: Reg16::new(),
            shadow_bc_reg: Reg16::new(),
            shadow_de_reg: Reg16::new(),
            shadow_hl_reg: Reg16::new(),
            shadow_af_reg: FlagReg16::new(),
            r: 0,
            i: 0,
            iff1: false,
            iff2: false,
            im: 0,
        }
    }

    pub fn get_b(&self) -> (r: u8)
        ensures
            r == self.b(),
    {
        self.bc_reg.high
    }

    pub fn set_b(&mut self, input: u8)
        ensures
            *final(self) == old(self).with_b(input),
    {
        self.bc_reg.high = input;
    }

    pub fn get_c(&self) -> (r: u8)
        ensures
            r == self.c(),
    {
        self.bc_reg.low
    }

    pub fn set_c(&mut self, input: u8)
        ensures
            *final(self) == old(self).with_c(input),
    {
        self.bc_reg.low = input;
    }

    pub fn get_d(&self) -> (r: u8)
        ensures
            r == self.d(),
    {
        self.de_reg.high
    }

    pub fn set_d(&mut self, input: u8)
        ensures
            *final(self) == old(self).with_d(input),
    {
        self.de_reg.high = input;
    }

    pub fn get_e(&self) -> (r: u8)
        ensures
            r == self.e(),
    {
        self.de_reg.low
    }

    pub fn set_e(&mut self, input: u8)
        ensures
            *final(self) == old(self).with_e(input),
    {
        self.de_reg.low = input;
    }

    pub fn get_h(&self) -> (r: u8)
        ensures
            r == self.h(),
    {
        self.hl_reg.high
    }

    pub fn set_h(&mut self, input: u8)
        ensures
            *final(self) == old(self).with_h(input),
    {
        self.hl_reg.high = input;
    }

    pub fn get_l(&self) -> (r: u8)
        ensures
            r == self.l(),
    {
        self.hl_reg.low
    }

    pub fn set_l(&mut self, input: u8)
        ensures
            *final(self) == old(self).with_l(input),
    {
        self.hl_reg.low = input;
    }

    pub fn get_bc(&self) -> (r: u16)
        ensures
            r == self.bc(),
    {
        self.bc_reg.get()
    }

    pub fn set_bc(&mut self, input: u16)
        ensures
            *final(self) == old(self).with_bc(input),
    {
        self.bc_reg.set(input);
    }

    pub fn get_de(&self) -> (r: u16)
        ensures
            r == self.de(),
    {
        self.de_reg.get()
    }

    pub fn set_de(&mut self, input: u16)
        ensures
            *final(self) == old(self).with_de(input),
    {
        self.de_reg.set(input);
    }

    pub fn get_hl(&self) -> (r: u16)
        ensures
            r == self.hl(),
    {
        self.hl_reg.get()
    }

    pub fn set_hl(&mut self, input: u16)
        ensures
            *final(self) == old(self).with_hl(input),
    {
        self.hl_reg.set(input);
    }

    pub fn get_pc_high(&self) -> (r: u8)
        ensures
            r == self.pc_reg.high,
    {
        self.pc_reg.high
    }

    pub fn get_pc_low(&self) -> (r: u8)
        ensures
            r == self.pc_reg.low,
    {
        self.pc_reg.low
    }

    pub fn get_pc(&self) -> (r: u16)
        ensures
            r == self.pc(),
    {
        self.pc_reg.get()
    }

    pub fn set_pc(&mut self, input: u16)
        ensures
            *final(self) == old(self).with_pc(input),
    {
        self.pc_reg.set(input);
    }

    pub fn get_sp_high(&self) -> (r: u8)
        ensures
            r == self.sp_reg.high,
    {
        self.sp_reg.high
    }

    pub fn get_sp_low(&self) -> (r: u8)
        ensures
            r == self.sp_reg.low,
    {
        self.sp_reg.low
    }

    pub fn get_sp(&self) -> (r: u16)
        ensures
            r == self.sp(),
    {
        self.sp_reg.get()
    }

    pub fn set_sp(&mut self, input: u16)
        ensures
            *final(self) == old(self).with_sp(input),
    {
        self.sp_reg.set(input);
    }

    pub fn get_ix_high(&self) -> (r: u8)
        ensures
            r == self.ix_reg.high,
    {
        self.ix_reg.high
    }

    pub fn get_ix_low(&self) -> (r: u8)
        ensures
            r == self.ix_reg.low,
    {
        self.ix_reg.low
    }

    pub fn get_ix(&self) -> (r: u16)
        ensures
            r == self.ix(),
    {
        self.ix_reg.get()
    }

    pub fn set_ix(&mut self, input: u16)
        ensures
            *final(self) == old(self).with_ix(input),
    {
        self.ix_reg.set(input);
    }

    pub fn get_iy_high(&self) -> (r: u8)
        ensures
            r == self.iy_reg.high,
    {
        self.iy_reg.high
    }

    pub fn get_iy_low(&self) -> (r: u8)
        ensures
            r == self.iy_reg.low,
    {
        self.iy_reg.low
    }

    pub fn get_iy(&self) -> (r: u16)
        ensures
            r == self.iy(),
    {
        self.iy_reg.get()
    }

    pub fn set_iy(&mut self, input: u16)
        ensures
            *final(self) == old(self).with_iy(input),
    {
        self.iy_reg.set(input);
    }

    pub fn set_pc_high(&mut self, input: u8)
        ensures
            *final(self) == (PcState { pc_reg: Reg16 { high: input, ..old(self).pc_reg }, ..*old(self) }),
    {
        self.pc_reg.high = input;
    }

    pub fn set_pc_low(&mut self, input: u8)
        ensures
            *final(self) == (PcState { pc_reg: Reg16 { low: input, ..old(self).pc_reg }, ..*old(self) }),
    {
        self.pc_reg.low = input;
    }

    pub fn get_a(&self) -> (r: u8)
        ensures
            r == self.a(),
    {
        self.af_reg.reg16.high
    }

    pub fn set_a(&mut self, input: u8)
        ensures
            *final(self) == old(self).with_a(input),
    {
        self.af_reg.reg16.high = input;
    }

    /// The flag register.
    pub fn get_f(&self) -> (r: PcStatusFlagFields)
        ensures
            r.0 == self.f(),
    {
        self.af_reg.get_flags()
    }

    /// Replace the flag register; the accumulator is kept.
    pub fn set_f(&mut self, input: PcStatusFlagFields)
        ensures
            *final(self) == old(self).with_f(input.0),
    {
        self.af_reg.set_flags(&input);
    }

    pub fn get_af(&self) -> (r: u16)
        ensures
            r == self.af(),
    {
        self.af_reg.reg16.get()
    }

    pub fn set_af(&mut self, input: u16)
        ensures
            *final(self) == old(self).with_af(input),
    {
        self.af_reg.reg16.set(input);
    }

    pub fn get_r(&self) -> (r: u8)
        ensures
            r == self.r,
    {
        self.r
    }

    pub fn get_i(&self) -> (r: u8)
        ensures
            r == self.i,
    {
        self.i
    }

    pub fn get_iff1(&self) -> (r: bool)
        ensures
            r == self.iff1,
    {
        self.iff1
    }

    pub fn get_iff2(&self) -> (r: bool)
        ensures
            r == self.iff2,
    {
        self.iff2
    }

    pub fn get_im(&self) -> (r: u8)
        ensures
            r == self.im,
    {
        self.im
    }

    pub fn set_r(&mut self, input: u8)
        ensures
            *final(self) == (PcState { r: input, ..*old(self) }),
    {
        self.r = input;
    }

    pub fn set_i(&mut self, input: u8)
        ensures
            *final(self) == (PcState { i: input, ..*old(self) }),
    {
        self.i = input;
    }

    pub fn set_iff1(&mut self, input: bool)
        ensures
            *final(self) == (PcState { iff1: input, ..*old(self) }),
    {
        self.iff1 = input;
    }

    pub fn set_iff2(&mut self, input: bool)
        ensures
            *final(self) == (PcState { iff2: input, ..*old(self) }),
    {
        self.iff2 = input;
    }

    pub fn set_im(&mut self, input: u8)
        ensures
            *final(self) == (PcState { im: input, ..*old(self) }),
    {
        self.im = input;
    }

    /// The 8-bit register that `sel & 7` selects (see `reg8`).
    pub fn get_reg8(&self, sel: u8) -> (r: u8)
        requires
            sel & 7 != 6,
        ensures
            r == self.reg8(sel),
    {
        let k = sel & 7;
        if k == 0 {
            self.get_b()
        } else if k == 1 {
            self.get_c()
        } else if k == 2 {
            self.get_d()
        } else if k == 3 {
            self.get_e()
        } else if k == 4 {
            self.get_h()
        } else if k == 5 {
            self.get_l()
        } else {
            self.get_a()
        }
    }

    /// Set the 8-bit register that `sel & 7` selects (see `reg8`).
    pub fn set_reg8(&mut self, sel: u8, value: u8)
        requires
            sel & 7 != 6,
        ensures
            *final(self) == old(self).with_reg8(sel, value),
    {
        let k = sel & 7;
        if k == 0 {
            self.set_b(value)
        } else if k == 1 {
            self.set_c(value)
        } else if k == 2 {
            self.set_d(value)
        } else if k == 3 {
            self.set_e(value)
        } else if k == 4 {
            self.set_h(value)
        } else if k == 5 {
            self.set_l(value)
        } else {
            self.set_a(value)
        }
    }

    /// The register pair that `sel & 3` selects (see `reg16`).
    pub fn get_reg16(&self, sel: u8) -> (r: u16)
        ensures
            r == self.reg16(sel),
    {
        let k = sel & 3;
        if k == 0 {
            self.get_bc()
        } else if k == 1 {
            self.get_de()
        } else if k == 2 {
            self.get_hl()
        } else {
            self.get_af()
        }
    }

    /// Set the register pair that `sel & 3` selects (see `reg16`).
    pub fn set_reg16(&mut self, sel: u8, value: u16)
        ensures
            *final(self) == old(self).with_reg16(sel, value),
    {
        let k = sel & 3;
        if k == 0 {
            self.set_bc(value)
        } else if k == 1 {
            self.set_de(value)
        } else if k == 2 {
            self.set_hl(value)
        } else {
            self.set_af(value)
        }
    }

    /// Add the signed `increment` to a 16-bit register, wrapping at 16 bits.
    pub fn increment_reg<R: Reg16RW>(register: &mut R, increment: i8)
        ensures
            final(register).word() == w16(old(register).word() + increment),
    {
        let v = register.get();
        if increment >= 0 {
            register.set(v.wrapping_add(increment as u16));
        } else {
            let d = (0 - (increment as i16)) as u16;
            register.set(v.wrapping_sub(d));
        }
    }

    /// Move the stack pointer by `increment`.
    pub fn increment_sp(&mut self, increment: i8)
        ensures
            *final(self) == old(self).with_sp(w16(old(self).sp() + increment)),
    {
        Self::increment_reg(&mut self.sp_reg, increment);
    }

    /// Move the program counter by `increment`.
    pub fn increment_pc(&mut self, increment: i8)
        ensures
            *final(self) == old(self).adv_pc(increment as int),
    {
        Self::increment_reg(&mut self.pc_reg, increment);
    }
}

} // verus!
