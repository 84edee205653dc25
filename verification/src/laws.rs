use vstd::prelude::*;
use crate::clocks::tick;
use crate::cpu::instruction_set::{push_view, ret_spec, acc_op, add_flags, daa_spec, daa_add_adjust};
use crate::cpu::status_flags::u8_carry_result;
use crate::cpu::pc_state::{bit, w8};
use crate::cpu::instructions::{Machine, machine, cpu_step, block3_step};
use crate::cpu::pc_state::{PcState, u16_of, w16};
use crate::interruptor::interrupt_spec;
use crate::graphics::vdp::{
    VdpView, vdp_wf, in_sprite_table, port_bf_write_spec, port_be_write_spec, port_be_read_spec, register_write_ok,
    palette_colour, vdp_write_ok, vdp_port_write_spec, initial_vdp,
};
use crate::audio::sound::{SoundView, sound_wf, chunk_spec, write_spec};
use crate::memory::cartridge::Cartridge;
use crate::memory::memory::{inserted, populated, remap, absolute_address, lemma_or_aligned, AbsoluteView, FlatMemory, MemoryAbsolute, MemoryRW, absolute_wf, bank_offset, read16_view};

verus! {

/// Two clock increments add up: counting `a` cycles then `b` cycles is
/// counting `a + b` cycles, on the rolling 32-bit counter.
pub proof fn law_clock_increments_add(cycles: u32, a: nat, b: nat)
    ensures
        tick(tick(cycles, a as int), b as int) == tick(cycles, (a + b) as int),
{
    let x = cycles + a;
    let m = 0x1_0000_0000int;
    assert((x % m + b) % m == (x + b) % m) by {
        vstd::arithmetic::div_mod::lemma_add_mod_noop(x, b as int, m);
        vstd::arithmetic::div_mod::lemma_mod_twice(b as int, m);
        vstd::arithmetic::div_mod::lemma_small_mod(b as nat % m as nat, m as nat);
    }
}

/// A register pair reads back the 16-bit value written to it, and its high
/// and low registers are the value's high and low bytes.
pub proof fn law_register_pair_roundtrip(s: PcState, v: u16)
    ensures
        s.with_bc(v).bc() == v,
        s.with_de(v).de() == v,
        s.with_hl(v).hl() == v,
        s.with_af(v).af() == v,
        s.with_sp(v).sp() == v,
        s.with_pc(v).pc() == v,
        s.with_ix(v).ix() == v,
        s.with_iy(v).iy() == v,
        s.with_bc(v).b() == v / 256 && s.with_bc(v).c() == v % 256,
        s.with_af(v).a() == v / 256 && s.with_af(v).f() == v % 256,
{
}

/// Writing the two registers of a pair sets the pair: high byte first.
pub proof fn law_register_halves_make_pair(s: PcState, high: u8, low: u8)
    ensures
        s.with_b(high).with_c(low).bc() == u16_of(high, low),
        s.with_d(high).with_e(low).de() == u16_of(high, low),
        s.with_h(high).with_l(low).hl() == u16_of(high, low),
{
}

/// Flat memory reads back what was written, and a write leaves every other
/// address as it was.
pub proof fn law_flat_memory_read_after_write(m: Seq<u8>, address: u16, other: u16, data: u8)
    requires
        m.len() == 0x10000,
    ensures
        FlatMemory::read_view(FlatMemory::write_view(m, address, data), address) == data,
        other != address ==> FlatMemory::read_view(FlatMemory::write_view(m, address, data), other)
            == FlatMemory::read_view(m, other),
{
}

/// System RAM (0xC000 to 0xFFFF) reads back what was written, the paging
/// registers at its top included.
pub proof fn law_ram_read_after_write(v: AbsoluteView, address: u16, data: u8)
    requires
        absolute_wf(v),
        address >= 0xC000,
    ensures
        MemoryAbsolute::read_view(MemoryAbsolute::write_view(v, address, data), address) == data,
{
    crate::memory::memory::lemma_write_keeps_wf(v, address, data);
    crate::memory::memory::lemma_or_aligned(0x208000, (address % 0x2000) as u32);
}

/// System RAM is 8 KiB seen twice: 0xE000 to 0xFFFF mirror 0xC000 to 0xDFFF.
pub proof fn law_ram_mirror(v: AbsoluteView, address: u16)
    requires
        absolute_wf(v),
        address >= 0xE000,
    ensures
        MemoryAbsolute::read_view(v, address) == MemoryAbsolute::read_view(v, (address - 0x2000) as u16),
{
}

/// Whether the slots of the first 32 KiB map to cartridge ROM, as every
/// state reached from a new memory has them.
pub open spec fn rom_paged(v: AbsoluteView) -> bool {
    forall|i: int| 0 <= i < 4 ==> #[trigger] v.mappings[i] < 0x200000
}

/// The first 32 KiB stay on cartridge ROM whatever is written: only the
/// paging registers move those slots, and only to other ROM banks.
pub proof fn law_rom_stays_paged(v: AbsoluteView, address: u16, data: u8)
    requires
        absolute_wf(v),
        rom_paged(v),
    ensures
        rom_paged(MemoryAbsolute::write_view(v, address, data)),
{
    assert(bank_offset(data) <= 0x3F * 0x4000);
}

/// Cartridge RAM: once a value with bit 3 set is written to 0xFFFC, page 2
/// (0x8000 to 0xBFFF) is cartridge RAM and reads back what is written there.
pub proof fn law_cart_ram_read_after_write(v: AbsoluteView, select: u8, address: u16, data: u8)
    requires
        absolute_wf(v),
        select & 0x08 != 0,
        0x8000 <= address < 0xC000,
    ensures
        ({
            let w = MemoryAbsolute::write_view(v, 0xFFFC, select);
            MemoryAbsolute::read_view(MemoryAbsolute::write_view(w, address, data), address) == data
        }),
{
    crate::memory::memory::lemma_write_keeps_wf(v, 0xFFFC, select);
    let w = MemoryAbsolute::write_view(v, 0xFFFC, select);
    assert(w.mappings[4] >= 0x200000 && w.mappings[5] >= 0x200000);
    let slot = (address / 0x2000) as int;
    assert(slot == 4 || slot == 5);
    let m = w.mappings[slot];
    assert(m % 0x2000 == 0 && m <= 0x208000);
    lemma_or_aligned(m, (address % 0x2000) as u32);
    crate::memory::memory::lemma_write_keeps_wf(w, address, data);
}

/// With bit 3 of 0xFFFC clear, page 2 (0x8000 to 0xBFFF) is cartridge ROM:
/// a write there changes nothing.
pub proof fn law_page_2_rom_without_cart_ram(v: AbsoluteView, select: u8, address: u16, data: u8)
    requires
        absolute_wf(v),
        select & 0x08 == 0,
        0x8000 <= address < 0xC000,
    ensures
        ({
            let w = MemoryAbsolute::write_view(v, 0xFFFC, select);
            MemoryAbsolute::write_view(w, address, data) == w
        }),
{
    crate::memory::memory::lemma_write_keeps_wf(v, 0xFFFC, select);
    let w = MemoryAbsolute::write_view(v, 0xFFFC, select);
    assert(bank_offset(w.page_2) <= 0x3F * 0x4000);
    assert(w.mappings[4] < 0x200000 && w.mappings[5] < 0x200000);
    let slot = (address / 0x2000) as int;
    assert(slot == 4 || slot == 5);
    let m = w.mappings[slot];
    assert(m % 0x2000 == 0);
    lemma_or_aligned(m, (address % 0x2000) as u32);
}

/// Writes below 0x8000 do not change the memory: that is cartridge ROM.
pub proof fn law_rom_not_written(v: AbsoluteView, address: u16, data: u8)
    requires
        absolute_wf(v),
        rom_paged(v),
        address < 0x8000,
    ensures
        MemoryAbsolute::write_view(v, address, data) == v,
{
    let m = v.mappings[(address / 0x2000) as int];
    assert(m < 0x200000 && m % 0x2000 == 0);
    crate::memory::memory::lemma_or_aligned(m, (address % 0x2000) as u32);
}

/// Selecting bank `bank` for page 1 (a write to 0xFFFE) makes 0x4000 to
/// 0x7FFF read that bank.
pub proof fn law_page_1_bank_select(v: AbsoluteView, bank: u8, offset: u16)
    requires
        absolute_wf(v),
        offset < 0x4000,
    ensures
        MemoryAbsolute::read_view(MemoryAbsolute::write_view(v, 0xFFFE, bank), (0x4000 + offset) as u16)
            == MemoryAbsolute::write_view(v, 0xFFFE, bank).map[0x100000 + bank_offset(bank) + offset],
{
    crate::memory::memory::lemma_write_keeps_wf(v, 0xFFFE, bank);
    let v2 = MemoryAbsolute::write_view(v, 0xFFFE, bank);
    let a = (0x4000 + offset) as u16;
    let slot = (a / 0x2000) as int;
    let m = v2.mappings[slot];
    let x = (a % 0x2000) as u32;
    assert(m % 0x2000 == 0);
    crate::memory::memory::lemma_or_aligned(m, x);
    assert(bank_offset(bank) % 0x2000 == 0) by {
        let b = (bank % 64) as int;
        assert(0x4000 * b == 0x2000 * (2 * b)) by (nonlinear_arith);
        vstd::arithmetic::div_mod::lemma_mod_multiples_basic(2 * b, 0x2000);
    }
}

/// The stack: popping into a pair what a push of another pair left gives
/// that pair's value back, and the stack pointer where it was.
#[verifier::spinoff_prover]
#[verifier::rlimit(80)]
pub proof fn law_push_then_pop(s: PcState, m: Seq<u8>, cycles: u32, devices: Seq<crate::graphics::vdp::VdpView>)
    requires
        m.len() == 0x10000,
    ensures
        ({
            let x1 = cpu_step::<FlatMemory>(0xC5, machine(s, m, cycles, devices));
            let x2 = cpu_step::<FlatMemory>(0xD1, x1);
            &&& x2.cpu.de() == s.bc()
            &&& x2.cpu.sp() == s.sp()
            &&& x2.cpu.bc() == s.bc()
            &&& x2.cpu.pc() == w16(s.pc() + 2)
        }),
{
    crate::bits::lemma_selectors();
    lemma_stack_opcodes();
    let sp = s.sp();
    let hi = (s.bc() / 256) as u8;
    let lo = (s.bc() % 256) as u8;
    let pushed = push_view::<FlatMemory>(m, sp, hi, lo);
    lemma_push_read(m, sp, hi, lo);
    let x0 = machine(s, m, cycles, devices);
    let x1 = cpu_step::<FlatMemory>(0xC5, x0);
    assert(x1 == block3_step::<FlatMemory>(0xC5, x0));
    assert(x1.cpu == s.with_sp(w16(sp - 2)).adv_pc(1));
    assert(x1.mem == pushed);
    let x2 = cpu_step::<FlatMemory>(0xD1, x1);
    assert(x2 == block3_step::<FlatMemory>(0xD1, x1));
}

/// Op-code classes of the stack and exchange instructions.
proof fn lemma_stack_opcodes()
    by (bit_vector)
    ensures
        0xC5u8 & 0xC7 == 0xC5u8,
        0xD1u8 & 0xC7 == 0xC1u8,
        0xD9u8 & 0xC7 == 0xC1u8,
        0xC9u8 & 0xC7 == 0xC1u8,
        (0xD9u8 >> 3) & 7 == 3u8,
        (0xC9u8 >> 3) & 7 == 1u8,
        0x08u8 & 0xCF == 0x08u8,
        0x08u8 & 0xC7 == 0x00u8,
        (0x08u8 >> 3) & 7 == 1u8,
        (0x08u8 >> 4) & 3 == 0u8,
        0xEBu8 & 0xC7 == 0xC3u8,
        (0xEBu8 >> 3) & 7 == 5u8,
{
}

/// An interrupt is returned from: RET after a mode-1 interrupt resumes at
/// the interrupted PC with the stack pointer where it was.
#[verifier::spinoff_prover]
pub proof fn law_interrupt_then_return(s: PcState, m: Seq<u8>)
    requires
        m.len() == 0x10000,
        s.iff1,
    ensures
        ({
            let (s1, m1) = interrupt_spec::<FlatMemory>(s, m);
            let s2 = ret_spec::<FlatMemory>(s1, m1);
            &&& s1.pc() == 0x38
            &&& !s1.iff1
            &&& s2.pc() == s.pc()
            &&& s2.sp() == s.sp()
        }),
{
    let (s1, m1) = interrupt_spec::<FlatMemory>(s, m);
    assert(s1.sp() == w16(s.sp() - 2));
    lemma_push_read(m, s.sp(), s.pc_reg.high, s.pc_reg.low);
}

/// EXX twice leaves every register as it was, but PC, two bytes on.
pub proof fn law_exx_twice(x: Machine<Seq<u8>>)
    ensures
        cpu_step::<FlatMemory>(0xD9, cpu_step::<FlatMemory>(0xD9, x)).cpu == x.cpu.adv_pc(1).adv_pc(1),
{
    lemma_stack_opcodes();
}

/// EX AF, AF' twice leaves every register as it was, but PC, two bytes on.
pub proof fn law_ex_af_twice(x: Machine<Seq<u8>>)
    ensures
        cpu_step::<FlatMemory>(0x08, cpu_step::<FlatMemory>(0x08, x)).cpu == x.cpu.adv_pc(1).adv_pc(1),
{
    lemma_stack_opcodes();
}

/// EX DE, HL twice leaves every register as it was, but PC, two bytes on.
pub proof fn law_ex_de_hl_twice(x: Machine<Seq<u8>>)
    ensures
        cpu_step::<FlatMemory>(0xEB, cpu_step::<FlatMemory>(0xEB, x)).cpu == x.cpu.adv_pc(1).adv_pc(1),
{
    lemma_stack_opcodes();
}

/// The VRAM address that control bytes `lo` then `hi` set.
pub open spec fn vram_address(lo: u8, hi: u8) -> u16 {
    (((lo as u16) + ((hi as u16) << 8)) as u16) & 0x3FFF
}

/// VRAM reads back what was written: with the address set by two control
/// bytes (a VRAM code) and a byte written to the data port, setting the same
/// address again makes the data port read that byte.
pub proof fn law_vram_read_back(v: VdpView, lo: u8, hi: u8, data: u8)
    requires
        vdp_wf(v),
        !v.address_latch,
        hi < 0x80,
        !in_sprite_table(v, vram_address(lo, hi)),
    ensures
        ({
            let v1 = port_bf_write_spec(port_bf_write_spec(v, lo), hi);
            let v2 = port_be_write_spec(v1, data);
            let v3 = port_bf_write_spec(port_bf_write_spec(v2, lo), hi);
            &&& v1.current_address == vram_address(lo, hi)
            &&& port_be_read_spec(v3).1 == data
        }),
{
    assert(hi & 0xF0 != 0x80 && hi >> 6 != 3) by (bit_vector)
        requires
            hi < 0x80,
    ;
    crate::bits::lemma_u8_bits(hi);
    crate::bits::lemma_u16_bits(((lo as u16) + ((hi as u16) << 8)) as u16);
}

/// A register is written through the control port: the value, then 0x80
/// plus the register's number.
pub proof fn law_register_write(v: VdpView, data: u8, reg: u8)
    requires
        vdp_wf(v),
        !v.address_latch,
        reg < 16,
        register_write_ok(v, reg, data),
    ensures
        port_bf_write_spec(port_bf_write_spec(v, data), 0x80 | reg).vdp_register[reg as int] == data,
{
    assert((0x80 | reg) & 0xF0 == 0x80 && (0x80 | reg) & 0xF == reg) by (bit_vector)
        requires
            reg < 16,
    ;
}

/// Whether every palette entry shows the colour its colour-RAM byte stands for.
pub open spec fn palette_follows_colour_ram(v: VdpView) -> bool {
    forall|i: int| 0 <= i < 0x20 ==> #[trigger] v.screen_palette[i] == palette_colour(v.c_ram[i])
}

/// The palette shows the colour RAM from switch-on, and every port write
/// keeps it so.
pub proof fn law_palette_follows_colour_ram(v: VdpView, port: u8, value: u8)
    requires
        vdp_wf(v),
        palette_follows_colour_ram(v),
        vdp_write_ok(v, port, value),
    ensures
        palette_follows_colour_ram(initial_vdp()),
        palette_follows_colour_ram(vdp_port_write_spec(v, port, value)),
{
    assert(palette_colour(0) == (crate::graphics::display::Colour { r: 0, g: 0, b: 0 }));
}

/// A chunk of audio has the number of samples asked for.
pub proof fn law_audio_chunk_length(v: SoundView, length: u32)
    requires
        sound_wf(v),
    ensures
        chunk_spec(v, length).1.len() == length,
{
}

/// The bytes that set a channel's attenuation and tone period.
proof fn lemma_sound_bytes(ch: u8, att: u8, period: u16)
    by (bit_vector)
    requires
        ch < 4,
        att < 16,
        period < 0x400,
    ensures
        (0x90 | (ch << 5) | att) & 0x90 == 0x90,
        (0x90 | (ch << 5) | att) & 0x80 == 0x80,
        ((0x90 | (ch << 5) | att) >> 5) & 3 == ch,
        (0x90 | (ch << 5) | att) & 0xF == att,
        (0x80 | (ch << 5) | ((period & 0xF) as u8)) & 0x80 == 0x80,
        (0x80 | (ch << 5) | ((period & 0xF) as u8)) & 0x90 == 0x80,
        ((0x80 | (ch << 5) | ((period & 0xF) as u8)) >> 5) & 3 == ch,
        (((period >> 4) & 0x3F) as u8) & 0x80 == 0,
        (((period >> 4) & 0x3F) as u8) & 0x90 != 0x90,
        (((period >> 4) & 0x3F) as u8) & 0x90 != 0x80,
        (((((period >> 4) & 0x3F) as u8) & 0x3F) as u32) << 4 | (((0x80 | (ch << 5) | ((period & 0xF) as u8)) & 0xF) as u32)
            == period as u32,
{
}

/// A channel's attenuation is set by one latch byte: 0x90, the channel in
/// bits 5..6 and the value in bits 0..3.
pub proof fn law_volume_latch(v: SoundView, ch: u8, att: u8)
    requires
        sound_wf(v),
        ch < 4,
        att < 16,
    ensures
        write_spec(v, 0x90 | (ch << 5) | att).volume[ch as int] == att,
{
    lemma_sound_bytes(ch, att, 0);
}

/// A tone channel's period is set by a latch byte holding its low four bits
/// and a data byte holding its high six; the other channels' periods and all
/// volumes stay as they were.
pub proof fn law_tone_period(v: SoundView, ch: u8, period: u16)
    requires
        sound_wf(v),
        ch < 3,
        period < 0x400,
    ensures
        ({
            let v2 = write_spec(write_spec(v, 0x80 | (ch << 5) | ((period & 0xF) as u8)), ((period >> 4) & 0x3F) as u8);
            &&& v2.freq[ch as int] == period as u32
            &&& forall|j: int| 0 <= j < 4 && j != ch ==> #[trigger] v2.freq[j] == v.freq[j]
            &&& v2.volume == v.volume
        }),
{
    lemma_sound_bytes(ch, 0, period);
}

/// The slot offsets after a cartridge is inserted.
proof fn lemma_inserted_mappings(v: AbsoluteView, c: Cartridge)
    requires
        absolute_wf(v),
        c.wf(),
    ensures
        absolute_wf(inserted(v, &c)),
        inserted(v, &c).mappings[0] == 0,
        inserted(v, &c).mappings[1] == 0x102000,
        inserted(v, &c).mappings[2] == 0x104000,
        inserted(v, &c).mappings[3] == 0x106000,
        inserted(v, &c).mappings[4] == 0x108000,
        inserted(v, &c).mappings[5] == 0x10A000,
        forall|k: int| 0 <= k < 0x200000 ==> #[trigger] inserted(v, &c).map[k] == populated(v, &c).map[k],
{
    let p = populated(v, &c);
    assert(absolute_wf(p));
    let w1 = MemoryAbsolute::write_view(p, 0xFFFC, 0);
    crate::memory::memory::lemma_write_keeps_wf(p, 0xFFFC, 0);
    let w2 = MemoryAbsolute::write_view(w1, 0xFFFD, 0);
    crate::memory::memory::lemma_write_keeps_wf(w1, 0xFFFD, 0);
    let w3 = MemoryAbsolute::write_view(w2, 0xFFFE, 1);
    crate::memory::memory::lemma_write_keeps_wf(w2, 0xFFFE, 1);
    let w4 = MemoryAbsolute::write_view(w3, 0xFFFF, 2);
    crate::memory::memory::lemma_write_keeps_wf(w3, 0xFFFF, 2);
    assert(0u8 & 0x08 == 0) by (bit_vector);
    assert(bank_offset(0) == 0 && bank_offset(1) == 0x4000 && bank_offset(2) == 0x8000);
    lemma_top_write_keeps_rom(p, 0xFFFC, 0);
    lemma_top_write_keeps_rom(w1, 0xFFFD, 0);
    lemma_top_write_keeps_rom(w2, 0xFFFE, 1);
    lemma_top_write_keeps_rom(w3, 0xFFFF, 2);
}

/// A write to the top 8 KiB lands in system RAM, above the cartridge's copies.
proof fn lemma_top_write_keeps_rom(x: AbsoluteView, a: u16, d: u8)
    requires
        absolute_wf(x),
        a >= 0xE000,
    ensures
        forall|k: int| 0 <= k < 0x200000 ==> #[trigger] MemoryAbsolute::write_view(x, a, d).map[k] == x.map[k],
{
    crate::memory::memory::lemma_write_keeps_wf(x, a, d);
    let x2 = remap(x, a, d);
    assert(a / 0x2000 == 7);
    assert(x2.mappings[7] == 0x208000);
    lemma_or_aligned(0x208000, (a % 0x2000) as u32);
    assert(absolute_address(x2, a) >= 0x200000);
}

/// An inserted cartridge is what the CPU reads: 0x0000 to 0x3FFF read bank
/// 0, 0x4000 to 0x7FFF bank 1 and 0x8000 to 0xBFFF bank 2.
pub proof fn law_cartridge_mapped(v: AbsoluteView, c: Cartridge, address: u16)
    requires
        absolute_wf(v),
        c.wf(),
        3 <= c.num_banks <= 64,
        address < 0xC000,
    ensures
        MemoryAbsolute::read_view(inserted(v, &c), address)
            == c.byte((address / 0x4000) as int, (address % 0x4000) as int),
{
    lemma_inserted_mappings(v, c);
    let w = inserted(v, &c);
    let slot = (address / 0x2000) as int;
    let m = w.mappings[slot];
    let o = (address % 0x2000) as u32;
    lemma_or_aligned(m, o);
    let bank = (address / 0x4000) as int;
    let off = (address % 0x4000) as int;
    let k = (m + o) as int;
    if slot == 0 {
        assert(k == off);
    } else if slot % 2 == 1 {
        assert(k == 0x100000 + bank * 0x4000 + off);
        assert((k - 0x100000) / 0x4000 == bank && (k - 0x100000) % 0x4000 == off) by {
            crate::memory::memory::lemma_bank_position(bank, off);
        }
    } else {
        assert(k == 0x100000 + bank * 0x4000 + off);
        assert((k - 0x100000) / 0x4000 == bank && (k - 0x100000) % 0x4000 == off) by {
            crate::memory::memory::lemma_bank_position(bank, off);
        }
    }
}

/// The op codes of INC r and DEC r for register `r`.
proof fn lemma_inc_dec_opcodes(r: u8)
    by (bit_vector)
    requires
        r < 8,
    ensures
        0x04 | (r << 3) == 4 + 8 * r,
        0x05 | (r << 3) == 5 + 8 * r,
        ((0x04 | (r << 3)) >> 3) & 7 == r,
        ((0x05 | (r << 3)) >> 3) & 7 == r,
        (0x04 | (r << 3)) & 0xC7 == 0x04,
        (0x05 | (r << 3)) & 0xC7 == 0x05,
        (0x04 | (r << 3)) & 0xCF != 0x09,
        (0x04 | (r << 3)) & 0xCF != 0x03,
        (0x04 | (r << 3)) & 0xCF != 0x0B,
        (0x05 | (r << 3)) & 0xCF != 0x09,
        (0x05 | (r << 3)) & 0xCF != 0x03,
        (0x05 | (r << 3)) & 0xCF != 0x0B,
        (0x05 | (r << 3)) & 0xC7 != 0x04,
{
}

/// What INC r does to register `r` and PC.
#[verifier::spinoff_prover]
#[verifier::rlimit(50)]
proof fn lemma_inc_step(x: Machine<Seq<u8>>, r: u8)
    requires
        r < 8,
        r != 6,
    ensures
        cpu_step::<FlatMemory>(0x04 | (r << 3), x).cpu.reg8(r) == crate::cpu::pc_state::w8(x.cpu.reg8(r) + 1),
        cpu_step::<FlatMemory>(0x04 | (r << 3), x).cpu.pc() == w16(x.cpu.pc() + 1),
        cpu_step::<FlatMemory>(0x04 | (r << 3), x).mem == x.mem,
{
    lemma_inc_dec_opcodes(r);
    crate::bits::lemma_selectors();
    assert(cpu_step::<FlatMemory>(0x04 | (r << 3), x) == crate::cpu::instructions::block0_step::<FlatMemory>(0x04 | (r << 3), x));
}

/// What DEC r does to register `r` and PC.
#[verifier::spinoff_prover]
#[verifier::rlimit(50)]
proof fn lemma_dec_step(x: Machine<Seq<u8>>, r: u8)
    requires
        r < 8,
        r != 6,
    ensures
        cpu_step::<FlatMemory>(0x05 | (r << 3), x).cpu.reg8(r) == crate::cpu::pc_state::w8(x.cpu.reg8(r) - 1),
        cpu_step::<FlatMemory>(0x05 | (r << 3), x).cpu.pc() == w16(x.cpu.pc() + 1),
        cpu_step::<FlatMemory>(0x05 | (r << 3), x).mem == x.mem,
{
    lemma_inc_dec_opcodes(r);
    crate::bits::lemma_selectors();
    assert(cpu_step::<FlatMemory>(0x05 | (r << 3), x) == crate::cpu::instructions::block0_step::<FlatMemory>(0x05 | (r << 3), x));
}

/// INC r then DEC r leaves the register as it was, for B, C, D, E, H, L
/// and A, with PC two bytes on and the memory unchanged.
#[verifier::spinoff_prover]
pub proof fn law_inc_then_dec(x: Machine<Seq<u8>>, r: u8)
    requires
        r < 8,
        r != 6,
    ensures
        ({
            let x1 = cpu_step::<FlatMemory>(0x04 | (r << 3), x);
            let x2 = cpu_step::<FlatMemory>(0x05 | (r << 3), x1);
            &&& x2.cpu.reg8(r) == x.cpu.reg8(r)
            &&& x2.cpu.pc() == w16(x.cpu.pc() + 2)
            &&& x2.mem == x.mem
        }),
{
    let x1 = cpu_step::<FlatMemory>(0x04 | (r << 3), x);
    lemma_inc_step(x, r);
    lemma_dec_step(x1, r);
    lemma_wrap_back(x.cpu.reg8(r), x.cpu.pc());
}

/// Adding one then taking one away wraps back; two steps of one are one of two.
proof fn lemma_wrap_back(v: u8, pc: u16)
    ensures
        crate::cpu::pc_state::w8(crate::cpu::pc_state::w8(v + 1) - 1) == v,
        w16(w16(pc + 1) + 1) == w16(pc + 2),
{
}

/// Op-code classes of CALL nn and RET.
proof fn lemma_call_ret_opcodes()
    by (bit_vector)
    ensures
        0xCDu8 & 0xC7 == 0xC5u8,
        0xC9u8 & 0xC7 == 0xC1u8,
{
}

/// What CALL nn does: PC + 3 pushed, SP two bytes lower.
#[verifier::spinoff_prover]
#[verifier::rlimit(50)]
proof fn lemma_call_step(x: Machine<Seq<u8>>)
    requires
        x.mem.len() == 0x10000,
    ensures
        ({
            let s1 = x.cpu.adv_pc(3);
            let x1 = cpu_step::<FlatMemory>(0xCD, x);
            &&& x1.cpu.sp() == w16(x.cpu.sp() - 2)
            &&& x1.mem == push_view::<FlatMemory>(x.mem, x.cpu.sp(), s1.pc_reg.high, s1.pc_reg.low)
        }),
{
    lemma_call_ret_opcodes();
    assert(cpu_step::<FlatMemory>(0xCD, x) == block3_step::<FlatMemory>(0xCD, x));
}

/// What RET does: PC popped, SP two bytes higher.
#[verifier::spinoff_prover]
#[verifier::rlimit(50)]
proof fn lemma_ret_step(x: Machine<Seq<u8>>)
    ensures
        cpu_step::<FlatMemory>(0xC9, x).cpu == ret_spec::<FlatMemory>(x.cpu, x.mem),
{
    lemma_call_ret_opcodes();
    assert(cpu_step::<FlatMemory>(0xC9, x) == block3_step::<FlatMemory>(0xC9, x));
}

/// A subroutine returns: CALL nn then RET resumes after the CALL, with the
/// stack pointer where it was.
#[verifier::spinoff_prover]
pub proof fn law_call_then_ret(x: Machine<Seq<u8>>)
    requires
        x.mem.len() == 0x10000,
    ensures
        ({
            let x2 = cpu_step::<FlatMemory>(0xC9, cpu_step::<FlatMemory>(0xCD, x));
            &&& x2.cpu.pc() == w16(x.cpu.pc() + 3)
            &&& x2.cpu.sp() == x.cpu.sp()
        }),
{
    let x1 = cpu_step::<FlatMemory>(0xCD, x);
    lemma_call_step(x);
    lemma_ret_step(x1);
    let s1 = x.cpu.adv_pc(3);
    lemma_push_read(x.mem, x.cpu.sp(), s1.pc_reg.high, s1.pc_reg.low);
}

/// Two bytes pushed below `sp` read back as a 16-bit value at the new top of
/// the stack, two below `sp`.
proof fn lemma_push_read(m: Seq<u8>, sp: u16, high: u8, low: u8)
    requires
        m.len() == 0x10000,
    ensures
        read16_view::<FlatMemory>(push_view::<FlatMemory>(m, sp, high, low), w16(sp - 2)) == u16_of(high, low),
        w16(w16(sp - 2) + 2) == sp,
{
    assert(w16(w16(sp - 2) + 1) == w16(sp - 1));
    assert(w16(sp - 1) != w16(sp - 2));
    let m0 = m.update(w16(sp - 1) as int, high);
    let m1 = push_view::<FlatMemory>(m, sp, high, low);
    assert(m1 == m0.update(w16(sp - 2) as int, low));
    assert(m1[w16(sp - 1) as int] == high);
    assert(m1[w16(sp - 2) as int] == low);
}

/// Whether `x` holds two decimal digits, one per nibble.
pub open spec fn is_bcd(x: u8) -> bool {
    x / 16 <= 9 && x % 16 <= 9
}

/// The number that the decimal digits of `x` stand for.
pub open spec fn bcd_value(x: u8) -> int {
    (x / 16) * 10 + x % 16
}

/// `n` (below 100) as two decimal digits, one per nibble.
pub open spec fn to_bcd(n: int) -> u8 {
    ((n / 10) * 16 + n % 10) as u8
}

/// `x` split at `d`: quotient `q`, remainder `r`.
proof fn lemma_split(x: int, d: int, q: int, r: int)
    requires
        d > 0,
        0 <= r < d,
        x == q * d + r,
    ensures
        x / d == q,
        x % d == r,
{
    vstd::arithmetic::div_mod::lemma_fundamental_div_mod_converse(x, d, q, r);
}

/// The decimal adjust after a binary add, in terms of the digit sums: `hs`
/// of the upper digits, `l` of the lower digits and the carry.
#[verifier::spinoff_prover]
#[verifier::rlimit(100)]
proof fn lemma_daa_add_sums(hs: int, l: int)
    requires
        0 <= hs <= 18,
        0 <= l <= 19,
    ensures
        ({
            let sum = hs * 16 + l;
            let r = w8(sum);
            let (adj, set_c) = daa_add_adjust(r, l >= 16, sum > 255);
            let d = hs * 10 + l;
            &&& w8(r + adj) == to_bcd(d % 100)
            &&& (sum > 255 || set_c) == (d >= 100)
        }),
{
    let sum = hs * 16 + l;
    let d = hs * 10 + l;
    // The binary result and its nibbles.
    let bin = if sum > 255 { sum - 256 } else { sum };
    lemma_split(sum, 256, if sum > 255 { 1 } else { 0 }, bin);
    let up = bin / 16;
    let lo = bin % 16;
    if l >= 16 {
        lemma_split(bin, 16, if sum > 255 { hs + 1 - 16 } else { hs + 1 }, l - 16);
    } else {
        lemma_split(bin, 16, if sum > 255 { hs - 16 } else { hs }, l);
    }
    let r = w8(sum);
    assert(r as int == bin);
    assert((r / 16) as int == up && (r % 16) as int == lo);
    // The decimal result and its digits.
    let dd = d % 100;
    let dq = if l >= 10 { hs + 1 } else { hs };
    let dl = if l >= 10 { l - 10 } else { l };
    assert(d == dq * 10 + dl);
    let dq2 = if dq >= 10 { dq - 10 } else { dq };
    lemma_split(d, 100, if dq >= 10 { 1 } else { 0 }, dq2 * 10 + dl);
    lemma_split(dd, 10, dq2, dl);
    assert(to_bcd(dd) as int == dq2 * 16 + dl);
    let (adj, set_c) = daa_add_adjust(r, l >= 16, sum > 255);
    let fin = bin + adj;
    if fin >= 256 {
        lemma_split(fin, 256, 1, fin - 256);
    } else {
        lemma_split(fin, 256, 0, fin);
    }
}

/// The decimal adjust after a binary add of two decimal bytes and a carry.
proof fn lemma_daa_add_digits(a: u8, b: u8, c: bool)
    requires
        is_bcd(a),
        is_bcd(b),
    ensures
        ({
            let sum = a + b + bit(c);
            let r = w8(sum);
            let (adj, set_c) = daa_add_adjust(r, a % 16 + b % 16 + bit(c) >= 16, sum > 255);
            let d = bcd_value(a) + bcd_value(b) + bit(c);
            &&& w8(r + adj) == to_bcd(d % 100)
            &&& (sum > 255 || set_c) == (d >= 100)
        }),
{
    let ah = a / 16;
    let al = a % 16;
    let bh = b / 16;
    let bl = b % 16;
    vstd::arithmetic::div_mod::lemma_fundamental_div_mod(a as int, 16);
    vstd::arithmetic::div_mod::lemma_fundamental_div_mod(b as int, 16);
    lemma_daa_add_sums(ah + bh, al + bl + bit(c));
    assert(a + b + bit(c) == (ah + bh) * 16 + (al + bl + bit(c)));
}

/// Decimal addition: ADD A, r (carry in clear) or ADC A, r (carry in set)
/// of two decimal bytes, then DAA, leaves in A the decimal digits of the sum
/// modulo 100, and sets C exactly when the sum reached 100.
pub proof fn law_daa_after_add(s: PcState, b: u8, c: bool)
    requires
        is_bcd(s.a()),
        is_bcd(b),
    ensures
        ({
            let a = s.a();
            let s1 = acc_op(s, u8_carry_result(a, b, c), add_flags(s.flags(), a, b, c), 1);
            let s2 = daa_spec(s1);
            let d = bcd_value(a) + bcd_value(b) + bit(c);
            &&& s2.a() == to_bcd(d % 100)
            &&& s2.flags().c == (d >= 100)
        }),
{
    let a = s.a();
    let fl = add_flags(s.flags(), a, b, c);
    let s1 = acc_op(s, u8_carry_result(a, b, c), fl, 1);
    crate::cpu::pc_state::lemma_flags_of_byte_of(fl);
    assert(s1.a() == u8_carry_result(a, b, c));
    assert(s1.flags() == fl);
    lemma_daa_add_digits(a, b, c);
    let (adj, set_c) = daa_add_adjust(s1.a(), fl.h, fl.c);
    let na = w8(s1.a() + adj);
    let f2 = crate::cpu::status_flags::zs(crate::cpu::pc_state::Flags { c: fl.c || set_c, pv: crate::cpu::status_flags::parity_even(na), ..fl }, na);
    crate::cpu::pc_state::lemma_flags_of_byte_of(f2);
    assert(daa_spec(s1) == s1.with_a(na).with_flags(f2));
}

} // verus!
