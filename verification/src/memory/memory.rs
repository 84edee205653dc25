use vstd::prelude::*;
use crate::cpu::pc_state::{u16_of, w16};
use crate::memory::cartridge::Cartridge;

verus! {

/// Byte-addressed memory as the CPU sees it: 64 KiB of 16-bit addresses.
pub trait MemoryRW: View + Sized {
    /// The byte that `address` reads in the memory whose view is `v`.
    spec fn read_view(v: Self::V, address: u16) -> u8;

    /// The view after writing `data` to `address`.
    spec fn write_view(v: Self::V, address: u16, data: u8) -> Self::V;

    fn read(&self, address: u16) -> (r: u8)
        ensures
            r == Self::read_view(self@, address),
    ;

    fn write(&mut self, address: u16, data: u8)
        ensures
            final(self)@ == Self::write_view(old(self)@, address, data),
    ;

    /// The little-endian 16-bit value at `address` and the next address.
    fn read16(&self, address: u16) -> (r: u16)
        ensures
            r == u16_of(Self::read_view(self@, w16(address + 1)), Self::read_view(self@, address)),
    {
        let low = self.read(address);
        let high = self.read(address.wrapping_add(1));
        low as u16 + (high as u16) * 256
    }
}

/// The little-endian 16-bit value at `address`, the high byte at the next
/// address (wrapping at the top of memory).
pub open spec fn read16_view<M: MemoryRW>(v: M::V, address: u16) -> u16 {
    u16_of(M::read_view(v, w16(address + 1)), M::read_view(v, address))
}

/// 64 KiB of plain read/write memory with no paging.
pub struct FlatMemory {
    data: Vec<u8>,
}

impl View for FlatMemory {
    type V = Seq<u8>;

    closed spec fn view(&self) -> Seq<u8> {
        self.data@
    }
}

impl FlatMemory {
    /// 64 KiB of zeros.
    pub fn new() -> (r: Self)
        ensures
            r@ == Seq::new(0x10000, |i: int| 0u8),
    {
        let data = vec![0u8; 0x10000];
        assert(data@ == Seq::new(0x10000, |i: int| 0u8));
        FlatMemory { data }
    }

    /// 64 KiB holding `bytes` from address 0 and zeros after them.
    pub fn from_bytes(bytes: &Vec<u8>) -> (r: Self)
        requires
            bytes.len() <= 0x10000,
        ensures
            r@ == Seq::new(0x10000, |i: int| if i < bytes.len() { bytes@[i] } else { 0u8 }),
    {
        let mut data = vec![0u8; 0x10000];
        let mut i: usize = 0;
        while i < bytes.len()
            invariant
                i <= bytes.len() <= 0x10000,
                data@.len() == 0x10000,
                forall|j: int| 0 <= j < 0x10000 ==> data@[j] == (if j < i { bytes@[j] } else { 0u8 }),
            decreases bytes.len() - i,
        {
            data.set(i, bytes[i]);
            i = i + 1;
        }
        assert(data@ == Seq::new(0x10000, |i: int| if i < bytes.len() { bytes@[i] } else { 0u8 }));
        FlatMemory { data }
    }
}

impl MemoryRW for FlatMemory {
    /// The byte at `address`; a view shorter than 64 KiB, which `new` and
    /// `from_bytes` never make, reads 0 past its end.
    open spec fn read_view(v: Seq<u8>, address: u16) -> u8 {
        if (address as int) < v.len() {
            v[address as int]
        } else {
            0
        }
    }

    open spec fn write_view(v: Seq<u8>, address: u16, data: u8) -> Seq<u8> {
        if (address as int) < v.len() {
            v.update(address as int, data)
        } else {
            v
        }
    }

    fn read(&self, address: u16) -> (r: u8) {
        if (address as usize) < self.data.len() {
            self.data[address as usize]
        } else {
            0
        }
    }

    fn write(&mut self, address: u16, data: u8) {
        if (address as usize) < self.data.len() {
            self.data.set(address as usize, data);
        }
    }
}

/// Sizes and register addresses of the Master System memory map.
pub struct MemoryBase {}

impl MemoryBase {
    pub const MEMREGISTERS: u16 = 0xFFFC;
    pub const ADDRESS_MASK: u16 = 0xFFFF;
    pub const RAMMASK: u16 = 0xDFFF;
    pub const RAM_SELECT_REGISTER: u16 = 0xFFFC;
    pub const PAGE0_BANK_SELECT_REGISTER: u16 = 0xFFFD;
    pub const PAGE1_BANK_SELECT_REGISTER: u16 = 0xFFFE;
    pub const PAGE2_BANK_SELECT_REGISTER: u16 = 0xFFFF;
    pub const MAPCARTRAM: u8 = 0x08;
    pub const PAGEOFRAM: u8 = 0x04;
    pub const PAGEOFRAMBITPOS: u16 = 2;
    pub const PAGE0: u16 = 0x400;
    pub const PAGE1: u16 = 0x4000;
    pub const PAGE2: u16 = 0x8000;
    pub const RAM_OFFSET: u16 = 0xC000;
    pub const RAM_SIZE: u16 = 0x2000;
    pub const MEMMAPSIZE: u32 = 0x10000;
    pub const UPPERSHIFT: u16 = 14;
    pub const LOWERMASK: u16 = 0x3FFF;
    pub const BANK_SIZE: u16 = 0x4000;
    pub const MAX_BANKS: u8 = 64;
    pub const NUM_PAGES: u8 = 3;
}

/// Offsets of the segments of the absolute memory map.
pub struct MemoryAbsoluteConstants {}

impl MemoryAbsoluteConstants {
    pub const NUM_UPPER_MAPPINGS: u8 = 8;
    pub const MAX_ROM_SIZE: u32 = 0x100000;
    pub const ABSOLUTE_PAGE_0_ROM_OFFSET: u32 = 0x000000;
    pub const ABSOLUTE_PAGE_X_ROM_OFFSET: u32 = 0x100000;
    pub const ABSOLUTE_CART_RAM_OFFSET: u32 = 0x200000;
    pub const ABSOLUTE_SYS_RAM_OFFSET: u32 = 0x208000;
    pub const ABSOLUTE_SEGMENT_SIZE: u32 = 0x2000;
    /// Size of the absolute memory map: the larger end of cartridge RAM and system RAM.
    pub const MEMORY_MAP_SIZE: u32 = 0x20A000;
}

/// What a `MemoryAbsolute` holds: the absolute memory map, the absolute
/// offset that each 8 KiB slot of the 64 KiB address space maps to, and the
/// last values written to the RAM select and page 2 registers.
pub struct AbsoluteView {
    pub map: Seq<u8>,
    pub mappings: Seq<u32>,
    pub page_2: u8,
    pub ram_select: u8,
}

/// The absolute offset of 16 KiB ROM bank `data` (modulo the 64 banks the map holds).
pub open spec fn bank_offset(data: u8) -> u32 {
    (0x4000 * (data % 64)) as u32
}

/// The absolute address that `address` maps to: the slot's offset combined
/// with the low 13 bits of the address.
pub open spec fn absolute_address(v: AbsoluteView, address: u16) -> u32 {
    v.mappings[(address / 0x2000) as int] | ((address % 0x2000) as u32)
}

/// The view after a write to `address` has updated the paging registers.
pub open spec fn remap(v: AbsoluteView, address: u16, data: u8) -> AbsoluteView {
    if address == 0xFFFD {
        AbsoluteView {
            mappings: v.mappings.update(0, bank_offset(data)).update(1, (0x100000 + bank_offset(data) + 0x2000) as u32),
            ..v
        }
    } else if address == 0xFFFE {
        AbsoluteView {
            mappings: v.mappings.update(2, (0x100000 + bank_offset(data)) as u32).update(3, (0x100000 + bank_offset(data) + 0x2000) as u32),
            ..v
        }
    } else if address == 0xFFFC || address == 0xFFFF {
        let ram_select = if address == 0xFFFC { data } else { v.ram_select };
        let page_2 = if address == 0xFFFF { data } else { v.page_2 };
        let (m4, m5) = if ram_select & 0x08 != 0 {
            if ram_select & 0x04 != 0 {
                (0x204000u32, 0x206000u32)
            } else {
                (0x200000u32, 0x202000u32)
            }
        } else {
            ((0x100000 + bank_offset(page_2)) as u32, (0x100000 + bank_offset(page_2) + 0x2000) as u32)
        };
        AbsoluteView { mappings: v.mappings.update(4, m4).update(5, m5), ram_select, page_2, ..v }
    } else {
        v
    }
}

/// A well-formed map: its full size, eight 8 KiB-aligned slot offsets that
/// stay inside it, and the top two slots on system RAM.
pub open spec fn absolute_wf(v: AbsoluteView) -> bool {
    &&& v.map.len() == 0x20A000
    &&& v.mappings.len() == 8
    &&& forall|i: int| 0 <= i < 8 ==> #[trigger] v.mappings[i] % 0x2000 == 0 && v.mappings[i] <= 0x208000
    &&& v.mappings[6] == 0x208000
    &&& v.mappings[7] == 0x208000
}

/// The Master System memory, paged through an absolute memory map:
/// ROM for page 0, ROM for pages 1 and 2, cartridge RAM, then system RAM.
pub struct MemoryAbsolute {
    page_2: u8,
    ram_select: u8,
    upper_mappings: [u32; 8],
    memory_map: Vec<u8>,
}

impl View for MemoryAbsolute {
    type V = AbsoluteView;

    closed spec fn view(&self) -> AbsoluteView {
        AbsoluteView {
            map: self.memory_map@,
            mappings: self.upper_mappings@,
            page_2: self.page_2,
            ram_select: self.ram_select,
        }
    }
}

/// Shifting and masking an address gives its slot and its offset in the slot.
proof fn lemma_address_bits(a: u16)
    ensures
        a >> 13 == a / 0x2000,
        a & 0x1FFF == a % 0x2000,
        (a >> 13) < 8,
{
    crate::bits::lemma_u16_bits(a);
}

/// Combining an 8 KiB-aligned offset with an offset inside 8 KiB adds them.
pub proof fn lemma_or_aligned(m: u32, x: u32)
    by (bit_vector)
    requires
        m % 0x2000 == 0,
        x < 0x2000,
    ensures
        m | x == m + x,
{
}

/// A write keeps the map well formed.
pub proof fn lemma_write_keeps_wf(v: AbsoluteView, address: u16, data: u8)
    requires
        absolute_wf(v),
    ensures
        absolute_wf(<MemoryAbsolute as MemoryRW>::write_view(v, address, data)),
        absolute_wf(remap(v, address, data)),
{
    let v2 = remap(v, address, data);
    assert(v2.mappings.len() == 8);
    assert forall|i: int| 0 <= i < 8 implies #[trigger] v2.mappings[i] % 0x2000 == 0
        && v2.mappings[i] <= 0x208000 by {
        assert(v.mappings[i] % 0x2000 == 0);
    }
}

/// Where byte `address` of bank `bank` stands in a bank-major layout.
pub proof fn lemma_bank_position(bank: int, address: int)
    requires
        0 <= bank,
        0 <= address < 0x4000,
    ensures
        (bank * 0x4000 + address) / 0x4000 == bank,
        (bank * 0x4000 + address) % 0x4000 == address,
{
    vstd::arithmetic::div_mod::lemma_fundamental_div_mod_converse(
        bank * 0x4000 + address,
        0x4000,
        bank,
        address,
    );
}

/// The slot offsets and the map after loading the 64 banks of `c`: for each
/// loaded bank, the page 0 copy (the first 1 KiB always from bank 0) and the
/// page 1/2 copy; everything else as before.
pub open spec fn populated(v: AbsoluteView, c: &Cartridge) -> AbsoluteView {
    AbsoluteView {
        map: Seq::new(
            v.map.len(),
            |k: int|
                if k < c.num_banks * 0x4000 {
                    if k % 0x4000 < 0x400 {
                        c.byte(0, k % 0x4000)
                    } else {
                        c.byte(k / 0x4000, k % 0x4000)
                    }
                } else if 0x100000 <= k < 0x100000 + c.num_banks * 0x4000 {
                    c.byte((k - 0x100000) / 0x4000, (k - 0x100000) % 0x4000)
                } else {
                    v.map[k]
                },
        ),
        ..v
    }
}

/// The view after `c` was inserted: its banks loaded, then the paging
/// registers reset (RAM select 0, page 0 bank 0, page 1 bank 1, page 2 bank 2).
pub open spec fn inserted(v: AbsoluteView, c: &Cartridge) -> AbsoluteView {
    <MemoryAbsolute as MemoryRW>::write_view(
        <MemoryAbsolute as MemoryRW>::write_view(
            <MemoryAbsolute as MemoryRW>::write_view(
                <MemoryAbsolute as MemoryRW>::write_view(populated(v, c), 0xFFFC, 0),
                0xFFFD,
                0,
            ),
            0xFFFE,
            1,
        ),
        0xFFFF,
        2,
    )
}

/// The view after copying `length` bytes one at a time from `src` to `dest`,
/// each read after the writes before it.
pub open spec fn copy_view(v: AbsoluteView, dest: u16, src: u16, length: nat) -> AbsoluteView
    decreases length,
{
    if length == 0 {
        v
    } else {
        let prev = copy_view(v, dest, src, (length - 1) as nat);
        let i = length - 1;
        <MemoryAbsolute as MemoryRW>::write_view(
            prev,
            (dest + i) as u16,
            <MemoryAbsolute as MemoryRW>::read_view(prev, (src + i) as u16),
        )
    }
}

impl MemoryRW for MemoryAbsolute {
    /// The byte at the absolute address `address` maps to (0 past the end of
    /// a map smaller than a well-formed one).
    open spec fn read_view(v: AbsoluteView, address: u16) -> u8 {
        let i = absolute_address(v, address);
        if (i as int) < v.map.len() {
            v.map[i as int]
        } else {
            0
        }
    }

    /// Paging registers first take the new value; then the byte is stored if
    /// the address maps to cartridge or system RAM (ROM is not written).
    open spec fn write_view(v: AbsoluteView, address: u16, data: u8) -> AbsoluteView {
        let v2 = remap(v, address, data);
        let i = absolute_address(v2, address);
        if i >= 0x200000 && (i as int) < v2.map.len() {
            AbsoluteView { map: v2.map.update(i as int, data), ..v2 }
        } else {
            v2
        }
    }

    fn read(&self, address: u16) -> (r: u8) {
        let i = self.get_absolute_address(address);
        if (i as usize) < self.memory_map.len() {
            self.memory_map[i as usize]
        } else {
            0
        }
    }

    fn write(&mut self, address: u16, data: u8) {
        proof {
            crate::bits::lemma_u8_bits(data);
        }
        self.private_write(address, data & 0xFF);
    }
}

/// The empty map: every byte zero, slots 0 to 5 on the first ROM segments,
/// slots 6 and 7 on system RAM, the paging registers zero.
pub open spec fn empty_absolute() -> AbsoluteView {
    AbsoluteView {
        map: Seq::new(0x20A000, |k: int| 0u8),
        mappings: seq![0u32, 0x102000u32, 0x104000u32, 0x106000u32, 0x108000u32, 0x10A000u32, 0x208000u32, 0x208000u32],
        page_2: 0,
        ram_select: 0,
    }
}

impl MemoryAbsolute {
    /// An empty map: every byte zero, slots 0 to 5 on the first ROM segments,
    /// slots 6 and 7 on system RAM.
    pub fn new() -> (r: Self)
        ensures
            r@ == empty_absolute(),
            absolute_wf(r@),
            forall|k: int| 0 <= k < 0x20A000 ==> r@.map[k] == 0,
            r@.mappings == seq![0u32, 0x102000u32, 0x104000u32, 0x106000u32, 0x108000u32, 0x10A000u32, 0x208000u32, 0x208000u32],
            r@.page_2 == 0,
            r@.ram_select == 0,
    {
        let mut index: u32 = 0;
        let mut mappings: [u32; 8] = [0u32; 8];
        let mut k: usize = 1;
        while k < 6
            invariant
                1 <= k <= 6,
                index == k - 1,
                mappings@.len() == 8,
                mappings@[0] == 0,
                forall|j: int| 1 <= j < k ==> mappings@[j] == 0x100000 + 0x2000 * j,
                forall|j: int| k <= j < 8 ==> mappings@[j] == 0,
            decreases 6 - k,
        {
            index = index + 1;
            mappings.set(k, MemoryAbsoluteConstants::ABSOLUTE_PAGE_X_ROM_OFFSET + MemoryAbsoluteConstants::ABSOLUTE_SEGMENT_SIZE * index);
            k = k + 1;
        }
        mappings.set(6, MemoryAbsoluteConstants::ABSOLUTE_SYS_RAM_OFFSET);
        mappings.set(7, MemoryAbsoluteConstants::ABSOLUTE_SYS_RAM_OFFSET);
        let r = Self {
            upper_mappings: mappings,
            memory_map: vec![0u8; MemoryAbsoluteConstants::MEMORY_MAP_SIZE as usize],
            page_2: 0,
            ram_select: 0,
        };
        assert(r@.mappings =~= seq![0u32, 0x102000u32, 0x104000u32, 0x106000u32, 0x108000u32, 0x10A000u32, 0x208000u32, 0x208000u32]);
        assert(r@.map =~= empty_absolute().map);
        r
    }

    /// The absolute address that `address` maps to.
    pub fn get_absolute_address(&self, address: u16) -> (r: u32)
        ensures
            r == absolute_address(self@, address),
    {
        proof {
            lemma_address_bits(address);
        }
        self.upper_mappings[(address >> 13) as usize] | (address & 0x1FFF) as u32
    }

    /// One past the last absolute address that holds ROM.
    pub fn get_max_absolute_instruction_address(&self) -> (r: u32)
        ensures
            r == 0x200000,
    {
        MemoryAbsoluteConstants::ABSOLUTE_PAGE_X_ROM_OFFSET + MemoryAbsoluteConstants::MAX_ROM_SIZE
    }

    /// `length` bytes read from `address` on (wrapping at the top of memory).
    pub fn read_array(&self, address: u16, length: u16) -> (r: Vec<u8>)
        ensures
            r@ == Seq::new(
                length as nat,
                |i: int| <MemoryAbsolute as MemoryRW>::read_view(self@, w16(address + i)),
            ),
    {
        let mut result: Vec<u8> = Vec::new();
        let mut i: u16 = 0;
        while i < length
            invariant
                i <= length,
                result@ == Seq::new(
                    i as nat,
                    |j: int| <MemoryAbsolute as MemoryRW>::read_view(self@, w16(address + j)),
                ),
            decreases length - i,
        {
            result.push(self.read(address.wrapping_add(i)));
            i = i + 1;
        }
        result
    }

    /// Copy `length` bytes from `src` to `dest`, one at a time, when neither
    /// range runs past the top of memory; otherwise copy nothing. Returns
    /// whether the copy was made.
    pub fn write_multi(&mut self, dest: u16, src: u16, length: u16) -> (ok: bool)
        ensures
            ok == (src + length <= 0xFFFF && dest + length <= 0xFFFF),
            final(self)@ == (if ok { copy_view(old(self)@, dest, src, length as nat) } else { old(self)@ }),
    {
        match (src.checked_add(length), dest.checked_add(length)) {
            (Some(a), Some(b)) => {
                let mut i: u16 = 0;
                while i < length
                    invariant
                        i <= length,
                        src + length <= 0xFFFF,
                        dest + length <= 0xFFFF,
                        self@ == copy_view(old(self)@, dest, src, i as nat),
                    decreases length - i,
                {
                    let value = self.read(src + i);
                    self.write(dest + i, value);
                    i = i + 1;
                }
                true
            },
            _ => false,
        }
    }

    /// Load the banks of `cartridge` into the map, then set the paging
    /// registers: RAM select 0, page 0 bank 0, page 1 bank 1, page 2 bank 2.
    pub fn set_cartridge(&mut self, cartridge: Cartridge)
        requires
            absolute_wf(old(self)@),
            cartridge.wf(),
            cartridge.num_banks <= 64,
        ensures
            absolute_wf(final(self)@),
            final(self)@ == inserted(old(self)@, &cartridge),
    {
        self.initialise_read(cartridge);
    }

    fn initialise_read(&mut self, cartridge: Cartridge)
        requires
            absolute_wf(old(self)@),
            cartridge.wf(),
            cartridge.num_banks <= 64,
        ensures
            absolute_wf(final(self)@),
            final(self)@ == <MemoryAbsolute as MemoryRW>::write_view(
                <MemoryAbsolute as MemoryRW>::write_view(
                    <MemoryAbsolute as MemoryRW>::write_view(
                        <MemoryAbsolute as MemoryRW>::write_view(populated(old(self)@, &cartridge), 0xFFFC, 0),
                        0xFFFD,
                        0,
                    ),
                    0xFFFE,
                    1,
                ),
                0xFFFF,
                2,
            ),
    {
        self.populate_absolute_memory_map(&cartridge);
        proof {
            lemma_write_keeps_wf(self@, 0xFFFC, 0);
        }
        self.write(0xFFFC, 0);
        proof {
            lemma_write_keeps_wf(self@, 0xFFFD, 0);
        }
        self.write(0xFFFD, 0);
        proof {
            lemma_write_keeps_wf(self@, 0xFFFE, 1);
        }
        self.write(0xFFFE, 1);
        proof {
            lemma_write_keeps_wf(self@, 0xFFFF, 2);
        }
        self.write(0xFFFF, 2);
    }

    #[verifier::rlimit(40)]
    fn populate_absolute_memory_map(&mut self, cartridge: &Cartridge)
        requires
            absolute_wf(old(self)@),
            cartridge.wf(),
            cartridge.num_banks <= 64,
        ensures
            absolute_wf(final(self)@),
            final(self)@ == populated(old(self)@, cartridge),
    {
        let ghost v0 = self@;
        let mut bank: u8 = 0;
        while bank < cartridge.num_banks
            invariant
                bank <= cartridge.num_banks <= 64,
                cartridge.wf(),
                self@.mappings == v0.mappings,
                self@.page_2 == v0.page_2,
                self@.ram_select == v0.ram_select,
                self@.map.len() == 0x20A000,
                v0.map.len() == 0x20A000,
                forall|k: int| 0 <= k < 0x20A000 ==> #[trigger] self@.map[k] == (
                    if k < bank * 0x4000 {
                        populated(v0, cartridge).map[k]
                    } else if 0x100000 <= k < 0x100000 + bank * 0x4000 {
                        populated(v0, cartridge).map[k]
                    } else {
                        v0.map[k]
                    }),
            decreases cartridge.num_banks - bank,
        {
            let mut address: u16 = 0;
            while address < MemoryBase::BANK_SIZE
                invariant
                    bank < cartridge.num_banks <= 64,
                    address <= 0x4000,
                    cartridge.wf(),
                    self@.mappings == v0.mappings,
                    self@.page_2 == v0.page_2,
                    self@.ram_select == v0.ram_select,
                    self@.map.len() == 0x20A000,
                    v0.map.len() == 0x20A000,
                    forall|k: int| 0 <= k < 0x20A000 ==> #[trigger] self@.map[k] == (
                        if k < bank * 0x4000 + address {
                            populated(v0, cartridge).map[k]
                        } else if 0x100000 <= k < 0x100000 + bank * 0x4000 + address {
                            populated(v0, cartridge).map[k]
                        } else {
                            v0.map[k]
                        }),
                decreases 0x4000 - address,
            {
                let bank_address = address & MemoryBase::LOWERMASK;
                proof {
                    crate::bits::lemma_u16_bits(address);
                    lemma_bank_position(bank as int, address as int);
                }
                let offset = bank_address as u32 + (bank as u32) * (MemoryBase::BANK_SIZE as u32);
                let page0_value = if address < MemoryBase::PAGE0 {
                    cartridge.read(0, bank_address)
                } else {
                    cartridge.read(bank, bank_address)
                };
                let pagex_value = cartridge.read(bank, bank_address);
                let ghost before = self@.map;
                let ghost j = offset as int;
                assert(populated(v0, cartridge).map[j] == page0_value);
                assert(populated(v0, cartridge).map[0x100000 + j] == pagex_value);
                self.memory_map.set(
                    (MemoryAbsoluteConstants::ABSOLUTE_PAGE_0_ROM_OFFSET + offset) as usize,
                    page0_value,
                );
                self.memory_map.set(
                    (MemoryAbsoluteConstants::ABSOLUTE_PAGE_X_ROM_OFFSET + offset) as usize,
                    pagex_value,
                );
                assert(self@.map =~= before.update(j, page0_value).update(0x100000 + j, pagex_value));
                address = address + 1;
            }
            bank = bank + 1;
        }
        assert(self@.map =~= populated(v0, cartridge).map);
    }

    fn private_write(&mut self, address: u16, data: u8)
        ensures
            final(self)@ == <MemoryAbsolute as MemoryRW>::write_view(old(self)@, address, data),
    {
        let addr = address & MemoryBase::ADDRESS_MASK;
        proof {
            crate::bits::lemma_u16_bits(address);
        }
        if addr >= MemoryBase::RAM_OFFSET {
            if addr >= MemoryBase::MEMREGISTERS {
                if addr == MemoryBase::PAGE0_BANK_SELECT_REGISTER {
                    let offset = Self::bank_offset(data);
                    self.upper_mappings.set(0, MemoryAbsoluteConstants::ABSOLUTE_PAGE_0_ROM_OFFSET + offset);
                    self.upper_mappings.set(1, MemoryAbsoluteConstants::ABSOLUTE_PAGE_X_ROM_OFFSET + offset + MemoryAbsoluteConstants::ABSOLUTE_SEGMENT_SIZE);
                } else if addr == MemoryBase::PAGE1_BANK_SELECT_REGISTER {
                    let offset = Self::bank_offset(data);
                    self.upper_mappings.set(2, MemoryAbsoluteConstants::ABSOLUTE_PAGE_X_ROM_OFFSET + offset);
                    self.upper_mappings.set(3, MemoryAbsoluteConstants::ABSOLUTE_PAGE_X_ROM_OFFSET + offset + MemoryAbsoluteConstants::ABSOLUTE_SEGMENT_SIZE);
                } else if (addr == MemoryBase::RAM_SELECT_REGISTER) || (addr == MemoryBase::PAGE2_BANK_SELECT_REGISTER) {
                    if addr == MemoryBase::RAM_SELECT_REGISTER {
                        self.ram_select = data;
                    } else if addr == MemoryBase::PAGE2_BANK_SELECT_REGISTER {
                        self.page_2 = data;
                    }
                    if 0 != self.ram_select & MemoryBase::MAPCARTRAM {
                        if 0 != self.ram_select & MemoryBase::PAGEOFRAM {
                            self.upper_mappings.set(4, MemoryAbsoluteConstants::ABSOLUTE_CART_RAM_OFFSET + (MemoryAbsoluteConstants::ABSOLUTE_SEGMENT_SIZE * 2));
                            self.upper_mappings.set(5, MemoryAbsoluteConstants::ABSOLUTE_CART_RAM_OFFSET + (MemoryAbsoluteConstants::ABSOLUTE_SEGMENT_SIZE * 3));
                        } else {
                            self.upper_mappings.set(4, MemoryAbsoluteConstants::ABSOLUTE_CART_RAM_OFFSET);
                            self.upper_mappings.set(5, MemoryAbsoluteConstants::ABSOLUTE_CART_RAM_OFFSET + MemoryAbsoluteConstants::ABSOLUTE_SEGMENT_SIZE);
                        }
                    } else {
                        let offset = Self::bank_offset(self.page_2);
                        self.upper_mappings.set(4, MemoryAbsoluteConstants::ABSOLUTE_PAGE_X_ROM_OFFSET + offset);
                        self.upper_mappings.set(5, MemoryAbsoluteConstants::ABSOLUTE_PAGE_X_ROM_OFFSET + offset + MemoryAbsoluteConstants::ABSOLUTE_SEGMENT_SIZE);
                    }
                }
            }
        }
        assert(self@ == remap(old(self)@, addr, data));
        let ghost v2 = self@;
        let absolute_address = self.get_absolute_address(addr);
        if absolute_address >= MemoryAbsoluteConstants::ABSOLUTE_CART_RAM_OFFSET {
            if (absolute_address as usize) < self.memory_map.len() {
                self.memory_map.set(absolute_address as usize, data);
                assert(self@ == AbsoluteView { map: v2.map.update(absolute_address as int, data), ..v2 });
            }
        }
    }

    /// The absolute offset of ROM bank `data`, the bank number taken modulo 64.
    fn bank_offset(data: u8) -> (r: u32)
        ensures
            r == bank_offset(data),
    {
        (MemoryBase::BANK_SIZE as u32) * ((data % MemoryBase::MAX_BANKS) as u32)
    }
}

} // verus!
