use vstd::prelude::*;

verus! {

/// Size of one ROM bank.
pub const BANK_SIZE: u16 = 0x4000;

/// Number of ROM banks a cartridge holds.
pub const MAX_BANKS: u8 = 64;

/// A cartridge ROM: 64 banks of 16 KiB, stored one after the other.
pub struct Cartridge {
    pub filename: String,
    pub num_banks: u8,
    pub rom: Vec<u8>,
}

impl Cartridge {
    /// The ROM bytes, bank `b` at `b * 0x4000`.
    pub open spec fn rom(&self) -> Seq<u8> {
        self.rom@
    }

    /// The file the ROM is read from.
    pub open spec fn name(&self) -> Seq<char> {
        self.filename@
    }

    /// The ROM holds all 64 banks.
    pub open spec fn wf(&self) -> bool {
        self.rom().len() == 0x100000
    }

    /// The byte at `bank_address` of bank `bank`.
    pub open spec fn byte(&self, bank: int, bank_address: int) -> u8 {
        self.rom()[bank * 0x4000 + bank_address]
    }

    /// An empty cartridge named `filename`: no banks loaded, all ROM bytes zero.
    pub fn new(filename: &str) -> (r: Self)
        ensures
            r.wf(),
            r.num_banks == 0,
            r.name() == filename@,
            forall|k: int| 0 <= k < 0x100000 ==> r.rom()[k] == 0,
    {
        Self { filename: filename.to_owned(), num_banks: 0, rom: vec![0u8; 0x100000] }
    }

    /// The file the ROM is read from.
    pub fn filename(&self) -> (r: &str)
        ensures
            r@ == self.name(),
    {
        self.filename.as_str()
    }

    /// Fill the 64 banks from the start of `source`, which is consumed: each
    /// bank takes the next 16 KiB, banks past the end of `source` are zero.
    /// A last bank of less than 16 KiB cannot be loaded, so the length of
    /// `source` must be a whole number of banks, or 64 banks or more.
    pub fn load_banks(&mut self, source: &mut Vec<u8>)
        requires
            old(source).len() % 0x4000 == 0 || old(source).len() >= 0x100000,
        ensures
            final(self).wf(),
            final(self).num_banks == (old(self).num_banks + 64) % 256,
            final(self).name() == old(self).name(),
            forall|k: int| 0 <= k < 0x100000
                ==> final(self).rom()[k] == (if k < old(source).len() { old(source)@[k] } else { 0u8 }),
            final(source)@ == old(source)@.skip(
                if old(source).len() < 0x100000 { old(source).len() as int } else { 0x100000 },
            ),
    {
        let mut rom = vec![0u8; 0x100000];
        let n: usize = if source.len() < 0x100000 { source.len() } else { 0x100000 };
        let mut k: usize = 0;
        while k < n
            invariant
                n <= source.len(),
                n <= 0x100000,
                k <= n,
                rom@.len() == 0x100000,
                forall|j: int| 0 <= j < 0x100000 ==> rom@[j] == (if j < k { source@[j] } else { 0u8 }),
            decreases n - k,
        {
            rom.set(k, source[k]);
            k = k + 1;
        }
        let rest = source.split_off(n);
        *source = rest;
        self.rom = rom;
        self.num_banks = self.num_banks.wrapping_add(MAX_BANKS);
    }

    /// The byte at `bank_address` of bank `bank`.
    pub fn read(&self, bank: u8, bank_address: u16) -> (r: u8)
        requires
            self.wf(),
            bank < 64,
            bank_address < 0x4000,
        ensures
            r == self.byte(bank as int, bank_address as int),
    {
        self.rom[bank as usize * 0x4000 + bank_address as usize]
    }
}

} // verus!
