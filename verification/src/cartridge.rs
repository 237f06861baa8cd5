pub mod mbc;

use vstd::prelude::*;

use crate::cartridge::mbc::{supported_type, Mbc};

verus! {

/// Offset of the cartridge header in ROM.
pub const HEADER_START: usize = 0x100;

/// Size of the cartridge header in bytes.
pub const HEADER_LEN: usize = 0x50;

/// Sum of `h[i] + 1` for `lo <= i < hi`.
pub open spec fn sum_plus_one(h: Seq<u8>, lo: int, hi: int) -> int
    decreases hi - lo,
{
    if hi <= lo {
        0
    } else {
        sum_plus_one(h, lo, hi - 1) + h[hi - 1] + 1
    }
}

/// The header checksum of a 0x50-byte header: minus the sum of `byte + 1`
/// over the bytes 0x34..=0x4C (title through game version), modulo 256.
pub open spec fn header_checksum(h: Seq<u8>) -> u8 {
    ((0 - sum_plus_one(h, 0x34, 0x4D)) % 256) as u8
}

/// Size in bytes of a ROM whose header gives size code `code`.
pub open spec fn rom_len_for(code: u8) -> usize {
    1usize << (15 + code) as usize
}

/// Size in bytes of the cartridge RAM for a header's RAM size code.
pub open spec fn sram_len_for(code: u8) -> usize {
    if code == 0 {
        0
    } else if code == 1 {
        0x800
    } else if code == 2 {
        0x2000
    } else if code == 3 {
        0x8000
    } else if code == 4 {
        0x20000
    } else {
        0x10000
    }
}

/// A ROM image that `Cartridge::new` accepts: it holds a header whose checksum
/// matches, whose ROM and RAM size codes are known, whose cartridge type is
/// supported, and its length is the ROM size that the header gives.
pub open spec fn valid_rom(rom: Seq<u8>) -> bool {
    &&& rom.len() >= HEADER_START + HEADER_LEN
    &&& header_checksum(rom.subrange(0x100, 0x150)) == rom[0x14D]
    &&& rom[0x148] <= 0x08
    &&& rom[0x149] <= 0x05
    &&& supported_type(rom[0x147])
    &&& rom.len() == rom_len_for(rom[0x148])
}

/// The ROM size table, as concrete values.
pub proof fn lemma_rom_len_values(code: u8)
    requires
        code <= 8,
    ensures
        rom_len_for(code) == 0x8000 * pow2_table(code),
        rom_len_for(code) >= 0x8000,
        rom_len_for(code) <= 0x800000,
{
    assert(code <= 8 ==> (1usize << (15 + code) as usize) == 0x8000 * (if code == 0 {
        1usize
    } else if code == 1 {
        2usize
    } else if code == 2 {
        4usize
    } else if code == 3 {
        8usize
    } else if code == 4 {
        16usize
    } else if code == 5 {
        32usize
    } else if code == 6 {
        64usize
    } else if code == 7 {
        128usize
    } else {
        256usize
    })) by (bit_vector);
}

pub open spec fn pow2_table(code: u8) -> usize {
    if code == 0 {
        1
    } else if code == 1 {
        2
    } else if code == 2 {
        4
    } else if code == 3 {
        8
    } else if code == 4 {
        16
    } else if code == 5 {
        32
    } else if code == 6 {
        64
    } else if code == 7 {
        128
    } else {
        256
    }
}

/// A length that the cartridge masks addresses with: a power of two from
/// 0x800 up to 0x800000.
pub open spec fn mask_len(n: nat) -> bool {
    n == 0x800 || n == 0x1000 || n == 0x2000 || n == 0x4000 || n == 0x8000 || n == 0x10000 || n
        == 0x20000 || n == 0x40000 || n == 0x80000 || n == 0x100000 || n == 0x200000 || n
        == 0x400000 || n == 0x800000
}

/// Masking with `len - 1` keeps an offset within a power-of-two length.
pub proof fn lemma_mask_in_range(x: usize, len: usize)
    requires
        mask_len(len as nat),
    ensures
        x & ((len - 1) as usize) < len,
{
    assert(x & 0x7FFusize < 0x800usize && x & 0xFFFusize < 0x1000usize && x & 0x1FFFusize
        < 0x2000usize && x & 0x3FFFusize < 0x4000usize && x & 0x7FFFusize < 0x8000usize && x
        & 0xFFFFusize < 0x10000usize && x & 0x1FFFFusize < 0x20000usize && x & 0x3FFFFusize
        < 0x40000usize && x & 0x7FFFFusize < 0x80000usize && x & 0xFFFFFusize < 0x100000usize
        && x & 0x1FFFFFusize < 0x200000usize && x & 0x3FFFFFusize < 0x400000usize && x
        & 0x7FFFFFusize < 0x800000usize) by (bit_vector);
}

/// The cartridge header, field by field.
pub struct CartridgeHeader {
    entry_point: Vec<u8>,
    logo: Vec<u8>,
    title: Vec<u8>,
    maker: Vec<u8>,
    cgb_flag: u8,
    new_licensee: Vec<u8>,
    sgb_flag: u8,
    cartridge_type: u8,
    rom_size: u8,
    sram_size: u8,
    destination: u8,
    old_licensee: u8,
    game_version: u8,
    header_checksum: u8,
    global_checksum: Vec<u8>,
}

/// A copy of `data[lo..hi]`.
fn copy_range(data: &[u8], lo: usize, hi: usize) -> (r: Vec<u8>)
    requires
        lo <= hi <= data.len(),
    ensures
        r@ == data@.subrange(lo as int, hi as int),
{
    let mut r: Vec<u8> = Vec::new();
    let mut i: usize = lo;
    while i < hi
        invariant
            lo <= i <= hi <= data.len(),
            r@ == data@.subrange(lo as int, i as int),
        decreases hi - i,
    {
        r.push(data[i]);
        i = i + 1;
    }
    r
}

proof fn lemma_checksum_step(chk: u8, d: u8, s: int)
    requires
        chk as int == (0 - s) % 256,
    ensures
        chk.wrapping_sub(d).wrapping_sub(1) as int == (0 - (s + d + 1)) % 256,
{
    let x = chk.wrapping_sub(d).wrapping_sub(1) as int;
    assert(x == (chk - d - 1) % 256);
    vstd::arithmetic::div_mod::lemma_sub_mod_noop(0 - s, d + 1, 256);
    vstd::arithmetic::div_mod::lemma_mod_twice(d + 1, 256);
    vstd::arithmetic::div_mod::lemma_sub_mod_noop(chk as int, d + 1, 256);
    vstd::arithmetic::div_mod::lemma_mod_twice(0 - s, 256);
    assert((0 - s) % 256 == chk as int);
}

/// The checksum that a header's bytes give.
pub fn checksum(data: &[u8]) -> (r: u8)
    requires
        data.len() == HEADER_LEN,
    ensures
        r == header_checksum(data@),
{
    let mut chksum: u8 = 0;
    let mut i: usize = 0x34;
    while i <= 0x4c
        invariant
            0x34 <= i <= 0x4d,
            data.len() == HEADER_LEN,
            chksum as int == (0 - sum_plus_one(data@, 0x34, i as int)) % 256,
        decreases 0x4d - i,
    {
        let d = data[i];
        proof {
            lemma_checksum_step(chksum, d, sum_plus_one(data@, 0x34, i as int));
        }
        chksum = chksum.wrapping_sub(d).wrapping_sub(1);
        i = i + 1;
    }
    chksum
}

impl CartridgeHeader {
    /// The header fields of a 0x50-byte header, whose checksum must match.
    pub closed spec fn from_bytes(self, h: Seq<u8>) -> bool {
        &&& self.entry_point@ == h.subrange(0, 4)
        &&& self.logo@ == h.subrange(4, 0x34)
        &&& self.title@ == h.subrange(0x34, 0x3F)
        &&& self.maker@ == h.subrange(0x3F, 0x43)
        &&& self.cgb_flag == h[0x43]
        &&& self.new_licensee@ == h.subrange(0x44, 0x46)
        &&& self.sgb_flag == h[0x46]
        &&& self.cartridge_type == h[0x47]
        &&& self.rom_size == h[0x48]
        &&& self.sram_size == h[0x49]
        &&& self.destination == h[0x4A]
        &&& self.old_licensee == h[0x4B]
        &&& self.game_version == h[0x4C]
        &&& self.header_checksum == h[0x4D]
        &&& self.global_checksum@ == h.subrange(0x4E, 0x50)
    }

    fn new(data: &[u8]) -> (r: Self)
        requires
            data.len() == HEADER_LEN,
            header_checksum(data@) == data@[0x4D],
        ensures
            r.from_bytes(data@),
    {
        let ret = CartridgeHeader {
            entry_point: copy_range(data, 0, 4),
            logo: copy_range(data, 4, 0x34),
            title: copy_range(data, 0x34, 0x3F),
            maker: copy_range(data, 0x3F, 0x43),
            cgb_flag: data[0x43],
            new_licensee: copy_range(data, 0x44, 0x46),
            sgb_flag: data[0x46],
            cartridge_type: data[0x47],
            rom_size: data[0x48],
            sram_size: data[0x49],
            destination: data[0x4A],
            old_licensee: data[0x4B],
            game_version: data[0x4C],
            header_checksum: data[0x4D],
            global_checksum: copy_range(data, 0x4E, 0x50),
        };
        let chksum = checksum(data);
        assert(chksum == ret.header_checksum);
        ret
    }

    /// The ROM size in bytes: 32 KiB shifted left by the size code.
    fn rom_size(&self) -> (r: usize)
        requires
            self.rom_size <= 0x08,
        ensures
            r == rom_len_for(self.rom_size),
    {
        1 << (15 + self.rom_size)
    }

    /// The cartridge RAM size in bytes.
    fn sram_size(&self) -> (r: usize)
        requires
            self.sram_size <= 0x05,
        ensures
            r == sram_len_for(self.sram_size),
    {
        match self.sram_size {
            0x00 => 0,
            0x01 => 0x800,
            0x02 => 0x2000,
            0x03 => 0x8000,
            0x04 => 0x20000,
            _ => 0x10000,
        }
    }
}

/// A cartridge: its ROM, its RAM and its bank controller.
pub struct Cartridge {
    pub rom: Vec<u8>,
    pub sram: Vec<u8>,
    pub mbc: Mbc,
}

/// A cartridge as a value: ROM and RAM contents and the controller state.
pub struct CartView {
    pub rom: Seq<u8>,
    pub sram: Seq<u8>,
    pub mbc: Mbc,
}

impl View for Cartridge {
    type V = CartView;

    open spec fn view(&self) -> CartView {
        CartView { rom: self.rom@, sram: self.sram@, mbc: self.mbc }
    }
}

impl CartView {
    /// ROM and RAM lengths are powers of two (RAM may be absent) and the
    /// controller's state is in range, with as many banks as the ROM has.
    pub open spec fn wf(self) -> bool {
        &&& mask_len(self.rom.len())
        &&& self.rom.len() >= 0x8000
        &&& (self.sram.len() == 0 || mask_len(self.sram.len()))
        &&& self.mbc.wf()
        &&& (self.mbc matches Mbc::Mbc1 { num_rom_banks, .. } ==> num_rom_banks == self.rom.len()
            / 0x4000)
    }

    /// Whether a read of the RAM area can be served: RAM is present, or the
    /// controller has RAM access switched off.
    pub open spec fn sram_readable(self) -> bool {
        self.sram.len() > 0 || (self.mbc matches Mbc::Mbc1 { sram_enable, .. } && !sram_enable)
    }

    /// Index into a memory of length `len` that an offset masks to.
    pub open spec fn masked(x: usize, len: nat) -> int {
        (x & ((len - 1) as usize)) as int
    }

    /// The byte that a read of `addr` gives.
    pub open spec fn read_at(self, addr: u16) -> u8 {
        if addr <= 0x7FFF {
            self.rom[Self::masked(self.mbc.addr_of(addr), self.rom.len())]
        } else {
            match self.mbc {
                Mbc::NoMbc => self.sram[Self::masked(addr as usize, self.sram.len())],
                Mbc::Mbc1 { sram_enable, .. } => {
                    if sram_enable {
                        self.sram[Self::masked(self.mbc.addr_of(addr), self.sram.len())]
                    } else {
                        0xFF
                    }
                },
            }
        }
    }

    /// The cartridge after a write of `val` to `addr`: writes to the ROM area
    /// program the controller, writes to the RAM area store into RAM while it
    /// is enabled.
    pub open spec fn write_at(self, addr: u16, val: u8) -> CartView {
        if addr <= 0x7FFF {
            CartView { mbc: self.mbc.written(addr, val), ..self }
        } else {
            match self.mbc {
                Mbc::NoMbc => CartView {
                    sram: self.sram.update(Self::masked(addr as usize, self.sram.len()), val),
                    ..self
                },
                Mbc::Mbc1 { sram_enable, .. } => {
                    if sram_enable {
                        CartView {
                            sram: self.sram.update(
                                Self::masked(self.mbc.addr_of(addr), self.sram.len()),
                                val,
                            ),
                            ..self
                        }
                    } else {
                        self
                    }
                },
            }
        }
    }
}

/// A write keeps a well-formed cartridge well formed, and never changes its ROM.
pub proof fn lemma_cart_write_keeps_wf(c: CartView, addr: u16, val: u8)
    requires
        c.wf(),
        addr <= 0x7FFF || (0xA000 <= addr <= 0xBFFF && c.sram_readable()),
    ensures
        c.write_at(addr, val).wf(),
        c.write_at(addr, val).rom == c.rom,
        c.write_at(addr, val).sram.len() == c.sram.len(),
{
    if addr <= 0x7FFF {
        crate::cartridge::mbc::lemma_written_keeps_wf(c.mbc, addr, val);
    } else {
        if c.sram.len() > 0 {
            lemma_mask_in_range(addr as usize, c.sram.len() as usize);
            lemma_mask_in_range(c.mbc.addr_of(addr), c.sram.len() as usize);
        }
    }
}

/// With cartridge RAM present and enabled, reading a RAM address right after
/// writing a byte to it gives that byte back, and the ROM is left as it was.
pub proof fn lemma_sram_read_after_write(c: CartView, addr: u16, val: u8)
    requires
        c.wf(),
        0xA000 <= addr <= 0xBFFF,
        c.sram.len() > 0,
        c.mbc is NoMbc || (c.mbc matches Mbc::Mbc1 { sram_enable, .. } && sram_enable),
    ensures
        c.write_at(addr, val).read_at(addr) == val,
        c.write_at(addr, val).rom == c.rom,
{
    lemma_mask_in_range(addr as usize, c.sram.len() as usize);
    lemma_mask_in_range(c.mbc.addr_of(addr), c.sram.len() as usize);
}

/// With an MBC1 controller, writing a value whose low nibble is 0xA to
/// 0x0000..=0x1FFF enables cartridge RAM, and any other value disables it.
pub proof fn lemma_sram_enable(c: CartView, addr: u16, val: u8)
    requires
        c.mbc is Mbc1,
        addr <= 0x1FFF,
    ensures
        c.write_at(addr, val).mbc matches Mbc::Mbc1 { sram_enable, .. } && sram_enable == (val
            & 0xF == 0xA),
        c.write_at(addr, val).sram == c.sram,
{
}

/// A cartridge as `Cartridge::new` leaves it maps its ROM straight: a read of
/// any address up to 0x7FFF gives the ROM byte at that offset.
pub proof fn lemma_new_cartridge_maps_rom(rom: Seq<u8>, addr: u16)
    requires
        valid_rom(rom),
        addr <= 0x7FFF,
    ensures
        (CartView {
            rom,
            sram: Seq::new(sram_len_for(rom[0x149]) as nat, |i: int| 0u8),
            mbc: Mbc::initial(rom[0x147], rom_len_for(rom[0x148]) / 0x4000),
        }).read_at(addr) == rom[addr as int],
{
    lemma_rom_len_values(rom[0x148]);
    let len = rom.len() as usize;
    let n = len / 0x4000;
    let x = addr as usize;
    let y = (addr & 0x3FFF) as usize;
    assert((len == 0x8000 || len == 0x10000 || len == 0x20000 || len == 0x40000 || len == 0x80000
        || len == 0x100000 || len == 0x200000 || len == 0x400000 || len == 0x800000) && x
        <= 0x7FFF && n == len / 0x4000 && x == addr && y == addr & 0x3FFF ==> x & ((len - 1) as usize)
        == x && (x <= 0x3FFF ==> y == x) && (0x4000 <= x ==> (0usize << 19usize) | ((1usize & ((n
        - 1) as usize)) << 14usize) | y == x)) by (bit_vector);
}

/// With an MBC1 controller, writing a bank number to 0x2000..=0x3FFF makes
/// 0x4000..=0x7FFF read that bank: bank `32 * high + low`, where `low` is the
/// written value's five low bits (0 standing for 1) and `high` the upper bank
/// register, taken modulo the number of banks in the ROM.
pub proof fn lemma_rom_bank_select(c: CartView, addr: u16, val: u8, off: u16)
    requires
        c.wf(),
        c.mbc is Mbc1,
        0x2000 <= addr <= 0x3FFF,
        off <= 0x3FFF,
    ensures
        ({
            let low: int = if val & 0x1F == 0 {
                1
            } else {
                (val & 0x1F) as int
            };
            let bank = 32 * c.mbc->high_bank + low;
            let banks = (c.rom.len() / 0x4000) as int;
            c.write_at(addr, val).read_at((0x4000 + off) as u16) == c.rom[(bank % banks) * 0x4000
                + off]
        }),
{
    let len = c.rom.len() as usize;
    let n = len / 0x4000;
    let h = c.mbc->high_bank;
    let b: usize = if val & 0x1F == 0 {
        1
    } else {
        (val & 0x1F) as usize
    };
    assert(val & 0x1F <= 0x1F) by (bit_vector);
    let a = (0x4000 + off) as u16;
    let y = (a & 0x3FFF) as usize;
    let o = off as usize;
    let x = (h << 19usize) | ((b & ((n - 1) as usize)) << 14usize) | y;
    assert((len == 0x8000 || len == 0x10000 || len == 0x20000 || len == 0x40000 || len == 0x80000
        || len == 0x100000 || len == 0x200000 || len == 0x400000 || len == 0x800000) && n == len
        / 0x4000 && h <= 3 && 1 <= b <= 0x1F && o <= 0x3FFF && o == off && a == (0x4000 + off) as u16
        && y == a & 0x3FFF && x == (h << 19usize) | ((b & ((n - 1) as usize)) << 14usize) | y ==> x
        & ((len - 1) as usize) == (((32 * h + b) as usize) % n) * 0x4000 + o) by (bit_vector);
}

/// The RAM sizes a header can ask for: code 0 means no RAM, code 1 2 KiB, and
/// each further code up to 4 four times as much as the one before (8, 32 and
/// 128 KiB); code 5 means 64 KiB, half of code 4. That is 0, 1, 4, 16 and 8
/// banks of 8 KiB for codes 0 and 2 to 5.
pub proof fn lemma_sram_sizes(code: u8)
    ensures
        sram_len_for(0) == 0,
        sram_len_for(1) == 2 * 1024,
        1 <= code <= 3 ==> sram_len_for((code + 1) as u8) == 4 * sram_len_for(code),
        sram_len_for(5) * 2 == sram_len_for(4),
        2 <= code <= 5 ==> sram_len_for(code) % 0x2000 == 0,
        sram_len_for(3) / 0x2000 == 4 && sram_len_for(4) / 0x2000 == 16 && sram_len_for(5) / 0x2000
            == 8,
{
}

/// `Cartridge::new` gives the cartridge as much RAM as its header's RAM code
/// asks for (see `lemma_sram_sizes`), all zero.
pub proof fn lemma_new_sram_len(rom: Seq<u8>, c: CartView)
    requires
        valid_rom(rom),
        c.sram == Seq::new(sram_len_for(rom[0x149]) as nat, |i: int| 0u8),
    ensures
        c.sram.len() == sram_len_for(rom[0x149]),
        rom[0x149] == 3 ==> c.sram.len() == 32 * 1024,
        forall|i: int| 0 <= i < c.sram.len() ==> c.sram[i] == 0,
{
    lemma_sram_sizes(rom[0x149]);
}

impl Cartridge {
    /// Whether `Cartridge::new` accepts a ROM image.
    pub fn accepts(rom: &Vec<u8>) -> (r: bool)
        ensures
            r == valid_rom(rom@),
    {
        if rom.len() < HEADER_START + HEADER_LEN {
            return false;
        }
        let header = copy_range(rom.as_slice(), 0x100, 0x150);
        let sum = checksum(header.as_slice());
        if sum != rom[0x14D] || rom[0x148] > 0x08 || rom[0x149] > 0x05 {
            return false;
        }
        let t = rom[0x147];
        if !(t == 0x00 || t == 0x08 || t == 0x09 || (0x01 <= t && t <= 0x03)) {
            return false;
        }
        let expected: usize = 1 << (15 + rom[0x148]);
        rom.len() == expected
    }

    pub fn new(rom: Vec<u8>) -> (r: Self)
        requires
            valid_rom(rom@),
        ensures
            r@.rom == rom@,
            r@.sram == Seq::new(sram_len_for(rom@[0x149]) as nat, |i: int| 0u8),
            r@.mbc == Mbc::initial(rom@[0x147], rom_len_for(rom@[0x148]) / 0x4000),
            r@.wf(),
    {
        let header_bytes = copy_range(rom.as_slice(), 0x100, 0x150);
        let header = CartridgeHeader::new(header_bytes.as_slice());

        let rom_size = header.rom_size();
        let sram_size = header.sram_size();
        let rom_banks = rom_size >> 14;
        proof {
            lemma_rom_len_values(header.rom_size);
        }
        assert(rom_banks == rom_size / 0x4000) by (bit_vector)
            requires
                rom_banks == rom_size >> 14,
        ;
        let mbc = Mbc::new(header.cartridge_type, rom_banks);

        let mut sram: Vec<u8> = Vec::new();
        let mut i: usize = 0;
        while i < sram_size
            invariant
                i <= sram_size,
                sram@ == Seq::new(i as nat, |j: int| 0u8),
            decreases sram_size - i,
        {
            sram.push(0);
            i = i + 1;
        }
        assert(sram@ =~= Seq::new(sram_len_for(rom@[0x149]) as nat, |j: int| 0u8));
        Cartridge { rom, sram, mbc }
    }

    pub fn read(&self, addr: u16) -> (r: u8)
        requires
            self@.wf(),
            addr <= 0x7FFF || (0xA000 <= addr <= 0xBFFF && self@.sram_readable()),
        ensures
            r == self@.read_at(addr),
    {
        if addr <= 0x7FFF {
            let a = self.mbc.get_addr(addr);
            proof {
                lemma_mask_in_range(a, self.rom.len());
            }
            self.rom[a & (self.rom.len() - 1)]
        } else {
            match self.mbc {
                Mbc::NoMbc => {
                    proof {
                        lemma_mask_in_range(addr as usize, self.sram.len());
                    }
                    self.sram[addr as usize & (self.sram.len() - 1)]
                },
                Mbc::Mbc1 { sram_enable, .. } => {
                    if sram_enable {
                        let a = self.mbc.get_addr(addr);
                        proof {
                            lemma_mask_in_range(a, self.sram.len());
                        }
                        self.sram[a & (self.sram.len() - 1)]
                    } else {
                        0xFF
                    }
                },
            }
        }
    }

    pub fn write(&mut self, addr: u16, val: u8)
        requires
            old(self)@.wf(),
            addr <= 0x7FFF || (0xA000 <= addr <= 0xBFFF && old(self)@.sram_readable()),
        ensures
            final(self)@ == old(self)@.write_at(addr, val),
            final(self)@.wf(),
    {
        let sram_len = self.sram.len();
        if addr <= 0x7FFF {
            self.mbc.write(addr, val);
        } else {
            match self.mbc {
                Mbc::NoMbc => {
                    proof {
                        lemma_mask_in_range(addr as usize, sram_len);
                    }
                    self.sram.set(addr as usize & (sram_len - 1), val);
                },
                Mbc::Mbc1 { sram_enable, .. } => {
                    if sram_enable {
                        let a = self.mbc.get_addr(addr);
                        proof {
                            lemma_mask_in_range(a, sram_len);
                        }
                        self.sram.set(a & (sram_len - 1), val);
                    }
                },
            }
        }
    }
}

} // verus!
