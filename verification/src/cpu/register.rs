use vstd::prelude::*;

verus! {

/// The register file of the SM83 core: eight 8-bit registers, which pair up
/// as AF, BC, DE and HL, the stack pointer and the program counter.
///
/// Register F holds the four flags in its high nibble: Z (bit 7), N (bit 6),
/// H (bit 5) and C (bit 4). Its low nibble is unused: writes of AF clear it
/// and the flag setters leave it alone (see `wf`).
#[derive(Clone, Copy, Debug, PartialEq, Eq, Structural)]
pub struct Registers {
    pub pc: u16,
    pub sp: u16,
    pub a: u8,
    pub b: u8,
    pub c: u8,
    pub d: u8,
    pub e: u8,
    pub f: u8,
    pub h: u8,
    pub l: u8,
}

/// The 16-bit value whose high byte is `hi` and low byte is `lo`.
pub open spec fn pair(hi: u8, lo: u8) -> u16 {
    (hi * 256 + lo) as u16
}

/// The high byte of a 16-bit value.
pub open spec fn hi_byte(v: u16) -> u8 {
    (v / 256) as u8
}

/// The low byte of a 16-bit value.
pub open spec fn lo_byte(v: u16) -> u8 {
    (v % 256) as u8
}

pub proof fn lemma_pair_bytes(hi: u8, lo: u8)
    ensures
        hi_byte(pair(hi, lo)) == hi,
        lo_byte(pair(hi, lo)) == lo,
{
}

pub proof fn lemma_bytes_pair(v: u16)
    ensures
        pair(hi_byte(v), lo_byte(v)) == v,
{
}

/// Exec form of `pair`.
pub fn join(hi: u8, lo: u8) -> (r: u16)
    ensures
        r == pair(hi, lo),
{
    assert(((hi as u16) << 8u16) | (lo as u16) == (hi as u16 * 256 + lo as u16) as u16)
        by (bit_vector);
    ((hi as u16) << 8) | (lo as u16)
}

/// Exec form of `hi_byte` and `lo_byte`.
pub fn split(v: u16) -> (r: (u8, u8))
    ensures
        r == (hi_byte(v), lo_byte(v)),
{
    assert((v >> 8u16) as u8 == (v / 256) as u8 && (v & 0xFFu16) as u8 == (v % 256) as u8)
        by (bit_vector);
    ((v >> 8) as u8, (v & 0xFF) as u8)
}

pub const FLAG_Z: u8 = 0b1000_0000;

pub const FLAG_N: u8 = 0b0100_0000;

pub const FLAG_H: u8 = 0b0010_0000;

pub const FLAG_C: u8 = 0b0001_0000;

/// `f` with the bits of `mask` set when `on` holds and cleared otherwise.
pub open spec fn set_bits(f: u8, mask: u8, on: bool) -> u8 {
    if on {
        f | mask
    } else {
        f & !mask
    }
}

impl Default for Registers {
    fn default() -> (r: Self)
        ensures
            r == (Registers { pc: 0, sp: 0, a: 0, b: 0, c: 0, d: 0, e: 0, f: 0, h: 0, l: 0 }),
    {
        Registers { pc: 0, sp: 0, a: 0, b: 0, c: 0, d: 0, e: 0, f: 0, h: 0, l: 0 }
    }
}

impl Registers {
    /// The flag register's low nibble is zero.
    pub open spec fn wf(self) -> bool {
        self.f & 0x0F == 0
    }

    #[verifier::allow_in_spec]
    pub fn af(&self) -> u16
        returns
            pair(self.a, self.f),
    {
        join(self.a, self.f)
    }

    #[verifier::allow_in_spec]
    pub fn bc(&self) -> u16
        returns
            pair(self.b, self.c),
    {
        join(self.b, self.c)
    }

    #[verifier::allow_in_spec]
    pub fn de(&self) -> u16
        returns
            pair(self.d, self.e),
    {
        join(self.d, self.e)
    }

    #[verifier::allow_in_spec]
    pub fn hl(&self) -> u16
        returns
            pair(self.h, self.l),
    {
        join(self.h, self.l)
    }

    /// AF after writing `val`: A takes the high byte, F the high nibble of the low byte.
    pub open spec fn with_af(self, val: u16) -> Registers {
        Registers { a: hi_byte(val), f: lo_byte(val) & 0xF0, ..self }
    }

    pub open spec fn with_bc(self, val: u16) -> Registers {
        Registers { b: hi_byte(val), c: lo_byte(val), ..self }
    }

    pub open spec fn with_de(self, val: u16) -> Registers {
        Registers { d: hi_byte(val), e: lo_byte(val), ..self }
    }

    pub open spec fn with_hl(self, val: u16) -> Registers {
        Registers { h: hi_byte(val), l: lo_byte(val), ..self }
    }

    pub fn write_af(&mut self, val: u16)
        ensures
            *final(self) == old(self).with_af(val),
    {
        let (hi, lo) = split(val);
        self.a = hi;
        self.f = lo & 0xF0;
    }

    pub fn write_bc(&mut self, val: u16)
        ensures
            *final(self) == old(self).with_bc(val),
    {
        let (hi, lo) = split(val);
        self.b = hi;
        self.c = lo;
    }

    pub fn write_de(&mut self, val: u16)
        ensures
            *final(self) == old(self).with_de(val),
    {
        let (hi, lo) = split(val);
        self.d = hi;
        self.e = lo;
    }

    pub fn write_hl(&mut self, val: u16)
        ensures
            *final(self) == old(self).with_hl(val),
    {
        let (hi, lo) = split(val);
        self.h = hi;
        self.l = lo;
    }

    #[verifier::allow_in_spec]
    pub fn zf(&self) -> bool
        returns
            self.f & FLAG_Z != 0,
    {
        self.f & FLAG_Z != 0
    }

    #[verifier::allow_in_spec]
    pub fn nf(&self) -> bool
        returns
            self.f & FLAG_N != 0,
    {
        self.f & FLAG_N != 0
    }

    #[verifier::allow_in_spec]
    pub fn hf(&self) -> bool
        returns
            self.f & FLAG_H != 0,
    {
        self.f & FLAG_H != 0
    }

    #[verifier::allow_in_spec]
    pub fn cf(&self) -> bool
        returns
            self.f & FLAG_C != 0,
    {
        self.f & FLAG_C != 0
    }

    pub open spec fn with_zf(self, on: bool) -> Registers {
        Registers { f: set_bits(self.f, FLAG_Z, on), ..self }
    }

    pub open spec fn with_nf(self, on: bool) -> Registers {
        Registers { f: set_bits(self.f, FLAG_N, on), ..self }
    }

    pub open spec fn with_hf(self, on: bool) -> Registers {
        Registers { f: set_bits(self.f, FLAG_H, on), ..self }
    }

    pub open spec fn with_cf(self, on: bool) -> Registers {
        Registers { f: set_bits(self.f, FLAG_C, on), ..self }
    }

    /// All four flags set at once, Z, N, H, C in that order.
    pub open spec fn with_flags(self, z: bool, n: bool, h: bool, c: bool) -> Registers {
        self.with_zf(z).with_nf(n).with_hf(h).with_cf(c)
    }

    pub open spec fn with_a(self, a: u8) -> Registers {
        Registers { a, ..self }
    }

    pub fn set_zf(&mut self, on: bool)
        ensures
            *final(self) == old(self).with_zf(on),
    {
        if on {
            self.f = self.f | FLAG_Z;
        } else {
            self.f = self.f & !FLAG_Z;
        }
    }

    pub fn set_nf(&mut self, on: bool)
        ensures
            *final(self) == old(self).with_nf(on),
    {
        if on {
            self.f = self.f | FLAG_N;
        } else {
            self.f = self.f & !FLAG_N;
        }
    }

    pub fn set_hf(&mut self, on: bool)
        ensures
            *final(self) == old(self).with_hf(on),
    {
        if on {
            self.f = self.f | FLAG_H;
        } else {
            self.f = self.f & !FLAG_H;
        }
    }

    pub fn set_cf(&mut self, on: bool)
        ensures
            *final(self) == old(self).with_cf(on),
    {
        if on {
            self.f = self.f | FLAG_C;
        } else {
            self.f = self.f & !FLAG_C;
        }
    }
}

/// Writing a register pair and reading it back gives the written value; for AF
/// the low nibble of F reads as zero.
pub proof fn lemma_pair_write_read(r: Registers, val: u16)
    ensures
        r.with_bc(val).bc() == val,
        r.with_de(val).de() == val,
        r.with_hl(val).hl() == val,
        r.with_af(val).af() == val & 0xFFF0,
        r.with_af(val).wf(),
{
    lemma_bytes_pair(val);
    let lo = lo_byte(val);
    let hi = hi_byte(val);
    assert((lo & 0xF0u8) & 0x0Fu8 == 0 && val & 0xFFF0u16 == (hi * 256 + (lo & 0xF0u8)) as u16)
        by (bit_vector)
        requires
            hi == (val / 256) as u8,
            lo == (val % 256) as u8,
    ;
}

/// Setting N and H leaves C as it was.
pub proof fn lemma_flag_cf_kept(r: Registers)
    ensures
        r.with_nf(false).with_hf(false).cf() == r.cf(),
{
    let f = r.f;
    assert(((f & !0x40u8) & !0x20u8) & 0x10u8 == f & 0x10u8) by (bit_vector);
}

/// Setting or clearing one flag bit: that bit reads back as set, every other
/// flag bit and the low nibble are kept.
pub proof fn lemma_set_bits(f: u8, mask: u8, on: bool)
    by (bit_vector)
    requires
        mask == FLAG_Z || mask == FLAG_N || mask == FLAG_H || mask == FLAG_C,
    ensures
        (set_bits(f, mask, on) & mask != 0) == on,
        mask != FLAG_Z ==> (set_bits(f, mask, on) & FLAG_Z != 0) == (f & FLAG_Z != 0),
        mask != FLAG_N ==> (set_bits(f, mask, on) & FLAG_N != 0) == (f & FLAG_N != 0),
        mask != FLAG_H ==> (set_bits(f, mask, on) & FLAG_H != 0) == (f & FLAG_H != 0),
        mask != FLAG_C ==> (set_bits(f, mask, on) & FLAG_C != 0) == (f & FLAG_C != 0),
        set_bits(f, mask, on) & 0x0F == f & 0x0F,
{
}

/// Setting a flag is seen by its getter, leaves the other three flags alone and
/// keeps the low nibble of F at zero.
pub proof fn lemma_flag_set_get(r: Registers, z: bool, n: bool, h: bool, c: bool)
    ensures
        r.with_flags(z, n, h, c).zf() == z,
        r.with_flags(z, n, h, c).nf() == n,
        r.with_flags(z, n, h, c).hf() == h,
        r.with_flags(z, n, h, c).cf() == c,
        r.wf() ==> r.with_flags(z, n, h, c).wf(),
        r.with_zf(z).zf() == z && r.with_zf(z).nf() == r.nf() && r.with_zf(z).hf() == r.hf()
            && r.with_zf(z).cf() == r.cf() && (r.wf() ==> r.with_zf(z).wf()),
        r.with_nf(n).nf() == n && r.with_nf(n).zf() == r.zf() && r.with_nf(n).hf() == r.hf()
            && r.with_nf(n).cf() == r.cf() && (r.wf() ==> r.with_nf(n).wf()),
        r.with_hf(h).hf() == h && r.with_hf(h).zf() == r.zf() && r.with_hf(h).nf() == r.nf()
            && r.with_hf(h).cf() == r.cf() && (r.wf() ==> r.with_hf(h).wf()),
        r.with_cf(c).cf() == c && r.with_cf(c).zf() == r.zf() && r.with_cf(c).nf() == r.nf()
            && r.with_cf(c).hf() == r.hf() && (r.wf() ==> r.with_cf(c).wf()),
{
    let f = r.f;
    lemma_set_bits(f, FLAG_Z, z);
    lemma_set_bits(f, FLAG_N, n);
    lemma_set_bits(f, FLAG_H, h);
    lemma_set_bits(f, FLAG_C, c);
    let f1 = set_bits(f, FLAG_Z, z);
    let f2 = set_bits(f1, FLAG_N, n);
    let f3 = set_bits(f2, FLAG_H, h);
    lemma_set_bits(f1, FLAG_N, n);
    lemma_set_bits(f2, FLAG_H, h);
    lemma_set_bits(f3, FLAG_C, c);
}

} // verus!
