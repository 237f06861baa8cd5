use vstd::prelude::*;

use crate::cpu::operand::{Cond, Imm16, Imm8, Reg16, IO16, IO8};
use crate::cpu::register::{hi_byte, join, lo_byte, pair, split, Registers};
use crate::cpu::interrupts::Interrupts;
use crate::cpu::{Cpu, Site};
use crate::peripherals::{BusView, Peripherals};

verus! {

/// A byte taken as a signed offset and widened to 16 bits.
pub open spec fn sext(v: u8) -> u16 {
    if v < 0x80 {
        v as u16
    } else {
        (v + 0xFF00) as u16
    }
}

fn sign_extend(v: u8) -> (r: u16)
    ensures
        r == sext(v),
{
    if v < 0x80 {
        v as u16
    } else {
        assert(v >= 0x80 ==> (v as u16) | 0xFF00u16 == (v + 0xFF00) as u16) by (bit_vector);
        (v as u16) | 0xFF00
    }
}

proof fn lemma_nibbles(a: u8, v: u8)
    by (bit_vector)
    ensures
        a & 0xf <= 0xf,
        v & 0xf <= 0xf,
{
}

proof fn lemma_word_masks(x: u16, y: u16)
    by (bit_vector)
    ensures
        x & 0xF <= 0xF && y & 0xF <= 0xF,
        x & 0xFF <= 0xFF && y & 0xFF <= 0xFF,
        x & 0xFFF <= 0xFFF && y & 0xFFF <= 0xFFF,
{
}

/// The flags that SUB and CP leave for `r.a - v`.
pub open spec fn sub_flags(r: Registers, v: u8) -> Registers {
    r.with_flags(r.a.wrapping_sub(v) == 0, true, (r.a & 0xf) < (v & 0xf), r.a < v)
}

/// INC on a byte: the flags (Z, N cleared, H on a carry out of bit 3, C
/// kept) and the value stored back.
pub open spec fn inc_op(r: Registers, v: u8) -> (Registers, u8) {
    (r.with_zf(v.wrapping_add(1) == 0).with_nf(false).with_hf(v & 0xf == 0xf), v.wrapping_add(1))
}

/// DEC on a byte: the flags (Z, N set, H on a borrow from bit 4, C kept) and
/// the value stored back.
pub open spec fn dec_op(r: Registers, v: u8) -> (Registers, u8) {
    (r.with_zf(v.wrapping_sub(1) == 0).with_nf(true).with_hf(v & 0xf == 0), v.wrapping_sub(1))
}

/// ADD: A + v, with Z, N cleared, H on a carry out of bit 3, C on a carry out of bit 7.
pub open spec fn add_op(r: Registers, v: u8) -> Registers {
    let res = r.a.wrapping_add(v);
    r.with_flags(res == 0, false, (r.a & 0xf) + (v & 0xf) > 0xf, r.a + v > 0xff).with_a(res)
}

/// ADC: A + v + carry, with the flags of ADD.
pub open spec fn adc_op(r: Registers, v: u8, cy: u8) -> Registers {
    let res = r.a.wrapping_add(v).wrapping_add(cy);
    r.with_flags(res == 0, false, (r.a & 0xf) + (v & 0xf) + cy > 0xf, r.a + v + cy > 0xff).with_a(
        res,
    )
}

/// SUB: A - v, with the flags of CP.
pub open spec fn sub_op(r: Registers, v: u8) -> Registers {
    sub_flags(r, v).with_a(r.a.wrapping_sub(v))
}

/// SBC: A - v - carry, with Z, N set, H on a borrow from bit 4, C on a borrow.
pub open spec fn sbc_op(r: Registers, v: u8, cy: u8) -> Registers {
    let res = r.a.wrapping_sub(v).wrapping_sub(cy);
    r.with_flags(res == 0, true, (r.a & 0xf) < (v & 0xf) + cy, r.a < v + cy).with_a(res)
}

/// AND: A & v, with Z, H set, N and C cleared.
pub open spec fn and_op(r: Registers, v: u8) -> Registers {
    r.with_a(r.a & v).with_flags(r.a & v == 0, false, true, false)
}

/// OR: A | v, with Z, and N, H, C cleared.
pub open spec fn or_op(r: Registers, v: u8) -> Registers {
    r.with_a(r.a | v).with_flags(r.a | v == 0, false, false, false)
}

/// XOR: A ^ v, with Z, and N, H, C cleared.
pub open spec fn xor_op(r: Registers, v: u8) -> Registers {
    r.with_a(r.a ^ v).with_flags(r.a ^ v == 0, false, false, false)
}

/// DAA: the decimal adjustment of A after a BCD addition (N clear) or
/// subtraction (N set). Z from the result, H cleared, N kept, C set when the
/// high digit needed adjusting.
pub open spec fn daa_op(r: Registers) -> Registers {
    let cf = r.cf() || (!r.nf() && r.a > 0x99);
    let hf = r.hf() || (!r.nf() && (r.a & 0x0f) > 0x09);
    let corr = ((if cf {
        0x60int
    } else {
        0
    }) + (if hf {
        0x06int
    } else {
        0
    })) as u8;
    let a = if r.nf() {
        r.a.wrapping_sub(corr)
    } else {
        r.a.wrapping_add(corr)
    };
    r.with_a(a).with_zf(a == 0).with_hf(false).with_cf(cf)
}

/// RL: rotate left through the carry.
pub open spec fn rl_op(r: Registers, v: u8) -> (Registers, u8) {
    let res = (v << 1u8) | carry_bit(r);
    (r.with_flags(res == 0, false, false, v & 0x80 > 0), res)
}

/// RLC: rotate left, bit 7 into the carry.
pub open spec fn rlc_op(r: Registers, v: u8) -> (Registers, u8) {
    (r.with_flags(v == 0, false, false, v & 0x80 > 0), (v << 1u8) | (v >> 7u8))
}

/// RRC: rotate right, bit 0 into the carry.
pub open spec fn rrc_op(r: Registers, v: u8) -> (Registers, u8) {
    (r.with_flags(v == 0, false, false, v & 0x1 > 0), (v >> 1u8) | (v << 7u8))
}

/// RR: rotate right through the carry.
pub open spec fn rr_op(r: Registers, v: u8) -> (Registers, u8) {
    let res = (carry_bit(r) << 7u8) | (v >> 1u8);
    (r.with_flags(res == 0, false, false, v & 0x1 > 0), res)
}

/// SLA: shift left, bit 7 into the carry.
pub open spec fn sla_op(r: Registers, v: u8) -> (Registers, u8) {
    (r.with_flags(v & 0x7F == 0, false, false, v & 0x80 > 0), v << 1u8)
}

/// SRA: shift right keeping bit 7, bit 0 into the carry.
pub open spec fn sra_op(r: Registers, v: u8) -> (Registers, u8) {
    (r.with_flags(v & 0xFE == 0, false, false, v & 0x1 > 0), (v & 0x80) | (v >> 1u8))
}

/// SRL: shift right, bit 0 into the carry.
pub open spec fn srl_op(r: Registers, v: u8) -> (Registers, u8) {
    (r.with_flags(v & 0xFE == 0, false, false, v & 0x1 > 0), v >> 1u8)
}

/// SWAP: exchange the two nibbles.
pub open spec fn swap_op(r: Registers, v: u8) -> (Registers, u8) {
    (r.with_flags(v == 0, false, false, false), (v << 4u8) | (v >> 4u8))
}

/// SET: bit `bit` set, flags kept.
pub open spec fn set_op(r: Registers, v: u8, bit: usize) -> (Registers, u8) {
    (r, v | (1u8 << bit))
}

/// RES: bit `bit` cleared, flags kept.
pub open spec fn res_op(r: Registers, v: u8, bit: usize) -> (Registers, u8) {
    (r, v & !(1u8 << bit))
}

/// The carry flag as a bit.
pub open spec fn carry_bit(r: Registers) -> u8 {
    if r.cf() {
        1
    } else {
        0
    }
}

/// Setting Z last, over flags set in the order Z, N, H, C, is the same as
/// setting it first.
pub proof fn lemma_zf_last(r: Registers, z: bool, h: bool, c: bool)
    ensures
        r.with_flags(z, false, h, c).with_zf(false) == r.with_flags(false, false, h, c),
{
    let f = r.f;
    assert(({
        let f1 = if z { f | 0x80u8 } else { f & !0x80u8 };
        let f2 = f1 & !0x40u8;
        let f3 = if h { f2 | 0x20u8 } else { f2 & !0x20u8 };
        let f4 = if c { f3 | 0x10u8 } else { f3 & !0x10u8 };
        f4 & !0x80u8
    }) == ({
        let f1 = f & !0x80u8;
        let f2 = f1 & !0x40u8;
        let f3 = if h { f2 | 0x20u8 } else { f2 & !0x20u8 };
        if c { f3 | 0x10u8 } else { f3 & !0x10u8 }
    })) by (bit_vector);
}

impl Cpu {
    pub open spec fn holds(self, c: Cond) -> bool {
        match c {
            Cond::NZ => !self.regs.zf(),
            Cond::Z => self.regs.zf(),
            Cond::NC => !self.regs.cf(),
            Cond::C => self.regs.cf(),
        }
    }

    fn cond(&self, cond: Cond) -> (r: bool)
        ensures
            r == self.holds(cond),
    {
        match cond {
            Cond::NZ => !self.regs.zf(),
            Cond::Z => self.regs.zf(),
            Cond::NC => !self.regs.cf(),
            Cond::C => self.regs.cf(),
        }
    }

    pub open spec fn inc_model<S: Copy>(self, bus: BusView, src: S) -> (Cpu, BusView) where
        Self: IO8<S>,
     {
        self.rmw_model(bus, src, Site::Inc, |r: Registers, v: u8| inc_op(r, v))
    }

    pub open spec fn dec_model<S: Copy>(self, bus: BusView, src: S) -> (Cpu, BusView) where
        Self: IO8<S>,
     {
        self.rmw_model(bus, src, Site::Dec, |r: Registers, v: u8| dec_op(r, v))
    }

    pub open spec fn rl_model<S: Copy>(self, bus: BusView, src: S) -> (Cpu, BusView) where
        Self: IO8<S>,
     {
        self.rmw_model(bus, src, Site::Rl, |r: Registers, v: u8| rl_op(r, v))
    }

    pub open spec fn rlc_model<S: Copy>(self, bus: BusView, src: S) -> (Cpu, BusView) where
        Self: IO8<S>,
     {
        self.rmw_model(bus, src, Site::Rlc, |r: Registers, v: u8| rlc_op(r, v))
    }

    pub open spec fn rrc_model<S: Copy>(self, bus: BusView, src: S) -> (Cpu, BusView) where
        Self: IO8<S>,
     {
        self.rmw_model(bus, src, Site::Rrc, |r: Registers, v: u8| rrc_op(r, v))
    }

    pub open spec fn rr_model<S: Copy>(self, bus: BusView, src: S) -> (Cpu, BusView) where
        Self: IO8<S>,
     {
        self.rmw_model(bus, src, Site::Rr, |r: Registers, v: u8| rr_op(r, v))
    }

    pub open spec fn sla_model<S: Copy>(self, bus: BusView, src: S) -> (Cpu, BusView) where
        Self: IO8<S>,
     {
        self.rmw_model(bus, src, Site::Sla, |r: Registers, v: u8| sla_op(r, v))
    }

    pub open spec fn sra_model<S: Copy>(self, bus: BusView, src: S) -> (Cpu, BusView) where
        Self: IO8<S>,
     {
        self.rmw_model(bus, src, Site::Sra, |r: Registers, v: u8| sra_op(r, v))
    }

    pub open spec fn srl_model<S: Copy>(self, bus: BusView, src: S) -> (Cpu, BusView) where
        Self: IO8<S>,
     {
        self.rmw_model(bus, src, Site::Srl, |r: Registers, v: u8| srl_op(r, v))
    }

    pub open spec fn swap_model<S: Copy>(self, bus: BusView, src: S) -> (Cpu, BusView) where
        Self: IO8<S>,
     {
        self.rmw_model(bus, src, Site::Swap, |r: Registers, v: u8| swap_op(r, v))
    }

    pub open spec fn set_model<S: Copy>(self, bus: BusView, bit: usize, src: S) -> (Cpu, BusView) where
        Self: IO8<S>,
     {
        self.rmw_model(bus, src, Site::SetBit, |r: Registers, v: u8| set_op(r, v, bit))
    }

    pub open spec fn res_model<S: Copy>(self, bus: BusView, bit: usize, src: S) -> (Cpu, BusView) where
        Self: IO8<S>,
     {
        self.rmw_model(bus, src, Site::ResBit, |r: Registers, v: u8| res_op(r, v, bit))
    }

    pub open spec fn cp_model<S: Copy>(self, bus: BusView, src: S) -> Cpu where Self: IO8<S> {
        self.alu_model(bus, src, |r: Registers, v: u8| sub_flags(r, v))
    }

    pub open spec fn add_model<S: Copy>(self, bus: BusView, src: S) -> Cpu where Self: IO8<S> {
        self.alu_model(bus, src, |r: Registers, v: u8| add_op(r, v))
    }

    pub open spec fn adc_model<S: Copy>(self, bus: BusView, src: S) -> Cpu where Self: IO8<S> {
        self.alu_model(bus, src, |r: Registers, v: u8| adc_op(r, v, carry_bit(self.regs)))
    }

    pub open spec fn sub_model<S: Copy>(self, bus: BusView, src: S) -> Cpu where Self: IO8<S> {
        self.alu_model(bus, src, |r: Registers, v: u8| sub_op(r, v))
    }

    pub open spec fn sbc_model<S: Copy>(self, bus: BusView, src: S) -> Cpu where Self: IO8<S> {
        self.alu_model(bus, src, |r: Registers, v: u8| sbc_op(r, v, carry_bit(self.regs)))
    }

    pub open spec fn and_model<S: Copy>(self, bus: BusView, src: S) -> Cpu where Self: IO8<S> {
        self.alu_model(bus, src, |r: Registers, v: u8| and_op(r, v))
    }

    pub open spec fn or_model<S: Copy>(self, bus: BusView, src: S) -> Cpu where Self: IO8<S> {
        self.alu_model(bus, src, |r: Registers, v: u8| or_op(r, v))
    }

    pub open spec fn xor_model<S: Copy>(self, bus: BusView, src: S) -> Cpu where Self: IO8<S> {
        self.alu_model(bus, src, |r: Registers, v: u8| xor_op(r, v))
    }

    pub open spec fn rlca_model(self, bus: BusView) -> Cpu {
        self.with_regs(
                rlc_op(self.regs, self.regs.a).0.with_zf(false).with_a(
                    rlc_op(self.regs, self.regs.a).1,
                ),
            ).fetched(bus)
    }

    pub open spec fn rla_model(self, bus: BusView) -> Cpu {
        self.with_regs(
                rl_op(self.regs, self.regs.a).0.with_zf(false).with_a(
                    rl_op(self.regs, self.regs.a).1,
                ),
            ).fetched(bus)
    }

    pub open spec fn rrca_model(self, bus: BusView) -> Cpu {
        self.with_regs(
                rrc_op(self.regs, self.regs.a).0.with_zf(false).with_a(
                    rrc_op(self.regs, self.regs.a).1,
                ),
            ).fetched(bus)
    }

    pub open spec fn rra_model(self, bus: BusView) -> Cpu {
        self.with_regs(
                rr_op(self.regs, self.regs.a).0.with_zf(false).with_a(
                    rr_op(self.regs, self.regs.a).1,
                ),
            ).fetched(bus)
    }

    pub open spec fn di_model(self, bus: BusView) -> Cpu {
        self.with_ints(
                Interrupts { ime: false, ..self.interrupts },
            ).fetched(bus)
    }

    pub open spec fn ei_model(self, bus: BusView) -> Cpu {
        ({
                let c = self.fetched(bus);
                c.with_ints(Interrupts { ime: true, ..c.interrupts })
            })
    }

    pub open spec fn jp_hl_model(self, bus: BusView) -> Cpu {
        self.with_pc(self.regs.hl()).fetched(bus)
    }

    pub open spec fn ccf_model(self, bus: BusView) -> Cpu {
        self.with_regs(
                self.regs.with_nf(false).with_hf(false).with_cf(!self.regs.cf()),
            ).fetched(bus)
    }

    pub open spec fn scf_model(self, bus: BusView) -> Cpu {
        self.with_regs(
                self.regs.with_nf(false).with_hf(false).with_cf(true),
            ).fetched(bus)
    }

    pub open spec fn daa_model(self, bus: BusView) -> Cpu {
        self.with_regs(daa_op(self.regs)).fetched(bus)
    }

    pub open spec fn cpl_model(self, bus: BusView) -> Cpu {
        self.with_regs(
                self.regs.with_nf(true).with_hf(true).with_a(!self.regs.a),
            ).fetched(bus)
    }

    /// NOP: fetches the next opcode.
    pub fn nop(&mut self, bus: &Peripherals)
        requires
            bus@.wf(),
        ensures
            *final(self) == old(self).fetched(bus@),
    {
        self.fetch(bus);
    }

    /// LD dst, src: the source byte is read, then written to the destination,
    /// then the next opcode is fetched, each phase starting as soon as the one
    /// before it is done.
    pub open spec fn ld_model<D: Copy, S: Copy>(self, bus: BusView, dst: D, src: S) -> (
        Cpu,
        BusView,
    ) where Self: IO8<D> + IO8<S> {
        let c0 = if self.st(Site::Ld).step == 0 {
            match self.read8_model(bus, src) {
                (c, Some(v)) => c.keep8(Site::Ld, v).go(Site::Ld, 1),
                (c, None) => c,
            }
        } else {
            self
        };
        let (c1, b1) = if c0.st(Site::Ld).step == 1 {
            match c0.write8_model(bus, dst, c0.st(Site::Ld).val8) {
                (c, b, Some(_)) => (c.go(Site::Ld, 2), b),
                (c, b, None) => (c, b),
            }
        } else {
            (c0, bus)
        };
        if c1.st(Site::Ld).step == 2 {
            (c1.go(Site::Ld, 0).fetched(b1), b1)
        } else {
            (c1, b1)
        }
    }

    pub fn ld<D: Copy, S: Copy>(&mut self, bus: &mut Peripherals, dst: D, src: S) where
        Self: IO8<D> + IO8<S>,

        requires
            old(bus)@.wf(),
            <Cpu as IO8<D>>::writable8(dst),
        ensures
            (*final(self), final(bus)@) == old(self).ld_model(old(bus)@, dst, src),
            final(bus)@.wf(),
    {
        if self.steps.ld.step == 0 {
            if let Some(v) = self.read8(bus, src) {
                self.steps.ld.val8 = v;
                self.steps.ld.step = 1;
            }
        }
        if self.steps.ld.step == 1 {
            if self.write8(bus, dst, self.steps.ld.val8).is_some() {
                self.steps.ld.step = 2;
            }
        }
        if self.steps.ld.step == 2 {
            self.steps.ld.step = 0;
            self.fetch(bus);
        } else {
            return ;
        }
    }

    /// LD for words, phased like `ld`.
    pub open spec fn ld16_model<D: Copy, S: Copy>(self, bus: BusView, dst: D, src: S) -> (
        Cpu,
        BusView,
    ) where Self: IO16<D> + IO16<S> {
        let c0 = if self.st(Site::Ld16).step == 0 {
            match self.read16_model(bus, src) {
                (c, Some(v)) => c.keep16(Site::Ld16, v).go(Site::Ld16, 1),
                (c, None) => c,
            }
        } else {
            self
        };
        let (c1, b1) = if c0.st(Site::Ld16).step == 1 {
            match c0.write16_model(bus, dst, c0.st(Site::Ld16).val16) {
                (c, b, Some(_)) => (c.go(Site::Ld16, 2), b),
                (c, b, None) => (c, b),
            }
        } else {
            (c0, bus)
        };
        if c1.st(Site::Ld16).step == 2 {
            (c1.go(Site::Ld16, 0).fetched(b1), b1)
        } else {
            (c1, b1)
        }
    }

    pub fn ld16<D: Copy, S: Copy>(&mut self, bus: &mut Peripherals, dst: D, src: S) where
        Self: IO16<D> + IO16<S>,

        requires
            old(bus)@.wf(),
            <Cpu as IO16<D>>::writable16(dst),
            <Cpu as IO16<S>>::readable16(src),
        ensures
            (*final(self), final(bus)@) == old(self).ld16_model(old(bus)@, dst, src),
            final(bus)@.wf(),
    {
        if self.steps.ld16.step == 0 {
            if let Some(v) = self.read16(bus, src) {
                self.steps.ld16.val16 = v;
                self.steps.ld16.step = 1;
            }
        }
        if self.steps.ld16.step == 1 {
            if self.write16(bus, dst, self.steps.ld16.val16).is_some() {
                self.steps.ld16.step = 2;
            }
        }
        if self.steps.ld16.step == 2 {
            self.steps.ld16.step = 0;
            self.fetch(bus);
        } else {
            return ;
        }
    }

    /// An 8-bit arithmetic or logic operation on A: once the operand is read,
    /// `op` gives the new registers, and the next opcode is fetched.
    pub open spec fn alu_model<S: Copy>(
        self,
        bus: BusView,
        src: S,
        op: spec_fn(Registers, u8) -> Registers,
    ) -> Cpu where Self: IO8<S> {
        match self.read8_model(bus, src) {
            (c, Some(v)) => c.with_regs(op(c.regs, v)).fetched(bus),
            (c, None) => c,
        }
    }

    /// CP src: the flags of A - src (Z, N set, H on a borrow from bit 4, C on
    /// a borrow); A is kept.
    pub fn cp<S: Copy>(&mut self, bus: &Peripherals, src: S) where Self: IO8<S>
        requires
            bus@.wf(),
        ensures
            *final(self) == old(self).cp_model(bus@, src),
    {
        if let Some(v) = self.read8(bus, src) {
            let a = self.regs.a;
            let result = a.wrapping_sub(v);
            let carry = a < v;
            self.regs.set_zf(result == 0);
            self.regs.set_nf(true);
            self.regs.set_hf((a & 0xf) < (v & 0xf));
            self.regs.set_cf(carry);
            self.fetch(bus);
        }
    }

    /// The phases of a read-modify-write on an 8-bit operand: the operand is
    /// read and `op` gives the new registers and the byte to store; the byte
    /// is written back, and once the write is done the next opcode is fetched.
    pub open spec fn rmw_model<S: Copy>(
        self,
        bus: BusView,
        src: S,
        site: Site,
        op: spec_fn(Registers, u8) -> (Registers, u8),
    ) -> (Cpu, BusView) where Self: IO8<S> {
        let c0 = if self.st(site).step == 0 {
            match self.read8_model(bus, src) {
                (c, Some(v)) => c.with_regs(op(c.regs, v).0).keep8(site, op(c.regs, v).1).go(
                    site,
                    1,
                ),
                (c, None) => c,
            }
        } else {
            self
        };
        if c0.st(site).step == 1 {
            match c0.write8_model(bus, src, c0.st(site).val8) {
                (c, b, Some(_)) => (c.go(site, 0).fetched(b), b),
                (c, b, None) => (c, b),
            }
        } else {
            (c0, bus)
        }
    }

    /// INC src: the operand plus one (wrapping) is stored back; Z is set from
    /// it, N cleared, H set on a carry out of bit 3, C kept.
    pub fn inc<S: Copy>(&mut self, bus: &mut Peripherals, src: S) where Self: IO8<S>
        requires
            old(bus)@.wf(),
            <Cpu as IO8<S>>::writable8(src),
        ensures
            (*final(self), final(bus)@) == old(self).inc_model(old(bus)@, src),
            final(bus)@.wf(),
    {
        if self.steps.inc.step == 0 {
            if let Some(v) = self.read8(bus, src) {
                let result = v.wrapping_add(1);
                self.regs.set_zf(result == 0);
                self.regs.set_nf(false);
                self.regs.set_hf(v & 0xf == 0xf);
                self.steps.inc.val8 = result;
                self.steps.inc.step = 1;
            }
        }
        if self.steps.inc.step == 1 {
            if self.write8(bus, src, self.steps.inc.val8).is_some() {
                self.steps.inc.step = 0;
                self.fetch(bus);
            }
        }
    }

    /// INC for words: the operand plus one (wrapping) is written back, no
    /// flags change, and the next opcode is fetched one cycle later.
    pub open spec fn inc16_model<S: Copy>(self, bus: BusView, src: S) -> (Cpu, BusView) where
        Self: IO16<S>,
     {
        let c0 = if self.st(Site::Inc16).step == 0 {
            match self.read16_model(bus, src) {
                (c, Some(v)) => c.keep16(Site::Inc16, v.wrapping_add(1)).go(Site::Inc16, 1),
                (c, None) => c,
            }
        } else {
            self
        };
        let (c1, b1, paused) = if c0.st(Site::Inc16).step == 1 {
            match c0.write16_model(bus, src, c0.st(Site::Inc16).val16) {
                (c, b, Some(_)) => (c.go(Site::Inc16, 2), b, true),
                (c, b, None) => (c, b, false),
            }
        } else {
            (c0, bus, false)
        };
        if !paused && c1.st(Site::Inc16).step == 2 {
            (c1.go(Site::Inc16, 0).fetched(b1), b1)
        } else {
            (c1, b1)
        }
    }

    pub fn inc16<S: Copy>(&mut self, bus: &mut Peripherals, src: S) where Self: IO16<S>
        requires
            old(bus)@.wf(),
            <Cpu as IO16<S>>::readable16(src),
            <Cpu as IO16<S>>::writable16(src),
        ensures
            (*final(self), final(bus)@) == old(self).inc16_model(old(bus)@, src),
            final(bus)@.wf(),
    {
        if self.steps.inc16.step == 0 {
            if let Some(v) = self.read16(bus, src) {
                self.steps.inc16.val16 = v.wrapping_add(1);
                self.steps.inc16.step = 1;
            }
        }
        if self.steps.inc16.step == 1 {
            if self.write16(bus, src, self.steps.inc16.val16).is_some() {
                self.steps.inc16.step = 2;
                return ;
            }
        }
        if self.steps.inc16.step == 2 {
            self.steps.inc16.step = 0;
            self.fetch(bus);
        } else {
            return ;
        }
    }

    /// DEC src: the operand minus one (wrapping) is stored back; Z is set
    /// from it, N set, H set on a borrow from bit 4, C kept.
    pub fn dec<S: Copy>(&mut self, bus: &mut Peripherals, src: S) where Self: IO8<S>
        requires
            old(bus)@.wf(),
            <Cpu as IO8<S>>::writable8(src),
        ensures
            (*final(self), final(bus)@) == old(self).dec_model(old(bus)@, src),
            final(bus)@.wf(),
    {
        if self.steps.dec.step == 0 {
            if let Some(v) = self.read8(bus, src) {
                let result = v.wrapping_sub(1);
                self.regs.set_zf(result == 0);
                self.regs.set_nf(true);
                self.regs.set_hf(v & 0xf == 0);
                self.steps.dec.val8 = result;
                self.steps.dec.step = 1;
            }
        }
        if self.steps.dec.step == 1 {
            if self.write8(bus, src, self.steps.dec.val8).is_some() {
                self.steps.dec.step = 0;
                self.fetch(bus);
            }
        }
    }

    /// DEC for words, phased like `inc16`.
    pub open spec fn dec16_model<S: Copy>(self, bus: BusView, src: S) -> (Cpu, BusView) where
        Self: IO16<S>,
     {
        let c0 = if self.st(Site::Dec16).step == 0 {
            match self.read16_model(bus, src) {
                (c, Some(v)) => c.keep16(Site::Dec16, v.wrapping_sub(1)).go(Site::Dec16, 1),
                (c, None) => c,
            }
        } else {
            self
        };
        let (c1, b1, paused) = if c0.st(Site::Dec16).step == 1 {
            match c0.write16_model(bus, src, c0.st(Site::Dec16).val16) {
                (c, b, Some(_)) => (c.go(Site::Dec16, 2), b, true),
                (c, b, None) => (c, b, false),
            }
        } else {
            (c0, bus, false)
        };
        if !paused && c1.st(Site::Dec16).step == 2 {
            (c1.go(Site::Dec16, 0).fetched(b1), b1)
        } else {
            (c1, b1)
        }
    }

    pub fn dec16<S: Copy>(&mut self, bus: &mut Peripherals, src: S) where Self: IO16<S>
        requires
            old(bus)@.wf(),
            <Cpu as IO16<S>>::readable16(src),
            <Cpu as IO16<S>>::writable16(src),
        ensures
            (*final(self), final(bus)@) == old(self).dec16_model(old(bus)@, src),
            final(bus)@.wf(),
    {
        if self.steps.dec16.step == 0 {
            if let Some(v) = self.read16(bus, src) {
                self.steps.dec16.val16 = v.wrapping_sub(1);
                self.steps.dec16.step = 1;
            }
        }
        if self.steps.dec16.step == 1 {
            if self.write16(bus, src, self.steps.dec16.val16).is_some() {
                self.steps.dec16.step = 2;
                return ;
            }
        }
        if self.steps.dec16.step == 2 {
            self.steps.dec16.step = 0;
            self.fetch(bus);
        } else {
            return ;
        }
    }
    /// RL src: rotates the operand left through the carry; Z from the result, N and H cleared, C from bit 7.
    pub fn rl<S: Copy>(&mut self, bus: &mut Peripherals, src: S) where Self: IO8<S>
        requires
            old(bus)@.wf(),
            <Cpu as IO8<S>>::writable8(src),
        ensures
            (*final(self), final(bus)@) == old(self).rl_model(old(bus)@, src),
            final(bus)@.wf(),
    {
        if self.steps.rl.step == 0 {
            if let Some(v) = self.read8(bus, src) {
                let cy: u8 = if self.regs.cf() { 1 } else { 0 };
                let result = (v << 1) | cy;
                self.regs.set_zf(result == 0);
                self.regs.set_nf(false);
                self.regs.set_hf(false);
                self.regs.set_cf(v & 0x80 > 0);
                self.steps.rl.val8 = result;
                self.steps.rl.step = 1;
            }
        }
        if self.steps.rl.step == 1 {
            if self.write8(bus, src, self.steps.rl.val8).is_some() {
                self.steps.rl.step = 0;
                self.fetch(bus);
            }
        }
    }

    /// BIT b, src: once the operand is read, Z is set when bit `bit` of it is
    /// clear, N is cleared, H set, C kept; then the next opcode is fetched.
    pub open spec fn bit_model<S: Copy>(self, bus: BusView, bit: usize, src: S) -> Cpu where
        Self: IO8<S>,
     {
        match self.read8_model(bus, src) {
            (c, Some(v)) => c.with_regs(
                c.regs.with_zf(v & (1u8 << bit) == 0).with_nf(false).with_hf(true),
            ).fetched(bus),
            (c, None) => c,
        }
    }

    pub fn bit<S: Copy>(&mut self, bus: &Peripherals, bit: usize, src: S) where Self: IO8<S>
        requires
            bus@.wf(),
            bit < 8,
        ensures
            *final(self) == old(self).bit_model(bus@, bit, src),
    {
        if let Some(mut v) = self.read8(bus, src) {
            v &= 1u8 << bit;
            self.regs.set_zf(v == 0);
            self.regs.set_nf(false);
            self.regs.set_hf(true);
            self.fetch(bus);
        }
    }

    /// One cycle of pushing `val`: a first cycle of internal delay, then the
    /// high byte is written at SP - 1, then the low byte at SP - 2 (SP moving
    /// down each time), and on the fourth cycle the push reports done.
    pub open spec fn push16_model(self, bus: BusView, val: u16) -> (Cpu, BusView, Option<()>) {
        let s = self.st(Site::Push16);
        if s.step == 0 {
            (self.go(Site::Push16, 1), bus, None)
        } else if s.step == 1 {
            let sp = self.regs.sp.wrapping_sub(1);
            let (c, b) = self.with_sp(sp).bus_write(bus, sp, hi_byte(val));
            (c.keep8(Site::Push16, lo_byte(val)).go(Site::Push16, 2), b, None)
        } else if s.step == 2 {
            let sp = self.regs.sp.wrapping_sub(1);
            let (c, b) = self.with_sp(sp).bus_write(bus, sp, s.val8);
            (c.go(Site::Push16, 3), b, None)
        } else if s.step == 3 {
            (self.go(Site::Push16, 0), bus, Some(()))
        } else {
            (self, bus, None)
        }
    }

    pub fn push16(&mut self, bus: &mut Peripherals, val: u16) -> (r: Option<()>)
        requires
            old(bus)@.wf(),
        ensures
            (*final(self), final(bus)@, r) == old(self).push16_model(old(bus)@, val),
            final(bus)@.wf(),
    {
        if self.steps.push16.step == 0 {
            self.steps.push16.step = 1;
            return None;
        }
        if self.steps.push16.step == 1 {
            let (hi, lo) = split(val);
            self.regs.sp = self.regs.sp.wrapping_sub(1);
            bus.write(&mut self.interrupts, self.regs.sp, hi);
            self.steps.push16.val8 = lo;
            self.steps.push16.step = 2;
            return None;
        }
        if self.steps.push16.step == 2 {
            self.regs.sp = self.regs.sp.wrapping_sub(1);
            bus.write(&mut self.interrupts, self.regs.sp, self.steps.push16.val8);
            self.steps.push16.step = 3;
            return None;
        }
        if self.steps.push16.step == 3 {
            self.steps.push16.step = 0;
            return Some(());
        } else {
            return None;
        }
    }

    /// PUSH rr: the register pair is taken, pushed, and once the push is done
    /// the next opcode is fetched.
    pub open spec fn push_model(self, bus: BusView, src: Reg16) -> (Cpu, BusView) {
        let c0 = if self.st(Site::Push).step == 0 {
            self.keep16(Site::Push, self.reg16(src)).go(Site::Push, 1)
        } else {
            self
        };
        let (c1, b1) = if c0.st(Site::Push).step == 1 {
            match c0.push16_model(bus, c0.st(Site::Push).val16) {
                (c, b, Some(_)) => (c.go(Site::Push, 2), b),
                (c, b, None) => (c, b),
            }
        } else {
            (c0, bus)
        };
        if c1.st(Site::Push).step == 2 {
            (c1.go(Site::Push, 0).fetched(b1), b1)
        } else {
            (c1, b1)
        }
    }

    pub fn push(&mut self, bus: &mut Peripherals, src: Reg16)
        requires
            old(bus)@.wf(),
        ensures
            (*final(self), final(bus)@) == old(self).push_model(old(bus)@, src),
            final(bus)@.wf(),
    {
        if self.steps.push.step == 0 {
            self.steps.push.val16 = self.read16(bus, src).unwrap();
            self.steps.push.step = 1;
        }
        if self.steps.push.step == 1 {
            if self.push16(bus, self.steps.push.val16).is_some() {
                self.steps.push.step = 2;
            }
        }
        if self.steps.push.step == 2 {
            self.steps.push.step = 0;
            self.fetch(bus);
        } else {
            return ;
        }
    }

    /// One cycle of popping a word: the low byte is read at SP, then the high
    /// byte at SP + 1 (SP moving up each time), and the word is delivered on
    /// the third cycle.
    pub open spec fn pop16_model(self, bus: BusView) -> (Cpu, Option<u16>) {
        let s = self.st(Site::Pop16);
        if s.step == 0 {
            (
                self.keep8(Site::Pop16, bus.read_at(self.interrupts, self.regs.sp)).with_sp(
                    self.regs.sp.wrapping_add(1),
                ).go(Site::Pop16, 1),
                None,
            )
        } else if s.step == 1 {
            let hi = bus.read_at(self.interrupts, self.regs.sp);
            (
                self.with_sp(self.regs.sp.wrapping_add(1)).keep16(
                    Site::Pop16,
                    pair(hi, s.val8),
                ).go(Site::Pop16, 2),
                None,
            )
        } else if s.step == 2 {
            (self.go(Site::Pop16, 0), Some(s.val16))
        } else {
            (self, None)
        }
    }

    pub fn pop16(&mut self, bus: &Peripherals) -> (r: Option<u16>)
        requires
            bus@.wf(),
        ensures
            (*final(self), r) == old(self).pop16_model(bus@),
    {
        if self.steps.pop16.step == 0 {
            self.steps.pop16.val8 = bus.read(&self.interrupts, self.regs.sp);
            self.regs.sp = self.regs.sp.wrapping_add(1);
            self.steps.pop16.step = 1;
            return None;
        }
        if self.steps.pop16.step == 1 {
            let hi = bus.read(&self.interrupts, self.regs.sp);
            self.regs.sp = self.regs.sp.wrapping_add(1);
            self.steps.pop16.val16 = join(hi, self.steps.pop16.val8);
            self.steps.pop16.step = 2;
            return None;
        }
        if self.steps.pop16.step == 2 {
            self.steps.pop16.step = 0;
            return Some(self.steps.pop16.val16);
        } else {
            return None;
        }
    }

    /// POP rr: once the word is popped it is written to the register pair (for
    /// AF the low nibble of F stays zero) and the next opcode is fetched.
    pub open spec fn pop_model(self, bus: BusView, dst: Reg16) -> Cpu {
        match self.pop16_model(bus) {
            (c, Some(v)) => c.with_reg16(dst, v).fetched(bus),
            (c, None) => c,
        }
    }

    pub fn pop(&mut self, bus: &mut Peripherals, dst: Reg16)
        requires
            old(bus)@.wf(),
        ensures
            *final(self) == old(self).pop_model(old(bus)@, dst),
            final(bus)@ == old(bus)@,
    {
        if let Some(v) = self.pop16(bus) {
            self.write16(bus, dst, v);
            self.fetch(bus);
        }
    }

    /// JR e: once the offset is read, PC moves by it (signed); the next opcode
    /// is fetched one cycle later.
    pub open spec fn jr_model(self, bus: BusView) -> Cpu {
        let (c0, paused) = if self.st(Site::Jr).step == 0 {
            match self.read8_model(bus, Imm8) {
                (c, Some(v)) => (c.with_pc(c.regs.pc.wrapping_add(sext(v))).go(Site::Jr, 1), true),
                (c, None) => (c, false),
            }
        } else {
            (self, false)
        };
        if !paused && c0.st(Site::Jr).step == 1 {
            c0.go(Site::Jr, 0).fetched(bus)
        } else {
            c0
        }
    }

    pub fn jr(&mut self, bus: &Peripherals)
        requires
            bus@.wf(),
        ensures
            *final(self) == old(self).jr_model(bus@),
    {
        if self.steps.jr.step == 0 {
            if let Some(v) = self.read8(bus, Imm8) {
                self.regs.pc = self.regs.pc.wrapping_add(sign_extend(v));
                self.steps.jr.step = 1;
                return ;
            }
        }
        if self.steps.jr.step == 1 {
            self.steps.jr.step = 0;
            self.fetch(bus);
        } else {
            return ;
        }
    }

    /// JR cc, e: once the offset is read, PC moves by it when the condition
    /// holds and the next opcode is fetched one cycle later; otherwise the
    /// next opcode is fetched at once.
    pub open spec fn jr_c_model(self, bus: BusView, cond: Cond) -> Cpu {
        let (c0, paused) = if self.st(Site::JrC).step == 0 {
            match self.read8_model(bus, Imm8) {
                (c, Some(v)) => if c.holds(cond) {
                    (c.go(Site::JrC, 1).with_pc(c.regs.pc.wrapping_add(sext(v))), true)
                } else {
                    (c.go(Site::JrC, 1), false)
                },
                (c, None) => (c, false),
            }
        } else {
            (self, false)
        };
        if !paused && c0.st(Site::JrC).step == 1 {
            c0.go(Site::JrC, 0).fetched(bus)
        } else {
            c0
        }
    }

    pub fn jr_c(&mut self, bus: &Peripherals, c: Cond)
        requires
            bus@.wf(),
        ensures
            *final(self) == old(self).jr_c_model(bus@, c),
    {
        if self.steps.jr_c.step == 0 {
            if let Some(v) = self.read8(bus, Imm8) {
                self.steps.jr_c.step = 1;
                if self.cond(c) {
                    self.regs.pc = self.regs.pc.wrapping_add(sign_extend(v));
                    return ;
                }
            }
        }
        if self.steps.jr_c.step == 1 {
            self.steps.jr_c.step = 0;
            self.fetch(bus);
        } else {
            return ;
        }
    }

    /// CALL nn: once the target is read, PC is pushed; once the push is done,
    /// PC becomes the target and the next opcode is fetched.
    pub open spec fn call_model(self, bus: BusView) -> (Cpu, BusView) {
        let c0 = if self.st(Site::Call).step == 0 {
            match self.read16_model(bus, Imm16) {
                (c, Some(v)) => c.keep16(Site::Call, v).go(Site::Call, 1),
                (c, None) => c,
            }
        } else {
            self
        };
        if c0.st(Site::Call).step == 1 {
            match c0.push16_model(bus, c0.regs.pc) {
                (c, b, Some(_)) => (c.with_pc(c.st(Site::Call).val16).go(Site::Call, 0).fetched(b), b),
                (c, b, None) => (c, b),
            }
        } else {
            (c0, bus)
        }
    }

    pub fn call(&mut self, bus: &mut Peripherals)
        requires
            old(bus)@.wf(),
        ensures
            (*final(self), final(bus)@) == old(self).call_model(old(bus)@),
            final(bus)@.wf(),
    {
        if self.steps.call.step == 0 {
            if let Some(v) = self.read16(bus, Imm16) {
                self.steps.call.val16 = v;
                self.steps.call.step = 1;
            }
        }
        if self.steps.call.step == 1 {
            if self.push16(bus, self.regs.pc).is_some() {
                self.regs.pc = self.steps.call.val16;
                self.steps.call.step = 0;
                self.fetch(bus);
            }
        }
    }

    /// RET: once a word is popped, PC becomes it; the next opcode is fetched
    /// one cycle later.
    pub open spec fn ret_model(self, bus: BusView) -> Cpu {
        let (c0, paused) = if self.st(Site::Ret).step == 0 {
            match self.pop16_model(bus) {
                (c, Some(v)) => (c.with_pc(v).go(Site::Ret, 1), true),
                (c, None) => (c, false),
            }
        } else {
            (self, false)
        };
        if !paused && c0.st(Site::Ret).step == 1 {
            c0.go(Site::Ret, 0).fetched(bus)
        } else {
            c0
        }
    }

    pub fn ret(&mut self, bus: &Peripherals)
        requires
            bus@.wf(),
        ensures
            *final(self) == old(self).ret_model(bus@),
    {
        if self.steps.ret.step == 0 {
            if let Some(v) = self.pop16(bus) {
                self.regs.pc = v;
                self.steps.ret.step = 1;
                return ;
            }
        }
        if self.steps.ret.step == 1 {
            self.steps.ret.step = 0;
            self.fetch(bus);
        } else {
            return ;
        }
    }

    /// RETI: as RET, and interrupts are enabled before the next opcode is
    /// fetched.
    pub open spec fn reti_model(self, bus: BusView) -> Cpu {
        let (c0, paused) = if self.st(Site::Reti).step == 0 {
            match self.pop16_model(bus) {
                (c, Some(v)) => (c.with_pc(v).go(Site::Reti, 1), true),
                (c, None) => (c, false),
            }
        } else {
            (self, false)
        };
        if !paused && c0.st(Site::Reti).step == 1 {
            c0.with_ints(Interrupts { ime: true, ..c0.interrupts }).go(Site::Reti, 0).fetched(bus)
        } else {
            c0
        }
    }

    pub fn reti(&mut self, bus: &Peripherals)
        requires
            bus@.wf(),
        ensures
            *final(self) == old(self).reti_model(bus@),
    {
        if self.steps.reti.step == 0 {
            if let Some(v) = self.pop16(bus) {
                self.regs.pc = v;
                self.steps.reti.step = 1;
                return ;
            }
        }
        if self.steps.reti.step == 1 {
            self.interrupts.ime = true;
            self.steps.reti.step = 0;
            self.fetch(bus);
        } else {
            return ;
        }
    }

    /// HALT: when an interrupt is pending the next opcode is fetched;
    /// otherwise the CPU waits, cycle after cycle, until one is pending.
    pub open spec fn halt_model(self, bus: BusView) -> Cpu {
        let s = self.st(Site::Halt);
        let pending = self.interrupts.get_interrupt() != 0;
        if s.step == 0 {
            if pending {
                self.fetched(bus)
            } else {
                self.go(Site::Halt, 1)
            }
        } else if s.step == 1 {
            if pending {
                self.go(Site::Halt, 0).fetched(bus)
            } else {
                self
            }
        } else {
            self
        }
    }

    pub fn halt(&mut self, bus: &Peripherals)
        requires
            bus@.wf(),
        ensures
            *final(self) == old(self).halt_model(bus@),
    {
        if self.steps.halt.step == 0 {
            if self.interrupts.get_interrupt() > 0 {
                self.fetch(bus);
            } else {
                self.steps.halt.step = 1;
                return ;
            }
        }
        if self.steps.halt.step == 1 {
            if self.interrupts.get_interrupt() > 0 {
                self.steps.halt.step = 0;
                self.fetch(bus);
            }
        }
    }

    /// DI: interrupts are disabled and the next opcode is fetched.
    pub fn di(&mut self, bus: &Peripherals)
        requires
            bus@.wf(),
        ensures
            *final(self) == old(self).di_model(bus@),
    {
        self.interrupts.ime = false;
        self.fetch(bus);
    }

    /// EI: the next opcode is fetched and then interrupts are enabled, so they
    /// are taken only after the instruction that follows.
    pub fn ei(&mut self, bus: &Peripherals)
        requires
            bus@.wf(),
        ensures
            *final(self) == old(self).ei_model(bus@),
    {
        self.fetch(bus);
        self.interrupts.ime = true;
    }

    /// RLC src: rotates the operand left, bit 7 into C and bit 0; Z from the operand, N and H cleared.
    pub fn rlc<S: Copy>(&mut self, bus: &mut Peripherals, src: S) where Self: IO8<S>
        requires
            old(bus)@.wf(),
            <Cpu as IO8<S>>::writable8(src),
        ensures
            (*final(self), final(bus)@) == old(self).rlc_model(old(bus)@, src),
            final(bus)@.wf(),
    {
        if self.steps.rlc.step == 0 {
            if let Some(v) = self.read8(bus, src) {
                self.regs.set_zf(v == 0);
                self.regs.set_nf(false);
                self.regs.set_hf(false);
                self.regs.set_cf(v & 0x80 > 0);
                self.steps.rlc.val8 = (v << 1) | (v >> 7);
                self.steps.rlc.step = 1;
            }
        }
        if self.steps.rlc.step == 1 {
            if self.write8(bus, src, self.steps.rlc.val8).is_some() {
                self.steps.rlc.step = 0;
                self.fetch(bus);
            }
        }
    }

    /// RRC src: rotates the operand right, bit 0 into C and bit 7; Z from the operand, N and H cleared.
    pub fn rrc<S: Copy>(&mut self, bus: &mut Peripherals, src: S) where Self: IO8<S>
        requires
            old(bus)@.wf(),
            <Cpu as IO8<S>>::writable8(src),
        ensures
            (*final(self), final(bus)@) == old(self).rrc_model(old(bus)@, src),
            final(bus)@.wf(),
    {
        if self.steps.rrc.step == 0 {
            if let Some(v) = self.read8(bus, src) {
                self.regs.set_zf(v == 0);
                self.regs.set_nf(false);
                self.regs.set_hf(false);
                self.regs.set_cf(v & 0x1 > 0);
                self.steps.rrc.val8 = (v >> 1) | (v << 7);
                self.steps.rrc.step = 1;
            }
        }
        if self.steps.rrc.step == 1 {
            if self.write8(bus, src, self.steps.rrc.val8).is_some() {
                self.steps.rrc.step = 0;
                self.fetch(bus);
            }
        }
    }

    /// RR src: rotates the operand right through the carry; Z from the result, N and H cleared, C from bit 0.
    pub fn rr<S: Copy>(&mut self, bus: &mut Peripherals, src: S) where Self: IO8<S>
        requires
            old(bus)@.wf(),
            <Cpu as IO8<S>>::writable8(src),
        ensures
            (*final(self), final(bus)@) == old(self).rr_model(old(bus)@, src),
            final(bus)@.wf(),
    {
        if self.steps.rr.step == 0 {
            if let Some(v) = self.read8(bus, src) {
                let cy: u8 = if self.regs.cf() { 1 } else { 0 };
                let result = (cy << 7) | (v >> 1);
                self.regs.set_zf(result == 0);
                self.regs.set_nf(false);
                self.regs.set_hf(false);
                self.regs.set_cf(v & 0x1 > 0);
                self.steps.rr.val8 = result;
                self.steps.rr.step = 1;
            }
        }
        if self.steps.rr.step == 1 {
            if self.write8(bus, src, self.steps.rr.val8).is_some() {
                self.steps.rr.step = 0;
                self.fetch(bus);
            }
        }
    }

    /// SLA src: shifts the operand left, bit 7 into C; Z set when bits 0..=6 are clear, N and H cleared.
    pub fn sla<S: Copy>(&mut self, bus: &mut Peripherals, src: S) where Self: IO8<S>
        requires
            old(bus)@.wf(),
            <Cpu as IO8<S>>::writable8(src),
        ensures
            (*final(self), final(bus)@) == old(self).sla_model(old(bus)@, src),
            final(bus)@.wf(),
    {
        if self.steps.sla.step == 0 {
            if let Some(v) = self.read8(bus, src) {
                self.regs.set_zf(v & 0x7F == 0);
                self.regs.set_nf(false);
                self.regs.set_hf(false);
                self.regs.set_cf(v & 0x80 > 0);
                self.steps.sla.val8 = v << 1;
                self.steps.sla.step = 1;
            }
        }
        if self.steps.sla.step == 1 {
            if self.write8(bus, src, self.steps.sla.val8).is_some() {
                self.steps.sla.step = 0;
                self.fetch(bus);
            }
        }
    }

    /// SRA src: shifts the operand right keeping bit 7, bit 0 into C; Z set when bits 1..=7 are clear, N and H cleared.
    pub fn sra<S: Copy>(&mut self, bus: &mut Peripherals, src: S) where Self: IO8<S>
        requires
            old(bus)@.wf(),
            <Cpu as IO8<S>>::writable8(src),
        ensures
            (*final(self), final(bus)@) == old(self).sra_model(old(bus)@, src),
            final(bus)@.wf(),
    {
        if self.steps.sra.step == 0 {
            if let Some(v) = self.read8(bus, src) {
                self.regs.set_zf(v & 0xFE == 0);
                self.regs.set_nf(false);
                self.regs.set_hf(false);
                self.regs.set_cf(v & 0x1 > 0);
                self.steps.sra.val8 = (v & 0x80) | (v >> 1);
                self.steps.sra.step = 1;
            }
        }
        if self.steps.sra.step == 1 {
            if self.write8(bus, src, self.steps.sra.val8).is_some() {
                self.steps.sra.step = 0;
                self.fetch(bus);
            }
        }
    }

    /// SRL src: shifts the operand right, bit 0 into C; Z set when bits 1..=7 are clear, N and H cleared.
    pub fn srl<S: Copy>(&mut self, bus: &mut Peripherals, src: S) where Self: IO8<S>
        requires
            old(bus)@.wf(),
            <Cpu as IO8<S>>::writable8(src),
        ensures
            (*final(self), final(bus)@) == old(self).srl_model(old(bus)@, src),
            final(bus)@.wf(),
    {
        if self.steps.srl.step == 0 {
            if let Some(v) = self.read8(bus, src) {
                self.regs.set_zf(v & 0xFE == 0);
                self.regs.set_nf(false);
                self.regs.set_hf(false);
                self.regs.set_cf(v & 0x1 > 0);
                self.steps.srl.val8 = v >> 1;
                self.steps.srl.step = 1;
            }
        }
        if self.steps.srl.step == 1 {
            if self.write8(bus, src, self.steps.srl.val8).is_some() {
                self.steps.srl.step = 0;
                self.fetch(bus);
            }
        }
    }

    /// SET b, src: sets bit `bit` of the operand; flags kept.
    pub fn set<S: Copy>(&mut self, bus: &mut Peripherals, bit: usize, src: S) where Self: IO8<S>
        requires
            old(bus)@.wf(),
            <Cpu as IO8<S>>::writable8(src),
            bit < 8,
        ensures
            (*final(self), final(bus)@) == old(self).set_model(old(bus)@, bit, src),
            final(bus)@.wf(),
    {
        if self.steps.set_bit.step == 0 {
            if let Some(v) = self.read8(bus, src) {
                self.steps.set_bit.val8 = v | (1u8 << bit);
                self.steps.set_bit.step = 1;
            }
        }
        if self.steps.set_bit.step == 1 {
            if self.write8(bus, src, self.steps.set_bit.val8).is_some() {
                self.steps.set_bit.step = 0;
                self.fetch(bus);
            }
        }
    }

    /// RES b, src: clears bit `bit` of the operand; flags kept.
    pub fn res<S: Copy>(&mut self, bus: &mut Peripherals, bit: usize, src: S) where Self: IO8<S>
        requires
            old(bus)@.wf(),
            <Cpu as IO8<S>>::writable8(src),
            bit < 8,
        ensures
            (*final(self), final(bus)@) == old(self).res_model(old(bus)@, bit, src),
            final(bus)@.wf(),
    {
        if self.steps.res_bit.step == 0 {
            if let Some(v) = self.read8(bus, src) {
                self.steps.res_bit.val8 = v & !(1u8 << bit);
                self.steps.res_bit.step = 1;
            }
        }
        if self.steps.res_bit.step == 1 {
            if self.write8(bus, src, self.steps.res_bit.val8).is_some() {
                self.steps.res_bit.step = 0;
                self.fetch(bus);
            }
        }
    }

    /// SWAP src: exchanges the nibbles of the operand; Z from the operand, N, H and C cleared.
    pub fn swap<S: Copy>(&mut self, bus: &mut Peripherals, src: S) where Self: IO8<S>
        requires
            old(bus)@.wf(),
            <Cpu as IO8<S>>::writable8(src),
        ensures
            (*final(self), final(bus)@) == old(self).swap_model(old(bus)@, src),
            final(bus)@.wf(),
    {
        if self.steps.swap.step == 0 {
            if let Some(v) = self.read8(bus, src) {
                self.regs.set_zf(v == 0);
                self.regs.set_nf(false);
                self.regs.set_hf(false);
                self.regs.set_cf(false);
                self.steps.swap.val8 = (v << 4) | (v >> 4);
                self.steps.swap.step = 1;
            }
        }
        if self.steps.swap.step == 1 {
            if self.write8(bus, src, self.steps.swap.val8).is_some() {
                self.steps.swap.step = 0;
                self.fetch(bus);
            }
        }
    }

    /// ADD A, src: A + src (wrapping); Z, N cleared, H on a carry out of bit 3, C on a carry out of bit 7.
    pub fn add<S: Copy>(&mut self, bus: &Peripherals, src: S) where Self: IO8<S>
        requires
            bus@.wf(),
        ensures
            *final(self) == old(self).add_model(bus@, src),
    {
        if let Some(v) = self.read8(bus, src) {
            let a = self.regs.a;
            proof {
                lemma_nibbles(a, v);
            }
            let result = a.wrapping_add(v);
            let carry = (a as u16) + (v as u16) > 0xff;
            self.regs.set_zf(result == 0);
            self.regs.set_nf(false);
            self.regs.set_hf((a & 0xf) + (v & 0xf) > 0xf);
            self.regs.set_cf(carry);
            self.regs.a = result;
            self.fetch(bus);
        }
    }

    /// ADC A, src: A + src + C (wrapping), with the carry taken before the operand is read; flags as ADD.
    pub fn adc<S: Copy>(&mut self, bus: &Peripherals, src: S) where Self: IO8<S>
        requires
            bus@.wf(),
        ensures
            *final(self) == old(self).adc_model(bus@, src),
    {
        let cy: u8 = if self.regs.cf() { 1 } else { 0 };
        if let Some(v) = self.read8(bus, src) {
            let a = self.regs.a;
            proof {
                lemma_nibbles(a, v);
            }
            let result = a.wrapping_add(v).wrapping_add(cy);
            self.regs.set_zf(result == 0);
            self.regs.set_nf(false);
            self.regs.set_hf((a & 0xf) + (v & 0xf) + cy > 0xf);
            self.regs.set_cf((a as u16) + (v as u16) + (cy as u16) > 0xff);
            self.regs.a = result;
            self.fetch(bus);
        }
    }

    /// SUB src: A - src (wrapping); Z, N set, H on a borrow from bit 4, C on a borrow.
    pub fn sub<S: Copy>(&mut self, bus: &Peripherals, src: S) where Self: IO8<S>
        requires
            bus@.wf(),
        ensures
            *final(self) == old(self).sub_model(bus@, src),
    {
        if let Some(v) = self.read8(bus, src) {
            let a = self.regs.a;
            let result = a.wrapping_sub(v);
            let carry = a < v;
            self.regs.set_zf(result == 0);
            self.regs.set_nf(true);
            self.regs.set_hf((a & 0xf) < (v & 0x0f));
            self.regs.set_cf(carry);
            self.regs.a = result;
            self.fetch(bus);
        }
    }

    /// SBC A, src: A - src - C (wrapping), with the carry taken before the operand is read; flags as SUB.
    pub fn sbc<S: Copy>(&mut self, bus: &Peripherals, src: S) where Self: IO8<S>
        requires
            bus@.wf(),
        ensures
            *final(self) == old(self).sbc_model(bus@, src),
    {
        let cy: u8 = if self.regs.cf() { 1 } else { 0 };
        if let Some(v) = self.read8(bus, src) {
            let a = self.regs.a;
            proof {
                lemma_nibbles(a, v);
            }
            let result = a.wrapping_sub(v).wrapping_sub(cy);
            self.regs.set_zf(result == 0);
            self.regs.set_nf(true);
            self.regs.set_hf((a & 0xf) < (v & 0xf) + cy);
            self.regs.set_cf((a as u16) < (v as u16) + (cy as u16));
            self.regs.a = result;
            self.fetch(bus);
        }
    }

    /// AND src: A & src; Z from the result, H set, N and C cleared.
    pub fn and<S: Copy>(&mut self, bus: &Peripherals, src: S) where Self: IO8<S>
        requires
            bus@.wf(),
        ensures
            *final(self) == old(self).and_model(bus@, src),
    {
        if let Some(v) = self.read8(bus, src) {
            let a = self.regs.a;
            self.regs.a = a & v;
            self.regs.set_zf(self.regs.a == 0);
            self.regs.set_nf(false);
            self.regs.set_hf(true);
            self.regs.set_cf(false);
            self.fetch(bus);
        }
    }

    /// OR src: A | src; Z from the result, H cleared, N and C cleared.
    pub fn or<S: Copy>(&mut self, bus: &Peripherals, src: S) where Self: IO8<S>
        requires
            bus@.wf(),
        ensures
            *final(self) == old(self).or_model(bus@, src),
    {
        if let Some(v) = self.read8(bus, src) {
            let a = self.regs.a;
            self.regs.a = a | v;
            self.regs.set_zf(self.regs.a == 0);
            self.regs.set_nf(false);
            self.regs.set_hf(false);
            self.regs.set_cf(false);
            self.fetch(bus);
        }
    }

    /// XOR src: A ^ src; Z from the result, H cleared, N and C cleared.
    pub fn xor<S: Copy>(&mut self, bus: &Peripherals, src: S) where Self: IO8<S>
        requires
            bus@.wf(),
        ensures
            *final(self) == old(self).xor_model(bus@, src),
    {
        if let Some(v) = self.read8(bus, src) {
            let a = self.regs.a;
            self.regs.a = a ^ v;
            self.regs.set_zf(self.regs.a == 0);
            self.regs.set_nf(false);
            self.regs.set_hf(false);
            self.regs.set_cf(false);
            self.fetch(bus);
        }
    }

    /// RLCA: rotates A left, bit 7 into C and bit 0; Z, N and H cleared.
    pub fn rlca(&mut self, bus: &Peripherals)
        requires
            bus@.wf(),
        ensures
            *final(self) == old(self).rlca_model(bus@),
    {
        let a = self.regs.a;
        self.regs.set_zf(false);
        self.regs.set_nf(false);
        self.regs.set_hf(false);
        self.regs.set_cf(a & 0x80 > 0);
        self.regs.a = (a << 1) | (a >> 7);
        proof {
            assert(old(self).regs.with_flags(a == 0, false, false, a & 0x80 > 0).with_zf(false)
                == old(self).regs.with_flags(false, false, false, a & 0x80 > 0)) by {
                lemma_zf_last(old(self).regs, a == 0, false, a & 0x80 > 0);
            }
        }
        self.fetch(bus);
    }

    /// RLA: rotates A left through the carry; Z, N and H cleared, C from bit 7.
    pub fn rla(&mut self, bus: &Peripherals)
        requires
            bus@.wf(),
        ensures
            *final(self) == old(self).rla_model(bus@),
    {
        let a = self.regs.a;
        let cy: u8 = if self.regs.cf() { 1 } else { 0 };
        self.regs.set_zf(false);
        self.regs.set_nf(false);
        self.regs.set_hf(false);
        self.regs.set_cf(a & 0x80 > 0);
        self.regs.a = (a << 1) | cy;
        proof {
            lemma_zf_last(old(self).regs, (a << 1u8) | cy == 0, false, a & 0x80 > 0);
        }
        self.fetch(bus);
    }

    /// RRCA: rotates A right, bit 0 into C and bit 7; Z, N and H cleared.
    pub fn rrca(&mut self, bus: &Peripherals)
        requires
            bus@.wf(),
        ensures
            *final(self) == old(self).rrca_model(bus@),
    {
        let a = self.regs.a;
        self.regs.set_zf(false);
        self.regs.set_nf(false);
        self.regs.set_hf(false);
        self.regs.set_cf(a & 0x1 > 0);
        self.regs.a = (a >> 1) | (a << 7);
        proof {
            lemma_zf_last(old(self).regs, a == 0, false, a & 0x1 > 0);
        }
        self.fetch(bus);
    }

    /// RRA: rotates A right through the carry; Z, N and H cleared, C from bit 0.
    pub fn rra(&mut self, bus: &Peripherals)
        requires
            bus@.wf(),
        ensures
            *final(self) == old(self).rra_model(bus@),
    {
        let a = self.regs.a;
        let cy: u8 = if self.regs.cf() { 1 } else { 0 };
        self.regs.set_zf(false);
        self.regs.set_nf(false);
        self.regs.set_hf(false);
        self.regs.set_cf(a & 0x1 > 0);
        self.regs.a = (a >> 1) | (cy << 7);
        assert((a >> 1u8) | (cy << 7u8) == (cy << 7u8) | (a >> 1u8)) by (bit_vector);
        proof {
            lemma_zf_last(old(self).regs, (cy << 7u8) | (a >> 1u8) == 0, false, a & 0x1 > 0);
        }
        self.fetch(bus);
    }

    /// JP nn: once the target is read, PC becomes it; the next opcode is
    /// fetched one cycle later.
    pub open spec fn jp_model(self, bus: BusView) -> Cpu {
        let (c0, paused) = if self.st(Site::Jp).step == 0 {
            match self.read16_model(bus, Imm16) {
                (c, Some(v)) => (c.with_pc(v).go(Site::Jp, 1), true),
                (c, None) => (c, false),
            }
        } else {
            (self, false)
        };
        if !paused && c0.st(Site::Jp).step == 1 {
            c0.go(Site::Jp, 0).fetched(bus)
        } else {
            c0
        }
    }

    pub fn jp(&mut self, bus: &Peripherals)
        requires
            bus@.wf(),
        ensures
            *final(self) == old(self).jp_model(bus@),
    {
        if self.steps.jp.step == 0 {
            if let Some(v) = self.read16(bus, Imm16) {
                self.regs.pc = v;
                self.steps.jp.step = 1;
                return ;
            }
        }
        if self.steps.jp.step == 1 {
            self.steps.jp.step = 0;
            self.fetch(bus);
        } else {
            return ;
        }
    }

    /// JP HL: PC becomes HL and the next opcode is fetched.
    pub fn jp_hl(&mut self, bus: &Peripherals)
        requires
            bus@.wf(),
        ensures
            *final(self) == old(self).jp_hl_model(bus@),
    {
        self.regs.pc = self.regs.hl();
        self.fetch(bus);
    }

    /// JP cc, nn: once the target is read, PC becomes it when the condition
    /// holds and the next opcode is fetched one cycle later; otherwise the
    /// next opcode is fetched at once.
    pub open spec fn jp_c_model(self, bus: BusView, cond: Cond) -> Cpu {
        let (c0, paused) = if self.st(Site::JpC).step == 0 {
            match self.read16_model(bus, Imm16) {
                (c, Some(v)) => if c.holds(cond) {
                    (c.go(Site::JpC, 1).with_pc(v), true)
                } else {
                    (c.go(Site::JpC, 1), false)
                },
                (c, None) => (c, false),
            }
        } else {
            (self, false)
        };
        if !paused && c0.st(Site::JpC).step == 1 {
            c0.go(Site::JpC, 0).fetched(bus)
        } else {
            c0
        }
    }

    pub fn jp_c(&mut self, bus: &Peripherals, cond: Cond)
        requires
            bus@.wf(),
        ensures
            *final(self) == old(self).jp_c_model(bus@, cond),
    {
        if self.steps.jp_c.step == 0 {
            if let Some(v) = self.read16(bus, Imm16) {
                self.steps.jp_c.step = 1;
                if self.cond(cond) {
                    self.regs.pc = v;
                    return ;
                }
            }
        }
        if self.steps.jp_c.step == 1 {
            self.steps.jp_c.step = 0;
            self.fetch(bus);
        } else {
            return ;
        }
    }

    /// CALL cc, nn: once the target is read, when the condition holds PC is
    /// pushed and, once the push is done, PC becomes the target and the next
    /// opcode is fetched; otherwise the next opcode is fetched at once.
    pub open spec fn call_c_model(self, bus: BusView, cond: Cond) -> (Cpu, BusView) {
        let c0 = if self.st(Site::CallC).step == 0 {
            match self.read16_model(bus, Imm16) {
                (c, Some(v)) => if c.holds(cond) {
                    c.keep16(Site::CallC, v).go(Site::CallC, 1)
                } else {
                    c.keep16(Site::CallC, v).fetched(bus)
                },
                (c, None) => c,
            }
        } else {
            self
        };
        if c0.st(Site::CallC).step == 1 {
            match c0.push16_model(bus, c0.regs.pc) {
                (c, b, Some(_)) => (
                    c.with_pc(c.st(Site::CallC).val16).go(Site::CallC, 0).fetched(b),
                    b,
                ),
                (c, b, None) => (c, b),
            }
        } else {
            (c0, bus)
        }
    }

    pub fn call_c(&mut self, bus: &mut Peripherals, cond: Cond)
        requires
            old(bus)@.wf(),
        ensures
            (*final(self), final(bus)@) == old(self).call_c_model(old(bus)@, cond),
            final(bus)@.wf(),
    {
        if self.steps.call_c.step == 0 {
            if let Some(v) = self.read16(bus, Imm16) {
                self.steps.call_c.val16 = v;
                if self.cond(cond) {
                    self.steps.call_c.step = 1;
                } else {
                    self.fetch(bus);
                }
            }
        }
        if self.steps.call_c.step == 1 {
            if self.push16(bus, self.regs.pc).is_some() {
                self.regs.pc = self.steps.call_c.val16;
                self.steps.call_c.step = 0;
                self.fetch(bus);
            }
        }
    }

    /// RET cc: after one cycle the condition is tested; when it holds a word is
    /// popped into PC and the next opcode is fetched one cycle later;
    /// otherwise the next opcode is fetched at once.
    pub open spec fn ret_c_model(self, bus: BusView, cond: Cond) -> Cpu {
        if self.st(Site::RetC).step == 0 {
            self.go(Site::RetC, 1)
        } else {
            let c1 = if self.st(Site::RetC).step == 1 {
                self.go(
                    Site::RetC,
                    if self.holds(cond) {
                        2
                    } else {
                        3
                    },
                )
            } else {
                self
            };
            let (c2, paused) = if c1.st(Site::RetC).step == 2 {
                match c1.pop16_model(bus) {
                    (c, Some(v)) => (c.with_pc(v).go(Site::RetC, 3), true),
                    (c, None) => (c, false),
                }
            } else {
                (c1, false)
            };
            if !paused && c2.st(Site::RetC).step == 3 {
                c2.go(Site::RetC, 0).fetched(bus)
            } else {
                c2
            }
        }
    }

    pub fn ret_c(&mut self, bus: &Peripherals, cond: Cond)
        requires
            bus@.wf(),
        ensures
            *final(self) == old(self).ret_c_model(bus@, cond),
    {
        if self.steps.ret_c.step == 0 {
            self.steps.ret_c.step = 1;
            return ;
        }
        if self.steps.ret_c.step == 1 {
            self.steps.ret_c.step = if self.cond(cond) {
                2
            } else {
                3
            };
        }
        if self.steps.ret_c.step == 2 {
            if let Some(v) = self.pop16(bus) {
                self.regs.pc = v;
                self.steps.ret_c.step = 3;
                return ;
            }
        }
        if self.steps.ret_c.step == 3 {
            self.steps.ret_c.step = 0;
            self.fetch(bus);
        } else {
            return ;
        }
    }

    /// RST n: PC is pushed; once the push is done PC becomes `addr` and the
    /// next opcode is fetched.
    pub open spec fn rst_model(self, bus: BusView, addr: u8) -> (Cpu, BusView) {
        match self.push16_model(bus, self.regs.pc) {
            (c, b, Some(_)) => (c.with_pc(addr as u16).fetched(b), b),
            (c, b, None) => (c, b),
        }
    }

    pub fn rst(&mut self, bus: &mut Peripherals, addr: u8)
        requires
            old(bus)@.wf(),
        ensures
            (*final(self), final(bus)@) == old(self).rst_model(old(bus)@, addr),
            final(bus)@.wf(),
    {
        if self.push16(bus, self.regs.pc).is_some() {
            self.regs.pc = addr as u16;
            self.fetch(bus);
        }
    }

    /// CCF: C is complemented, N and H cleared.
    pub fn ccf(&mut self, bus: &Peripherals)
        requires
            bus@.wf(),
        ensures
            *final(self) == old(self).ccf_model(bus@),
    {
        let cf = self.regs.cf();
        self.regs.set_nf(false);
        self.regs.set_hf(false);
        self.regs.set_cf(!cf);
        proof {
            crate::cpu::register::lemma_flag_cf_kept(old(self).regs);
        }
        self.fetch(bus);
    }

    /// SCF: C is set, N and H cleared.
    pub fn scf(&mut self, bus: &Peripherals)
        requires
            bus@.wf(),
        ensures
            *final(self) == old(self).scf_model(bus@),
    {
        self.regs.set_nf(false);
        self.regs.set_hf(false);
        self.regs.set_cf(true);
        self.fetch(bus);
    }

    /// DAA: decimal adjustment of A (see `daa_op`).
    pub fn daa(&mut self, bus: &Peripherals)
        requires
            bus@.wf(),
        ensures
            *final(self) == old(self).daa_model(bus@),
    {
        assert(0u8 | 0x06u8 == 0x06u8 && 0x60u8 | 0x06u8 == 0x66u8 && 0u8 | 0x60u8 == 0x60u8)
            by (bit_vector);
        let mut correction: u8 = 0;
        let mut cf = false;
        if self.regs.cf() || (!self.regs.nf() && self.regs.a > 0x99) {
            cf = true;
            correction = correction | 0x60;
        }
        if self.regs.hf() || (!self.regs.nf() && (self.regs.a & 0x0f > 0x09)) {
            correction = correction | 0x06;
        }
        if self.regs.nf() {
            self.regs.a = self.regs.a.wrapping_sub(correction);
        } else {
            self.regs.a = self.regs.a.wrapping_add(correction);
        }
        self.regs.set_zf(self.regs.a == 0);
        self.regs.set_hf(false);
        self.regs.set_cf(cf);
        self.fetch(bus);
    }

    /// CPL: A is complemented, N and H set.
    pub fn cpl(&mut self, bus: &Peripherals)
        requires
            bus@.wf(),
        ensures
            *final(self) == old(self).cpl_model(bus@),
    {
        self.regs.set_nf(true);
        self.regs.set_hf(true);
        self.regs.a = !self.regs.a;
        self.fetch(bus);
    }

    /// LD SP, HL: SP becomes HL; the next opcode is fetched one cycle later.
    pub open spec fn ld_sp_hl_model(self, bus: BusView) -> Cpu {
        if self.st(Site::LdSpHl).step == 0 {
            self.with_sp(self.regs.hl()).go(Site::LdSpHl, 1)
        } else if self.st(Site::LdSpHl).step == 1 {
            self.go(Site::LdSpHl, 0).fetched(bus)
        } else {
            self
        }
    }

    pub fn ld_sp_hl(&mut self, bus: &Peripherals)
        requires
            bus@.wf(),
        ensures
            *final(self) == old(self).ld_sp_hl_model(bus@),
    {
        if self.steps.ld_sp_hl.step == 0 {
            self.regs.sp = self.regs.hl();
            self.steps.ld_sp_hl.step = 1;
            return ;
        }
        if self.steps.ld_sp_hl.step == 1 {
            self.steps.ld_sp_hl.step = 0;
            self.fetch(bus);
        } else {
            return ;
        }
    }

    /// The flags of SP plus a signed offset: Z and N cleared, H and C from
    /// the carries out of bits 3 and 7 of the unsigned low-byte sum.
    pub open spec fn sp_offset_flags(r: Registers, val: u16) -> Registers {
        r.with_flags(
            false,
            false,
            (r.sp & 0xF) + (val & 0xF) > 0xF,
            (r.sp & 0xFF) + (val & 0xFF) > 0xFF,
        )
    }

    /// LD HL, SP+e: once the offset is read, HL becomes SP plus the signed
    /// offset, with the flags of `sp_offset_flags`; the next opcode is fetched
    /// one cycle later.
    pub open spec fn ld_hl_sp_e_model(self, bus: BusView) -> Cpu {
        let (c0, paused) = if self.st(Site::LdHlSpE).step == 0 {
            match self.read8_model(bus, Imm8) {
                (c, Some(v)) => (
                    c.with_regs(
                        Self::sp_offset_flags(c.regs, sext(v)).with_hl(
                            c.regs.sp.wrapping_add(sext(v)),
                        ),
                    ).go(Site::LdHlSpE, 1),
                    true,
                ),
                (c, None) => (c, false),
            }
        } else {
            (self, false)
        };
        if !paused && c0.st(Site::LdHlSpE).step == 1 {
            c0.go(Site::LdHlSpE, 0).fetched(bus)
        } else {
            c0
        }
    }

    pub fn ld_hl_sp_e(&mut self, bus: &Peripherals)
        requires
            bus@.wf(),
        ensures
            *final(self) == old(self).ld_hl_sp_e_model(bus@),
    {
        if self.steps.ld_hl_sp_e.step == 0 {
            if let Some(v) = self.read8(bus, Imm8) {
                let val = sign_extend(v);
                let sp = self.regs.sp;
                proof {
                    lemma_word_masks(sp, val);
                }
                self.regs.set_zf(false);
                self.regs.set_nf(false);
                self.regs.set_hf((sp & 0xF) + (val & 0xF) > 0xF);
                self.regs.set_cf((sp & 0xFF) + (val & 0xFF) > 0xFF);
                self.regs.write_hl(sp.wrapping_add(val));
                self.steps.ld_hl_sp_e.step = 1;
                return ;
            }
        }
        if self.steps.ld_hl_sp_e.step == 1 {
            self.steps.ld_hl_sp_e.step = 0;
            self.fetch(bus);
        } else {
            return ;
        }
    }

    /// ADD HL, rr: HL + rr (wrapping); N cleared, H on a carry out of bit 11,
    /// C on a carry out of bit 15, Z kept; the next opcode is fetched one
    /// cycle later.
    pub open spec fn add_hl_reg16_model(self, bus: BusView, src: Reg16) -> Cpu {
        if self.st(Site::AddHlReg16).step == 0 {
            let hl = self.regs.hl();
            let val = self.reg16(src);
            self.with_regs(
                self.regs.with_nf(false).with_hf((hl & 0xFFF) + (val & 0xFFF) > 0xFFF).with_cf(
                    hl + val > 0xFFFF,
                ).with_hl(hl.wrapping_add(val)),
            ).go(Site::AddHlReg16, 1)
        } else if self.st(Site::AddHlReg16).step == 1 {
            self.go(Site::AddHlReg16, 0).fetched(bus)
        } else {
            self
        }
    }

    pub fn add_hl_reg16(&mut self, bus: &Peripherals, src: Reg16)
        requires
            bus@.wf(),
        ensures
            *final(self) == old(self).add_hl_reg16_model(bus@, src),
    {
        if self.steps.add_hl_reg16.step == 0 {
            let val = self.read16(bus, src).unwrap();
            let hl = self.regs.hl();
            proof {
                lemma_word_masks(hl, val);
            }
            let result = hl.wrapping_add(val);
            let carry = (hl as u32) + (val as u32) > 0xFFFF;
            self.regs.set_nf(false);
            self.regs.set_hf((hl & 0xFFF) + (val & 0xFFF) > 0xFFF);
            self.regs.set_cf(carry);
            self.regs.write_hl(result);
            self.steps.add_hl_reg16.step = 1;
            return ;
        }
        if self.steps.add_hl_reg16.step == 1 {
            self.steps.add_hl_reg16.step = 0;
            self.fetch(bus);
        } else {
            return ;
        }
    }

    /// ADD SP, e: once the offset is read, SP becomes SP plus the signed
    /// offset, with the flags of `sp_offset_flags`; the next opcode is fetched
    /// two cycles later.
    pub open spec fn add_sp_e_model(self, bus: BusView) -> Cpu {
        let (c0, paused) = if self.st(Site::AddSpE).step == 0 {
            match self.read8_model(bus, Imm8) {
                (c, Some(v)) => (
                    c.with_regs(
                        Self::sp_offset_flags(c.regs, sext(v)),
                    ).with_sp(c.regs.sp.wrapping_add(sext(v))).go(Site::AddSpE, 1),
                    true,
                ),
                (c, None) => (c, false),
            }
        } else {
            (self, false)
        };
        if paused {
            c0
        } else if c0.st(Site::AddSpE).step == 1 {
            c0.go(Site::AddSpE, 2)
        } else if c0.st(Site::AddSpE).step == 2 {
            c0.go(Site::AddSpE, 0).fetched(bus)
        } else {
            c0
        }
    }

    pub fn add_sp_e(&mut self, bus: &Peripherals)
        requires
            bus@.wf(),
        ensures
            *final(self) == old(self).add_sp_e_model(bus@),
    {
        if self.steps.add_sp_e.step == 0 {
            if let Some(v) = self.read8(bus, Imm8) {
                let val = sign_extend(v);
                let sp = self.regs.sp;
                proof {
                    lemma_word_masks(sp, val);
                }
                self.regs.set_zf(false);
                self.regs.set_nf(false);
                self.regs.set_hf((sp & 0xF) + (val & 0xF) > 0xF);
                self.regs.set_cf((sp & 0xFF) + (val & 0xFF) > 0xFF);
                self.regs.sp = sp.wrapping_add(val);
                self.steps.add_sp_e.step = 1;
                return ;
            }
        }
        if self.steps.add_sp_e.step == 1 {
            self.steps.add_sp_e.step = 2;
            return ;
        }
        if self.steps.add_sp_e.step == 2 {
            self.steps.add_sp_e.step = 0;
            self.fetch(bus);
        } else {
            return ;
        }
    }

}

} // verus!
