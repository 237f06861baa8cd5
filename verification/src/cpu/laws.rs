use vstd::prelude::*;

use crate::cpu::instructions::{
    and_op, or_op, sub_flags, xor_op,
    add_op, adc_op, carry_bit, daa_op, dec_op, inc_op, res_op, rl_op, rlc_op, rr_op, rrc_op,
    sbc_op, set_op, sub_op, swap_op,
};
use crate::cpu::operand::{Imm8, Indirect, Reg16, Reg8, IO8};
use crate::cpu::register::{
    hi_byte, lemma_bytes_pair, lemma_flag_set_get, lemma_pair_bytes, lemma_pair_write_read, lo_byte,
    pair, Registers,
};
use crate::cpu::interrupts::Interrupts;
use crate::cpu::{isr_vector, lowest_bit, Cpu, Site};
use crate::peripherals::{
    in_cart_ram, in_cart_rom, is_int_reg, lemma_read_after_write, lemma_write_keeps_wf,
    lemma_write_leaves_others, BusView,
};

verus! {

/// Whether a byte holds two decimal digits in packed BCD.
pub open spec fn is_bcd(x: u8) -> bool {
    x / 16 <= 9 && x % 16 <= 9
}

/// The number that a packed BCD byte stands for.
pub open spec fn bcd_value(x: u8) -> int {
    (x / 16) * 10 + x % 16
}

/// The packed BCD byte for a number below 100.
pub open spec fn to_bcd(n: int) -> u8 {
    ((n / 10) * 16 + n % 10) as u8
}

/// A number below 100 written in packed BCD is a BCD byte standing for it.
pub proof fn lemma_to_bcd(n: int)
    requires
        0 <= n < 100,
    ensures
        is_bcd(to_bcd(n)),
        bcd_value(to_bcd(n)) == n,
{
    let x = to_bcd(n);
    assert(x == (n / 10) * 16 + n % 10);
    assert(x / 16 == n / 10 && x % 16 == n % 10);
}

/// ADC with the carry clear is ADD.
pub proof fn lemma_adc_without_carry(r: Registers, v: u8)
    ensures
        adc_op(r, v, 0) == add_op(r, v),
{
}

/// SBC with the carry clear is SUB.
pub proof fn lemma_sbc_without_carry(r: Registers, v: u8)
    ensures
        sbc_op(r, v, 0) == sub_op(r, v),
{
}

/// SWAP twice gives the byte back.
pub proof fn lemma_swap_twice(r: Registers, v: u8)
    ensures
        swap_op(swap_op(r, v).0, swap_op(r, v).1).1 == v,
{
    let w = swap_op(r, v).1;
    assert(w == (v << 4u8) | (v >> 4u8) ==> (w << 4u8) | (w >> 4u8) == v) by (bit_vector);
}

/// RRC undoes RLC and RLC undoes RRC.
pub proof fn lemma_rotate_inverse(r: Registers, v: u8)
    ensures
        rrc_op(r, rlc_op(r, v).1).1 == v,
        rlc_op(r, rrc_op(r, v).1).1 == v,
{
    let w = rlc_op(r, v).1;
    let u = rrc_op(r, v).1;
    assert(w == (v << 1u8) | (v >> 7u8) ==> (w >> 1u8) | (w << 7u8) == v) by (bit_vector);
    assert(u == (v >> 1u8) | (v << 7u8) ==> (u << 1u8) | (u >> 7u8) == v) by (bit_vector);
}

/// RR undoes RL: rotating left through the carry and back gives both the byte
/// and the carry flag back.
pub proof fn lemma_rl_then_rr(r: Registers, v: u8)
    ensures
        rr_op(rl_op(r, v).0, rl_op(r, v).1).1 == v,
        rr_op(rl_op(r, v).0, rl_op(r, v).1).0.cf() == r.cf(),
{
    let c0 = carry_bit(r);
    let w = rl_op(r, v).1;
    lemma_flag_set_get(r, w == 0, false, false, v & 0x80 > 0);
    let r1 = rl_op(r, v).0;
    let c1 = carry_bit(r1);
    assert(c1 == (if v & 0x80 > 0 { 1u8 } else { 0u8 }));
    let u = rr_op(r1, w).1;
    lemma_flag_set_get(r1, u == 0, false, false, w & 0x1 > 0);
    assert((c0 == 0 || c0 == 1) && w == (v << 1u8) | c0 && c1 == (if v & 0x80u8 > 0 {
        1u8
    } else {
        0u8
    }) ==> (c1 << 7u8) | (w >> 1u8) == v && (w & 0x1u8 > 0) == (c0 == 1)) by (bit_vector);
}

/// DEC undoes INC and INC undoes DEC, and neither changes the carry flag.
pub proof fn lemma_inc_dec(r: Registers, v: u8)
    ensures
        dec_op(r, inc_op(r, v).1).1 == v,
        inc_op(r, dec_op(r, v).1).1 == v,
        inc_op(r, v).0.cf() == r.cf(),
        dec_op(r, v).0.cf() == r.cf(),
{
    let r1 = r.with_zf(v.wrapping_add(1) == 0);
    lemma_flag_set_get(r, v.wrapping_add(1) == 0, false, false, false);
    lemma_flag_set_get(r1, false, false, false, false);
    lemma_flag_set_get(r1.with_nf(false), false, false, v & 0xf == 0xf, false);
    let r2 = r.with_zf(v.wrapping_sub(1) == 0);
    lemma_flag_set_get(r, v.wrapping_sub(1) == 0, false, false, false);
    lemma_flag_set_get(r2, false, true, false, false);
    lemma_flag_set_get(r2.with_nf(true), false, false, v & 0xf == 0, false);
}

/// SET makes the bit read as set and RES as clear, and RES after SET is RES.
pub proof fn lemma_set_res(r: Registers, v: u8, bit: usize)
    requires
        bit < 8,
    ensures
        set_op(r, v, bit).1 & (1u8 << bit) != 0,
        res_op(r, v, bit).1 & (1u8 << bit) == 0,
        res_op(r, set_op(r, v, bit).1, bit).1 == res_op(r, v, bit).1,
{
    assert(bit < 8 ==> (v | (1u8 << bit)) & (1u8 << bit) != 0 && (v & !(1u8 << bit)) & (1u8
        << bit) == 0 && (v | (1u8 << bit)) & !(1u8 << bit) == v & !(1u8 << bit)) by (bit_vector);
}

/// ADD of two BCD bytes followed by DAA leaves in A the BCD form of the
/// decimal sum modulo 100, with the carry set exactly when the sum reaches 100,
/// Z set exactly when A is zero, and N and H clear.
pub proof fn lemma_daa_after_add(r: Registers, v: u8)
    requires
        is_bcd(r.a),
        is_bcd(v),
    ensures
        daa_op(add_op(r, v)).a == to_bcd((bcd_value(r.a) + bcd_value(v)) % 100),
        bcd_value(daa_op(add_op(r, v)).a) == (bcd_value(r.a) + bcd_value(v)) % 100,
        is_bcd(daa_op(add_op(r, v)).a),
        daa_op(add_op(r, v)).cf() == (bcd_value(r.a) + bcd_value(v) >= 100),
        daa_op(add_op(r, v)).zf() == (daa_op(add_op(r, v)).a == 0),
        !daa_op(add_op(r, v)).hf(),
        !daa_op(add_op(r, v)).nf(),
{
    let a = r.a;
    let res = a.wrapping_add(v);
    let h = (a & 0xf) + (v & 0xf) > 0xf;
    let c = a + v > 0xff;
    lemma_flag_set_get(r, res == 0, false, h, c);
    let r1 = add_op(r, v);
    assert(r1.nf() == false && r1.hf() == h && r1.cf() == c);
    let cf = c || res > 0x99;
    let hf = h || (res & 0x0f) > 0x09;
    let corr: u8 = ((if cf { 0x60int } else { 0 }) + (if hf { 0x06int } else { 0 })) as u8;
    let out = res.wrapping_add(corr);
    let r2 = r1.with_a(out);
    lemma_flag_set_get(r2, out == 0, false, false, cf);
    lemma_flag_set_get(r2.with_zf(out == 0), false, false, false, cf);
    lemma_flag_set_get(r2.with_zf(out == 0).with_hf(false), false, false, false, cf);
    assert(daa_op(r1).a == out && daa_op(r1).cf() == cf);
    assert(a / 16 <= 9 && a % 16 <= 9 && v / 16 <= 9 && v % 16 <= 9 && (a + v > 255 ==> res == a
        + v - 256) && (a + v <= 255 ==> res == a + v) && h == ((a & 0xf) + (v & 0xf) > 0xf) && c
        == (a + v > 0xff) && cf == (c || res > 0x99) && hf == (h || (res & 0x0f) > 0x09) && corr
        == (if cf { 0x60u8 } else { 0u8 }) + (if hf { 0x06u8 } else { 0u8 }) && (res + corr > 255
        ==> out == res + corr - 256) && (res + corr <= 255 ==> out == res + corr) ==> out == (((((a
        / 16) * 10 + a % 16 + (v / 16) * 10 + v % 16) % 100) / 10) * 16 + (((a / 16) * 10 + a % 16
        + (v / 16) * 10 + v % 16) % 100) % 10) && cf == ((a / 16) * 10 + a % 16 + (v / 16) * 10 + v
        % 16 >= 100)) by (bit_vector);
    lemma_to_bcd((bcd_value(a) + bcd_value(v)) % 100);
}

/// SUB of two BCD bytes followed by DAA leaves in A the BCD form of the
/// decimal difference modulo 100, with the carry set exactly when it borrowed,
/// Z set exactly when A is zero, H clear and N set.
pub proof fn lemma_daa_after_sub(r: Registers, v: u8)
    requires
        is_bcd(r.a),
        is_bcd(v),
    ensures
        daa_op(sub_op(r, v)).a == to_bcd((bcd_value(r.a) - bcd_value(v) + 100) % 100),
        bcd_value(daa_op(sub_op(r, v)).a) == (bcd_value(r.a) - bcd_value(v) + 100) % 100,
        is_bcd(daa_op(sub_op(r, v)).a),
        daa_op(sub_op(r, v)).cf() == (bcd_value(r.a) < bcd_value(v)),
        daa_op(sub_op(r, v)).zf() == (daa_op(sub_op(r, v)).a == 0),
        !daa_op(sub_op(r, v)).hf(),
        daa_op(sub_op(r, v)).nf(),
{
    let a = r.a;
    let res = a.wrapping_sub(v);
    let h = (a & 0xf) < (v & 0xf);
    let c = a < v;
    lemma_flag_set_get(r, res == 0, true, h, c);
    let r1 = sub_op(r, v);
    assert(r1.nf() == true && r1.hf() == h && r1.cf() == c);
    let corr: u8 = ((if c { 0x60int } else { 0 }) + (if h { 0x06int } else { 0 })) as u8;
    let out = res.wrapping_sub(corr);
    let r2 = r1.with_a(out);
    lemma_flag_set_get(r2, out == 0, false, false, c);
    lemma_flag_set_get(r2.with_zf(out == 0), false, false, false, c);
    lemma_flag_set_get(r2.with_zf(out == 0).with_hf(false), false, false, false, c);
    assert(daa_op(r1).a == out && daa_op(r1).cf() == c);
    assert(a / 16 <= 9 && a % 16 <= 9 && v / 16 <= 9 && v % 16 <= 9 && (a < v ==> res == a + 256
        - v) && (a >= v ==> res == a - v) && h == ((a & 0xf) < (v & 0xf)) && c == (a < v) && corr
        == (if c { 0x60u8 } else { 0u8 }) + (if h { 0x06u8 } else { 0u8 }) && (res < corr ==> out
        == res + 256 - corr) && (res >= corr ==> out == res - corr) ==> out == (((((a / 16) * 10 + a
        % 16 + 100 - (v / 16) * 10 - v % 16) % 100) / 10) * 16 + (((a / 16) * 10 + a % 16 + 100 - (v
        / 16) * 10 - v % 16) % 100) % 10) && c == ((a / 16) * 10 + a % 16 < (v / 16) * 10 + v % 16))
        by (bit_vector);
    lemma_to_bcd((bcd_value(a) - bcd_value(v) + 100) % 100);
}

/// CP sets exactly the flags that SUB sets from the same operand and leaves A
/// as it was: it ends in the state SUB ends in, with A put back, and once the
/// operand is read only F (and PC, by the fetch) change. Neither writes to the
/// bus.
pub proof fn lemma_cp_is_sub_keeping_a<S: Copy>(c: Cpu, bus: BusView, src: S) where Cpu: IO8<S>
    ensures
        c.cp_model(bus, src) == c.sub_model(bus, src).with_regs(
            Registers { a: c.read8_model(bus, src).0.regs.a, ..c.sub_model(bus, src).regs },
        ),
        c.read8_model(bus, src).1 matches Some(v) ==> c.cp_model(bus, src).regs == (Registers {
            pc: c.cp_model(bus, src).regs.pc,
            ..sub_flags(c.read8_model(bus, src).0.regs, v)
        }) && c.cp_model(bus, src).regs.f == sub_op(c.read8_model(bus, src).0.regs, v).f
            && c.cp_model(bus, src).regs.a == c.read8_model(bus, src).0.regs.a,
{
}

/// LD r, d8 takes two cycles: the register takes the byte after the opcode,
/// the next opcode (the one after that byte) is fetched, no other register but
/// PC changes and the bus is left alone.
pub proof fn lemma_ld_immediate(c: Cpu, bus: BusView, r: Reg8)
    requires
        c.st(Site::Ld).step == 0,
        c.st(Site::Imm8).step == 0,
    ensures
        ({
            let v = bus.read_at(c.interrupts, c.regs.pc);
            let (c1, b1) = c.ld_model(bus, r, Imm8);
            let (c2, b2) = c1.ld_model(b1, r, Imm8);
            &&& b1 == bus && b2 == bus
            &&& c1.regs == Registers { pc: c.regs.pc.wrapping_add(1), ..c.regs }
            &&& c2.regs == Registers { pc: c2.regs.pc, ..c.with_reg8(r, v).regs }
            &&& c2.ctx.opcode == bus.read_at(c.interrupts, c.regs.pc.wrapping_add(1))
            &&& c2.st(Site::Ld).step == 0 && c2.st(Site::Imm8).step == 0
        }),
{
}

/// LD r, (rr) takes two cycles: the register takes the byte at the address the
/// operand names (HL moving on afterwards for HL+ and HL-), the next opcode is
/// fetched, no other register but PC changes and the bus is left alone.
pub proof fn lemma_ld_from_memory(c: Cpu, bus: BusView, r: Reg8, i: Indirect)
    requires
        c.st(Site::Ld).step == 0,
        c.st(Site::IndRead).step == 0,
    ensures
        ({
            let v = bus.read_at(c.interrupts, c.indirect_addr(i));
            let (c1, b1) = c.ld_model(bus, r, i);
            let (c2, b2) = c1.ld_model(b1, r, i);
            &&& b1 == bus && b2 == bus
            &&& c2.regs == Registers { pc: c2.regs.pc, ..c.indirect_after(i).with_reg8(r, v).regs }
            &&& c2.ctx.opcode == bus.read_at(c.interrupts, c.regs.pc)
            &&& c2.st(Site::Ld).step == 0 && c2.st(Site::IndRead).step == 0
        }),
{
}

/// LD (rr), r takes two cycles: the register's byte is written at the address
/// the operand names (HL moving on afterwards for HL+ and HL-), then the next
/// opcode is fetched from the bus as written; no other register but PC changes.
pub proof fn lemma_ld_to_memory(c: Cpu, bus: BusView, r: Reg8, i: Indirect)
    requires
        c.st(Site::Ld).step == 0,
        c.st(Site::IndWrite).step == 0,
    ensures
        ({
            let (b, ints) = bus.write_at(c.interrupts, c.indirect_addr(i), c.reg8(r));
            let (c1, b1) = c.ld_model(bus, i, r);
            let (c2, b2) = c1.ld_model(b1, i, r);
            &&& b1 == b && b2 == b
            &&& c2.interrupts == ints
            &&& c2.regs == Registers { pc: c2.regs.pc, ..c.indirect_after(i).regs }
            &&& c2.ctx.opcode == b.read_at(ints, c.regs.pc)
            &&& c2.st(Site::Ld).step == 0 && c2.st(Site::IndWrite).step == 0
        }),
{
}

/// Whether bit `i` of `x` is set.
pub open spec fn bit_at(x: u8, i: u8) -> bool {
    (x >> i) & 1 == 1
}

proof fn lemma_bitwise(a: u8, v: u8)
    by (bit_vector)
    ensures
        forall|i: u8|
            i < 8 ==> ((#[trigger] ((a | v) >> i) & 1 == 1) == ((a >> i) & 1 == 1 || (v >> i) & 1
                == 1)),
        forall|i: u8|
            i < 8 ==> ((#[trigger] ((a & v) >> i) & 1 == 1) == ((a >> i) & 1 == 1 && (v >> i) & 1
                == 1)),
        forall|i: u8|
            i < 8 ==> ((#[trigger] ((a ^ v) >> i) & 1 == 1) == ((a >> i) & 1 == 1 != ((v >> i) & 1
                == 1))),
        (a | v == 0) == (a == 0 && v == 0),
        (a ^ v == 0) == (a == v),
{
}

/// OR, AND and XOR work bit by bit: afterwards bit `i` of A is set exactly when
/// it was set in A or in the operand (OR), in both (AND), or in exactly one
/// (XOR). Z is set exactly when the result is zero: for OR when both were
/// zero, for XOR when they were equal. N and C are cleared; H is set by AND
/// alone.
pub proof fn lemma_logic_ops(r: Registers, v: u8)
    ensures
        forall|i: u8|
            i < 8 ==> (bit_at(#[trigger] or_op(r, v).a, i) == (bit_at(r.a, i) || bit_at(v, i))),
        forall|i: u8|
            i < 8 ==> (bit_at(#[trigger] and_op(r, v).a, i) == (bit_at(r.a, i) && bit_at(v, i))),
        forall|i: u8|
            i < 8 ==> (bit_at(#[trigger] xor_op(r, v).a, i) == (bit_at(r.a, i) != bit_at(v, i))),
        or_op(r, v).zf() == (r.a == 0 && v == 0),
        xor_op(r, v).zf() == (r.a == v),
        and_op(r, v).zf() == (and_op(r, v).a == 0),
        !or_op(r, v).nf() && !or_op(r, v).hf() && !or_op(r, v).cf(),
        !xor_op(r, v).nf() && !xor_op(r, v).hf() && !xor_op(r, v).cf(),
        !and_op(r, v).nf() && and_op(r, v).hf() && !and_op(r, v).cf(),
{
    lemma_bitwise(r.a, v);
    lemma_flag_set_get(r.with_a(r.a | v), r.a | v == 0, false, false, false);
    lemma_flag_set_get(r.with_a(r.a & v), r.a & v == 0, false, true, false);
    lemma_flag_set_get(r.with_a(r.a ^ v), r.a ^ v == 0, false, false, false);
}

/// The instructions OR, AND and XOR: once the operand `v` is read, A holds
/// the bitwise result (bit `i` set exactly when set in A or in `v`, in both, or
/// in exactly one), Z is set exactly when that result is zero, and no other
/// register but F and PC changes.
pub proof fn lemma_logic_instructions<S: Copy>(c: Cpu, bus: BusView, src: S) where Cpu: IO8<S>
    ensures
        c.read8_model(bus, src).1 matches Some(v) ==> {
            let r = c.read8_model(bus, src).0.regs;
            let o = c.or_model(bus, src).regs;
            let n = c.and_model(bus, src).regs;
            let x = c.xor_model(bus, src).regs;
            &&& forall|i: u8| i < 8 ==> (bit_at(o.a, i) == (bit_at(r.a, i) || bit_at(v, i)))
            &&& forall|i: u8| i < 8 ==> (bit_at(n.a, i) == (bit_at(r.a, i) && bit_at(v, i)))
            &&& forall|i: u8| i < 8 ==> (bit_at(x.a, i) == (bit_at(r.a, i) != bit_at(v, i)))
            &&& o.zf() == (o.a == 0) && n.zf() == (n.a == 0) && x.zf() == (x.a == 0)
            &&& o == (Registers { pc: o.pc, a: o.a, f: o.f, ..r })
            &&& n == (Registers { pc: n.pc, a: n.a, f: n.f, ..r })
            &&& x == (Registers { pc: x.pc, a: x.a, f: x.f, ..r })
        },
{
    if let Some(v) = c.read8_model(bus, src).1 {
        let r = c.read8_model(bus, src).0.regs;
        lemma_logic_ops(r, v);
        lemma_bitwise(r.a, v);
        assert(c.or_model(bus, src).regs.a == or_op(r, v).a);
        assert(c.and_model(bus, src).regs.a == and_op(r, v).a);
        assert(c.xor_model(bus, src).regs.a == xor_op(r, v).a);
        assert(forall|i: u8| i < 8 ==> bit_at(or_op(r, v).a, i) == (bit_at(r.a, i) || bit_at(v, i)));
        assert(forall|i: u8| i < 8 ==> bit_at(and_op(r, v).a, i) == (bit_at(r.a, i) && bit_at(v, i)));
        assert(forall|i: u8| i < 8 ==> bit_at(xor_op(r, v).a, i) == (bit_at(r.a, i) != bit_at(v, i)));
    }
}

/// A stack address that plain memory or the interrupt registers back, so that
/// it reads back what was pushed there.
pub open spec fn stack_slot(addr: u16) -> bool {
    !in_cart_rom(addr) && !in_cart_ram(addr)
}

/// Whether a word pushed with SP at `sp` reads back: after its high byte is
/// written at SP - 1 and then its low byte at SP - 2, both addresses read the
/// bytes written there.
pub open spec fn pushed_word_reads_back(bus: BusView, ints: Interrupts, sp: u16, val: u16) -> bool {
    let hi_addr = sp.wrapping_sub(1);
    let lo_addr = sp.wrapping_sub(2);
    let (b1, i1) = bus.write_at(ints, hi_addr, hi_byte(val));
    let (b2, i2) = b1.write_at(i1, lo_addr, lo_byte(val));
    b2.read_at(i2, lo_addr) == lo_byte(val) && b2.read_at(i2, hi_addr) == hi_byte(val)
}

/// Stack bytes outside the cartridge's areas read back what was pushed.
pub proof fn lemma_stack_slots_read_back(bus: BusView, ints: Interrupts, sp: u16, val: u16)
    requires
        bus.wf(),
        stack_slot(sp.wrapping_sub(1)),
        stack_slot(sp.wrapping_sub(2)),
    ensures
        pushed_word_reads_back(bus, ints, sp, val),
{
    let hi_addr = sp.wrapping_sub(1);
    let lo_addr = sp.wrapping_sub(2);
    let (b1, i1) = bus.write_at(ints, hi_addr, hi_byte(val));
    lemma_write_keeps_wf(bus, ints, hi_addr, hi_byte(val));
    lemma_read_after_write(b1, i1, lo_addr, lo_byte(val));
    lemma_write_leaves_others(b1, i1, lo_addr, lo_byte(val), hi_addr);
    lemma_read_after_write(bus, ints, hi_addr, hi_byte(val));
}

/// Pushing a word (four cycles) and popping it again (three cycles, which
/// write nothing) gives the word back and leaves SP where it was, whenever the
/// pushed bytes read back.
pub proof fn lemma_push_then_pop(c: Cpu, bus: BusView, val: u16)
    requires
        c.st(Site::Push16).step == 0,
        c.st(Site::Pop16).step == 0,
        pushed_word_reads_back(bus, c.interrupts, c.regs.sp, val),
    ensures
        ({
            let (c1, b1, r1) = c.push16_model(bus, val);
            let (c2, b2, r2) = c1.push16_model(b1, val);
            let (c3, b3, r3) = c2.push16_model(b2, val);
            let (c4, b4, r4) = c3.push16_model(b3, val);
            let (d1, s1) = c4.pop16_model(b4);
            let (d2, s2) = d1.pop16_model(b4);
            let (d3, s3) = d2.pop16_model(b4);
            &&& r1 is None && r2 is None && r3 is None && r4 == Some(())
            &&& s1 is None && s2 is None && s3 == Some(val)
            &&& d3.regs == c.regs
            &&& d3.interrupts == c4.interrupts
            &&& d3.st(Site::Pop16).step == 0
            &&& d3.st(Site::Push16).step == 0
        }),
{
    let hi_addr = c.regs.sp.wrapping_sub(1);
    let lo_addr = c.regs.sp.wrapping_sub(2);
    let (c1, b1, r1) = c.push16_model(bus, val);
    let (c2, b2, r2) = c1.push16_model(b1, val);
    assert(c2.regs.sp == hi_addr);
    assert(c2.st(Site::Push16).val8 == lo_byte(val));
    let (c3, b3, r3) = c2.push16_model(b2, val);
    assert(c3.regs.sp == lo_addr);
    let (c4, b4, r4) = c3.push16_model(b3, val);
    assert(b4.read_at(c4.interrupts, lo_addr) == lo_byte(val));
    assert(b4.read_at(c4.interrupts, hi_addr) == hi_byte(val));
    let (d1, s1) = c4.pop16_model(b4);
    assert(d1.st(Site::Pop16).val8 == lo_byte(val));
    assert(d1.regs.sp == hi_addr);
    let (d2, s2) = d1.pop16_model(b4);
    lemma_bytes_pair(val);
    assert(d2.st(Site::Pop16).val16 == val);
}

/// The CPU and bus after six cycles of CALL nn.
#[verifier::opaque]
pub open spec fn call_cycles(c: Cpu, bus: BusView) -> (Cpu, BusView) {
    let (c1, b1) = c.call_model(bus);
    let (c2, b2) = c1.call_model(b1);
    let (c3, b3) = c2.call_model(b2);
    let (c4, b4) = c3.call_model(b3);
    let (c5, b5) = c4.call_model(b4);
    c5.call_model(b5)
}

/// The CPU after four cycles of RET.
#[verifier::opaque]
pub open spec fn ret_cycles(c: Cpu, bus: BusView) -> Cpu {
    c.ret_model(bus).ret_model(bus).ret_model(bus).ret_model(bus)
}

/// CALL nn takes six cycles, starting with PC at its operand: it reads nn,
/// pushes the address after the operand, jumps to nn and fetches the opcode
/// there; no register but SP and PC changes.
pub proof fn lemma_call_cycles(c: Cpu, bus: BusView)
    requires
        c.st(Site::Call).step == 0,
        c.st(Site::Imm8).step == 0,
        c.st(Site::Imm16).step == 0,
        c.st(Site::Push16).step == 0,
        pushed_word_reads_back(bus, c.interrupts, c.regs.sp, c.regs.pc.wrapping_add(2)),
    ensures
        ({
            let back = c.regs.pc.wrapping_add(2);
            let sp = c.regs.sp.wrapping_sub(2);
            let nn = pair(
                bus.read_at(c.interrupts, c.regs.pc.wrapping_add(1)),
                bus.read_at(c.interrupts, c.regs.pc),
            );
            let (c6, b6) = call_cycles(c, bus);
            &&& c6.st(Site::Call).step == 0
            &&& c6.st(Site::Push16).step == 0
            &&& c6.st(Site::Ret) == c.st(Site::Ret)
            &&& c6.st(Site::Pop16) == c.st(Site::Pop16)
            &&& c6.ctx.opcode == b6.read_at(c6.interrupts, nn)
            &&& c6.regs == Registers { pc: c6.regs.pc, sp, ..c.regs }
            &&& b6.read_at(c6.interrupts, sp) == lo_byte(back)
            &&& b6.read_at(c6.interrupts, sp.wrapping_add(1)) == hi_byte(back)
        }),
{
    reveal(call_cycles);
    let back = c.regs.pc.wrapping_add(2);
    let lo = bus.read_at(c.interrupts, c.regs.pc);
    let hi = bus.read_at(c.interrupts, c.regs.pc.wrapping_add(1));
    let (c1, b1) = c.call_model(bus);
    assert(b1 == bus && c1.regs.pc == c.regs.pc.wrapping_add(1));
    let (c2, b2) = c1.call_model(b1);
    assert(b2 == bus && c2.regs.pc == back);
    let (c3, b3) = c2.call_model(b2);
    assert(b3 == bus && c3.st(Site::Call).step == 1 && c3.st(Site::Call).val16 == pair(hi, lo));
    assert(c3.st(Site::Push16).step == 1 && c3.regs == Registers { pc: back, ..c.regs });
    let hi_addr = c.regs.sp.wrapping_sub(1);
    let lo_addr = c.regs.sp.wrapping_sub(2);
    let (c4, b4) = c3.call_model(b3);
    assert(c4.regs.sp == hi_addr && c4.st(Site::Push16).val8 == lo_byte(back));
    let (c5, b5) = c4.call_model(b4);
    assert(c5.regs.sp == lo_addr);
    let (c6, b6) = c5.call_model(b5);
    assert(b6 == b5);
}

/// RET takes four cycles: it pops the return address, jumps there and fetches
/// the opcode there; SP moves up by two and no other register changes.
pub proof fn lemma_ret_cycles(c: Cpu, bus: BusView, back: u16)
    requires
        c.st(Site::Ret).step == 0,
        c.st(Site::Pop16).step == 0,
        bus.read_at(c.interrupts, c.regs.sp) == lo_byte(back),
        bus.read_at(c.interrupts, c.regs.sp.wrapping_add(1)) == hi_byte(back),
    ensures
        ({
            let d4 = ret_cycles(c, bus);
            &&& d4.st(Site::Ret).step == 0
            &&& d4.st(Site::Pop16).step == 0
            &&& d4.interrupts == c.interrupts
            &&& d4.ctx.opcode == bus.read_at(c.interrupts, back)
            &&& d4.regs.pc == (if d4.ctx.int {
                back
            } else {
                back.wrapping_add(1)
            })
            &&& d4.regs == Registers {
                pc: d4.regs.pc,
                sp: c.regs.sp.wrapping_add(1).wrapping_add(1),
                ..c.regs
            }
        }),
{
    reveal(ret_cycles);
    let d1 = c.ret_model(bus);
    let d2 = d1.ret_model(bus);
    let d3 = d2.ret_model(bus);
    lemma_bytes_pair(back);
    assert(d3.regs.pc == back);
    let d4 = d3.ret_model(bus);
}

/// CALL nn followed by RET at nn returns to the instruction after the CALL:
/// the last RET cycle fetches the opcode there, SP is back where it was, and
/// every other register is as before; this holds whenever the pushed return
/// address reads back.
pub proof fn lemma_call_then_ret(c: Cpu, bus: BusView)
    requires
        c.st(Site::Call).step == 0,
        c.st(Site::Imm8).step == 0,
        c.st(Site::Imm16).step == 0,
        c.st(Site::Push16).step == 0,
        c.st(Site::Ret).step == 0,
        c.st(Site::Pop16).step == 0,
        pushed_word_reads_back(bus, c.interrupts, c.regs.sp, c.regs.pc.wrapping_add(2)),
    ensures
        ({
            let back = c.regs.pc.wrapping_add(2);
            let (c6, b6) = call_cycles(c, bus);
            let d4 = ret_cycles(c6, b6);
            &&& d4.ctx.opcode == b6.read_at(d4.interrupts, back)
            &&& d4.regs.pc == (if d4.ctx.int {
                back
            } else {
                back.wrapping_add(1)
            })
            &&& d4.regs == Registers { pc: d4.regs.pc, ..c.regs }
        }),
{
    let back = c.regs.pc.wrapping_add(2);
    lemma_call_cycles(c, bus);
    let (c6, b6) = call_cycles(c, bus);
    lemma_ret_cycles(c6, b6, back);
}

/// INC rr (two cycles) followed by DEC rr (two cycles) leaves the pair as it
/// was, across the 0xFFFF/0x0000 wrap too, and changes no register but PC; the
/// flags are untouched.
pub proof fn lemma_inc16_then_dec16(c: Cpu, bus: BusView, rr: Reg16)
    requires
        c.st(Site::Inc16).step == 0,
        c.st(Site::Dec16).step == 0,
        rr != Reg16::AF,
    ensures
        ({
            let (c1, b1) = c.inc16_model(bus, rr);
            let (c2, b2) = c1.inc16_model(b1, rr);
            let (d1, e1) = c2.dec16_model(b2, rr);
            let (d2, e2) = d1.dec16_model(e1, rr);
            &&& b1 == bus && b2 == bus && e1 == bus && e2 == bus
            &&& c1.regs.pc == c.regs.pc && d1.regs.pc == c2.regs.pc
            &&& c1.reg16(rr) == c.reg16(rr).wrapping_add(1)
            &&& d2.reg16(rr) == c.reg16(rr)
            &&& d2.regs == Registers { pc: d2.regs.pc, ..c.regs }
            &&& d2.st(Site::Inc16).step == 0 && d2.st(Site::Dec16).step == 0
        }),
{
    let v = c.reg16(rr);
    let r = c.regs;
    lemma_pair_write_read(r, v.wrapping_add(1));
    lemma_pair_write_read(r.with_bc(v.wrapping_add(1)), v);
    lemma_pair_write_read(r.with_de(v.wrapping_add(1)), v);
    lemma_pair_write_read(r.with_hl(v.wrapping_add(1)), v);
    lemma_pair_bytes(r.b, r.c);
    lemma_pair_bytes(r.d, r.e);
    lemma_pair_bytes(r.h, r.l);
    let (c1, b1) = c.inc16_model(bus, rr);
    assert(c1.reg16(rr) == v.wrapping_add(1));
    let (c2, b2) = c1.inc16_model(b1, rr);
    let (d1, e1) = c2.dec16_model(b2, rr);
    assert(d1.reg16(rr) == v);
    let (d2, e2) = d1.dec16_model(e1, rr);
}

/// Dispatching an interrupt takes five cycles: it pushes PC, clears the
/// request bit of the lowest pending interrupt (and no other), jumps to that
/// interrupt's handler, disables interrupts and fetches the handler's first
/// opcode. This holds when the two stack bytes lie in plain memory, so that the
/// push cannot change the pending interrupts.
pub proof fn lemma_interrupt_dispatch(c: Cpu, bus: BusView)
    requires
        bus.wf(),
        c.st(Site::Isr).step == 0,
        c.st(Site::Push16).step == 0,
        c.interrupts.get_interrupt() != 0,
        stack_slot(c.regs.sp.wrapping_sub(1)),
        stack_slot(c.regs.sp.wrapping_sub(2)),
        !is_int_reg(c.regs.sp.wrapping_sub(1)),
        !is_int_reg(c.regs.sp.wrapping_sub(2)),
    ensures
        ({
            let p = c.interrupts.get_interrupt();
            let (c1, b1) = c.isr_model(bus);
            let (c2, b2) = c1.isr_model(b1);
            let (c3, b3) = c2.isr_model(b2);
            let (c4, b4) = c3.isr_model(b3);
            let (c5, b5) = c4.isr_model(b4);
            &&& c5.interrupts == Interrupts {
                ime: false,
                int_flags: c.interrupts.int_flags & !lowest_bit(p),
                ..c.interrupts
            }
            &&& c5.regs.pc == isr_vector(p).wrapping_add(1)
            &&& c5.ctx.opcode == b5.read_at(c5.interrupts, isr_vector(p))
            &&& c5.regs.sp == c.regs.sp.wrapping_sub(2)
            &&& b5.read_at(c5.interrupts, c5.regs.sp) == lo_byte(c.regs.pc)
            &&& b5.read_at(c5.interrupts, c5.regs.sp.wrapping_add(1)) == hi_byte(c.regs.pc)
            &&& c5.st(Site::Isr).step == 0
            &&& c5.st(Site::Push16).step == 0
        }),
{
    let val = c.regs.pc;
    let hi_addr = c.regs.sp.wrapping_sub(1);
    let lo_addr = c.regs.sp.wrapping_sub(2);
    let (c1, b1) = c.isr_model(bus);
    assert(c1.interrupts == c.interrupts);
    let (c2, b2) = c1.isr_model(b1);
    lemma_write_keeps_wf(b1, c1.interrupts, hi_addr, hi_byte(val));
    lemma_read_after_write(b1, c1.interrupts, hi_addr, hi_byte(val));
    assert(c2.interrupts == c.interrupts);
    let (c3, b3) = c2.isr_model(b2);
    lemma_write_keeps_wf(b2, c2.interrupts, lo_addr, lo_byte(val));
    lemma_read_after_write(b2, c2.interrupts, lo_addr, lo_byte(val));
    lemma_write_leaves_others(b2, c2.interrupts, lo_addr, lo_byte(val), hi_addr);
    assert(c3.interrupts == c.interrupts);
    let (c4, b4) = c3.isr_model(b3);
    let (c5, b5) = c4.isr_model(b4);
    assert(b5 == b3);
}

} // verus!
