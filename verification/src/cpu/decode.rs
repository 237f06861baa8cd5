use vstd::prelude::*;

use crate::cpu::operand::{Cond, Direct16, Direct8, Imm16, Imm8, Indirect, Reg16, Reg8, IO8};
use crate::cpu::Cpu;
use crate::peripherals::{BusView, Peripherals};

verus! {

/// Opcodes that no instruction has.
pub open spec fn is_undefined(op: u8) -> bool {
    op == 0xD3 || op == 0xDB || op == 0xDD || op == 0xE3 || op == 0xE4 || op == 0xEB || op
        == 0xEC || op == 0xED || op == 0xF4 || op == 0xFC || op == 0xFD
}

/// The opcode of STOP.
pub const STOP: u8 = 0x10;

/// Why the emulator cannot run the next cycle.
#[derive(Clone, Copy, Debug, PartialEq, Eq, Structural)]
pub enum Halt {
    /// STOP was decoded; low-power mode is not emulated.
    Stop,
    /// An opcode that no instruction has was decoded.
    Undefined(u8),
    /// An interrupt dispatch pushed PC, but the interrupt it was for is no
    /// longer pending.
    InvalidInterrupt,
}

/// The register that bits 0..=2 (or 3..=5) of an opcode name, for every value
/// but 6, which names (HL).
pub open spec fn reg8_at(i: u8) -> Reg8 {
    if i == 0 {
        Reg8::B
    } else if i == 1 {
        Reg8::C
    } else if i == 2 {
        Reg8::D
    } else if i == 3 {
        Reg8::E
    } else if i == 4 {
        Reg8::H
    } else if i == 5 {
        Reg8::L
    } else {
        Reg8::A
    }
}

fn reg8_of(i: u8) -> (r: Reg8)
    ensures
        r == reg8_at(i),
{
    if i == 0 {
        Reg8::B
    } else if i == 1 {
        Reg8::C
    } else if i == 2 {
        Reg8::D
    } else if i == 3 {
        Reg8::E
    } else if i == 4 {
        Reg8::H
    } else if i == 5 {
        Reg8::L
    } else {
        Reg8::A
    }
}

impl Cpu {
    /// Whether decoding the current opcode halts the emulator: STOP and the
    /// undefined opcodes do.
    pub open spec fn decode_halts(self) -> bool {
        !self.ctx.cb && (self.ctx.opcode == STOP || is_undefined(self.ctx.opcode))
    }

    /// One cycle of the instruction whose opcode is in 0x00..=0x3F.
    pub open spec fn block0_model(self, bus: BusView) -> (Cpu, BusView) {
        let op = self.ctx.opcode;
        if op == 0x00 {
            (self.fetched(bus), bus)
        } else
        if op == 0x01 {
            self.ld16_model(bus, Reg16::BC, Imm16)
        } else
        if op == 0x02 {
            self.ld_model(bus, Indirect::BC, Reg8::A)
        } else
        if op == 0x03 {
            self.inc16_model(bus, Reg16::BC)
        } else
        if op == 0x04 {
            self.inc_model(bus, Reg8::B)
        } else
        if op == 0x05 {
            self.dec_model(bus, Reg8::B)
        } else
        if op == 0x06 {
            self.ld_model(bus, Reg8::B, Imm8)
        } else
        if op == 0x07 {
            (self.rlca_model(bus), bus)
        } else
        if op == 0x08 {
            self.ld16_model(bus, Direct16, Reg16::SP)
        } else
        if op == 0x09 {
            (self.add_hl_reg16_model(bus, Reg16::BC), bus)
        } else
        if op == 0x0A {
            self.ld_model(bus, Reg8::A, Indirect::BC)
        } else
        if op == 0x0B {
            self.dec16_model(bus, Reg16::BC)
        } else
        if op == 0x0C {
            self.inc_model(bus, Reg8::C)
        } else
        if op == 0x0D {
            self.dec_model(bus, Reg8::C)
        } else
        if op == 0x0E {
            self.ld_model(bus, Reg8::C, Imm8)
        } else
        if op == 0x0F {
            (self.rrca_model(bus), bus)
        } else
        if op == 0x10 {
            (self, bus)
        } else
        if op == 0x11 {
            self.ld16_model(bus, Reg16::DE, Imm16)
        } else
        if op == 0x12 {
            self.ld_model(bus, Indirect::DE, Reg8::A)
        } else
        if op == 0x13 {
            self.inc16_model(bus, Reg16::DE)
        } else
        if op == 0x14 {
            self.inc_model(bus, Reg8::D)
        } else
        if op == 0x15 {
            self.dec_model(bus, Reg8::D)
        } else
        if op == 0x16 {
            self.ld_model(bus, Reg8::D, Imm8)
        } else
        if op == 0x17 {
            (self.rla_model(bus), bus)
        } else
        if op == 0x18 {
            (self.jr_model(bus), bus)
        } else
        if op == 0x19 {
            (self.add_hl_reg16_model(bus, Reg16::DE), bus)
        } else
        if op == 0x1A {
            self.ld_model(bus, Reg8::A, Indirect::DE)
        } else
        if op == 0x1B {
            self.dec16_model(bus, Reg16::DE)
        } else
        if op == 0x1C {
            self.inc_model(bus, Reg8::E)
        } else
        if op == 0x1D {
            self.dec_model(bus, Reg8::E)
        } else
        if op == 0x1E {
            self.ld_model(bus, Reg8::E, Imm8)
        } else
        if op == 0x1F {
            (self.rra_model(bus), bus)
        } else
        if op == 0x20 {
            (self.jr_c_model(bus, Cond::NZ), bus)
        } else
        if op == 0x21 {
            self.ld16_model(bus, Reg16::HL, Imm16)
        } else
        if op == 0x22 {
            self.ld_model(bus, Indirect::HLI, Reg8::A)
        } else
        if op == 0x23 {
            self.inc16_model(bus, Reg16::HL)
        } else
        if op == 0x24 {
            self.inc_model(bus, Reg8::H)
        } else
        if op == 0x25 {
            self.dec_model(bus, Reg8::H)
        } else
        if op == 0x26 {
            self.ld_model(bus, Reg8::H, Imm8)
        } else
        if op == 0x27 {
            (self.daa_model(bus), bus)
        } else
        if op == 0x28 {
            (self.jr_c_model(bus, Cond::Z), bus)
        } else
        if op == 0x29 {
            (self.add_hl_reg16_model(bus, Reg16::HL), bus)
        } else
        if op == 0x2A {
            self.ld_model(bus, Reg8::A, Indirect::HLI)
        } else
        if op == 0x2B {
            self.dec16_model(bus, Reg16::HL)
        } else
        if op == 0x2C {
            self.inc_model(bus, Reg8::L)
        } else
        if op == 0x2D {
            self.dec_model(bus, Reg8::L)
        } else
        if op == 0x2E {
            self.ld_model(bus, Reg8::L, Imm8)
        } else
        if op == 0x2F {
            (self.cpl_model(bus), bus)
        } else
        if op == 0x30 {
            (self.jr_c_model(bus, Cond::NC), bus)
        } else
        if op == 0x31 {
            self.ld16_model(bus, Reg16::SP, Imm16)
        } else
        if op == 0x32 {
            self.ld_model(bus, Indirect::HLD, Reg8::A)
        } else
        if op == 0x33 {
            self.inc16_model(bus, Reg16::SP)
        } else
        if op == 0x34 {
            self.inc_model(bus, Indirect::HL)
        } else
        if op == 0x35 {
            self.dec_model(bus, Indirect::HL)
        } else
        if op == 0x36 {
            self.ld_model(bus, Indirect::HL, Imm8)
        } else
        if op == 0x37 {
            (self.scf_model(bus), bus)
        } else
        if op == 0x38 {
            (self.jr_c_model(bus, Cond::C), bus)
        } else
        if op == 0x39 {
            (self.add_hl_reg16_model(bus, Reg16::SP), bus)
        } else
        if op == 0x3A {
            self.ld_model(bus, Reg8::A, Indirect::HLD)
        } else
        if op == 0x3B {
            self.dec16_model(bus, Reg16::SP)
        } else
        if op == 0x3C {
            self.inc_model(bus, Reg8::A)
        } else
        if op == 0x3D {
            self.dec_model(bus, Reg8::A)
        } else
        if op == 0x3E {
            self.ld_model(bus, Reg8::A, Imm8)
        } else {
            (self.ccf_model(bus), bus)
        }
    }

    fn decode_block0(&mut self, bus: &mut Peripherals)
        requires
            old(bus)@.wf(),
            old(self).ctx.opcode < 0x40,
            old(self).ctx.opcode != STOP,
        ensures
            (*final(self), final(bus)@) == old(self).block0_model(old(bus)@),
            final(bus)@.wf(),
    {
        match self.ctx.opcode {
            0x00 => self.nop(bus),
            0x01 => self.ld16(bus, Reg16::BC, Imm16),
            0x02 => self.ld(bus, Indirect::BC, Reg8::A),
            0x03 => self.inc16(bus, Reg16::BC),
            0x04 => self.inc(bus, Reg8::B),
            0x05 => self.dec(bus, Reg8::B),
            0x06 => self.ld(bus, Reg8::B, Imm8),
            0x07 => self.rlca(bus),
            0x08 => self.ld16(bus, Direct16, Reg16::SP),
            0x09 => self.add_hl_reg16(bus, Reg16::BC),
            0x0A => self.ld(bus, Reg8::A, Indirect::BC),
            0x0B => self.dec16(bus, Reg16::BC),
            0x0C => self.inc(bus, Reg8::C),
            0x0D => self.dec(bus, Reg8::C),
            0x0E => self.ld(bus, Reg8::C, Imm8),
            0x0F => self.rrca(bus),
            0x10 => {},
            0x11 => self.ld16(bus, Reg16::DE, Imm16),
            0x12 => self.ld(bus, Indirect::DE, Reg8::A),
            0x13 => self.inc16(bus, Reg16::DE),
            0x14 => self.inc(bus, Reg8::D),
            0x15 => self.dec(bus, Reg8::D),
            0x16 => self.ld(bus, Reg8::D, Imm8),
            0x17 => self.rla(bus),
            0x18 => self.jr(bus),
            0x19 => self.add_hl_reg16(bus, Reg16::DE),
            0x1A => self.ld(bus, Reg8::A, Indirect::DE),
            0x1B => self.dec16(bus, Reg16::DE),
            0x1C => self.inc(bus, Reg8::E),
            0x1D => self.dec(bus, Reg8::E),
            0x1E => self.ld(bus, Reg8::E, Imm8),
            0x1F => self.rra(bus),
            0x20 => self.jr_c(bus, Cond::NZ),
            0x21 => self.ld16(bus, Reg16::HL, Imm16),
            0x22 => self.ld(bus, Indirect::HLI, Reg8::A),
            0x23 => self.inc16(bus, Reg16::HL),
            0x24 => self.inc(bus, Reg8::H),
            0x25 => self.dec(bus, Reg8::H),
            0x26 => self.ld(bus, Reg8::H, Imm8),
            0x27 => self.daa(bus),
            0x28 => self.jr_c(bus, Cond::Z),
            0x29 => self.add_hl_reg16(bus, Reg16::HL),
            0x2A => self.ld(bus, Reg8::A, Indirect::HLI),
            0x2B => self.dec16(bus, Reg16::HL),
            0x2C => self.inc(bus, Reg8::L),
            0x2D => self.dec(bus, Reg8::L),
            0x2E => self.ld(bus, Reg8::L, Imm8),
            0x2F => self.cpl(bus),
            0x30 => self.jr_c(bus, Cond::NC),
            0x31 => self.ld16(bus, Reg16::SP, Imm16),
            0x32 => self.ld(bus, Indirect::HLD, Reg8::A),
            0x33 => self.inc16(bus, Reg16::SP),
            0x34 => self.inc(bus, Indirect::HL),
            0x35 => self.dec(bus, Indirect::HL),
            0x36 => self.ld(bus, Indirect::HL, Imm8),
            0x37 => self.scf(bus),
            0x38 => self.jr_c(bus, Cond::C),
            0x39 => self.add_hl_reg16(bus, Reg16::SP),
            0x3A => self.ld(bus, Reg8::A, Indirect::HLD),
            0x3B => self.dec16(bus, Reg16::SP),
            0x3C => self.inc(bus, Reg8::A),
            0x3D => self.dec(bus, Reg8::A),
            0x3E => self.ld(bus, Reg8::A, Imm8),
            0x3F => self.ccf(bus),
            _ => {},
        }
    }

    /// One cycle of LD r, r' (0x40..=0x7F, where 0x76 is HALT); bits 3..=5
    /// name the destination, bits 0..=2 the source, 6 standing for (HL).
    pub open spec fn ld_block_model(self, bus: BusView) -> (Cpu, BusView) {
        let op = self.ctx.opcode;
        let d = (op >> 3u8) & 7;
        let s = op & 7;
        if op == 0x76 {
            (self.halt_model(bus), bus)
        } else if d == 6 {
            self.ld_model(bus, Indirect::HL, reg8_at(s))
        } else if s == 6 {
            self.ld_model(bus, reg8_at(d), Indirect::HL)
        } else {
            self.ld_model(bus, reg8_at(d), reg8_at(s))
        }
    }

    fn decode_ld_block(&mut self, bus: &mut Peripherals)
        requires
            old(bus)@.wf(),
        ensures
            (*final(self), final(bus)@) == old(self).ld_block_model(old(bus)@),
            final(bus)@.wf(),
    {
        let op = self.ctx.opcode;
        let d = (op >> 3) & 7;
        let s = op & 7;
        if op == 0x76 {
            self.halt(bus);
        } else if d == 6 {
            self.ld(bus, Indirect::HL, reg8_of(s));
        } else if s == 6 {
            self.ld(bus, reg8_of(d), Indirect::HL);
        } else {
            self.ld(bus, reg8_of(d), reg8_of(s));
        }
    }

    /// One cycle of the arithmetic or logic operation `k` (ADD, ADC, SUB,
    /// SBC, AND, XOR, OR, CP) on `src`.
    pub open spec fn alu_kind_model<S: Copy>(self, bus: BusView, k: u8, src: S) -> Cpu where
        Self: IO8<S>,
     {
        if k == 0 {
            self.add_model(bus, src)
        } else if k == 1 {
            self.adc_model(bus, src)
        } else if k == 2 {
            self.sub_model(bus, src)
        } else if k == 3 {
            self.sbc_model(bus, src)
        } else if k == 4 {
            self.and_model(bus, src)
        } else if k == 5 {
            self.xor_model(bus, src)
        } else if k == 6 {
            self.or_model(bus, src)
        } else {
            self.cp_model(bus, src)
        }
    }

    fn alu_kind<S: Copy>(&mut self, bus: &Peripherals, k: u8, src: S) where Self: IO8<S>
        requires
            bus@.wf(),
        ensures
            *final(self) == old(self).alu_kind_model(bus@, k, src),
    {
        if k == 0 {
            self.add(bus, src);
        } else if k == 1 {
            self.adc(bus, src);
        } else if k == 2 {
            self.sub(bus, src);
        } else if k == 3 {
            self.sbc(bus, src);
        } else if k == 4 {
            self.and(bus, src);
        } else if k == 5 {
            self.xor(bus, src);
        } else if k == 6 {
            self.or(bus, src);
        } else {
            self.cp(bus, src);
        }
    }

    /// One cycle of the operations 0x80..=0xBF: bits 3..=5 name the operation,
    /// bits 0..=2 the operand, 6 standing for (HL).
    pub open spec fn alu_block_model(self, bus: BusView) -> Cpu {
        let op = self.ctx.opcode;
        if op & 7 == 6 {
            self.alu_kind_model(bus, (op >> 3u8) & 7, Indirect::HL)
        } else {
            self.alu_kind_model(bus, (op >> 3u8) & 7, reg8_at(op & 7))
        }
    }

    fn decode_alu_block(&mut self, bus: &Peripherals)
        requires
            bus@.wf(),
        ensures
            *final(self) == old(self).alu_block_model(bus@),
    {
        let op = self.ctx.opcode;
        if op & 7 == 6 {
            self.alu_kind(bus, (op >> 3) & 7, Indirect::HL);
        } else {
            self.alu_kind(bus, (op >> 3) & 7, reg8_of(op & 7));
        }
    }

    /// One cycle of the instruction whose opcode is in 0xC0..=0xFF.
    pub open spec fn block3_model(self, bus: BusView) -> (Cpu, BusView) {
        let op = self.ctx.opcode;
        if op == 0xC0 {
            (self.ret_c_model(bus, Cond::NZ), bus)
        } else
        if op == 0xC1 {
            (self.pop_model(bus, Reg16::BC), bus)
        } else
        if op == 0xC2 {
            (self.jp_c_model(bus, Cond::NZ), bus)
        } else
        if op == 0xC3 {
            (self.jp_model(bus), bus)
        } else
        if op == 0xC4 {
            self.call_c_model(bus, Cond::NZ)
        } else
        if op == 0xC5 {
            self.push_model(bus, Reg16::BC)
        } else
        if op == 0xC6 {
            (self.add_model(bus, Imm8), bus)
        } else
        if op == 0xC7 {
            self.rst_model(bus, 0x00)
        } else
        if op == 0xC8 {
            (self.ret_c_model(bus, Cond::Z), bus)
        } else
        if op == 0xC9 {
            (self.ret_model(bus), bus)
        } else
        if op == 0xCA {
            (self.jp_c_model(bus, Cond::Z), bus)
        } else
        if op == 0xCB {
            self.cb_prefixed_model(bus)
        } else
        if op == 0xCC {
            self.call_c_model(bus, Cond::Z)
        } else
        if op == 0xCD {
            self.call_model(bus)
        } else
        if op == 0xCE {
            (self.adc_model(bus, Imm8), bus)
        } else
        if op == 0xCF {
            self.rst_model(bus, 0x08)
        } else
        if op == 0xD0 {
            (self.ret_c_model(bus, Cond::NC), bus)
        } else
        if op == 0xD1 {
            (self.pop_model(bus, Reg16::DE), bus)
        } else
        if op == 0xD2 {
            (self.jp_c_model(bus, Cond::NC), bus)
        } else
        if op == 0xD3 {
            (self, bus)
        } else
        if op == 0xD4 {
            self.call_c_model(bus, Cond::NC)
        } else
        if op == 0xD5 {
            self.push_model(bus, Reg16::DE)
        } else
        if op == 0xD6 {
            (self.sub_model(bus, Imm8), bus)
        } else
        if op == 0xD7 {
            self.rst_model(bus, 0x10)
        } else
        if op == 0xD8 {
            (self.ret_c_model(bus, Cond::C), bus)
        } else
        if op == 0xD9 {
            (self.reti_model(bus), bus)
        } else
        if op == 0xDA {
            (self.jp_c_model(bus, Cond::C), bus)
        } else
        if op == 0xDB {
            (self, bus)
        } else
        if op == 0xDC {
            self.call_c_model(bus, Cond::C)
        } else
        if op == 0xDD {
            (self, bus)
        } else
        if op == 0xDE {
            (self.sbc_model(bus, Imm8), bus)
        } else
        if op == 0xDF {
            self.rst_model(bus, 0x18)
        } else
        if op == 0xE0 {
            self.ld_model(bus, Direct8::DFF, Reg8::A)
        } else
        if op == 0xE1 {
            (self.pop_model(bus, Reg16::HL), bus)
        } else
        if op == 0xE2 {
            self.ld_model(bus, Indirect::CFF, Reg8::A)
        } else
        if op == 0xE3 {
            (self, bus)
        } else
        if op == 0xE4 {
            (self, bus)
        } else
        if op == 0xE5 {
            self.push_model(bus, Reg16::HL)
        } else
        if op == 0xE6 {
            (self.and_model(bus, Imm8), bus)
        } else
        if op == 0xE7 {
            self.rst_model(bus, 0x20)
        } else
        if op == 0xE8 {
            (self.add_sp_e_model(bus), bus)
        } else
        if op == 0xE9 {
            (self.jp_hl_model(bus), bus)
        } else
        if op == 0xEA {
            self.ld_model(bus, Direct8::D, Reg8::A)
        } else
        if op == 0xEB {
            (self, bus)
        } else
        if op == 0xEC {
            (self, bus)
        } else
        if op == 0xED {
            (self, bus)
        } else
        if op == 0xEE {
            (self.xor_model(bus, Imm8), bus)
        } else
        if op == 0xEF {
            self.rst_model(bus, 0x28)
        } else
        if op == 0xF0 {
            self.ld_model(bus, Reg8::A, Direct8::DFF)
        } else
        if op == 0xF1 {
            (self.pop_model(bus, Reg16::AF), bus)
        } else
        if op == 0xF2 {
            self.ld_model(bus, Reg8::A, Indirect::CFF)
        } else
        if op == 0xF3 {
            (self.di_model(bus), bus)
        } else
        if op == 0xF4 {
            (self, bus)
        } else
        if op == 0xF5 {
            self.push_model(bus, Reg16::AF)
        } else
        if op == 0xF6 {
            (self.or_model(bus, Imm8), bus)
        } else
        if op == 0xF7 {
            self.rst_model(bus, 0x30)
        } else
        if op == 0xF8 {
            (self.ld_hl_sp_e_model(bus), bus)
        } else
        if op == 0xF9 {
            (self.ld_sp_hl_model(bus), bus)
        } else
        if op == 0xFA {
            self.ld_model(bus, Reg8::A, Direct8::D)
        } else
        if op == 0xFB {
            (self.ei_model(bus), bus)
        } else
        if op == 0xFC {
            (self, bus)
        } else
        if op == 0xFD {
            (self, bus)
        } else
        if op == 0xFE {
            (self.cp_model(bus, Imm8), bus)
        } else {
            self.rst_model(bus, 0x38)
        }
    }

    fn decode_block3(&mut self, bus: &mut Peripherals)
        requires
            old(bus)@.wf(),
            old(self).ctx.opcode >= 0xC0,
            !is_undefined(old(self).ctx.opcode),
        ensures
            (*final(self), final(bus)@) == old(self).block3_model(old(bus)@),
            final(bus)@.wf(),
    {
        match self.ctx.opcode {
            0xC0 => self.ret_c(bus, Cond::NZ),
            0xC1 => self.pop(bus, Reg16::BC),
            0xC2 => self.jp_c(bus, Cond::NZ),
            0xC3 => self.jp(bus),
            0xC4 => self.call_c(bus, Cond::NZ),
            0xC5 => self.push(bus, Reg16::BC),
            0xC6 => self.add(bus, Imm8),
            0xC7 => self.rst(bus, 0x00),
            0xC8 => self.ret_c(bus, Cond::Z),
            0xC9 => self.ret(bus),
            0xCA => self.jp_c(bus, Cond::Z),
            0xCB => self.cb_prefixed(bus),
            0xCC => self.call_c(bus, Cond::Z),
            0xCD => self.call(bus),
            0xCE => self.adc(bus, Imm8),
            0xCF => self.rst(bus, 0x08),
            0xD0 => self.ret_c(bus, Cond::NC),
            0xD1 => self.pop(bus, Reg16::DE),
            0xD2 => self.jp_c(bus, Cond::NC),
            0xD3 => {},
            0xD4 => self.call_c(bus, Cond::NC),
            0xD5 => self.push(bus, Reg16::DE),
            0xD6 => self.sub(bus, Imm8),
            0xD7 => self.rst(bus, 0x10),
            0xD8 => self.ret_c(bus, Cond::C),
            0xD9 => self.reti(bus),
            0xDA => self.jp_c(bus, Cond::C),
            0xDB => {},
            0xDC => self.call_c(bus, Cond::C),
            0xDD => {},
            0xDE => self.sbc(bus, Imm8),
            0xDF => self.rst(bus, 0x18),
            0xE0 => self.ld(bus, Direct8::DFF, Reg8::A),
            0xE1 => self.pop(bus, Reg16::HL),
            0xE2 => self.ld(bus, Indirect::CFF, Reg8::A),
            0xE3 => {},
            0xE4 => {},
            0xE5 => self.push(bus, Reg16::HL),
            0xE6 => self.and(bus, Imm8),
            0xE7 => self.rst(bus, 0x20),
            0xE8 => self.add_sp_e(bus),
            0xE9 => self.jp_hl(bus),
            0xEA => self.ld(bus, Direct8::D, Reg8::A),
            0xEB => {},
            0xEC => {},
            0xED => {},
            0xEE => self.xor(bus, Imm8),
            0xEF => self.rst(bus, 0x28),
            0xF0 => self.ld(bus, Reg8::A, Direct8::DFF),
            0xF1 => self.pop(bus, Reg16::AF),
            0xF2 => self.ld(bus, Reg8::A, Indirect::CFF),
            0xF3 => self.di(bus),
            0xF4 => {},
            0xF5 => self.push(bus, Reg16::AF),
            0xF6 => self.or(bus, Imm8),
            0xF7 => self.rst(bus, 0x30),
            0xF8 => self.ld_hl_sp_e(bus),
            0xF9 => self.ld_sp_hl(bus),
            0xFA => self.ld(bus, Reg8::A, Direct8::D),
            0xFB => self.ei(bus),
            0xFC => {},
            0xFD => {},
            0xFE => self.cp(bus, Imm8),
            0xFF => self.rst(bus, 0x38),
            _ => {},
        }
    }

    /// One cycle of the CB-prefixed operation `op`: bits 3..=7 name the
    /// operation (RLC, RRC, RL, RR, SLA, SRA, SWAP, SRL, then BIT, RES and SET
    /// with the bit number), bits 0..=2 the operand.
    pub open spec fn cb_kind_model<S: Copy>(self, bus: BusView, op: u8, src: S) -> (
        Cpu,
        BusView,
    ) where Self: IO8<S> {
        let k = op >> 3u8;
        let b = ((op >> 3u8) & 7) as usize;
        if k == 0 {
            self.rlc_model(bus, src)
        } else if k == 1 {
            self.rrc_model(bus, src)
        } else if k == 2 {
            self.rl_model(bus, src)
        } else if k == 3 {
            self.rr_model(bus, src)
        } else if k == 4 {
            self.sla_model(bus, src)
        } else if k == 5 {
            self.sra_model(bus, src)
        } else if k == 6 {
            self.swap_model(bus, src)
        } else if k == 7 {
            self.srl_model(bus, src)
        } else if k < 16 {
            (self.bit_model(bus, b, src), bus)
        } else if k < 24 {
            self.res_model(bus, b, src)
        } else {
            self.set_model(bus, b, src)
        }
    }

    fn cb_kind<S: Copy>(&mut self, bus: &mut Peripherals, op: u8, src: S) where Self: IO8<S>
        requires
            old(bus)@.wf(),
            <Cpu as IO8<S>>::writable8(src),
        ensures
            (*final(self), final(bus)@) == old(self).cb_kind_model(old(bus)@, op, src),
            final(bus)@.wf(),
    {
        let k = op >> 3;
        let b = ((op >> 3) & 7) as usize;
        assert((op >> 3u8) & 7 < 8) by (bit_vector);
        if k == 0 {
            self.rlc(bus, src);
        } else if k == 1 {
            self.rrc(bus, src);
        } else if k == 2 {
            self.rl(bus, src);
        } else if k == 3 {
            self.rr(bus, src);
        } else if k == 4 {
            self.sla(bus, src);
        } else if k == 5 {
            self.sra(bus, src);
        } else if k == 6 {
            self.swap(bus, src);
        } else if k == 7 {
            self.srl(bus, src);
        } else if k < 16 {
            self.bit(bus, b, src);
        } else if k < 24 {
            self.res(bus, b, src);
        } else {
            self.set(bus, b, src);
        }
    }

    /// One cycle of the CB-prefixed instruction whose opcode is in `ctx`.
    pub open spec fn cb_decode_model(self, bus: BusView) -> (Cpu, BusView) {
        let op = self.ctx.opcode;
        if op & 7 == 6 {
            self.cb_kind_model(bus, op, Indirect::HL)
        } else {
            self.cb_kind_model(bus, op, reg8_at(op & 7))
        }
    }

    pub fn cb_decode(&mut self, bus: &mut Peripherals)
        requires
            old(bus)@.wf(),
        ensures
            (*final(self), final(bus)@) == old(self).cb_decode_model(old(bus)@),
            final(bus)@.wf(),
    {
        let op = self.ctx.opcode;
        if op & 7 == 6 {
            self.cb_kind(bus, op, Indirect::HL);
        } else {
            self.cb_kind(bus, op, reg8_of(op & 7));
        }
    }

    /// The 0xCB prefix: once the second opcode byte is read, it becomes the
    /// opcode, marked as prefixed, and its first cycle runs at once.
    pub open spec fn cb_prefixed_model(self, bus: BusView) -> (Cpu, BusView) {
        match self.read8_model(bus, Imm8) {
            (c, Some(v)) => {
                let c1 = crate::cpu::Cpu { ctx: crate::cpu::Ctx { opcode: v, cb: true, ..c.ctx }, ..c };
                c1.cb_decode_model(bus)
            },
            (c, None) => (c, bus),
        }
    }

    pub fn cb_prefixed(&mut self, bus: &mut Peripherals)
        requires
            old(bus)@.wf(),
        ensures
            (*final(self), final(bus)@) == old(self).cb_prefixed_model(old(bus)@),
            final(bus)@.wf(),
    {
        if let Some(v) = self.read8(bus, Imm8) {
            self.ctx.opcode = v;
            self.ctx.cb = true;
            self.cb_decode(bus);
        }
    }

    /// One cycle of the instruction in `ctx`.
    pub open spec fn decode_model(self, bus: BusView) -> (Cpu, BusView) {
        let op = self.ctx.opcode;
        if self.ctx.cb {
            self.cb_decode_model(bus)
        } else if op < 0x40 {
            self.block0_model(bus)
        } else if op < 0x80 {
            self.ld_block_model(bus)
        } else if op < 0xC0 {
            (self.alu_block_model(bus), bus)
        } else {
            self.block3_model(bus)
        }
    }

    /// STOP: the emulator stops here, with the CPU as it is.
    pub fn stop(&self, _bus: &Peripherals) -> (r: Halt)
        ensures
            r == Halt::Stop,
    {
        Halt::Stop
    }

    /// An undefined opcode: the emulator stops here, naming the opcode.
    pub fn undefined(&self, _bus: &Peripherals) -> (r: Halt)
        ensures
            r == Halt::Undefined(self.ctx.opcode),
    {
        Halt::Undefined(self.ctx.opcode)
    }

    pub fn decode(&mut self, bus: &mut Peripherals)
        requires
            old(bus)@.wf(),
            !old(self).decode_halts(),
        ensures
            (*final(self), final(bus)@) == old(self).decode_model(old(bus)@),
            final(bus)@.wf(),
    {
        if self.ctx.cb {
            self.cb_decode(bus);
            return ;
        }
        let op = self.ctx.opcode;
        if op < 0x40 {
            self.decode_block0(bus);
        } else if op < 0x80 {
            self.decode_ld_block(bus);
        } else if op < 0xC0 {
            self.decode_alu_block(bus);
        } else {
            self.decode_block3(bus);
        }
    }
}

} // verus!
