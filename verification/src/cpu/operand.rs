use vstd::prelude::*;

use crate::cpu::register::{hi_byte, join, lo_byte, pair, split};
use crate::cpu::{Cpu, Site};
use crate::peripherals::{BusView, Peripherals};

verus! {

/// The 8-bit registers.
#[derive(Clone, Copy, Debug, PartialEq, Eq, Structural)]
pub enum Reg8 {
    A,
    B,
    C,
    D,
    E,
    H,
    L,
}

/// The 16-bit register pairs and the stack pointer.
#[derive(Clone, Copy, Debug, PartialEq, Eq, Structural)]
pub enum Reg16 {
    AF,
    BC,
    DE,
    HL,
    SP,
}

/// The byte that follows the opcode.
#[derive(Clone, Copy, Debug, PartialEq, Eq, Structural)]
pub struct Imm8;

/// The word (low byte first) that follows the opcode.
#[derive(Clone, Copy, Debug, PartialEq, Eq, Structural)]
pub struct Imm16;

/// Memory addressed by a register pair: (BC), (DE), (HL), (0xFF00 + C), and
/// (HL) with HL decremented or incremented afterwards.
#[derive(Clone, Copy, Debug, PartialEq, Eq, Structural)]
pub enum Indirect {
    BC,
    DE,
    HL,
    CFF,
    HLD,
    HLI,
}

/// Memory addressed by the operand: a full 16-bit address, or 0xFF00 plus an
/// 8-bit offset.
#[derive(Clone, Copy, Debug, PartialEq, Eq, Structural)]
pub enum Direct8 {
    D,
    DFF,
}

/// Memory addressed by a 16-bit operand, written as a word.
#[derive(Clone, Copy, Debug, PartialEq, Eq, Structural)]
pub struct Direct16;

/// Branch conditions.
#[derive(Clone, Copy, Debug, PartialEq, Eq, Structural)]
pub enum Cond {
    NZ,
    Z,
    NC,
    C,
}

/// 8-bit operands. A read or write may take several machine cycles: the
/// method returns `None` until the access is complete and is called again on
/// the next cycle.
pub trait IO8<T: Copy>: Sized {
    /// The CPU after one call of `read8`, and the byte once it is available.
    spec fn read8_model(self, bus: BusView, src: T) -> (Self, Option<u8>);

    /// Whether the operand can be written.
    spec fn writable8(dst: T) -> bool;

    /// The CPU and bus after one call of `write8`, and `Some` once the write is done.
    spec fn write8_model(self, bus: BusView, dst: T, val: u8) -> (Self, BusView, Option<()>);

    fn read8(&mut self, bus: &Peripherals, src: T) -> (r: Option<u8>)
        requires
            bus@.wf(),
        ensures
            (*final(self), r) == old(self).read8_model(bus@, src),
    ;

    fn write8(&mut self, bus: &mut Peripherals, dst: T, val: u8) -> (r: Option<()>)
        requires
            old(bus)@.wf(),
            Self::writable8(dst),
        ensures
            (*final(self), final(bus)@, r) == old(self).write8_model(old(bus)@, dst, val),
            final(bus)@.wf(),
    ;
}

/// 16-bit operands, accessed in the same way as `IO8`.
pub trait IO16<T: Copy>: Sized {
    spec fn readable16(src: T) -> bool;

    spec fn read16_model(self, bus: BusView, src: T) -> (Self, Option<u16>);

    spec fn writable16(dst: T) -> bool;

    spec fn write16_model(self, bus: BusView, dst: T, val: u16) -> (Self, BusView, Option<()>);

    fn read16(&mut self, bus: &Peripherals, src: T) -> (r: Option<u16>)
        requires
            bus@.wf(),
            Self::readable16(src),
        ensures
            (*final(self), r) == old(self).read16_model(bus@, src),
    ;

    fn write16(&mut self, bus: &mut Peripherals, dst: T, val: u16) -> (r: Option<()>)
        requires
            old(bus)@.wf(),
            Self::writable16(dst),
        ensures
            (*final(self), final(bus)@, r) == old(self).write16_model(old(bus)@, dst, val),
            final(bus)@.wf(),
    ;
}

impl Cpu {
    /// The value of an 8-bit register.
    pub open spec fn reg8(self, r: Reg8) -> u8 {
        match r {
            Reg8::A => self.regs.a,
            Reg8::B => self.regs.b,
            Reg8::C => self.regs.c,
            Reg8::D => self.regs.d,
            Reg8::E => self.regs.e,
            Reg8::H => self.regs.h,
            Reg8::L => self.regs.l,
        }
    }

    /// The CPU with an 8-bit register set.
    pub open spec fn with_reg8(self, r: Reg8, v: u8) -> Cpu {
        match r {
            Reg8::A => self.with_regs(crate::cpu::register::Registers { a: v, ..self.regs }),
            Reg8::B => self.with_regs(crate::cpu::register::Registers { b: v, ..self.regs }),
            Reg8::C => self.with_regs(crate::cpu::register::Registers { c: v, ..self.regs }),
            Reg8::D => self.with_regs(crate::cpu::register::Registers { d: v, ..self.regs }),
            Reg8::E => self.with_regs(crate::cpu::register::Registers { e: v, ..self.regs }),
            Reg8::H => self.with_regs(crate::cpu::register::Registers { h: v, ..self.regs }),
            Reg8::L => self.with_regs(crate::cpu::register::Registers { l: v, ..self.regs }),
        }
    }

    /// The value of a 16-bit register.
    pub open spec fn reg16(self, r: Reg16) -> u16 {
        match r {
            Reg16::AF => self.regs.af(),
            Reg16::BC => self.regs.bc(),
            Reg16::DE => self.regs.de(),
            Reg16::HL => self.regs.hl(),
            Reg16::SP => self.regs.sp,
        }
    }

    /// The CPU with a 16-bit register written.
    pub open spec fn with_reg16(self, r: Reg16, v: u16) -> Cpu {
        match r {
            Reg16::AF => self.with_regs(self.regs.with_af(v)),
            Reg16::BC => self.with_regs(self.regs.with_bc(v)),
            Reg16::DE => self.with_regs(self.regs.with_de(v)),
            Reg16::HL => self.with_regs(self.regs.with_hl(v)),
            Reg16::SP => self.with_sp(v),
        }
    }

    /// The address that an indirect operand designates.
    pub open spec fn indirect_addr(self, i: Indirect) -> u16 {
        match i {
            Indirect::BC => self.regs.bc(),
            Indirect::DE => self.regs.de(),
            Indirect::CFF => (0xFF00 + self.regs.c) as u16,
            _ => self.regs.hl(),
        }
    }

    /// HL after an access through an indirect operand.
    pub open spec fn indirect_after(self, i: Indirect) -> Cpu {
        match i {
            Indirect::HLD => self.with_regs(self.regs.with_hl(self.regs.hl().wrapping_sub(1))),
            Indirect::HLI => self.with_regs(self.regs.with_hl(self.regs.hl().wrapping_add(1))),
            _ => self,
        }
    }

    /// The CPU and bus after the CPU writes `val` to `addr` on the bus.
    pub open spec fn bus_write(self, bus: BusView, addr: u16, val: u8) -> (Cpu, BusView) {
        let (b, ints) = bus.write_at(self.interrupts, addr, val);
        (self.with_ints(ints), b)
    }
}

/// The address 0xFF00 + `x` is formed by OR-ing the offset into the high page.
proof fn lemma_high_page(x: u8)
    by (bit_vector)
    ensures
        0xFF00u16 | (x as u16) == (0xFF00 + x) as u16,
{
}

impl IO8<Reg8> for Cpu {
    open spec fn read8_model(self, bus: BusView, src: Reg8) -> (Cpu, Option<u8>) {
        (self, Some(self.reg8(src)))
    }

    open spec fn writable8(dst: Reg8) -> bool {
        true
    }

    open spec fn write8_model(self, bus: BusView, dst: Reg8, val: u8) -> (Cpu, BusView, Option<()>) {
        (self.with_reg8(dst, val), bus, Some(()))
    }

    fn read8(&mut self, _bus: &Peripherals, src: Reg8) -> (r: Option<u8>) {
        Some(
            match src {
                Reg8::A => self.regs.a,
                Reg8::B => self.regs.b,
                Reg8::C => self.regs.c,
                Reg8::D => self.regs.d,
                Reg8::E => self.regs.e,
                Reg8::H => self.regs.h,
                Reg8::L => self.regs.l,
            },
        )
    }

    fn write8(&mut self, _bus: &mut Peripherals, dst: Reg8, val: u8) -> (r: Option<()>) {
        match dst {
            Reg8::A => self.regs.a = val,
            Reg8::B => self.regs.b = val,
            Reg8::C => self.regs.c = val,
            Reg8::D => self.regs.d = val,
            Reg8::E => self.regs.e = val,
            Reg8::H => self.regs.h = val,
            Reg8::L => self.regs.l = val,
        }
        Some(())
    }
}

impl IO16<Reg16> for Cpu {
    open spec fn readable16(src: Reg16) -> bool {
        true
    }

    open spec fn read16_model(self, bus: BusView, src: Reg16) -> (Cpu, Option<u16>) {
        (self, Some(self.reg16(src)))
    }

    open spec fn writable16(dst: Reg16) -> bool {
        true
    }

    open spec fn write16_model(self, bus: BusView, dst: Reg16, val: u16) -> (Cpu, BusView, Option<()>) {
        (self.with_reg16(dst, val), bus, Some(()))
    }

    fn read16(&mut self, _bus: &Peripherals, src: Reg16) -> (r: Option<u16>) {
        Some(
            match src {
                Reg16::AF => self.regs.af(),
                Reg16::BC => self.regs.bc(),
                Reg16::DE => self.regs.de(),
                Reg16::HL => self.regs.hl(),
                Reg16::SP => self.regs.sp,
            },
        )
    }

    fn write16(&mut self, _bus: &mut Peripherals, dst: Reg16, val: u16) -> (r: Option<()>) {
        match dst {
            Reg16::AF => self.regs.write_af(val),
            Reg16::BC => self.regs.write_bc(val),
            Reg16::DE => self.regs.write_de(val),
            Reg16::HL => self.regs.write_hl(val),
            Reg16::SP => self.regs.sp = val,
        }
        Some(())
    }
}

impl IO8<Imm8> for Cpu {
    /// First cycle: the byte at PC is read and PC advances. Second cycle: the byte is delivered.
    open spec fn read8_model(self, bus: BusView, src: Imm8) -> (Cpu, Option<u8>) {
        let s = self.st(Site::Imm8);
        if s.step == 0 {
            (
                self.keep8(Site::Imm8, bus.read_at(self.interrupts, self.regs.pc)).with_pc(
                    self.regs.pc.wrapping_add(1),
                ).go(Site::Imm8, 1),
                None,
            )
        } else if s.step == 1 {
            (self.go(Site::Imm8, 0), Some(s.val8))
        } else {
            (self, None)
        }
    }

    open spec fn writable8(dst: Imm8) -> bool {
        false
    }

    open spec fn write8_model(self, bus: BusView, dst: Imm8, val: u8) -> (Cpu, BusView, Option<()>) {
        (self, bus, None)
    }

    fn read8(&mut self, bus: &Peripherals, _src: Imm8) -> (r: Option<u8>) {
        if self.steps.imm8.step == 0 {
            self.steps.imm8.val8 = bus.read(&self.interrupts, self.regs.pc);
            self.regs.pc = self.regs.pc.wrapping_add(1);
            self.steps.imm8.step = 1;
            return None;
        }
        if self.steps.imm8.step == 1 {
            self.steps.imm8.step = 0;
            return Some(self.steps.imm8.val8);
        } else {
            return None;
        }
    }

    /// An immediate operand cannot be written.
    fn write8(&mut self, _bus: &mut Peripherals, _dst: Imm8, _val: u8) -> (r: Option<()>) {
        None
    }
}

impl IO16<Imm16> for Cpu {
    open spec fn readable16(src: Imm16) -> bool {
        true
    }

    /// The low byte and then the high byte are read as immediates; the word is
    /// delivered on the cycle after the high byte arrives.
    open spec fn read16_model(self, bus: BusView, src: Imm16) -> (Cpu, Option<u16>) {
        let c0 = if self.st(Site::Imm16).step == 0 {
            match self.read8_model(bus, Imm8) {
                (c, Some(lo)) => c.keep8(Site::Imm16, lo).go(Site::Imm16, 1),
                (c, None) => c,
            }
        } else {
            self
        };
        let c1 = if c0.st(Site::Imm16).step == 1 {
            match c0.read8_model(bus, Imm8) {
                (c, Some(hi)) => c.keep16(Site::Imm16, pair(hi, c0.st(Site::Imm16).val8)).go(
                    Site::Imm16,
                    2,
                ),
                (c, None) => c,
            }
        } else {
            c0
        };
        if c1.st(Site::Imm16).step == 2 {
            (c1.go(Site::Imm16, 0), Some(c1.st(Site::Imm16).val16))
        } else {
            (c1, None)
        }
    }

    open spec fn writable16(dst: Imm16) -> bool {
        false
    }

    open spec fn write16_model(self, bus: BusView, dst: Imm16, val: u16) -> (Cpu, BusView, Option<()>) {
        (self, bus, None)
    }

    fn read16(&mut self, bus: &Peripherals, _src: Imm16) -> (r: Option<u16>) {
        if self.steps.imm16.step == 0 {
            if let Some(lo) = self.read8(bus, Imm8) {
                self.steps.imm16.val8 = lo;
                self.steps.imm16.step = 1;
            }
        }
        if self.steps.imm16.step == 1 {
            if let Some(hi) = self.read8(bus, Imm8) {
                self.steps.imm16.val16 = join(hi, self.steps.imm16.val8);
                self.steps.imm16.step = 2;
            }
        }
        if self.steps.imm16.step == 2 {
            self.steps.imm16.step = 0;
            return Some(self.steps.imm16.val16);
        } else {
            return None;
        }
    }

    /// An immediate operand cannot be written.
    fn write16(&mut self, _bus: &mut Peripherals, _dst: Imm16, _val: u16) -> (r: Option<()>) {
        None
    }
}

impl IO8<Indirect> for Cpu {
    /// First cycle: the byte at the operand's address is read (and HL moves for
    /// HLD and HLI). Second cycle: the byte is delivered.
    open spec fn read8_model(self, bus: BusView, src: Indirect) -> (Cpu, Option<u8>) {
        let s = self.st(Site::IndRead);
        if s.step == 0 {
            (
                self.indirect_after(src).keep8(
                    Site::IndRead,
                    bus.read_at(self.interrupts, self.indirect_addr(src)),
                ).go(Site::IndRead, 1),
                None,
            )
        } else if s.step == 1 {
            (self.go(Site::IndRead, 0), Some(s.val8))
        } else {
            (self, None)
        }
    }

    open spec fn writable8(dst: Indirect) -> bool {
        true
    }

    /// First cycle: the byte is written (and HL moves for HLD and HLI). Second
    /// cycle: the write is reported done.
    open spec fn write8_model(self, bus: BusView, dst: Indirect, val: u8) -> (Cpu, BusView, Option<()>) {
        let s = self.st(Site::IndWrite);
        if s.step == 0 {
            let (c, b) = self.indirect_after(dst).bus_write(bus, self.indirect_addr(dst), val);
            (c.go(Site::IndWrite, 1), b, None)
        } else if s.step == 1 {
            (self.go(Site::IndWrite, 0), bus, Some(()))
        } else {
            (self, bus, None)
        }
    }

    fn read8(&mut self, bus: &Peripherals, src: Indirect) -> (r: Option<u8>) {
        if self.steps.ind_read.step == 0 {
            self.steps.ind_read.val8 =
            match src {
                Indirect::BC => bus.read(&self.interrupts, self.regs.bc()),
                Indirect::DE => bus.read(&self.interrupts, self.regs.de()),
                Indirect::HL => bus.read(&self.interrupts, self.regs.hl()),
                Indirect::CFF => bus.read(&self.interrupts, 0xFF00 | (self.regs.c as u16)),
                Indirect::HLD => {
                    let addr = self.regs.hl();
                    self.regs.write_hl(addr.wrapping_sub(1));
                    bus.read(&self.interrupts, addr)
                },
                Indirect::HLI => {
                    let addr = self.regs.hl();
                    self.regs.write_hl(addr.wrapping_add(1));
                    bus.read(&self.interrupts, addr)
                },
            };
            proof {
                let c = self.regs.c;
                lemma_high_page(c);
            }
            self.steps.ind_read.step = 1;
            return None;
        }
        if self.steps.ind_read.step == 1 {
            self.steps.ind_read.step = 0;
            return Some(self.steps.ind_read.val8);
        } else {
            return None;
        }
    }

    fn write8(&mut self, bus: &mut Peripherals, dst: Indirect, val: u8) -> (r: Option<()>) {
        if self.steps.ind_write.step == 0 {
            proof {
                let c = self.regs.c;
                lemma_high_page(c);
            }
            match dst {
                Indirect::BC => bus.write(&mut self.interrupts, self.regs.bc(), val),
                Indirect::DE => bus.write(&mut self.interrupts, self.regs.de(), val),
                Indirect::HL => bus.write(&mut self.interrupts, self.regs.hl(), val),
                Indirect::CFF => bus.write(
                    &mut self.interrupts,
                    0xFF00 | (self.regs.c as u16),
                    val,
                ),
                Indirect::HLD => {
                    let addr = self.regs.hl();
                    self.regs.write_hl(addr.wrapping_sub(1));
                    bus.write(&mut self.interrupts, addr, val);
                },
                Indirect::HLI => {
                    let addr = self.regs.hl();
                    self.regs.write_hl(addr.wrapping_add(1));
                    bus.write(&mut self.interrupts, addr, val);
                },
            }
            self.steps.ind_write.step = 1;
            return None;
        }
        if self.steps.ind_write.step == 1 {
            self.steps.ind_write.step = 0;
            return Some(());
        } else {
            return None;
        }
    }
}

impl IO8<Direct8> for Cpu {
    /// The address comes from the immediate operand (one byte for DFF, added
    /// to 0xFF00; two bytes otherwise); on the cycle after it is known, the
    /// byte there is read, and it is delivered on the next cycle.
    open spec fn read8_model(self, bus: BusView, src: Direct8) -> (Cpu, Option<u8>) {
        let c0 = if self.st(Site::Dir8Read).step == 0 {
            match self.read8_model(bus, Imm8) {
                (c, Some(lo)) => if src is DFF {
                    c.keep8(Site::Dir8Read, lo).keep16(Site::Dir8Read, (0xFF00 + lo) as u16).go(
                        Site::Dir8Read,
                        2,
                    )
                } else {
                    c.keep8(Site::Dir8Read, lo).go(Site::Dir8Read, 1)
                },
                (c, None) => c,
            }
        } else {
            self
        };
        let c1 = if c0.st(Site::Dir8Read).step == 1 {
            match c0.read8_model(bus, Imm8) {
                (c, Some(hi)) => c.keep16(Site::Dir8Read, pair(hi, c0.st(Site::Dir8Read).val8)).go(
                    Site::Dir8Read,
                    2,
                ),
                (c, None) => c,
            }
        } else {
            c0
        };
        if c1.st(Site::Dir8Read).step == 2 {
            (
                c1.keep8(
                    Site::Dir8Read,
                    bus.read_at(c1.interrupts, c1.st(Site::Dir8Read).val16),
                ).go(Site::Dir8Read, 3),
                None,
            )
        } else if c1.st(Site::Dir8Read).step == 3 {
            (c1.go(Site::Dir8Read, 0), Some(c1.st(Site::Dir8Read).val8))
        } else {
            (c1, None)
        }
    }

    open spec fn writable8(dst: Direct8) -> bool {
        true
    }

    /// The address is formed as for a read; on the cycle after it is known the
    /// byte is written, and the write is reported done on the next cycle.
    open spec fn write8_model(self, bus: BusView, dst: Direct8, val: u8) -> (Cpu, BusView, Option<()>) {
        let c0 = if self.st(Site::Dir8Write).step == 0 {
            match self.read8_model(bus, Imm8) {
                (c, Some(lo)) => if dst is DFF {
                    c.keep8(Site::Dir8Write, lo).keep16(Site::Dir8Write, (0xFF00 + lo) as u16).go(
                        Site::Dir8Write,
                        2,
                    )
                } else {
                    c.keep8(Site::Dir8Write, lo).go(Site::Dir8Write, 1)
                },
                (c, None) => c,
            }
        } else {
            self
        };
        let c1 = if c0.st(Site::Dir8Write).step == 1 {
            match c0.read8_model(bus, Imm8) {
                (c, Some(hi)) => c.keep16(Site::Dir8Write, pair(hi, c0.st(Site::Dir8Write).val8)).go(
                    Site::Dir8Write,
                    2,
                ),
                (c, None) => c,
            }
        } else {
            c0
        };
        if c1.st(Site::Dir8Write).step == 2 {
            let (c2, b2) = c1.bus_write(bus, c1.st(Site::Dir8Write).val16, val);
            (c2.go(Site::Dir8Write, 3), b2, None)
        } else if c1.st(Site::Dir8Write).step == 3 {
            (c1.go(Site::Dir8Write, 0), bus, Some(()))
        } else {
            (c1, bus, None)
        }
    }

    fn read8(&mut self, bus: &Peripherals, src: Direct8) -> (r: Option<u8>) {
        if self.steps.dir8_read.step == 0 {
            if let Some(lo) = self.read8(bus, Imm8) {
                self.steps.dir8_read.val8 = lo;
                self.steps.dir8_read.step = 1;
                if let Direct8::DFF = src {
                    proof {
                        lemma_high_page(lo);
                    }
                    self.steps.dir8_read.val16 = 0xFF00 | (lo as u16);
                    self.steps.dir8_read.step = 2;
                }
            }
        }
        if self.steps.dir8_read.step == 1 {
            if let Some(hi) = self.read8(bus, Imm8) {
                self.steps.dir8_read.val16 = join(hi, self.steps.dir8_read.val8);
                self.steps.dir8_read.step = 2;
            }
        }
        if self.steps.dir8_read.step == 2 {
            self.steps.dir8_read.val8 = bus.read(&self.interrupts, self.steps.dir8_read.val16);
            self.steps.dir8_read.step = 3;
            return None;
        }
        if self.steps.dir8_read.step == 3 {
            self.steps.dir8_read.step = 0;
            return Some(self.steps.dir8_read.val8);
        } else {
            return None;
        }
    }

    fn write8(&mut self, bus: &mut Peripherals, dst: Direct8, val: u8) -> (r: Option<()>) {
        if self.steps.dir8_write.step == 0 {
            if let Some(lo) = self.read8(bus, Imm8) {
                self.steps.dir8_write.val8 = lo;
                self.steps.dir8_write.step = 1;
                if let Direct8::DFF = dst {
                    proof {
                        lemma_high_page(lo);
                    }
                    self.steps.dir8_write.val16 = 0xFF00 | (lo as u16);
                    self.steps.dir8_write.step = 2;
                }
            }
        }
        if self.steps.dir8_write.step == 1 {
            if let Some(hi) = self.read8(bus, Imm8) {
                self.steps.dir8_write.val16 = join(hi, self.steps.dir8_write.val8);
                self.steps.dir8_write.step = 2;
            }
        }
        if self.steps.dir8_write.step == 2 {
            bus.write(&mut self.interrupts, self.steps.dir8_write.val16, val);
            self.steps.dir8_write.step = 3;
            return None;
        }
        if self.steps.dir8_write.step == 3 {
            self.steps.dir8_write.step = 0;
            return Some(());
        } else {
            return None;
        }
    }
}

impl IO16<Direct16> for Cpu {
    open spec fn readable16(src: Direct16) -> bool {
        false
    }

    open spec fn read16_model(self, bus: BusView, src: Direct16) -> (Cpu, Option<u16>) {
        (self, None)
    }

    open spec fn writable16(dst: Direct16) -> bool {
        true
    }

    /// The address comes from the two-byte immediate operand; the low byte of
    /// the value is written there and, on the next cycle, the high byte at the
    /// following address; the write is reported done on the cycle after.
    open spec fn write16_model(self, bus: BusView, dst: Direct16, val: u16) -> (Cpu, BusView, Option<()>) {
        let c0 = if self.st(Site::Dir16Write).step == 0 {
            match self.read8_model(bus, Imm8) {
                (c, Some(lo)) => c.keep8(Site::Dir16Write, lo).go(Site::Dir16Write, 1),
                (c, None) => c,
            }
        } else {
            self
        };
        let c1 = if c0.st(Site::Dir16Write).step == 1 {
            match c0.read8_model(bus, Imm8) {
                (c, Some(hi)) => c.keep16(Site::Dir16Write, pair(hi, c0.st(Site::Dir16Write).val8)).go(
                    Site::Dir16Write,
                    2,
                ),
                (c, None) => c,
            }
        } else {
            c0
        };
        let a = c1.st(Site::Dir16Write).val16;
        if c1.st(Site::Dir16Write).step == 2 {
            let (c2, b2) = c1.bus_write(bus, a, lo_byte(val));
            (c2.go(Site::Dir16Write, 3), b2, None)
        } else if c1.st(Site::Dir16Write).step == 3 {
            let (c2, b2) = c1.bus_write(bus, a.wrapping_add(1), hi_byte(val));
            (c2.go(Site::Dir16Write, 4), b2, None)
        } else if c1.st(Site::Dir16Write).step == 4 {
            (c1.go(Site::Dir16Write, 0), bus, Some(()))
        } else {
            (c1, bus, None)
        }
    }

    /// A direct operand is only ever written as a word.
    fn read16(&mut self, _bus: &Peripherals, _src: Direct16) -> (r: Option<u16>) {
        None
    }

    fn write16(&mut self, bus: &mut Peripherals, _dst: Direct16, val: u16) -> (r: Option<()>) {
        if self.steps.dir16_write.step == 0 {
            if let Some(lo) = self.read8(bus, Imm8) {
                self.steps.dir16_write.val8 = lo;
                self.steps.dir16_write.step = 1;
            }
        }
        if self.steps.dir16_write.step == 1 {
            if let Some(hi) = self.read8(bus, Imm8) {
                self.steps.dir16_write.val16 = join(hi, self.steps.dir16_write.val8);
                self.steps.dir16_write.step = 2;
            }
        }
        let (hi, lo) = split(val);
        if self.steps.dir16_write.step == 2 {
            bus.write(&mut self.interrupts, self.steps.dir16_write.val16, lo);
            self.steps.dir16_write.step = 3;
            return None;
        }
        if self.steps.dir16_write.step == 3 {
            bus.write(&mut self.interrupts, self.steps.dir16_write.val16.wrapping_add(1), hi);
            self.steps.dir16_write.step = 4;
            return None;
        }
        if self.steps.dir16_write.step == 4 {
            self.steps.dir16_write.step = 0;
            return Some(());
        } else {
            return None;
        }
    }
}

} // verus!
