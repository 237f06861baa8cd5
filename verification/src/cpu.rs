pub mod decode;
pub mod fetch;
pub mod instructions;
pub mod interrupts;
pub mod laws;
pub mod operand;
pub mod register;

use vstd::prelude::*;

use crate::cpu::decode::{is_undefined, Halt, STOP};
use crate::cpu::interrupts::{Interrupts, JOYPAD, SERIAL, STAT, TIMER, VBLANK};
use crate::cpu::register::Registers;
use crate::peripherals::{BusView, Peripherals};

verus! {

/// What the CPU is doing between cycles: the opcode being executed, whether it
/// came after the 0xCB prefix, and whether an interrupt is being dispatched.
#[derive(Clone, Copy, Debug, PartialEq, Eq, Structural)]
pub struct Ctx {
    pub opcode: u8,
    pub cb: bool,
    pub int: bool,
}

impl Default for Ctx {
    fn default() -> (r: Self)
        ensures
            r == (Ctx { opcode: 0, cb: false, int: false }),
    {
        Ctx { opcode: 0, cb: false, int: false }
    }
}

/// The progress of one multi-cycle operation: the phase it is in and the byte
/// and word it carries from one phase to the next.
#[derive(Clone, Copy, Debug, PartialEq, Eq, Structural)]
pub struct StepState {
    pub step: u8,
    pub val8: u8,
    pub val16: u16,
}

impl StepState {
    pub open spec fn idle_spec() -> StepState {
        StepState { step: 0, val8: 0, val16: 0 }
    }

    pub fn idle() -> (r: StepState)
        ensures
            r == StepState::idle_spec(),
    {
        StepState { step: 0, val8: 0, val16: 0 }
    }
}

/// The operations that take more than one machine cycle, each of which keeps
/// its own progress between cycles.
#[derive(Clone, Copy, Debug, PartialEq, Eq, Structural)]
pub enum Site {
    Isr,
    Imm8,
    Imm16,
    IndRead,
    IndWrite,
    Dir8Read,
    Dir8Write,
    Dir16Write,
    Ld,
    Ld16,
    Inc,
    Inc16,
    Dec,
    Dec16,
    Rl,
    Push16,
    Push,
    Pop16,
    Jr,
    JrC,
    Call,
    Ret,
    Reti,
    Halt,
    Rlc,
    Rrc,
    Rr,
    Sla,
    Sra,
    Srl,
    SetBit,
    ResBit,
    Jp,
    JpC,
    CallC,
    RetC,
    Swap,
    LdSpHl,
    LdHlSpE,
    AddHlReg16,
    AddSpE,
}

/// The progress of every multi-cycle operation.
#[derive(Clone, Copy, Debug, PartialEq, Eq, Structural)]
pub struct Steps {
    pub isr: StepState,
    pub imm8: StepState,
    pub imm16: StepState,
    pub ind_read: StepState,
    pub ind_write: StepState,
    pub dir8_read: StepState,
    pub dir8_write: StepState,
    pub dir16_write: StepState,
    pub ld: StepState,
    pub ld16: StepState,
    pub inc: StepState,
    pub inc16: StepState,
    pub dec: StepState,
    pub dec16: StepState,
    pub rl: StepState,
    pub push16: StepState,
    pub push: StepState,
    pub pop16: StepState,
    pub jr: StepState,
    pub jr_c: StepState,
    pub call: StepState,
    pub ret: StepState,
    pub reti: StepState,
    pub halt: StepState,
    pub rlc: StepState,
    pub rrc: StepState,
    pub rr: StepState,
    pub sla: StepState,
    pub sra: StepState,
    pub srl: StepState,
    pub set_bit: StepState,
    pub res_bit: StepState,
    pub jp: StepState,
    pub jp_c: StepState,
    pub call_c: StepState,
    pub ret_c: StepState,
    pub swap: StepState,
    pub ld_sp_hl: StepState,
    pub ld_hl_sp_e: StepState,
    pub add_hl_reg16: StepState,
    pub add_sp_e: StepState,
}

impl Steps {
    pub open spec fn at(self, s: Site) -> StepState {
        match s {
            Site::Isr => self.isr,
            Site::Imm8 => self.imm8,
            Site::Imm16 => self.imm16,
            Site::IndRead => self.ind_read,
            Site::IndWrite => self.ind_write,
            Site::Dir8Read => self.dir8_read,
            Site::Dir8Write => self.dir8_write,
            Site::Dir16Write => self.dir16_write,
            Site::Ld => self.ld,
            Site::Ld16 => self.ld16,
            Site::Inc => self.inc,
            Site::Inc16 => self.inc16,
            Site::Dec => self.dec,
            Site::Dec16 => self.dec16,
            Site::Rl => self.rl,
            Site::Push16 => self.push16,
            Site::Push => self.push,
            Site::Pop16 => self.pop16,
            Site::Jr => self.jr,
            Site::JrC => self.jr_c,
            Site::Call => self.call,
            Site::Ret => self.ret,
            Site::Reti => self.reti,
            Site::Halt => self.halt,
            Site::Rlc => self.rlc,
            Site::Rrc => self.rrc,
            Site::Rr => self.rr,
            Site::Sla => self.sla,
            Site::Sra => self.sra,
            Site::Srl => self.srl,
            Site::SetBit => self.set_bit,
            Site::ResBit => self.res_bit,
            Site::Jp => self.jp,
            Site::JpC => self.jp_c,
            Site::CallC => self.call_c,
            Site::RetC => self.ret_c,
            Site::Swap => self.swap,
            Site::LdSpHl => self.ld_sp_hl,
            Site::LdHlSpE => self.ld_hl_sp_e,
            Site::AddHlReg16 => self.add_hl_reg16,
            Site::AddSpE => self.add_sp_e,
        }
    }

    pub open spec fn put(self, s: Site, st: StepState) -> Steps {
        match s {
            Site::Isr => Steps { isr: st, ..self },
            Site::Imm8 => Steps { imm8: st, ..self },
            Site::Imm16 => Steps { imm16: st, ..self },
            Site::IndRead => Steps { ind_read: st, ..self },
            Site::IndWrite => Steps { ind_write: st, ..self },
            Site::Dir8Read => Steps { dir8_read: st, ..self },
            Site::Dir8Write => Steps { dir8_write: st, ..self },
            Site::Dir16Write => Steps { dir16_write: st, ..self },
            Site::Ld => Steps { ld: st, ..self },
            Site::Ld16 => Steps { ld16: st, ..self },
            Site::Inc => Steps { inc: st, ..self },
            Site::Inc16 => Steps { inc16: st, ..self },
            Site::Dec => Steps { dec: st, ..self },
            Site::Dec16 => Steps { dec16: st, ..self },
            Site::Rl => Steps { rl: st, ..self },
            Site::Push16 => Steps { push16: st, ..self },
            Site::Push => Steps { push: st, ..self },
            Site::Pop16 => Steps { pop16: st, ..self },
            Site::Jr => Steps { jr: st, ..self },
            Site::JrC => Steps { jr_c: st, ..self },
            Site::Call => Steps { call: st, ..self },
            Site::Ret => Steps { ret: st, ..self },
            Site::Reti => Steps { reti: st, ..self },
            Site::Halt => Steps { halt: st, ..self },
            Site::Rlc => Steps { rlc: st, ..self },
            Site::Rrc => Steps { rrc: st, ..self },
            Site::Rr => Steps { rr: st, ..self },
            Site::Sla => Steps { sla: st, ..self },
            Site::Sra => Steps { sra: st, ..self },
            Site::Srl => Steps { srl: st, ..self },
            Site::SetBit => Steps { set_bit: st, ..self },
            Site::ResBit => Steps { res_bit: st, ..self },
            Site::Jp => Steps { jp: st, ..self },
            Site::JpC => Steps { jp_c: st, ..self },
            Site::CallC => Steps { call_c: st, ..self },
            Site::RetC => Steps { ret_c: st, ..self },
            Site::Swap => Steps { swap: st, ..self },
            Site::LdSpHl => Steps { ld_sp_hl: st, ..self },
            Site::LdHlSpE => Steps { ld_hl_sp_e: st, ..self },
            Site::AddHlReg16 => Steps { add_hl_reg16: st, ..self },
            Site::AddSpE => Steps { add_sp_e: st, ..self },
        }
    }

    /// Every operation is in its first phase with nothing carried.
    pub open spec fn all_idle(self) -> bool {
        self.isr == StepState::idle_spec() && self.imm8 == StepState::idle_spec() && self.imm16 == StepState::idle_spec() && self.ind_read == StepState::idle_spec() && self.ind_write == StepState::idle_spec() && self.dir8_read == StepState::idle_spec() && self.dir8_write == StepState::idle_spec() && self.dir16_write == StepState::idle_spec() && self.ld == StepState::idle_spec() && self.ld16 == StepState::idle_spec() && self.inc == StepState::idle_spec() && self.inc16 == StepState::idle_spec() && self.dec == StepState::idle_spec() && self.dec16 == StepState::idle_spec() && self.rl == StepState::idle_spec() && self.push16 == StepState::idle_spec() && self.push == StepState::idle_spec() && self.pop16 == StepState::idle_spec() && self.jr == StepState::idle_spec() && self.jr_c == StepState::idle_spec() && self.call == StepState::idle_spec() && self.ret == StepState::idle_spec() && self.reti == StepState::idle_spec() && self.halt == StepState::idle_spec() && self.rlc == StepState::idle_spec() && self.rrc == StepState::idle_spec() && self.rr == StepState::idle_spec() && self.sla == StepState::idle_spec() && self.sra == StepState::idle_spec() && self.srl == StepState::idle_spec() && self.set_bit == StepState::idle_spec() && self.res_bit == StepState::idle_spec() && self.jp == StepState::idle_spec() && self.jp_c == StepState::idle_spec() && self.call_c == StepState::idle_spec() && self.ret_c == StepState::idle_spec() && self.swap == StepState::idle_spec() && self.ld_sp_hl == StepState::idle_spec() && self.ld_hl_sp_e == StepState::idle_spec() && self.add_hl_reg16 == StepState::idle_spec() && self.add_sp_e == StepState::idle_spec()
    }

    pub fn new() -> (r: Steps)
        ensures
            r.all_idle(),
    {
        Steps {
            isr: StepState::idle(),
            imm8: StepState::idle(),
            imm16: StepState::idle(),
            ind_read: StepState::idle(),
            ind_write: StepState::idle(),
            dir8_read: StepState::idle(),
            dir8_write: StepState::idle(),
            dir16_write: StepState::idle(),
            ld: StepState::idle(),
            ld16: StepState::idle(),
            inc: StepState::idle(),
            inc16: StepState::idle(),
            dec: StepState::idle(),
            dec16: StepState::idle(),
            rl: StepState::idle(),
            push16: StepState::idle(),
            push: StepState::idle(),
            pop16: StepState::idle(),
            jr: StepState::idle(),
            jr_c: StepState::idle(),
            call: StepState::idle(),
            ret: StepState::idle(),
            reti: StepState::idle(),
            halt: StepState::idle(),
            rlc: StepState::idle(),
            rrc: StepState::idle(),
            rr: StepState::idle(),
            sla: StepState::idle(),
            sra: StepState::idle(),
            srl: StepState::idle(),
            set_bit: StepState::idle(),
            res_bit: StepState::idle(),
            jp: StepState::idle(),
            jp_c: StepState::idle(),
            call_c: StepState::idle(),
            ret_c: StepState::idle(),
            swap: StepState::idle(),
            ld_sp_hl: StepState::idle(),
            ld_hl_sp_e: StepState::idle(),
            add_hl_reg16: StepState::idle(),
            add_sp_e: StepState::idle(),
        }
    }
}

/// The SM83 core: registers, interrupt registers, the decoding context and the
/// progress of the operation in flight.
pub struct Cpu {
    pub regs: Registers,
    pub interrupts: Interrupts,
    pub ctx: Ctx,
    pub steps: Steps,
}

impl Cpu {
    pub open spec fn st(self, s: Site) -> StepState {
        self.steps.at(s)
    }

    /// Moves the operation at `s` to phase `k`.
    pub open spec fn go(self, s: Site, k: u8) -> Cpu {
        Cpu { steps: self.steps.put(s, StepState { step: k, ..self.steps.at(s) }), ..self }
    }

    /// Keeps byte `v` for a later phase of the operation at `s`.
    pub open spec fn keep8(self, s: Site, v: u8) -> Cpu {
        Cpu { steps: self.steps.put(s, StepState { val8: v, ..self.steps.at(s) }), ..self }
    }

    /// Keeps word `v` for a later phase of the operation at `s`.
    pub open spec fn keep16(self, s: Site, v: u16) -> Cpu {
        Cpu { steps: self.steps.put(s, StepState { val16: v, ..self.steps.at(s) }), ..self }
    }

    pub open spec fn with_regs(self, regs: Registers) -> Cpu {
        Cpu { regs, ..self }
    }

    pub open spec fn with_ints(self, interrupts: Interrupts) -> Cpu {
        Cpu { interrupts, ..self }
    }

    pub open spec fn with_pc(self, pc: u16) -> Cpu {
        Cpu { regs: Registers { pc, ..self.regs }, ..self }
    }

    pub open spec fn with_sp(self, sp: u16) -> Cpu {
        Cpu { regs: Registers { sp, ..self.regs }, ..self }
    }

    /// A CPU at power-on: all registers zero, interrupts off, nothing in flight.
    pub open spec fn power_on(self) -> bool {
        &&& self.regs == Registers { pc: 0, sp: 0, a: 0, b: 0, c: 0, d: 0, e: 0, f: 0, h: 0, l: 0 }
        &&& self.interrupts == Interrupts { ime: false, int_flags: 0, int_enable: 0 }
        &&& self.ctx == Ctx { opcode: 0, cb: false, int: false }
        &&& self.steps.all_idle()
    }

    pub fn new() -> (r: Self)
        ensures
            r.power_on(),
    {
        Cpu {
            regs: Registers::default(),
            interrupts: Interrupts::default(),
            ctx: Ctx::default(),
            steps: Steps::new(),
        }
    }
}

/// The bit of the highest-priority pending interrupt: the lowest set bit.
pub open spec fn lowest_bit(pending: u8) -> u8 {
    1u8 << vstd::std_specs::bits::u8_trailing_zeros(pending)
}

/// The handler address of an interrupt: 0x40 for V-blank, then every 8 bytes
/// for LCD status, timer, serial and joypad.
pub open spec fn isr_vector(pending: u8) -> u16 {
    (0x40 + 8 * vstd::std_specs::bits::u8_trailing_zeros(pending)) as u16
}

/// For a nonzero set of the five interrupt sources, the lowest set bit is one
/// of the five, its index is below 5, it is set, and no bit below it is: the
/// interrupt served first is the pending one of highest priority.
pub proof fn lemma_lowest_bit(p: u8)
    requires
        p != 0,
        p < 32,
    ensures
        vstd::std_specs::bits::u8_trailing_zeros(p) < 5,
        lowest_bit(p) == VBLANK || lowest_bit(p) == STAT || lowest_bit(p) == TIMER || lowest_bit(p)
            == SERIAL || lowest_bit(p) == JOYPAD,
        p & lowest_bit(p) != 0,
        p & ((lowest_bit(p) - 1) as u8) == 0,
{
    vstd::std_specs::bits::axiom_u8_trailing_zeros(p);
    let t = vstd::std_specs::bits::u8_trailing_zeros(p) as u8;
    let low = (p << ((8 - t) as u8)) == 0u8;
    assert(low);
    assert((p < 32 && 5 <= t < 8 ==> (p >> t) & 1u8 == 0u8) && (t < 5 ==> (1u8 << t == 1 || 1u8
        << t == 2 || 1u8 << t == 4 || 1u8 << t == 8 || 1u8 << t == 16)) && (t < 8 && (p >> t)
        & 1u8 == 1u8 ==> p & (1u8 << t) != 0) && (t < 8 && low == ((p << ((8 - t) as u8))
        == 0u8) && low ==> p & (((1u8 << t) - 1) as u8) == 0)) by (bit_vector);
}

/// Which handler each interrupt bit leads to.
pub proof fn lemma_isr_vector(p: u8)
    requires
        p != 0,
        p < 32,
    ensures
        lowest_bit(p) == VBLANK ==> isr_vector(p) == 0x40,
        lowest_bit(p) == STAT ==> isr_vector(p) == 0x48,
        lowest_bit(p) == TIMER ==> isr_vector(p) == 0x50,
        lowest_bit(p) == SERIAL ==> isr_vector(p) == 0x58,
        lowest_bit(p) == JOYPAD ==> isr_vector(p) == 0x60,
{
    lemma_lowest_bit(p);
    let t = vstd::std_specs::bits::u8_trailing_zeros(p);
    assert(t < 5 ==> ((1u8 << t == 1u8 ==> t == 0) && (1u8 << t == 2u8 ==> t == 1) && (1u8 << t
        == 4u8 ==> t == 2) && (1u8 << t == 8u8 ==> t == 3) && (1u8 << t == 16u8 ==> t == 4)))
        by (bit_vector);
}

impl Cpu {
    /// Whether the next cycle of interrupt dispatch halts the emulator: the
    /// push of PC completes but the pending interrupt it was for has been
    /// cleared in between (the push wrote over IE or IF).
    pub open spec fn isr_halts(self) -> bool {
        &&& self.st(Site::Isr).step == 0
        &&& self.st(Site::Push16).step == 3
        &&& self.interrupts.get_interrupt() == 0
    }

    /// One cycle of interrupt dispatch. PC is pushed; once the push is done the
    /// pending interrupt with the lowest bit is acknowledged (its IF bit
    /// cleared) and PC becomes its handler's address. On the next cycle
    /// interrupts are disabled and the handler's first opcode is fetched.
    pub open spec fn isr_model(self, bus: BusView) -> (Cpu, BusView) {
        let (c0, b0, paused) = if self.st(Site::Isr).step == 0 {
            match self.push16_model(bus, self.regs.pc) {
                (c, b, Some(_)) => {
                    let p = c.interrupts.get_interrupt();
                    (
                        c.with_ints(
                            Interrupts { int_flags: c.interrupts.int_flags & !lowest_bit(p), ..c.interrupts },
                        ).with_pc(isr_vector(p)).go(Site::Isr, 1),
                        b,
                        true,
                    )
                },
                (c, b, None) => (c, b, false),
            }
        } else {
            (self, bus, false)
        };
        if !paused && c0.st(Site::Isr).step == 1 {
            (
                c0.with_ints(Interrupts { ime: false, ..c0.interrupts }).go(Site::Isr, 0).fetched(
                    b0,
                ),
                b0,
            )
        } else {
            (c0, b0)
        }
    }

    fn call_isr(&mut self, bus: &mut Peripherals)
        requires
            old(bus)@.wf(),
            !old(self).isr_halts(),
        ensures
            (*final(self), final(bus)@) == old(self).isr_model(old(bus)@),
            final(bus)@.wf(),
    {
        if self.steps.isr.step == 0 {
            if let Some(_) = self.push16(bus, self.regs.pc) {
                let p = self.interrupts.get_interrupt();
                let fl = self.interrupts.int_flags;
                let en = self.interrupts.int_enable;
                assert(fl & en & 0b11111u8 <= 0b11111u8) by (bit_vector);
                proof {
                    lemma_lowest_bit(p);
                    lemma_isr_vector(p);
                }
                let highest_int: u8 = 1 << p.trailing_zeros();
                self.interrupts.int_flags &= !highest_int;
                self.regs.pc =
                if highest_int == VBLANK {
                    0x0040
                } else if highest_int == STAT {
                    0x0048
                } else if highest_int == TIMER {
                    0x0050
                } else if highest_int == SERIAL {
                    0x0058
                } else {
                    0x0060
                };
                self.steps.isr.step = 1;
                return ;
            }
        }
        if self.steps.isr.step == 1 {
            self.interrupts.ime = false;
            self.steps.isr.step = 0;
            self.fetch(bus);
        }
    }

    /// Whether the next cycle halts the emulator, as STOP, an undefined
    /// opcode, or an interrupt dispatch whose interrupt was cancelled do.
    pub open spec fn cycle_halts(self) -> bool {
        if self.ctx.int {
            self.isr_halts()
        } else {
            self.decode_halts()
        }
    }

    /// One machine cycle: dispatch a pending interrupt, or run the current
    /// instruction for a cycle.
    #[verifier::opaque]
    pub open spec fn cycle_model(self, bus: BusView) -> (Cpu, BusView) {
        if self.ctx.int {
            self.isr_model(bus)
        } else {
            self.decode_model(bus)
        }
    }

    /// Why the next cycle cannot run, or `None` when it can: a dispatch whose
    /// interrupt vanished, STOP, or an undefined opcode.
    pub fn halt_reason(&self, bus: &Peripherals) -> (r: Option<Halt>)
        ensures
            r is None <==> !self.cycle_halts(),
            r == Some(Halt::InvalidInterrupt) <==> (self.ctx.int && self.isr_halts()),
            r == Some(Halt::Stop) <==> (!self.ctx.int && !self.ctx.cb && self.ctx.opcode == STOP),
            r matches Some(Halt::Undefined(op)) ==> !self.ctx.int && !self.ctx.cb && op
                == self.ctx.opcode && is_undefined(op),
    {
        if self.can_emulate_cycle() {
            None
        } else if self.ctx.int {
            Some(Halt::InvalidInterrupt)
        } else if self.ctx.opcode == STOP {
            Some(self.stop(bus))
        } else {
            Some(self.undefined(bus))
        }
    }

    pub fn can_emulate_cycle(&self) -> (r: bool)
        ensures
            r == !self.cycle_halts(),
    {
        if self.ctx.int {
            !(self.steps.isr.step == 0 && self.steps.push16.step == 3
                && self.interrupts.get_interrupt() == 0)
        } else {
            let op = self.ctx.opcode;
            self.ctx.cb || !(op == 0x10 || op == 0xD3 || op == 0xDB || op == 0xDD || op == 0xE3
                || op == 0xE4 || op == 0xEB || op == 0xEC || op == 0xED || op == 0xF4 || op
                == 0xFC || op == 0xFD)
        }
    }

    pub fn emulate_cycle(&mut self, bus: &mut Peripherals)
        requires
            old(bus)@.wf(),
            !old(self).cycle_halts(),
        ensures
            (*final(self), final(bus)@) == old(self).cycle_model(old(bus)@),
            final(bus)@.wf(),
    {
        reveal(Cpu::cycle_model);
        if self.ctx.int {
            self.call_isr(bus);
        } else {
            self.decode(bus);
        }
    }
}

} // verus!
