use vstd::prelude::*;

use crate::cpu::register::Registers;
use crate::cpu::{Cpu, Ctx};
use crate::peripherals::{BusView, Peripherals};

verus! {

impl Cpu {
    /// The CPU after it fetches the next opcode: the opcode is the byte at PC.
    /// When interrupts are enabled and one is pending, the next cycle dispatches
    /// it and PC stays; otherwise PC moves past the opcode. The CB prefix is
    /// cleared either way.
    pub open spec fn fetched(self, bus: BusView) -> Cpu {
        let opcode = bus.read_at(self.interrupts, self.regs.pc);
        if self.interrupts.ime && self.interrupts.get_interrupt() != 0 {
            Cpu { ctx: Ctx { opcode, cb: false, int: true }, ..self }
        } else {
            Cpu {
                ctx: Ctx { opcode, cb: false, int: false },
                regs: Registers { pc: self.regs.pc.wrapping_add(1), ..self.regs },
                ..self
            }
        }
    }

    pub fn fetch(&mut self, bus: &Peripherals)
        requires
            bus@.wf(),
        ensures
            *final(self) == old(self).fetched(bus@),
    {
        self.ctx.opcode = bus.read(&self.interrupts, self.regs.pc);
        if self.interrupts.ime && self.interrupts.get_interrupt() != 0 {
            self.ctx.int = true;
        } else {
            self.regs.pc = self.regs.pc.wrapping_add(1);
            self.ctx.int = false;
        }
        self.ctx.cb = false;
    }
}

} // verus!
