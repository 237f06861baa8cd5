use vstd::prelude::*;

verus! {

pub const VBLANK: u8 = 0b00001;

pub const STAT: u8 = 0b00010;

pub const TIMER: u8 = 0b00100;

pub const SERIAL: u8 = 0b01000;

pub const JOYPAD: u8 = 0b10000;

/// Address of the interrupt flag register IF.
pub const IF_ADDR: u16 = 0xFF0F;

/// Address of the interrupt enable register IE.
pub const IE_ADDR: u16 = 0xFFFF;

/// The interrupt master enable and the IF and IE registers.
#[derive(Clone, Copy, Debug, PartialEq, Eq, Structural)]
pub struct Interrupts {
    pub ime: bool,
    pub int_flags: u8,
    pub int_enable: u8,
}

impl Default for Interrupts {
    fn default() -> (r: Self)
        ensures
            r == (Interrupts { ime: false, int_flags: 0, int_enable: 0 }),
    {
        Interrupts { ime: false, int_flags: 0, int_enable: 0 }
    }
}

impl Interrupts {
    /// The register at `addr` as the bus reads it.
    pub open spec fn reg(self, addr: u16) -> u8 {
        if addr == IF_ADDR {
            self.int_flags
        } else {
            self.int_enable
        }
    }

    /// The registers after the bus writes `val` to `addr`.
    pub open spec fn with_reg(self, addr: u16, val: u8) -> Interrupts {
        if addr == IF_ADDR {
            Interrupts { int_flags: val, ..self }
        } else {
            Interrupts { int_enable: val, ..self }
        }
    }

    pub fn read(&self, addr: u16) -> (r: u8)
        requires
            addr == IF_ADDR || addr == IE_ADDR,
        ensures
            r == self.reg(addr),
    {
        if addr == IF_ADDR {
            self.int_flags
        } else {
            self.int_enable
        }
    }

    pub fn write(&mut self, addr: u16, val: u8)
        requires
            addr == IF_ADDR || addr == IE_ADDR,
        ensures
            *final(self) == old(self).with_reg(addr, val),
    {
        if addr == IF_ADDR {
            self.int_flags = val;
        } else {
            self.int_enable = val;
        }
    }

    /// The interrupts that are both requested and enabled, among the five sources.
    #[verifier::allow_in_spec]
    pub fn get_interrupt(&self) -> u8
        returns
            self.int_flags & self.int_enable & 0b11111,
    {
        self.int_flags & self.int_enable & 0b11111
    }
}

} // verus!
