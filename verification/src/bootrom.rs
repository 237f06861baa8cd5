use vstd::prelude::*;

verus! {

/// Size of the boot ROM mapped at 0x0000..=0x00FF.
pub const BOOTROM_LEN: usize = 0x100;

/// The boot ROM, mapped over the start of the cartridge until the program
/// writes a nonzero value to 0xFF50.
pub struct Bootrom {
    pub rom: Vec<u8>,
    pub active: bool,
}

impl Bootrom {
    pub fn new(rom: Vec<u8>) -> (r: Self)
        ensures
            r.rom@ == rom@,
            r.active,
    {
        Bootrom { rom, active: true }
    }

    pub fn is_active(&self) -> (r: bool)
        ensures
            r == self.active,
    {
        self.active
    }

    pub fn read(&self, addr: u16) -> (r: u8)
        requires
            (addr as int) < self.rom.len(),
        ensures
            r == self.rom@[addr as int],
    {
        self.rom[addr as usize]
    }

    /// A write to 0xFF50: a nonzero value unmaps the boot ROM for good.
    pub fn write(&mut self, _addr: u16, val: u8)
        ensures
            final(self).rom@ == old(self).rom@,
            final(self).active == (old(self).active && val == 0),
    {
        self.active = self.active && val == 0;
    }
}

} // verus!
