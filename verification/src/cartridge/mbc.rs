use vstd::prelude::*;

verus! {

/// The memory bank controller of a cartridge.
#[derive(Clone, Copy, Debug, PartialEq, Eq, Structural)]
pub enum Mbc {
    NoMbc,
    Mbc1 {
        sram_enable: bool,
        low_bank: usize,
        high_bank: usize,
        bank_mode: bool,
        num_rom_banks: usize,
    },
}

/// Cartridge types that the emulator supports: plain ROM (with or without RAM)
/// and MBC1 (with or without RAM and battery).
pub open spec fn supported_type(cartridge_type: u8) -> bool {
    cartridge_type == 0x00 || cartridge_type == 0x08 || cartridge_type == 0x09 || (0x01
        <= cartridge_type <= 0x03)
}

impl Mbc {
    /// Bank registers stay in their ranges and the ROM has at least one bank.
    pub open spec fn wf(self) -> bool {
        match self {
            Mbc::NoMbc => true,
            Mbc::Mbc1 { low_bank, high_bank, num_rom_banks, .. } => 1 <= low_bank <= 0x1F
                && high_bank <= 0b11 && 1 <= num_rom_banks,
        }
    }

    /// The controller for a cartridge type, in its power-on state.
    pub open spec fn initial(cartridge_type: u8, num_rom_banks: usize) -> Mbc {
        if 0x01 <= cartridge_type <= 0x03 {
            Mbc::Mbc1 {
                sram_enable: false,
                low_bank: 0b00001,
                high_bank: 0b00,
                bank_mode: false,
                num_rom_banks,
            }
        } else {
            Mbc::NoMbc
        }
    }

    pub fn new(cartridge_type: u8, num_rom_banks: usize) -> (r: Self)
        requires
            supported_type(cartridge_type),
        ensures
            r == Mbc::initial(cartridge_type, num_rom_banks),
    {
        if 0x01 <= cartridge_type && cartridge_type <= 0x03 {
            Mbc::Mbc1 {
                sram_enable: false,
                low_bank: 0b00001,
                high_bank: 0b00,
                bank_mode: false,
                num_rom_banks,
            }
        } else {
            Mbc::NoMbc
        }
    }

    /// The controller after a write of `val` to `addr` in the ROM area.
    pub open spec fn written(self, addr: u16, val: u8) -> Mbc {
        match self {
            Mbc::NoMbc => Mbc::NoMbc,
            Mbc::Mbc1 { sram_enable, low_bank, high_bank, bank_mode, num_rom_banks } => {
                if addr <= 0x1FFF {
                    Mbc::Mbc1 {
                        sram_enable: val & 0xF == 0xA,
                        low_bank,
                        high_bank,
                        bank_mode,
                        num_rom_banks,
                    }
                } else if addr <= 0x3FFF {
                    Mbc::Mbc1 {
                        sram_enable,
                        low_bank: if val & 0b11111 == 0 {
                            1
                        } else {
                            (val & 0b11111) as usize
                        },
                        high_bank,
                        bank_mode,
                        num_rom_banks,
                    }
                } else if addr <= 0x5FFF {
                    Mbc::Mbc1 {
                        sram_enable,
                        low_bank,
                        high_bank: (val & 0b11) as usize,
                        bank_mode,
                        num_rom_banks,
                    }
                } else {
                    Mbc::Mbc1 {
                        sram_enable,
                        low_bank,
                        high_bank,
                        bank_mode: val & 0b1 > 0,
                        num_rom_banks,
                    }
                }
            },
        }
    }

    pub fn write(&mut self, addr: u16, val: u8)
        requires
            addr <= 0x7FFF,
            old(self).wf(),
        ensures
            *final(self) == old(self).written(addr, val),
            final(self).wf(),
    {
        match *self {
            Mbc::NoMbc => {},
            Mbc::Mbc1 { sram_enable, low_bank, high_bank, bank_mode, num_rom_banks } => {
                if addr <= 0x1FFF {
                    *self =
                    Mbc::Mbc1 {
                        sram_enable: val & 0xF == 0xA,
                        low_bank,
                        high_bank,
                        bank_mode,
                        num_rom_banks,
                    };
                } else if addr <= 0x3FFF {
                    let bank = if val & 0b11111 == 0 {
                        1
                    } else {
                        (val & 0b11111) as usize
                    };
                    proof {
                        lemma_written_keeps_wf(*old(self), addr, val);
                    }
                    *self =
                    Mbc::Mbc1 { sram_enable, low_bank: bank, high_bank, bank_mode, num_rom_banks };
                } else if addr <= 0x5FFF {
                    proof {
                        lemma_written_keeps_wf(*old(self), addr, val);
                    }
                    *self =
                    Mbc::Mbc1 {
                        sram_enable,
                        low_bank,
                        high_bank: (val & 0b11) as usize,
                        bank_mode,
                        num_rom_banks,
                    };
                } else {
                    *self =
                    Mbc::Mbc1 {
                        sram_enable,
                        low_bank,
                        high_bank,
                        bank_mode: val & 0b1 > 0,
                        num_rom_banks,
                    };
                }
            },
        }
    }

    /// The offset into ROM (for addresses up to 0x7FFF) or into SRAM (for
    /// 0xA000..=0xBFFF) that the controller maps `addr` to, before it is
    /// reduced to the memory's size.
    pub open spec fn addr_of(self, addr: u16) -> usize {
        match self {
            Mbc::NoMbc => addr as usize,
            Mbc::Mbc1 { low_bank, high_bank, bank_mode, num_rom_banks, .. } => {
                if addr <= 0x3FFF {
                    if bank_mode {
                        (high_bank << 19usize) | (addr & 0x3FFF) as usize
                    } else {
                        (addr & 0x3FFF) as usize
                    }
                } else if addr <= 0x7FFF {
                    (high_bank << 19usize) | ((low_bank & (num_rom_banks - 1) as usize)
                        << 14usize) | (addr & 0x3FFF) as usize
                } else {
                    if bank_mode {
                        (high_bank << 13usize) | (addr & 0x1FFF) as usize
                    } else {
                        (addr & 0x1FFF) as usize
                    }
                }
            },
        }
    }

    /// Whether this is an MBC1 with cartridge RAM access switched off.
    pub fn sram_disabled(&self) -> (r: bool)
        ensures
            r == (*self matches Mbc::Mbc1 { sram_enable, .. } && !sram_enable),
    {
        match *self {
            Mbc::NoMbc => false,
            Mbc::Mbc1 { sram_enable, .. } => !sram_enable,
        }
    }

    pub fn get_addr(&self, addr: u16) -> (r: usize)
        requires
            self.wf(),
            addr <= 0x7FFF || 0xA000 <= addr <= 0xBFFF,
        ensures
            r == self.addr_of(addr),
    {
        match *self {
            Mbc::NoMbc => addr as usize,
            Mbc::Mbc1 { low_bank, high_bank, bank_mode, num_rom_banks, .. } => {
                if addr <= 0x3FFF {
                    if bank_mode {
                        (high_bank << 19) | (addr & 0x3FFF) as usize
                    } else {
                        (addr & 0x3FFF) as usize
                    }
                } else if addr <= 0x7FFF {
                    (high_bank << 19) | ((low_bank & (num_rom_banks - 1)) << 14) | (addr
                        & 0x3FFF) as usize
                } else {
                    if bank_mode {
                        (high_bank << 13) | (addr & 0x1FFF) as usize
                    } else {
                        (addr & 0x1FFF) as usize
                    }
                }
            },
        }
    }
}

/// A write keeps the controller's registers in range.
pub proof fn lemma_written_keeps_wf(m: Mbc, addr: u16, val: u8)
    requires
        m.wf(),
    ensures
        m.written(addr, val).wf(),
        m.written(addr, val) matches Mbc::Mbc1 { num_rom_banks, .. } ==> m matches Mbc::Mbc1 {
            num_rom_banks: n,
            ..
        } && n == num_rom_banks,
        m is NoMbc ==> m.written(addr, val) is NoMbc,
{
    assert(val & 0b11111 <= 0x1F && val & 0b11 <= 0b11) by (bit_vector);
}

/// The bank register written through 0x2000..=0x3FFF never selects bank 0:
/// a write of zero in its five bits selects bank 1.
pub proof fn lemma_low_bank_never_zero(m: Mbc, addr: u16, val: u8)
    requires
        m.wf(),
        m is Mbc1,
        0x2000 <= addr <= 0x3FFF,
    ensures
        m.written(addr, val) matches Mbc::Mbc1 { low_bank, .. } && low_bank != 0 && (val
            & 0b11111 == 0 ==> low_bank == 1),
{
}

} // verus!
