use vstd::prelude::*;

use crate::bootrom::{Bootrom, BOOTROM_LEN};
use crate::cartridge::{CartView, Cartridge};
use crate::cpu::interrupts::{Interrupts, IE_ADDR, IF_ADDR};

verus! {

/// Size of the address space.
pub const ADDRESS_SPACE: usize = 0x10000;

/// Address of the register that unmaps the boot ROM.
pub const BOOT_OFF_ADDR: u16 = 0xFF50;

/// The memory bus: the boot ROM, the cartridge, the interrupt registers (held
/// by the CPU and passed in) and plain memory for every other address.
pub struct Peripherals {
    pub bootrom: Bootrom,
    pub cartridge: Cartridge,
    pub memory: Vec<u8>,
}

/// The bus as a value.
pub struct BusView {
    pub boot: Seq<u8>,
    pub boot_active: bool,
    pub cart: CartView,
    pub memory: Seq<u8>,
}

impl View for Peripherals {
    type V = BusView;

    open spec fn view(&self) -> BusView {
        BusView {
            boot: self.bootrom.rom@,
            boot_active: self.bootrom.active,
            cart: self.cartridge@,
            memory: self.memory@,
        }
    }
}

/// Addresses that the cartridge serves.
pub open spec fn in_cart_rom(addr: u16) -> bool {
    addr <= 0x7FFF
}

pub open spec fn in_cart_ram(addr: u16) -> bool {
    0xA000 <= addr <= 0xBFFF
}

/// Addresses of the interrupt registers.
pub open spec fn is_int_reg(addr: u16) -> bool {
    addr == IF_ADDR || addr == IE_ADDR
}

impl BusView {
    pub open spec fn wf(self) -> bool {
        &&& self.boot.len() >= BOOTROM_LEN
        &&& self.memory.len() == ADDRESS_SPACE
        &&& self.cart.wf()
    }

    /// The byte that a read of `addr` gives, with `ints` the interrupt registers.
    pub open spec fn read_at(self, ints: Interrupts, addr: u16) -> u8 {
        if addr <= 0x00FF && self.boot_active {
            self.boot[addr as int]
        } else if in_cart_rom(addr) {
            self.cart.read_at(addr)
        } else if in_cart_ram(addr) {
            if self.cart.sram_readable() {
                self.cart.read_at(addr)
            } else {
                0xFF
            }
        } else if is_int_reg(addr) {
            ints.reg(addr)
        } else {
            self.memory[addr as int]
        }
    }

    /// The bus and the interrupt registers after a write of `val` to `addr`.
    pub open spec fn write_at(self, ints: Interrupts, addr: u16, val: u8) -> (BusView, Interrupts) {
        if in_cart_rom(addr) {
            (BusView { cart: self.cart.write_at(addr, val), ..self }, ints)
        } else if in_cart_ram(addr) {
            if self.cart.sram_readable() {
                (BusView { cart: self.cart.write_at(addr, val), ..self }, ints)
            } else {
                (self, ints)
            }
        } else if is_int_reg(addr) {
            (self, ints.with_reg(addr, val))
        } else if addr == BOOT_OFF_ADDR {
            (
                BusView {
                    boot_active: self.boot_active && val == 0,
                    memory: self.memory.update(addr as int, val),
                    ..self
                },
                ints,
            )
        } else {
            (BusView { memory: self.memory.update(addr as int, val), ..self }, ints)
        }
    }
}

/// A write through the bus keeps the bus well formed.
pub proof fn lemma_write_keeps_wf(bus: BusView, ints: Interrupts, addr: u16, val: u8)
    requires
        bus.wf(),
    ensures
        bus.write_at(ints, addr, val).0.wf(),
{
    if in_cart_rom(addr) || (in_cart_ram(addr) && bus.cart.sram_readable()) {
        crate::cartridge::lemma_cart_write_keeps_wf(bus.cart, addr, val);
    }
}

/// Outside the cartridge's areas, reading an address right after writing a byte
/// to it gives that byte back.
pub proof fn lemma_read_after_write(bus: BusView, ints: Interrupts, addr: u16, val: u8)
    requires
        bus.wf(),
        !in_cart_rom(addr),
        !in_cart_ram(addr),
    ensures
        bus.write_at(ints, addr, val).0.read_at(bus.write_at(ints, addr, val).1, addr) == val,
{
}

/// Outside the cartridge's areas, a write changes the read of no other address,
/// except that the boot ROM switch at 0xFF50 may unmap the boot ROM from
/// 0x0000..=0x00FF.
pub proof fn lemma_write_leaves_others(
    bus: BusView,
    ints: Interrupts,
    addr: u16,
    val: u8,
    other: u16,
)
    requires
        bus.wf(),
        !in_cart_rom(addr),
        !in_cart_ram(addr),
        other != addr,
        addr != BOOT_OFF_ADDR || other > 0x00FF,
    ensures
        bus.write_at(ints, addr, val).0.read_at(bus.write_at(ints, addr, val).1, other)
            == bus.read_at(ints, other),
{
}

/// Once the boot ROM is unmapped, no write maps it back.
pub proof fn lemma_boot_stays_unmapped(bus: BusView, ints: Interrupts, addr: u16, val: u8)
    requires
        !bus.boot_active,
    ensures
        !bus.write_at(ints, addr, val).0.boot_active,
{
}

/// A nonzero write to 0xFF50 unmaps the boot ROM: from then on the cartridge
/// answers reads of 0x0000..=0x00FF.
pub proof fn lemma_boot_unmap(bus: BusView, ints: Interrupts, val: u8, addr: u16)
    requires
        val != 0,
        addr <= 0x00FF,
    ensures
        !bus.write_at(ints, BOOT_OFF_ADDR, val).0.boot_active,
        bus.write_at(ints, BOOT_OFF_ADDR, val).0.read_at(ints, addr) == bus.cart.read_at(addr),
{
}

impl Peripherals {
    pub fn new(bootrom: Bootrom, cartridge: Cartridge) -> (r: Self)
        requires
            bootrom.rom.len() >= BOOTROM_LEN,
            cartridge@.wf(),
        ensures
            r@.boot == bootrom.rom@,
            r@.boot_active == bootrom.active,
            r@.cart == cartridge@,
            r@.memory == Seq::new(ADDRESS_SPACE as nat, |i: int| 0u8),
            r@.wf(),
    {
        let mut memory: Vec<u8> = Vec::new();
        let mut i: usize = 0;
        while i < ADDRESS_SPACE
            invariant
                i <= ADDRESS_SPACE,
                memory@ == Seq::new(i as nat, |j: int| 0u8),
            decreases ADDRESS_SPACE - i,
        {
            memory.push(0);
            i = i + 1;
        }
        Peripherals { bootrom, cartridge, memory }
    }

    pub fn read(&self, interrupts: &Interrupts, addr: u16) -> (r: u8)
        requires
            self@.wf(),
        ensures
            r == self@.read_at(*interrupts, addr),
    {
        if addr <= 0x00FF && self.bootrom.is_active() {
            self.bootrom.read(addr)
        } else if addr <= 0x7FFF {
            self.cartridge.read(addr)
        } else if 0xA000 <= addr && addr <= 0xBFFF {
            if self.cartridge.sram.len() > 0 || self.cartridge.mbc.sram_disabled() {
                self.cartridge.read(addr)
            } else {
                0xFF
            }
        } else if addr == IF_ADDR || addr == IE_ADDR {
            interrupts.read(addr)
        } else {
            self.memory[addr as usize]
        }
    }

    pub fn write(&mut self, interrupts: &mut Interrupts, addr: u16, val: u8)
        requires
            old(self)@.wf(),
        ensures
            (final(self)@, *final(interrupts)) == old(self)@.write_at(*old(interrupts), addr, val),
            final(self)@.wf(),
    {
        proof {
            lemma_write_keeps_wf(old(self)@, *old(interrupts), addr, val);
        }
        if addr <= 0x7FFF {
            self.cartridge.write(addr, val);
        } else if 0xA000 <= addr && addr <= 0xBFFF {
            if self.cartridge.sram.len() > 0 || self.cartridge.mbc.sram_disabled() {
                self.cartridge.write(addr, val);
            }
        } else if addr == IF_ADDR || addr == IE_ADDR {
            interrupts.write(addr, val);
        } else if addr == BOOT_OFF_ADDR {
            self.bootrom.write(addr, val);
            self.memory.set(addr as usize, val);
        } else {
            self.memory.set(addr as usize, val);
        }
    }
}

} // verus!
