use rust_boy::bootrom::Bootrom;
use rust_boy::cartridge::mbc::Mbc;
use rust_boy::cartridge::{checksum, Cartridge};
use rust_boy::cpu::interrupts::Interrupts;
use rust_boy::peripherals::Peripherals;

/// A ROM image of `len` bytes with a valid header for the given cartridge
/// type and size codes; the first byte of each 16 KiB bank holds the bank's
/// number.
fn image(len: usize, cartridge_type: u8, rom_code: u8, ram_code: u8) -> Vec<u8> {
    let mut rom = vec![0u8; len];
    for bank in 0..len / 0x4000 {
        rom[bank * 0x4000] = bank as u8;
    }
    rom[0x134..0x13C].copy_from_slice(b"BANKTEST");
    rom[0x147] = cartridge_type;
    rom[0x148] = rom_code;
    rom[0x149] = ram_code;
    rom[0x14D] = checksum(&rom[0x100..0x150]);
    rom
}

#[test]
fn checksum_of_blank_header() {
    // 25 bytes of zero, each counted as 1: 0 - 25 = 0xE7 modulo 256.
    assert_eq!(checksum(&[0u8; 0x50]), 0xE7);
}

#[test]
fn checksum_covers_title_through_version_only() {
    let mut header = [0u8; 0x50];
    header[0x34] = 0x10;
    header[0x4C] = 0x01;
    // 25 + 0x10 + 0x01 = 0x2A, and 0 - 0x2A = 0xD6
    assert_eq!(checksum(&header), 0xD6);
    // bytes outside 0x34..=0x4C do not count
    header[0x33] = 0xFF;
    header[0x4D] = 0xFF;
    header[0x00] = 0x12;
    assert_eq!(checksum(&header), 0xD6);
}

#[test]
fn accepts_valid_rom_only_image() {
    let rom = image(0x8000, 0x00, 0x00, 0x00);
    assert!(Cartridge::accepts(&rom));
}

#[test]
fn refuses_bad_checksum() {
    let mut rom = image(0x8000, 0x00, 0x00, 0x00);
    rom[0x14D] = rom[0x14D].wrapping_add(1);
    assert!(!Cartridge::accepts(&rom));
}

#[test]
fn refuses_wrong_length() {
    let mut rom = image(0x8000, 0x00, 0x00, 0x00);
    rom.push(0);
    assert!(!Cartridge::accepts(&rom));
    let short = image(0x8000, 0x00, 0x01, 0x00);
    assert!(!Cartridge::accepts(&short));
}

#[test]
fn refuses_unknown_sizes_and_types() {
    let mut rom = image(0x8000, 0x00, 0x00, 0x00);
    rom[0x148] = 0x09;
    rom[0x14D] = checksum(&rom[0x100..0x150]);
    assert!(!Cartridge::accepts(&rom));

    let mut rom = image(0x8000, 0x00, 0x00, 0x06);
    rom[0x14D] = checksum(&rom[0x100..0x150]);
    assert!(!Cartridge::accepts(&rom));

    let rom = image(0x8000, 0x05, 0x00, 0x00);
    assert!(!Cartridge::accepts(&rom));
}

#[test]
fn refuses_image_shorter_than_header() {
    assert!(!Cartridge::accepts(&vec![0u8; 0x14F]));
}

#[test]
fn new_sizes_ram_from_header() {
    let cart = Cartridge::new(image(0x8000, 0x08, 0x00, 0x02));
    assert_eq!(cart.sram.len(), 0x2000);
    assert_eq!(cart.mbc, Mbc::NoMbc);
    let cart = Cartridge::new(image(0x10000, 0x01, 0x01, 0x00));
    assert_eq!(cart.sram.len(), 0);
    assert_eq!(
        cart.mbc,
        Mbc::Mbc1 { sram_enable: false, low_bank: 1, high_bank: 0, bank_mode: false, num_rom_banks: 4 }
    );
}

#[test]
fn rom_only_reads_rom() {
    let rom = image(0x8000, 0x00, 0x00, 0x00);
    let cart = Cartridge::new(rom.clone());
    assert_eq!(cart.read(0x0134), b'B');
    assert_eq!(cart.read(0x4000), 1);
    assert_eq!(cart.read(0x7FFF), rom[0x7FFF]);
}

#[test]
fn mbc1_switches_rom_banks() {
    let mut cart = Cartridge::new(image(0x10000, 0x01, 0x01, 0x00));
    assert_eq!(cart.read(0x0000), 0);
    assert_eq!(cart.read(0x4000), 1);
    cart.write(0x2000, 0x02);
    assert_eq!(cart.read(0x4000), 2);
    cart.write(0x3FFF, 0x03);
    assert_eq!(cart.read(0x4000), 3);
    // bank 0 in the bank register selects bank 1
    cart.write(0x2000, 0x00);
    assert_eq!(cart.read(0x4000), 1);
    // bank numbers wrap at the number of banks
    cart.write(0x2000, 0x06);
    assert_eq!(cart.read(0x4000), 2);
    // the fixed area stays on bank 0
    assert_eq!(cart.read(0x0000), 0);
}

#[test]
fn mbc1_ram_needs_enabling() {
    let mut cart = Cartridge::new(image(0x10000, 0x03, 0x01, 0x02));
    assert_eq!(cart.read(0xA000), 0xFF);
    cart.write(0xA000, 0x42);
    assert_eq!(cart.sram[0], 0x00);
    cart.write(0x0000, 0x0A);
    cart.write(0xA000, 0x42);
    assert_eq!(cart.read(0xA000), 0x42);
    cart.write(0xBFFF, 0x24);
    assert_eq!(cart.read(0xBFFF), 0x24);
    cart.write(0x1FFF, 0x00);
    assert_eq!(cart.read(0xA000), 0xFF);
    cart.write(0x0000, 0x1A);
    assert_eq!(cart.read(0xA000), 0x42);
}

#[test]
fn plain_cartridge_ram() {
    let mut cart = Cartridge::new(image(0x8000, 0x08, 0x00, 0x01));
    cart.write(0xA123, 0x07);
    assert_eq!(cart.read(0xA123), 0x07);
    // 2 KiB of RAM repeats through the area
    assert_eq!(cart.read(0xA923), 0x07);
}

#[test]
fn bus_without_cartridge_ram_reads_ff() {
    let bus = Peripherals::new(Bootrom::new(vec![0u8; 0x100]), Cartridge::new(image(0x8000, 0x00, 0x00, 0x00)));
    let ints = Interrupts::default();
    assert_eq!(bus.read(&ints, 0xA000), 0xFF);
    assert_eq!(bus.read(&ints, 0xBFFF), 0xFF);
}

#[test]
fn bus_memory_and_interrupt_registers() {
    let mut bus = Peripherals::new(Bootrom::new(vec![0x31u8; 0x100]), Cartridge::new(image(0x8000, 0x00, 0x00, 0x00)));
    let mut ints = Interrupts::default();
    bus.write(&mut ints, 0xC000, 0x5A);
    bus.write(&mut ints, 0xFF80, 0xA5);
    assert_eq!(bus.read(&ints, 0xC000), 0x5A);
    assert_eq!(bus.read(&ints, 0xFF80), 0xA5);
    bus.write(&mut ints, 0xFF0F, 0x1F);
    bus.write(&mut ints, 0xFFFF, 0x04);
    assert_eq!(ints.int_flags, 0x1F);
    assert_eq!(ints.int_enable, 0x04);
    assert_eq!(ints.get_interrupt(), 0x04);
    assert_eq!(bus.read(&ints, 0xFF0F), 0x1F);
    // boot ROM over the cartridge until 0xFF50 is written
    assert_eq!(bus.read(&ints, 0x0000), 0x31);
    bus.write(&mut ints, 0xFF50, 0x00);
    assert_eq!(bus.read(&ints, 0x0000), 0x31);
    bus.write(&mut ints, 0xFF50, 0x01);
    assert_eq!(bus.read(&ints, 0x0000), 0x00);
    bus.write(&mut ints, 0xFF50, 0x00);
    assert_eq!(bus.read(&ints, 0x0000), 0x00);
    assert_eq!(bus.read(&ints, 0x0100), 0x00);
}
