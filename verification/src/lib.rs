pub mod apu;
pub mod bootrom;
pub mod cartridge;
pub mod cpu;
pub mod gameboy;
pub mod peripherals;
