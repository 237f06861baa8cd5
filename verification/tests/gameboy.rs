use rust_boy::bootrom::Bootrom;
use rust_boy::cartridge::{checksum, Cartridge};
use rust_boy::gameboy::{GameBoy, CPU_CLOCK_HZ, M_CYCLE_CLOCK, M_CYCLE_NANOS};

fn cartridge() -> Cartridge {
    let mut rom = vec![0u8; 0x8000];
    rom[0x14D] = checksum(&rom[0x100..0x150]);
    Cartridge::new(rom)
}

fn machine(program: &[u8]) -> GameBoy {
    let mut boot = vec![0u8; 0x100];
    boot[..program.len()].copy_from_slice(program);
    GameBoy::new(Bootrom::new(boot), cartridge())
}

#[test]
fn machine_cycle_length() {
    assert_eq!(CPU_CLOCK_HZ, 4_194_304);
    assert_eq!(M_CYCLE_CLOCK, 4);
    assert_eq!(M_CYCLE_NANOS, 953);
}

#[test]
fn new_machine_starts_at_zero() {
    let gb = machine(&[]);
    assert_eq!(gb.elapsed, 0);
    assert_eq!(gb.cpu.regs.pc, 0);
    assert!(gb.peripherals.bootrom.active);
}

#[test]
fn run_catches_up_whole_cycles() {
    let mut gb = machine(&[]);
    assert!(gb.run(953 * 3 + 500));
    assert_eq!(gb.elapsed, 953 * 3);
    assert_eq!(gb.cpu.regs.pc, 3);
    // not a whole cycle yet
    assert!(gb.run(953 * 3 + 952));
    assert_eq!(gb.elapsed, 953 * 3);
    assert!(gb.run(953 * 4));
    assert_eq!(gb.elapsed, 953 * 4);
    assert_eq!(gb.cpu.regs.pc, 4);
}

#[test]
fn run_stops_before_undefined_opcode() {
    let mut gb = machine(&[0x00, 0xD3]);
    assert!(!gb.run(953 * 10));
    // the boot NOP and the NOP at 0 ran; the cycle of 0xD3 did not
    assert_eq!(gb.elapsed, 953 * 2);
    assert_eq!(gb.cpu.ctx.opcode, 0xD3);
    assert!(!gb.cpu.can_emulate_cycle());
    // a later call runs nothing more
    assert!(!gb.run(953 * 20));
    assert_eq!(gb.elapsed, 953 * 2);
}

#[test]
fn time_slicing_does_not_matter() {
    // LD A,0x12; INC A; LD B,A; DEC B; NOPs
    let program = [0x3E, 0x12, 0x3C, 0x47, 0x05];
    let mut sliced = machine(&program);
    let mut whole = machine(&program);
    assert!(sliced.run(953 * 2 + 10));
    assert!(sliced.run(953 * 4 + 7));
    assert!(sliced.run(953 * 7));
    assert!(whole.run(953 * 7));
    assert_eq!(sliced.elapsed, whole.elapsed);
    assert_eq!(sliced.cpu.regs, whole.cpu.regs);
    assert_eq!(whole.cpu.regs.a, 0x13);
    assert_eq!(whole.cpu.regs.b, 0x12);
}
