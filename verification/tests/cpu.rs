use rust_boy::bootrom::Bootrom;
use rust_boy::cartridge::Cartridge;
use rust_boy::cpu::decode::Halt;
use rust_boy::cpu::Cpu;
use rust_boy::peripherals::Peripherals;

/// A 32 KiB ROM-only cartridge image with a valid header.
fn rom_image() -> Vec<u8> {
    let mut rom = vec![0u8; 0x8000];
    rom[0x134..0x13C].copy_from_slice(b"TESTGAME");
    rom[0x147] = 0x00;
    rom[0x148] = 0x00;
    rom[0x149] = 0x00;
    let mut sum: u8 = 0;
    for i in 0x134..=0x14C {
        sum = sum.wrapping_sub(rom[i]).wrapping_sub(1);
    }
    rom[0x14D] = sum;
    rom
}

/// A machine whose boot ROM holds `program` from address 0.
fn machine(program: &[u8]) -> (Cpu, Peripherals) {
    let mut boot = vec![0u8; 0x100];
    boot[..program.len()].copy_from_slice(program);
    let bus = Peripherals::new(Bootrom::new(boot), Cartridge::new(rom_image()));
    (Cpu::new(), bus)
}

fn run(cpu: &mut Cpu, bus: &mut Peripherals, cycles: usize) {
    for _ in 0..cycles {
        assert!(cpu.can_emulate_cycle());
        cpu.emulate_cycle(bus);
    }
}

#[test]
fn ld_immediate_takes_two_cycles() {
    // LD A, 0x12
    let (mut cpu, mut bus) = machine(&[0x3E, 0x12, 0x00]);
    run(&mut cpu, &mut bus, 2);
    assert_eq!(cpu.regs.a, 0x00);
    run(&mut cpu, &mut bus, 1);
    assert_eq!(cpu.regs.a, 0x12);
    assert_eq!(cpu.regs.pc, 3);
}

#[test]
fn add_then_daa_gives_bcd_sum() {
    // LD A,0x46; LD B,0x99; ADD A,B; DAA
    let (mut cpu, mut bus) = machine(&[0x3E, 0x46, 0x06, 0x99, 0x80, 0x27, 0x00]);
    run(&mut cpu, &mut bus, 1 + 2 + 2 + 1);
    assert_eq!(cpu.regs.a, 0xDF);
    assert!(!cpu.regs.cf());
    run(&mut cpu, &mut bus, 1);
    assert_eq!(cpu.regs.a, 0x45);
    assert!(cpu.regs.cf());
    assert!(!cpu.regs.zf());
    assert!(!cpu.regs.hf());
}

#[test]
fn sub_then_daa_gives_bcd_difference() {
    // LD A,0x42; SUB 0x15; DAA  (42 - 15 = 27)
    let (mut cpu, mut bus) = machine(&[0x3E, 0x42, 0xD6, 0x15, 0x27, 0x00]);
    run(&mut cpu, &mut bus, 1 + 2 + 2);
    assert_eq!(cpu.regs.a, 0x2D);
    assert!(cpu.regs.nf());
    assert!(cpu.regs.hf());
    run(&mut cpu, &mut bus, 1);
    assert_eq!(cpu.regs.a, 0x27);
    assert!(!cpu.regs.cf());
}

#[test]
fn add_sets_half_carry_and_carry() {
    // LD A,0x8F; ADD A,0x81 -> 0x10, H and C set
    let (mut cpu, mut bus) = machine(&[0x3E, 0x8F, 0xC6, 0x81, 0x00]);
    run(&mut cpu, &mut bus, 5);
    assert_eq!(cpu.regs.a, 0x10);
    assert!(cpu.regs.hf());
    assert!(cpu.regs.cf());
    assert!(!cpu.regs.zf());
    assert!(!cpu.regs.nf());
}

#[test]
fn adc_and_sbc_use_the_carry() {
    // LD A,0xFF; ADD A,0x01 (A=0, Z, C); ADC A,0x10 (A=0x11); SCF; SBC A,0x01 (A=0x0F)
    let (mut cpu, mut bus) =
        machine(&[0x3E, 0xFF, 0xC6, 0x01, 0xCE, 0x10, 0x37, 0xDE, 0x01, 0x00]);
    run(&mut cpu, &mut bus, 5);
    assert_eq!(cpu.regs.a, 0x00);
    assert!(cpu.regs.zf());
    assert!(cpu.regs.cf());
    run(&mut cpu, &mut bus, 2);
    assert_eq!(cpu.regs.a, 0x11);
    assert!(!cpu.regs.cf());
    run(&mut cpu, &mut bus, 1 + 2);
    assert_eq!(cpu.regs.a, 0x0F);
    assert!(cpu.regs.hf());
    assert!(!cpu.regs.cf());
}

#[test]
fn cp_keeps_a() {
    // LD A,0x10; CP 0x20
    let (mut cpu, mut bus) = machine(&[0x3E, 0x10, 0xFE, 0x20, 0x00]);
    run(&mut cpu, &mut bus, 5);
    assert_eq!(cpu.regs.a, 0x10);
    assert!(cpu.regs.cf());
    assert!(cpu.regs.nf());
    assert!(!cpu.regs.zf());
}

#[test]
fn logic_operations() {
    // LD A,0xF0; AND 0x3C (0x30, H); OR 0x0F (0x3F); XOR 0x3F (0, Z)
    let (mut cpu, mut bus) = machine(&[0x3E, 0xF0, 0xE6, 0x3C, 0xF6, 0x0F, 0xEE, 0x3F, 0x00]);
    run(&mut cpu, &mut bus, 5);
    assert_eq!(cpu.regs.a, 0x30);
    assert!(cpu.regs.hf());
    run(&mut cpu, &mut bus, 2);
    assert_eq!(cpu.regs.a, 0x3F);
    assert!(!cpu.regs.hf());
    run(&mut cpu, &mut bus, 2);
    assert_eq!(cpu.regs.a, 0x00);
    assert!(cpu.regs.zf());
}

#[test]
fn inc_dec_flags() {
    // LD B,0x0F; INC B (0x10, H); LD C,0x01; DEC C (0, Z, N)
    let (mut cpu, mut bus) = machine(&[0x06, 0x0F, 0x04, 0x0E, 0x01, 0x0D, 0x00]);
    run(&mut cpu, &mut bus, 1 + 2 + 1);
    assert_eq!(cpu.regs.b, 0x10);
    assert!(cpu.regs.hf());
    assert!(!cpu.regs.zf());
    run(&mut cpu, &mut bus, 2 + 1);
    assert_eq!(cpu.regs.c, 0x00);
    assert!(cpu.regs.zf());
    assert!(cpu.regs.nf());
}

#[test]
fn memory_through_hl() {
    // LD HL,0xC000; LD (HL+),A with A=0x5A; LD A,(HL-) reads 0xC001; LD A,(HL)
    // LD A,0x5A; LD HL,0xC000; LD (HL+),A; LD (HL),0x77; LD A,(HL-); LD B,(HL)
    let (mut cpu, mut bus) = machine(&[
        0x3E, 0x5A, 0x21, 0x00, 0xC0, 0x22, 0x36, 0x77, 0x3A, 0x46, 0x00,
    ]);
    run(&mut cpu, &mut bus, 1 + 2 + 3 + 2 + 3 + 2 + 2);
    assert_eq!(bus.read(&cpu.interrupts, 0xC000), 0x5A);
    assert_eq!(bus.read(&cpu.interrupts, 0xC001), 0x77);
    assert_eq!(cpu.regs.a, 0x77);
    assert_eq!(cpu.regs.b, 0x5A);
    assert_eq!(cpu.regs.hl(), 0xC000);
}

#[test]
fn push_pop_round_trip() {
    // LD SP,0xD000; LD BC,0x1234; PUSH BC; POP DE
    let (mut cpu, mut bus) =
        machine(&[0x31, 0x00, 0xD0, 0x01, 0x34, 0x12, 0xC5, 0xD1, 0x00]);
    run(&mut cpu, &mut bus, 1 + 3 + 3 + 4);
    assert_eq!(cpu.regs.sp, 0xCFFE);
    assert_eq!(bus.read(&cpu.interrupts, 0xCFFF), 0x12);
    assert_eq!(bus.read(&cpu.interrupts, 0xCFFE), 0x34);
    run(&mut cpu, &mut bus, 3);
    assert_eq!(cpu.regs.de(), 0x1234);
    assert_eq!(cpu.regs.sp, 0xD000);
}

#[test]
fn pop_af_clears_low_nibble_of_f() {
    // LD SP,0xD000; LD BC,0x12FF; PUSH BC; POP AF
    let (mut cpu, mut bus) =
        machine(&[0x31, 0x00, 0xD0, 0x01, 0xFF, 0x12, 0xC5, 0xF1, 0x00]);
    run(&mut cpu, &mut bus, 1 + 3 + 3 + 4 + 3);
    assert_eq!(cpu.regs.a, 0x12);
    assert_eq!(cpu.regs.f, 0xF0);
    assert_eq!(cpu.regs.af(), 0x12F0);
}

#[test]
fn call_and_ret() {
    // 0x00: LD SP,0xD000; CALL 0x0010; NOP ...; 0x10: RET
    let mut program = vec![0x31, 0x00, 0xD0, 0xCD, 0x10, 0x00, 0x00];
    program.resize(0x10, 0x00);
    program.push(0xC9);
    let (mut cpu, mut bus) = machine(&program);
    run(&mut cpu, &mut bus, 1 + 3 + 6);
    assert_eq!(cpu.regs.pc, 0x11);
    assert_eq!(cpu.regs.sp, 0xCFFE);
    assert_eq!(bus.read(&cpu.interrupts, 0xCFFE), 0x06);
    run(&mut cpu, &mut bus, 4);
    assert_eq!(cpu.regs.pc, 0x07);
    assert_eq!(cpu.regs.sp, 0xD000);
}

#[test]
fn jr_backwards_and_conditions() {
    // 0: LD A,0x01; 2: DEC A; 3: JR NZ,-3 (not taken: A becomes 0); 5: LD B,0x42
    let (mut cpu, mut bus) = machine(&[0x3E, 0x01, 0x3D, 0x20, 0xFD, 0x06, 0x42, 0x00]);
    run(&mut cpu, &mut bus, 1 + 2 + 1 + 2 + 2);
    assert_eq!(cpu.regs.b, 0x42);
    // JR Z back to 2 when taken
    let (mut cpu, mut bus) = machine(&[0x3E, 0x01, 0x3D, 0x28, 0xFD, 0x00]);
    run(&mut cpu, &mut bus, 1 + 2 + 1 + 3);
    assert_eq!(cpu.regs.pc, 3);
    assert_eq!(cpu.ctx.opcode, 0x3D);
}

#[test]
fn jp_and_jp_hl() {
    // JP 0x0020; at 0x20: LD HL,0x0030; JP HL; at 0x30: LD A,0x99
    let mut program = vec![0xC3, 0x20, 0x00];
    program.resize(0x20, 0x00);
    program.extend_from_slice(&[0x21, 0x30, 0x00, 0xE9]);
    program.resize(0x30, 0x00);
    program.extend_from_slice(&[0x3E, 0x99]);
    let (mut cpu, mut bus) = machine(&program);
    run(&mut cpu, &mut bus, 1 + 4 + 3 + 1 + 2);
    assert_eq!(cpu.regs.a, 0x99);
}

#[test]
fn cb_rotations_and_bits() {
    // LD B,0x81; RLC B (0x03, C); SWAP B (0x30); SET 0,B (0x31); RES 4,B (0x21); BIT 5,B
    let (mut cpu, mut bus) = machine(&[
        0x06, 0x81, 0xCB, 0x00, 0xCB, 0x30, 0xCB, 0xC0, 0xCB, 0xA0, 0xCB, 0x68, 0x00,
    ]);
    run(&mut cpu, &mut bus, 1 + 2 + 2);
    assert_eq!(cpu.regs.b, 0x03);
    assert!(cpu.regs.cf());
    run(&mut cpu, &mut bus, 2);
    assert_eq!(cpu.regs.b, 0x30);
    assert!(!cpu.regs.cf());
    run(&mut cpu, &mut bus, 2);
    assert_eq!(cpu.regs.b, 0x31);
    run(&mut cpu, &mut bus, 2);
    assert_eq!(cpu.regs.b, 0x21);
    run(&mut cpu, &mut bus, 2);
    assert!(!cpu.regs.zf());
    assert!(cpu.regs.hf());
}

#[test]
fn shifts_through_memory() {
    // LD HL,0xC010; LD (HL),0x81; SRA (HL) -> 0xC0, C; SRL (HL) -> 0x60; SLA (HL) -> 0xC0
    let (mut cpu, mut bus) = machine(&[
        0x21, 0x10, 0xC0, 0x36, 0x81, 0xCB, 0x2E, 0xCB, 0x3E, 0xCB, 0x26, 0x00,
    ]);
    run(&mut cpu, &mut bus, 1 + 3 + 3 + 4);
    assert_eq!(bus.read(&cpu.interrupts, 0xC010), 0xC0);
    assert!(cpu.regs.cf());
    run(&mut cpu, &mut bus, 4);
    assert_eq!(bus.read(&cpu.interrupts, 0xC010), 0x60);
    assert!(!cpu.regs.cf());
    run(&mut cpu, &mut bus, 4);
    assert_eq!(bus.read(&cpu.interrupts, 0xC010), 0xC0);
}

#[test]
fn accumulator_rotations() {
    // LD A,0x80; RLCA (0x01, C); RRCA (0x80, C); SCF; RRA (0xC0, no C); RLA (0x80, C)
    let (mut cpu, mut bus) = machine(&[0x3E, 0x80, 0x07, 0x0F, 0x37, 0x1F, 0x17, 0x00]);
    run(&mut cpu, &mut bus, 1 + 2 + 1);
    assert_eq!(cpu.regs.a, 0x01);
    assert!(cpu.regs.cf());
    run(&mut cpu, &mut bus, 1);
    assert_eq!(cpu.regs.a, 0x80);
    assert!(cpu.regs.cf());
    run(&mut cpu, &mut bus, 2);
    assert_eq!(cpu.regs.a, 0xC0);
    assert!(!cpu.regs.cf());
    run(&mut cpu, &mut bus, 1);
    assert_eq!(cpu.regs.a, 0x80);
    assert!(cpu.regs.cf());
    assert!(!cpu.regs.zf());
}

#[test]
fn cpl_ccf_scf() {
    // LD A,0x0F; CPL; SCF; CCF
    let (mut cpu, mut bus) = machine(&[0x3E, 0x0F, 0x2F, 0x37, 0x3F, 0x00]);
    run(&mut cpu, &mut bus, 1 + 2 + 1);
    assert_eq!(cpu.regs.a, 0xF0);
    assert!(cpu.regs.nf() && cpu.regs.hf());
    run(&mut cpu, &mut bus, 1);
    assert!(cpu.regs.cf());
    run(&mut cpu, &mut bus, 1);
    assert!(!cpu.regs.cf());
}

#[test]
fn sixteen_bit_arithmetic() {
    // LD HL,0x0FFF; LD BC,0x0001; ADD HL,BC (0x1000, H); INC BC; DEC BC
    let (mut cpu, mut bus) =
        machine(&[0x21, 0xFF, 0x0F, 0x01, 0x01, 0x00, 0x09, 0x03, 0x0B, 0x00]);
    run(&mut cpu, &mut bus, 1 + 3 + 3 + 2);
    assert_eq!(cpu.regs.hl(), 0x1000);
    assert!(cpu.regs.hf());
    assert!(!cpu.regs.cf());
    run(&mut cpu, &mut bus, 2);
    assert_eq!(cpu.regs.bc(), 0x0002);
    run(&mut cpu, &mut bus, 2);
    assert_eq!(cpu.regs.bc(), 0x0001);
}

#[test]
fn stack_pointer_offsets() {
    // LD SP,0xFFF8; ADD SP,2; LD HL,SP-1
    let (mut cpu, mut bus) = machine(&[0x31, 0xF8, 0xFF, 0xE8, 0x02, 0xF8, 0xFF, 0x00]);
    run(&mut cpu, &mut bus, 1 + 3 + 4);
    assert_eq!(cpu.regs.sp, 0xFFFA);
    run(&mut cpu, &mut bus, 3);
    assert_eq!(cpu.regs.hl(), 0xFFF9);
    assert!(cpu.regs.cf());
    assert!(cpu.regs.hf());
}

#[test]
fn high_page_loads() {
    // LD A,0x3C; LDH (0x80),A; LD C,0x81; LD (C),A; LDH A,(0x80) after LD A,0
    let (mut cpu, mut bus) = machine(&[
        0x3E, 0x3C, 0xE0, 0x80, 0x0E, 0x81, 0xE2, 0x3E, 0x00, 0xF0, 0x80, 0x00,
    ]);
    run(&mut cpu, &mut bus, 1 + 2 + 3 + 2 + 2 + 2 + 3);
    assert_eq!(bus.read(&cpu.interrupts, 0xFF80), 0x3C);
    assert_eq!(bus.read(&cpu.interrupts, 0xFF81), 0x3C);
    assert_eq!(cpu.regs.a, 0x3C);
}

#[test]
fn direct_word_store() {
    // LD SP,0xBEEF; LD (0xC100),SP
    let (mut cpu, mut bus) = machine(&[0x31, 0xEF, 0xBE, 0x08, 0x00, 0xC1, 0x00]);
    run(&mut cpu, &mut bus, 1 + 3 + 5);
    assert_eq!(bus.read(&cpu.interrupts, 0xC100), 0xEF);
    assert_eq!(bus.read(&cpu.interrupts, 0xC101), 0xBE);
}

#[test]
fn interrupt_dispatch() {
    // LD SP,0xD000; EI; NOP; NOP ...  with the timer interrupt requested
    let (mut cpu, mut bus) = machine(&[0x31, 0x00, 0xD0, 0xFB, 0x00, 0x00, 0x00]);
    cpu.interrupts.int_enable = 0b00100;
    cpu.interrupts.int_flags = 0b00110;
    // the boot NOP, LD SP (3 cycles), then EI, which enables at its end
    run(&mut cpu, &mut bus, 1 + 3 + 1);
    assert!(cpu.interrupts.ime);
    // the NOP after EI runs, then the dispatch is decided at its fetch
    run(&mut cpu, &mut bus, 1);
    assert!(cpu.ctx.int);
    run(&mut cpu, &mut bus, 5);
    assert_eq!(cpu.regs.pc, 0x51);
    assert!(!cpu.interrupts.ime);
    assert_eq!(cpu.interrupts.int_flags, 0b00010);
    assert_eq!(cpu.regs.sp, 0xCFFE);
    assert_eq!(bus.read(&cpu.interrupts, 0xCFFE), 0x05);
}

#[test]
fn reti_enables_interrupts() {
    // LD SP,0xD000; CALL 0x10; at 0x10: RETI
    let mut program = vec![0x31, 0x00, 0xD0, 0xCD, 0x10, 0x00, 0x00];
    program.resize(0x10, 0x00);
    program.push(0xD9);
    let (mut cpu, mut bus) = machine(&program);
    run(&mut cpu, &mut bus, 1 + 3 + 6 + 4);
    assert_eq!(cpu.regs.pc, 0x07);
    assert!(cpu.interrupts.ime);
}

#[test]
fn halt_waits_for_an_interrupt() {
    // HALT
    let (mut cpu, mut bus) = machine(&[0x76, 0x00]);
    run(&mut cpu, &mut bus, 5);
    assert_eq!(cpu.regs.pc, 1);
    assert_eq!(cpu.ctx.opcode, 0x76);
    cpu.interrupts.int_enable = 0b00001;
    cpu.interrupts.int_flags = 0b00001;
    run(&mut cpu, &mut bus, 1);
    assert_eq!(cpu.regs.pc, 2);
    assert_eq!(cpu.ctx.opcode, 0x00);
}

#[test]
fn stop_and_undefined_opcodes_halt() {
    let (mut cpu, mut bus) = machine(&[0x10, 0x00]);
    assert_eq!(cpu.halt_reason(&bus), None);
    run(&mut cpu, &mut bus, 1);
    assert_eq!(cpu.ctx.opcode, 0x10);
    assert!(!cpu.can_emulate_cycle());
    assert_eq!(cpu.halt_reason(&bus), Some(Halt::Stop));
    assert_eq!(cpu.stop(&bus), Halt::Stop);
    let (mut cpu, mut bus) = machine(&[0xD3, 0x00]);
    run(&mut cpu, &mut bus, 1);
    assert!(!cpu.can_emulate_cycle());
    assert_eq!(cpu.halt_reason(&bus), Some(Halt::Undefined(0xD3)));
    assert_eq!(cpu.undefined(&bus), Halt::Undefined(0xD3));
    // after the CB prefix, 0x10 is RL B and runs on
    let (mut cpu, mut bus) = machine(&[0xCB, 0x10, 0x00]);
    run(&mut cpu, &mut bus, 3);
    assert_eq!(cpu.regs.pc, 3);
    assert_eq!(cpu.halt_reason(&bus), None);
}

#[test]
fn vanished_interrupt_halts_dispatch() {
    // LD SP,0xFF11; NOP; EI; NOP: the push of PC (0x0006) writes its low
    // byte over IF at 0xFF0F, which withdraws the pending V-blank request
    let (mut cpu, mut bus) = machine(&[0x31, 0x11, 0xFF, 0x00, 0xFB, 0x00, 0x00]);
    cpu.interrupts.int_enable = 0b00001;
    cpu.interrupts.int_flags = 0b00001;
    run(&mut cpu, &mut bus, 1 + 3 + 1 + 1 + 1);
    assert!(cpu.ctx.int);
    assert_eq!(cpu.regs.pc, 6);
    run(&mut cpu, &mut bus, 3);
    assert_eq!(cpu.interrupts.int_flags, 0x06);
    assert!(!cpu.can_emulate_cycle());
    assert_eq!(cpu.halt_reason(&bus), Some(Halt::InvalidInterrupt));
}

#[test]
fn conditional_call_and_return() {
    // LD SP,0xD000; XOR A (Z); CALL NZ,0x0020 (not taken); CALL Z,0x0020; ...; 0x20: RET NZ; RET Z
    let mut program = vec![0x31, 0x00, 0xD0, 0xAF, 0xC4, 0x20, 0x00, 0xCC, 0x20, 0x00, 0x00];
    program.resize(0x20, 0x00);
    program.extend_from_slice(&[0xC0, 0xC8]);
    let (mut cpu, mut bus) = machine(&program);
    run(&mut cpu, &mut bus, 1 + 3 + 1 + 3);
    assert_eq!(cpu.regs.pc, 0x08);
    run(&mut cpu, &mut bus, 6);
    assert_eq!(cpu.regs.pc, 0x21);
    run(&mut cpu, &mut bus, 2);
    assert_eq!(cpu.regs.pc, 0x22);
    run(&mut cpu, &mut bus, 5);
    assert_eq!(cpu.regs.pc, 0x0B);
    assert_eq!(cpu.regs.sp, 0xD000);
}

#[test]
fn rst_jumps_to_vector() {
    // LD SP,0xD000; RST 0x28
    let (mut cpu, mut bus) = machine(&[0x31, 0x00, 0xD0, 0xEF, 0x00]);
    run(&mut cpu, &mut bus, 1 + 3 + 4);
    assert_eq!(cpu.regs.pc, 0x29);
    assert_eq!(bus.read(&cpu.interrupts, 0xCFFE), 0x04);
}

#[test]
fn ld_sp_hl() {
    // LD HL,0xC123; LD SP,HL
    let (mut cpu, mut bus) = machine(&[0x21, 0x23, 0xC1, 0xF9, 0x00]);
    run(&mut cpu, &mut bus, 1 + 3 + 2);
    assert_eq!(cpu.regs.sp, 0xC123);
}

#[test]
fn bootrom_unmaps_on_ff50_write() {
    // LD A,1; LDH (0x50),A -> the cartridge shows at 0x0000
    let (mut cpu, mut bus) = machine(&[0x3E, 0x01, 0xE0, 0x50, 0x00]);
    assert_eq!(bus.read(&cpu.interrupts, 0x0000), 0x3E);
    run(&mut cpu, &mut bus, 1 + 2 + 3);
    assert_eq!(bus.read(&cpu.interrupts, 0x0000), 0x00);
    assert!(!bus.bootrom.is_active());
}

#[test]
fn inverse_operations_restore_the_byte() {
    // LD B,0xA5; SWAP B; SWAP B; RLC B; RRC B; SCF; RL B; RR B; INC B; DEC B;
    // SET 3,B; RES 3,B
    let (mut cpu, mut bus) = machine(&[
        0x06, 0xA5, 0xCB, 0x30, 0xCB, 0x30, 0xCB, 0x00, 0xCB, 0x08, 0x37, 0xCB, 0x10, 0xCB,
        0x18, 0x04, 0x05, 0xCB, 0xD8, 0xCB, 0x98, 0x00,
    ]);
    run(&mut cpu, &mut bus, 1 + 2);
    assert_eq!(cpu.regs.b, 0xA5);
    run(&mut cpu, &mut bus, 2);
    assert_eq!(cpu.regs.b, 0x5A);
    run(&mut cpu, &mut bus, 2);
    assert_eq!(cpu.regs.b, 0xA5);
    run(&mut cpu, &mut bus, 2 + 2);
    assert_eq!(cpu.regs.b, 0xA5);
    run(&mut cpu, &mut bus, 1 + 2);
    assert_eq!(cpu.regs.b, 0x4B);
    assert!(cpu.regs.cf());
    run(&mut cpu, &mut bus, 2);
    assert_eq!(cpu.regs.b, 0xA5);
    assert!(cpu.regs.cf());
    run(&mut cpu, &mut bus, 1 + 1);
    assert_eq!(cpu.regs.b, 0xA5);
    assert!(cpu.regs.cf());
    run(&mut cpu, &mut bus, 2);
    assert_eq!(cpu.regs.b, 0xAD);
    run(&mut cpu, &mut bus, 2);
    assert_eq!(cpu.regs.b, 0xA5);
}

#[test]
fn carry_free_adc_and_sbc_match_add_and_sub() {
    // LD A,0x3A; AND A (carry clear); ADC A,0xC6  /  LD A,0x3A; ADD A,0xC6
    let (mut with_carry_op, mut bus1) = machine(&[0x3E, 0x3A, 0xA7, 0xCE, 0xC6, 0x00]);
    let (mut plain_op, mut bus2) = machine(&[0x3E, 0x3A, 0x00, 0xC6, 0xC6, 0x00]);
    run(&mut with_carry_op, &mut bus1, 1 + 2 + 1 + 2);
    run(&mut plain_op, &mut bus2, 1 + 2 + 1 + 2);
    assert_eq!(with_carry_op.regs.a, 0x00);
    assert_eq!(with_carry_op.regs.a, plain_op.regs.a);
    assert_eq!(with_carry_op.regs.f, plain_op.regs.f);
    // LD A,0x3A; AND A; SBC A,0x4B  /  LD A,0x3A; SUB 0x4B
    let (mut with_carry_op, mut bus1) = machine(&[0x3E, 0x3A, 0xA7, 0xDE, 0x4B, 0x00]);
    let (mut plain_op, mut bus2) = machine(&[0x3E, 0x3A, 0x00, 0xD6, 0x4B, 0x00]);
    run(&mut with_carry_op, &mut bus1, 1 + 2 + 1 + 2);
    run(&mut plain_op, &mut bus2, 1 + 2 + 1 + 2);
    assert_eq!(with_carry_op.regs.a, 0xEF);
    assert_eq!(with_carry_op.regs.a, plain_op.regs.a);
    assert_eq!(with_carry_op.regs.f, plain_op.regs.f);
}

#[test]
fn inc16_dec16_wrap_and_keep_flags() {
    // LD BC,0xFFFF; SCF; INC BC; DEC BC
    let (mut cpu, mut bus) = machine(&[0x01, 0xFF, 0xFF, 0x37, 0x03, 0x0B, 0x00]);
    run(&mut cpu, &mut bus, 1 + 3 + 1);
    let f = cpu.regs.f;
    assert!(cpu.regs.cf());
    run(&mut cpu, &mut bus, 2);
    assert_eq!(cpu.regs.bc(), 0x0000);
    assert_eq!(cpu.regs.f, f);
    run(&mut cpu, &mut bus, 2);
    assert_eq!(cpu.regs.bc(), 0xFFFF);
    assert_eq!(cpu.regs.f, f);
}

#[test]
fn cp_sets_the_flags_of_sub() {
    // LD A,0x3A; CP 0x4B  /  LD A,0x3A; SUB 0x4B
    let (mut cmp, mut bus1) = machine(&[0x3E, 0x3A, 0xFE, 0x4B, 0x00]);
    let (mut sub, mut bus2) = machine(&[0x3E, 0x3A, 0xD6, 0x4B, 0x00]);
    run(&mut cmp, &mut bus1, 1 + 2 + 2);
    run(&mut sub, &mut bus2, 1 + 2 + 2);
    assert_eq!(cmp.regs.f, sub.regs.f);
    assert_eq!(cmp.regs.a, 0x3A);
    assert_eq!(sub.regs.a, 0xEF);
}
