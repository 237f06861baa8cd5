# rust_boy

A Game Boy (DMG) emulator core whose behaviour is stated in contracts and
proved with Verus.

- `src/cpu*` — the SM83 CPU, cycle by cycle: registers, operands, every
  instruction as a one-cycle step against a spec model, the decoder, interrupt
  dispatch, and `cpu/laws.rs` with the algebraic facts about the ALU (DAA on
  BCD sums and differences, inverse pairs), the stack round trip and
  interrupt priority.
- `src/cartridge*` — header validation and checksum, ROM and RAM access and the
  MBC1 bank controller.
- `src/peripherals.rs`, `src/bootrom.rs` — the memory bus and boot ROM mapping.
- `src/apu.rs` — the four sound channels, frame sequencer and register file.
- `src/gameboy.rs` — the machine, run against emulated time. It runs the
  CPU over the bus only: there is no timer, PPU, OAM DMA or LCD, so no timer
  or V-blank interrupt is ever raised by the machine itself.
- `app/` — the program: file loading and the real-time loop, with no window.
  `app/mixer.rs` holds the floating-point sample mixing for the sound unit,
  which the program does not drive (the sound unit is not on the bus).
