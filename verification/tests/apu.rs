use rust_boy::apu::{Apu, SAMPLE_PERIOD};

fn powered() -> Apu {
    let mut apu = Apu::new();
    apu.write(0xFF26, 0x80);
    apu
}

#[test]
fn starts_switched_off() {
    let apu = Apu::new();
    assert_eq!(apu.read(0xFF26), 0x70);
    assert_eq!(apu.read(0xFF24), 0x00);
    assert_eq!(apu.read(0xFF25), 0x00);
}

#[test]
fn writes_ignored_while_off() {
    let mut apu = Apu::new();
    apu.write(0xFF24, 0x77);
    apu.write(0xFF25, 0xF3);
    apu.write(0xFF12, 0xF0);
    assert_eq!(apu.read(0xFF24), 0x00);
    assert_eq!(apu.read(0xFF25), 0x00);
    assert_eq!(apu.read(0xFF12), 0x00);
}

#[test]
fn length_registers_and_wave_ram_writable_while_off() {
    let mut apu = Apu::new();
    apu.write(0xFF11, 0xFF);
    // only the length bits are taken while off; the duty stays 0
    assert_eq!(apu.read(0xFF11), 0x3F);
    apu.write(0xFF30, 0xAB);
    assert_eq!(apu.read(0xFF30), 0xAB);
}

#[test]
fn power_on_and_registers() {
    let mut apu = powered();
    assert_eq!(apu.read(0xFF26), 0xF0);
    apu.write(0xFF24, 0x77);
    apu.write(0xFF25, 0xF3);
    assert_eq!(apu.read(0xFF24), 0x77);
    assert_eq!(apu.read(0xFF25), 0xF3);
    apu.write(0xFF11, 0xC0);
    assert_eq!(apu.read(0xFF11), 0xFF);
    apu.write(0xFF10, 0x7F);
    assert_eq!(apu.read(0xFF10), 0xFF);
    apu.write(0xFF13, 0x12);
    assert_eq!(apu.read(0xFF13), 0xFF);
}

#[test]
fn power_off_clears_registers_but_not_wave_ram() {
    let mut apu = powered();
    apu.write(0xFF24, 0x77);
    apu.write(0xFF30, 0x5C);
    apu.write(0xFF12, 0xF0);
    apu.write(0xFF14, 0x80);
    assert_eq!(apu.read(0xFF26), 0xF1);
    apu.write(0xFF26, 0x00);
    assert_eq!(apu.read(0xFF26), 0x70);
    assert_eq!(apu.read(0xFF24), 0x00);
    assert_eq!(apu.read(0xFF12), 0x00);
    assert_eq!(apu.read(0xFF30), 0x5C);
}

#[test]
fn trigger_needs_the_dac() {
    let mut apu = powered();
    // DAC off: volume 0, no envelope increase
    apu.write(0xFF12, 0x00);
    apu.write(0xFF14, 0x80);
    assert_eq!(apu.read(0xFF26), 0xF0);
    assert_eq!(apu.channel1.dac_output(), None);
    // DAC on: the trigger starts the channel
    apu.write(0xFF12, 0xF0);
    apu.write(0xFF14, 0x80);
    assert_eq!(apu.read(0xFF26), 0xF1);
    assert!(apu.channel1.dac_output().is_some());
}

#[test]
fn all_four_channels_report_in_nr52() {
    let mut apu = powered();
    apu.write(0xFF17, 0xF0);
    apu.write(0xFF19, 0x80);
    apu.write(0xFF1A, 0x80);
    apu.write(0xFF1E, 0x80);
    apu.write(0xFF21, 0xF0);
    apu.write(0xFF23, 0x80);
    assert_eq!(apu.read(0xFF26), 0xFE);
}

#[test]
fn length_counter_stops_channel() {
    let mut apu = powered();
    apu.write(0xFF12, 0xF0);
    apu.write(0xFF11, 0x3F);
    apu.write(0xFF14, 0xC0);
    assert_eq!(apu.read(0xFF26), 0xF1);
    for _ in 0..0x1FFF {
        apu.emulate_t_cycle();
    }
    assert_eq!(apu.read(0xFF26), 0xF1);
    apu.emulate_t_cycle();
    assert_eq!(apu.read(0xFF26), 0xF0);
}

#[test]
fn length_counter_off_keeps_channel() {
    let mut apu = powered();
    apu.write(0xFF12, 0xF0);
    apu.write(0xFF11, 0x3F);
    apu.write(0xFF14, 0x80);
    for _ in 0..0x4000 {
        apu.emulate_t_cycle();
    }
    assert_eq!(apu.read(0xFF26), 0xF1);
}

#[test]
fn sample_due_every_period() {
    let mut apu = Apu::new();
    assert_eq!(SAMPLE_PERIOD, 87);
    for _ in 0..86 {
        assert!(!apu.emulate_t_cycle());
    }
    assert!(apu.emulate_t_cycle());
    assert!(!apu.emulate_t_cycle());
}

#[test]
fn wave_channel_plays_wave_ram() {
    let mut apu = powered();
    apu.write(0xFF30, 0xF0);
    apu.write(0xFF1A, 0x80);
    apu.write(0xFF1C, 0x20);
    apu.write(0xFF1E, 0x80);
    assert_eq!(apu.read(0xFF1C), 0xBF);
    assert!(apu.channel3.dac_output().is_some());
}

#[test]
fn machine_cycle_runs_four_t_cycles() {
    let mut apu = powered();
    apu.write(0xFF24, 0x77);
    apu.write(0xFF25, 0x11);
    for _ in 0..21 {
        assert!(apu.emulate_cycle().is_empty());
    }
    // T-cycle 87 falls in the 22nd machine cycle
    let samples = apu.emulate_cycle();
    assert_eq!(samples.len(), 1);
    assert_eq!(samples[0].nr50, 0x77);
    assert_eq!(samples[0].nr51, 0x11);
    assert_eq!(samples[0].channel1, None);
    assert!(apu.emulate_cycle().is_empty());
}

#[test]
fn square_channel_follows_its_duty() {
    let mut apu = powered();
    // 12.5% duty, volume 15, highest frequency: a position every 4 T-cycles
    apu.write(0xFF12, 0xF0);
    apu.write(0xFF13, 0xFF);
    apu.write(0xFF14, 0x87);
    assert_eq!(apu.channel1.dac_output(), Some(0));
    for _ in 0..24 {
        apu.emulate_t_cycle();
    }
    assert_eq!(apu.channel1.dac_output(), Some(0));
    apu.emulate_t_cycle();
    assert_eq!(apu.channel1.dac_output(), Some(15));
}

#[test]
fn writes_outside_sound_registers_ignored_while_off() {
    let mut apu = Apu::new();
    apu.write(0xFF30, 0x9C);
    apu.write(0xFF27, 0x12);
    apu.write(0x0000, 0xFF);
    apu.write(0xFF40, 0x91);
    assert_eq!(apu.read(0xFF26), 0x70);
    assert_eq!(apu.read(0xFF24), 0x00);
    assert_eq!(apu.read(0xFF30), 0x9C);
}

#[test]
fn nr1x_read_back() {
    let mut apu = powered();
    apu.write(0xFF10, 0x35);
    assert_eq!(apu.read(0xFF10), 0xB5);
    apu.write(0xFF11, 0x81);
    assert_eq!(apu.read(0xFF11), 0xBF);
    apu.write(0xFF12, 0xF3);
    assert_eq!(apu.read(0xFF12), 0xF3);
    apu.write(0xFF13, 0x42);
    assert_eq!(apu.read(0xFF13), 0xFF);
    apu.write(0xFF14, 0x47);
    assert_eq!(apu.read(0xFF14), 0xFF);
    apu.write(0xFF14, 0x07);
    assert_eq!(apu.read(0xFF14), 0xBF);
}

#[test]
fn dac_off_turns_channel_off() {
    let mut apu = powered();
    apu.write(0xFF12, 0xF0);
    apu.write(0xFF14, 0x80);
    assert_eq!(apu.read(0xFF26), 0xF1);
    apu.write(0xFF12, 0x07);
    assert_eq!(apu.read(0xFF26), 0xF0);
    assert!(!apu.channel1.dac_enabled);
}

#[test]
fn envelope_steps_volume_on_frame_step_seven() {
    let mut apu = powered();
    // volume 15, decreasing, period 1
    apu.write(0xFF12, 0xF1);
    apu.write(0xFF14, 0x80);
    assert_eq!(apu.channel1.current_volume, 15);
    for _ in 0..7 * 0x2000 {
        apu.emulate_t_cycle();
    }
    assert_eq!(apu.channel1.current_volume, 15);
    for _ in 0..0x2000 {
        apu.emulate_t_cycle();
    }
    assert_eq!(apu.channel1.current_volume, 14);
}

#[test]
fn channels_start_off_and_zero() {
    let apu = Apu::new();
    assert!(!apu.channel1.enabled && !apu.channel1.dac_enabled);
    assert!(!apu.channel2.enabled && !apu.channel2.dac_enabled);
    assert!(!apu.channel3.enabled && !apu.channel3.dac_enabled);
    assert!(!apu.channel4.enabled && !apu.channel4.dac_enabled);
    assert_eq!(apu.channel1.length_timer, 0);
    assert_eq!(apu.channel1.current_volume, 0);
    assert_eq!(apu.channel4.lfsr, 0);
    assert_eq!(apu.channel3.wave_ram, [0u8; 16]);
    assert_eq!(apu.channel1.dac_output(), None);
}
