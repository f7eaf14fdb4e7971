use chip8::chip8::Chip8;
use std::time::Duration;

// V0 = 0xFF; delay = V0; then forever: V1 = delay; jump back.
const DELAY_LOOP: [u8; 8] = [0x60, 0xFF, 0xF0, 0x15, 0xF1, 0x07, 0x12, 0x04];

// V0 = 5; sound = V0; then jump to self.
const SOUND_LOOP: [u8; 6] = [0x60, 0x05, 0xF0, 0x18, 0x12, 0x04];

fn timed_machine(rom: &[u8], clock_hz: u64) -> Chip8 {
    let mut machine = Chip8::new(clock_hz, false);
    machine.insert_cartridge(&rom.to_vec());
    machine
}

#[test]
fn a_paused_machine_runs_one_instruction_per_step() {
    let mut machine = timed_machine(&[0x60, 0x01, 0x70, 0x01, 0x70, 0x01], 1);
    machine.step(Duration::from_nanos(0));
    assert_eq!(machine.pc(), 0x202);
    machine.step(Duration::from_nanos(0));
    assert_eq!(machine.pc(), 0x204);
    machine.step(Duration::from_secs(100));
    assert_eq!(machine.pc(), 0x206);
    assert_eq!(machine.registers()[0], 3);
}

#[test]
fn a_paused_machine_counts_down_on_every_step() {
    let mut machine = timed_machine(&DELAY_LOOP, 600);
    machine.step(Duration::from_nanos(0));
    machine.step(Duration::from_nanos(0));
    machine.step(Duration::from_nanos(0));
    // set to 0xFF and counted down in the second step, read in the third
    assert_eq!(machine.registers()[1], 0xFE);
    machine.step(Duration::from_nanos(0));
    machine.step(Duration::from_nanos(0));
    assert_eq!(machine.registers()[1], 0xFC);
}

#[test]
fn a_running_machine_waits_for_its_clock() {
    let mut machine = timed_machine(&[0x60, 0x01, 0x70, 0x01, 0x70, 0x01, 0x12, 0x06], 2);
    machine.run();
    // the clock's interval is half a second
    machine.step(Duration::from_millis(300));
    assert_eq!(machine.pc(), 0x200);
    machine.step(Duration::from_millis(300));
    assert_eq!(machine.pc(), 0x202);
    // 100 ms are carried over
    machine.step(Duration::from_millis(300));
    assert_eq!(machine.pc(), 0x202);
    machine.step(Duration::from_millis(100));
    assert_eq!(machine.pc(), 0x204);
    machine.step(Duration::from_millis(499));
    assert_eq!(machine.pc(), 0x204);
    machine.step(Duration::from_millis(1));
    assert_eq!(machine.pc(), 0x206);
}

#[test]
fn a_running_machine_runs_one_instruction_however_long_the_step() {
    let mut machine = timed_machine(&[0x60, 0x01, 0x70, 0x01, 0x70, 0x01, 0x12, 0x06], 600);
    machine.run();
    machine.step(Duration::from_secs(10));
    assert_eq!(machine.pc(), 0x202);
    assert_eq!(machine.registers()[0], 1);
}

#[test]
fn one_sixtieth_of_a_second_counts_down_once() {
    let mut machine = timed_machine(&DELAY_LOOP, 600);
    machine.step(Duration::from_nanos(1));
    machine.step(Duration::from_nanos(1));
    machine.run();
    // the delay register holds 0xFE; this step reads it and counts it down
    machine.step(Duration::from_nanos(16_666_666));
    assert_eq!(machine.registers()[1], 0xFE);
    machine.step(Duration::from_nanos(16_666_666));
    machine.step(Duration::from_nanos(16_666_666));
    assert_eq!(machine.registers()[1], 0xFC);
}

#[test]
fn a_step_over_many_intervals_counts_down_once() {
    let mut machine = timed_machine(&DELAY_LOOP, 600);
    machine.step(Duration::from_nanos(1));
    machine.step(Duration::from_nanos(1));
    machine.run();
    machine.step(Duration::from_nanos(16_666_666));
    assert_eq!(machine.registers()[1], 0xFE);
    // a second covers sixty intervals of the 60 Hz timer
    machine.step(Duration::from_secs(1));
    assert_eq!(machine.pc(), 0x204);
    // too short for either timer
    machine.step(Duration::from_nanos(1));
    assert_eq!(machine.pc(), 0x204);
    assert_eq!(machine.registers()[1], 0xFE);
    machine.step(Duration::from_secs(1));
    assert_eq!(machine.registers()[1], 0xFC);
}

#[test]
fn a_short_step_counts_nothing_down() {
    let mut machine = timed_machine(&DELAY_LOOP, 1_000_000);
    machine.step(Duration::from_nanos(0));
    machine.step(Duration::from_nanos(0));
    machine.run();
    // the clock's interval is 1000 ns, the 60 Hz timer's 16 666 666 ns
    for _ in 0..100 {
        machine.step(Duration::from_nanos(1000));
    }
    assert_eq!(machine.registers()[1], 0xFE);
    for _ in 0..16_567 {
        machine.step(Duration::from_nanos(1000));
    }
    machine.step(Duration::from_nanos(1000));
    machine.step(Duration::from_nanos(1000));
    assert_eq!(machine.registers()[1], 0xFD);
}

#[test]
fn countdown_stops_at_zero() {
    let mut machine = timed_machine(&[0x60, 0x02, 0xF0, 0x15, 0xF1, 0x07, 0x12, 0x04], 600);
    for _ in 0..2 {
        machine.step(Duration::from_nanos(0));
    }
    for _ in 0..10 {
        machine.step(Duration::from_nanos(0));
    }
    assert_eq!(machine.registers()[1], 0);
}

#[test]
fn a_paused_machine_does_not_beep() {
    let mut machine = timed_machine(&SOUND_LOOP, 600);
    assert!(!machine.step(Duration::from_nanos(0)).beep);
    assert!(!machine.step(Duration::from_nanos(0)).beep);
    assert!(!machine.step(Duration::from_nanos(0)).beep);
}

#[test]
fn a_running_machine_beeps_while_the_sound_register_counts() {
    let mut machine = timed_machine(&SOUND_LOOP, 600);
    machine.step(Duration::from_nanos(0));
    machine.step(Duration::from_nanos(0));
    machine.run();
    // the sound register holds 4
    assert!(machine.step(Duration::from_nanos(1)).beep);
    assert!(machine.step(Duration::from_secs(1)).beep);
    assert!(machine.step(Duration::from_secs(1)).beep);
    assert!(machine.step(Duration::from_secs(1)).beep);
    assert!(!machine.step(Duration::from_secs(1)).beep);
    assert!(!machine.step(Duration::from_secs(1)).beep);
    machine.pause();
    assert!(machine.paused());
}

#[test]
fn pause_and_run_switch_the_state() {
    let mut machine = Chip8::new(600, false);
    assert!(machine.paused());
    machine.run();
    assert!(!machine.paused());
    machine.pause();
    assert!(machine.paused());
}

#[test]
fn change_clock_sets_a_new_interval() {
    let mut machine = timed_machine(&[0x60, 0x01, 0x70, 0x01, 0x70, 0x01, 0x12, 0x06], 1);
    machine.run();
    machine.step(Duration::from_millis(900));
    assert_eq!(machine.pc(), 0x200);
    machine.change_clock(10);
    assert_eq!(machine.clock_hz(), 10);
    // the new clock starts from nothing: 900 ms are forgotten
    machine.step(Duration::from_millis(99));
    assert_eq!(machine.pc(), 0x200);
    machine.step(Duration::from_millis(1));
    assert_eq!(machine.pc(), 0x202);
    assert_eq!(machine.registers()[0], 1);
}

#[test]
fn change_clock_to_the_same_frequency_keeps_the_interval_running() {
    let mut machine = timed_machine(&[0x60, 0x01, 0x12, 0x02], 1);
    machine.run();
    machine.step(Duration::from_millis(900));
    machine.change_clock(1);
    machine.step(Duration::from_millis(100));
    assert_eq!(machine.pc(), 0x202);
}

#[test]
fn a_clock_faster_than_a_nanosecond_fires_on_every_step() {
    let mut machine = timed_machine(&[0x70, 0x01, 0x12, 0x00], 2_000_000_000);
    machine.run();
    machine.step(Duration::from_nanos(0));
    machine.step(Duration::from_nanos(0));
    machine.step(Duration::from_nanos(0));
    assert_eq!(machine.registers()[0], 2);
}

#[test]
fn a_timer_counts_its_intervals_in_32_bits() {
    let mut machine = timed_machine(&[0x70, 0x01, 0x12, 0x00], 1_000_000_000);
    machine.run();
    // the clock's interval is one nanosecond: this step covers 2^32 of them,
    // and the timer's count of them comes to zero
    machine.step(Duration::from_nanos(1 << 32));
    assert_eq!(machine.pc(), 0x200);
    machine.step(Duration::from_nanos((1 << 32) + 1));
    assert_eq!(machine.pc(), 0x202);
    assert_eq!(machine.registers()[0], 1);
}

#[test]
fn flags_can_be_set() {
    let mut machine = Chip8::new(600, false);
    machine.set_super_chip(false);
    assert!(!machine.super_chip());
    machine.set_super_chip(true);
    assert!(machine.super_chip());
}
