use chip8::chip8::Chip8;
use chip8::state::Fault;
use std::time::Duration;

fn faulty(rom: &[u8]) -> (Chip8, Fault) {
    let mut machine = Chip8::new(600, false);
    machine.insert_cartridge(&rom.to_vec());
    for _ in 0..1000 {
        match machine.try_step(Duration::from_nanos(1)) {
            Ok(_) => {}
            Err(fault) => return (machine, fault),
        }
    }
    panic!("the program raised no fault");
}

#[test]
fn empty_memory_is_no_instruction() {
    let (machine, fault) = faulty(&[]);
    assert_eq!(fault, Fault::Decode { instr: 0x0000, pc: 0x200 });
    assert_eq!(machine.pc(), 0x200);
    assert_eq!(machine.fault(), Some(fault));
}

#[test]
fn unknown_words_are_decode_faults() {
    for word in [0x0123u16, 0x5011, 0x9011, 0x8018, 0x801F, 0xE000, 0xE19F, 0xF0FF, 0xF000] {
        let (machine, fault) = faulty(&[(word >> 8) as u8, word as u8]);
        assert_eq!(fault, Fault::Decode { instr: word, pc: 0x200 });
        assert_eq!(machine.pc(), 0x200);
    }
}

#[test]
fn check_names_the_word_and_the_address() {
    let machine = Chip8::new(600, false);
    assert_eq!(machine.check(0x5AB1, 0x345), Some(Fault::Decode { instr: 0x5AB1, pc: 0x345 }));
    assert_eq!(machine.check(0x5AB0, 0x345), None);
    assert_eq!(machine.check(0x00EE, 0x200), Some(Fault::StackUnderflow { instr: 0x00EE, pc: 0x200 }));
    assert_eq!(machine.check(0x00E0, 0x200), None);
}

#[test]
fn return_on_an_empty_stack_is_an_underflow() {
    let (machine, fault) = faulty(&[0x00, 0xEE]);
    assert_eq!(fault, Fault::StackUnderflow { instr: 0x00EE, pc: 0x200 });
    assert_eq!(machine.sp(), 0);
}

#[test]
fn the_seventeenth_call_is_an_overflow() {
    let (machine, fault) = faulty(&[0x22, 0x00]);
    assert_eq!(fault, Fault::StackOverflow { instr: 0x2200, pc: 0x200 });
    assert_eq!(machine.sp(), 16);
    assert!(machine.stack().iter().all(|a| *a == 0x202));
}

#[test]
fn fetching_past_the_memory_is_a_fetch_fault() {
    let (machine, fault) = faulty(&[0x1F, 0xFF]);
    assert_eq!(fault, Fault::Fetch { pc: 0xFFF });
    assert_eq!(machine.pc(), 0xFFF);
}

#[test]
fn the_last_word_of_memory_can_be_fetched() {
    let mut machine = Chip8::new(600, false);
    machine.insert_cartridge(&vec![0x1F, 0xFE]);
    assert!(machine.try_step(Duration::from_nanos(1)).is_ok());
    assert_eq!(machine.pc(), 0xFFE);
    assert_eq!(machine.fault(), Some(Fault::Decode { instr: 0x0000, pc: 0xFFE }));
}

#[test]
fn storing_past_the_memory_is_an_address_fault() {
    let (_, fault) = faulty(&[0xAF, 0xFF, 0xF1, 0x55]);
    assert_eq!(fault, Fault::Address { instr: 0xF155, pc: 0x202 });
    let (_, fault) = faulty(&[0xAF, 0xFF, 0xF1, 0x65]);
    assert_eq!(fault, Fault::Address { instr: 0xF165, pc: 0x202 });
}

#[test]
fn storing_up_to_the_last_byte_is_fine() {
    let mut machine = Chip8::new(600, false);
    machine.insert_cartridge(&vec![0x61, 0x77, 0xAF, 0xFE, 0xF1, 0x55]);
    for _ in 0..3 {
        assert!(machine.try_step(Duration::from_nanos(1)).is_ok());
    }
    assert_eq!(machine.ram()[0xFFF], 0x77);
}

#[test]
fn digits_past_the_memory_are_an_address_fault() {
    let (_, fault) = faulty(&[0x60, 0xFF, 0xAF, 0xFE, 0xF0, 0x33]);
    assert_eq!(fault, Fault::Address { instr: 0xF033, pc: 0x204 });
    let (_, fault) = faulty(&[0x60, 0x0A, 0xAF, 0xFF, 0xF0, 0x33]);
    assert_eq!(fault, Fault::Address { instr: 0xF033, pc: 0x204 });
}

#[test]
fn a_single_digit_fits_in_the_last_byte() {
    let mut machine = Chip8::new(600, false);
    machine.insert_cartridge(&vec![0x60, 0x09, 0xAF, 0xFF, 0xF0, 0x33]);
    for _ in 0..3 {
        assert!(machine.try_step(Duration::from_nanos(1)).is_ok());
    }
    assert_eq!(machine.ram()[0xFFF], 9);
}

#[test]
fn a_sprite_past_the_memory_is_an_address_fault() {
    let (_, fault) = faulty(&[0xAF, 0xFF, 0xD0, 0x02]);
    assert_eq!(fault, Fault::Address { instr: 0xD002, pc: 0x202 });
}

#[test]
fn sprite_rows_below_the_display_are_not_read() {
    let mut machine = Chip8::new(600, false);
    // row 31, four rows asked for: only the first is on the display
    machine.insert_cartridge(&vec![0x61, 0x1F, 0xAF, 0xFF, 0xD0, 0x14]);
    for _ in 0..3 {
        assert!(machine.try_step(Duration::from_nanos(1)).is_ok());
    }
    assert_eq!(machine.pc(), 0x206);
}

#[test]
fn an_empty_sprite_reads_nothing() {
    let mut machine = Chip8::new(600, false);
    machine.insert_cartridge(&vec![0x60, 0xFF, 0xAF, 0xFF, 0xF0, 0x1E, 0xD1, 0x10]);
    for _ in 0..4 {
        assert!(machine.try_step(Duration::from_nanos(1)).is_ok());
    }
    assert_eq!(machine.pc(), 0x208);
}

#[test]
fn the_index_register_cannot_pass_sixteen_bits() {
    let mut machine = Chip8::new(600, false);
    machine.insert_cartridge(&vec![0x60, 0xFF, 0xAF, 0xFF, 0xF0, 0x1E, 0x12, 0x04]);
    let mut additions = 0;
    let fault = loop {
        let at = machine.pc();
        match machine.try_step(Duration::from_nanos(1)) {
            Ok(_) => {
                if at == 0x204 {
                    additions += 1;
                }
            }
            Err(fault) => break fault,
        }
    };
    assert_eq!(fault, Fault::Address { instr: 0xF01E, pc: 0x204 });
    assert_eq!(additions, 240);
}

#[test]
fn a_key_past_the_keypad_is_a_key_fault() {
    let (_, fault) = faulty(&[0x60, 0x10, 0xE0, 0x9E]);
    assert_eq!(fault, Fault::Key { instr: 0xE09E, pc: 0x202 });
    let (_, fault) = faulty(&[0x60, 0xFF, 0xE0, 0xA1]);
    assert_eq!(fault, Fault::Key { instr: 0xE0A1, pc: 0x202 });
}

#[test]
fn a_fault_leaves_the_machine_as_it_was() {
    let (machine, _) = faulty(&[0x6A, 0x11, 0x22, 0x06, 0x00, 0x00, 0xFF, 0xFF]);
    assert_eq!(machine.pc(), 0x206);
    assert_eq!(machine.sp(), 1);
    assert_eq!(machine.registers()[0xA], 0x11);
    assert_eq!(machine.fault(), Some(Fault::Decode { instr: 0xFFFF, pc: 0x206 }));
}

#[test]
fn a_running_machine_faults_only_when_the_instruction_is_due() {
    let mut machine = Chip8::new(1, false);
    machine.insert_cartridge(&vec![0xFF, 0xFF]);
    machine.run();
    assert!(machine.try_step(Duration::from_millis(400)).is_ok());
    assert!(machine.try_step(Duration::from_millis(400)).is_ok());
    assert_eq!(
        machine.try_step(Duration::from_millis(400)),
        Err(Fault::Decode { instr: 0xFFFF, pc: 0x200 })
    );
}

#[test]
fn more_time_than_a_timer_can_hold_is_an_overrun() {
    let mut machine = Chip8::new(600, false);
    machine.insert_cartridge(&vec![0x12, 0x00]);
    machine.run();
    assert!(machine.try_step(Duration::from_nanos(1)).is_ok());
    assert!(!machine.can_tick(Duration::MAX));
    assert_eq!(machine.try_step(Duration::MAX), Err(Fault::Overrun));
    assert_eq!(machine.pc(), 0x200);
    let most = Duration::MAX - Duration::from_nanos(1);
    assert!(machine.can_tick(most));
    assert!(machine.try_step(most).is_ok());
}

#[test]
fn a_fresh_timer_takes_the_longest_duration() {
    let mut machine = Chip8::new(600, false);
    machine.insert_cartridge(&vec![0x12, 0x00]);
    assert!(machine.can_tick(Duration::MAX));
    assert!(machine.try_step(Duration::MAX).is_ok());
}
