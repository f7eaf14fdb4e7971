use chip8::chip8::Chip8;
use std::time::Duration;

fn flow_machine(rom: &[u8], super_chip: bool, steps: usize) -> Chip8 {
    let mut machine = Chip8::new(600, false);
    machine.insert_cartridge(&rom.to_vec());
    machine.set_super_chip(super_chip);
    for _ in 0..steps {
        assert_eq!(machine.fault(), None);
        machine.step(Duration::from_nanos(1));
    }
    machine
}

#[test]
fn fetch_reads_a_big_endian_word_and_advances() {
    let mut machine = Chip8::new(600, false);
    machine.insert_cartridge(&vec![0xAB, 0xCD, 0x12, 0x34]);
    assert_eq!(machine.fetch(), 0xABCD);
    assert_eq!(machine.pc(), 0x202);
    assert_eq!(machine.fetch(), 0x1234);
    assert_eq!(machine.pc(), 0x204);
}

#[test]
fn next_instruction_peeks_without_advancing() {
    let mut machine = Chip8::new(600, false);
    machine.insert_cartridge(&vec![0x1F, 0xFF]);
    assert_eq!(machine.next_instruction(), Some(0x1FFF));
    assert_eq!(machine.pc(), 0x200);
    machine.step(Duration::from_nanos(1));
    assert_eq!(machine.pc(), 0xFFF);
    assert_eq!(machine.next_instruction(), None);
}

#[test]
fn jump_sets_the_program_counter() {
    let machine = flow_machine(&[0x1A, 0xBC], true, 1);
    assert_eq!(machine.pc(), 0xABC);
}

#[test]
fn call_pushes_the_return_address() {
    let machine = flow_machine(&[0x22, 0x06, 0x00, 0x00, 0x00, 0x00, 0x00, 0xEE], true, 1);
    assert_eq!(machine.pc(), 0x206);
    assert_eq!(machine.sp(), 1);
    assert_eq!(machine.stack()[0], 0x202);
}

#[test]
fn return_pops_and_zeroes_the_slot() {
    let machine = flow_machine(&[0x22, 0x06, 0x00, 0x00, 0x00, 0x00, 0x00, 0xEE], true, 2);
    assert_eq!(machine.pc(), 0x202);
    assert_eq!(machine.sp(), 0);
    assert_eq!(machine.stack()[0], 0);
}

#[test]
fn nested_calls_stack_up() {
    let machine = flow_machine(&[0x22, 0x04, 0x00, 0x00, 0x22, 0x08, 0x00, 0x00, 0x00, 0xEE], true, 2);
    assert_eq!(machine.sp(), 2);
    assert_eq!(machine.stack()[0], 0x202);
    assert_eq!(machine.stack()[1], 0x206);
    assert_eq!(machine.pc(), 0x208);
}

#[test]
fn skip_if_equal_immediate() {
    let machine = flow_machine(&[0x60, 0x42, 0x30, 0x42], true, 2);
    assert_eq!(machine.pc(), 0x206);
    let machine = flow_machine(&[0x60, 0x42, 0x30, 0x43], true, 2);
    assert_eq!(machine.pc(), 0x204);
}

#[test]
fn skip_if_not_equal_immediate() {
    let machine = flow_machine(&[0x60, 0x42, 0x40, 0x42], true, 2);
    assert_eq!(machine.pc(), 0x204);
    let machine = flow_machine(&[0x60, 0x42, 0x40, 0x43], true, 2);
    assert_eq!(machine.pc(), 0x206);
}

#[test]
fn skip_if_registers_equal() {
    let machine = flow_machine(&[0x60, 0x42, 0x61, 0x42, 0x50, 0x10], true, 3);
    assert_eq!(machine.pc(), 0x208);
    let machine = flow_machine(&[0x60, 0x42, 0x61, 0x43, 0x50, 0x10], true, 3);
    assert_eq!(machine.pc(), 0x206);
}

#[test]
fn skip_if_registers_differ() {
    let machine = flow_machine(&[0x60, 0x42, 0x61, 0x42, 0x90, 0x10], true, 3);
    assert_eq!(machine.pc(), 0x206);
    let machine = flow_machine(&[0x60, 0x42, 0x61, 0x43, 0x90, 0x10], true, 3);
    assert_eq!(machine.pc(), 0x208);
}

#[test]
fn jump_with_offset_uses_x_in_super_chip_mode() {
    let machine = flow_machine(&[0x60, 0x10, 0x62, 0x20, 0xB2, 0x30], true, 3);
    assert_eq!(machine.pc(), 0x250);
}

#[test]
fn jump_with_offset_uses_register_zero_in_legacy_mode() {
    let machine = flow_machine(&[0x60, 0x10, 0x62, 0x20, 0xB2, 0x30], false, 3);
    assert_eq!(machine.pc(), 0x240);
}

#[test]
fn clear_screen_with_a_nonzero_high_nibble_still_clears() {
    let mut machine = flow_machine(&[0x01, 0xE0], true, 0);
    machine.framebuffer_mut()[7].0 = 255;
    machine.step(Duration::from_nanos(1));
    assert!(machine.framebuffer().iter().all(|p| p.0 == 0));
    assert_eq!(machine.pc(), 0x202);
}
