use chip8::chip8::Chip8;
use std::time::Duration;

fn alu_machine(rom: &[u8], super_chip: bool) -> Chip8 {
    let mut machine = Chip8::new(600, false);
    machine.insert_cartridge(&rom.to_vec());
    machine.set_super_chip(super_chip);
    while (machine.pc() as usize) < 0x200 + rom.len() {
        assert_eq!(machine.fault(), None);
        machine.step(Duration::from_nanos(1));
    }
    machine
}

#[test]
fn load_immediate_sets_the_register() {
    let machine = alu_machine(&[0x6A, 0x12], true);
    assert_eq!(machine.registers()[0xA], 0x12);
    assert_eq!(machine.pc(), 0x202);
}

#[test]
fn add_immediate_wraps_and_leaves_the_flag() {
    let machine = alu_machine(&[0x6A, 0xFF, 0x6F, 0x07, 0x7A, 0x02], true);
    assert_eq!(machine.registers()[0xA], 0x01);
    assert_eq!(machine.registers()[0xF], 0x07);
}

#[test]
fn add_immediate_without_wrap() {
    let machine = alu_machine(&[0x63, 0x10, 0x73, 0x22], true);
    assert_eq!(machine.registers()[3], 0x32);
    assert_eq!(machine.registers()[0xF], 0x00);
}

#[test]
fn add_immediate_for_every_register() {
    for x in 0..16u8 {
        let machine = alu_machine(&[0x60 | x, 0xFF, 0x70 | x, 0x02], true);
        for r in 0..16usize {
            let expected = if r == x as usize { 0x01 } else { 0x00 };
            assert_eq!(machine.registers()[r], expected);
        }
    }
}

#[test]
fn copy_register() {
    let machine = alu_machine(&[0x61, 0x42, 0x80, 0x10], true);
    assert_eq!(machine.registers()[0], 0x42);
    assert_eq!(machine.registers()[1], 0x42);
}

#[test]
fn add_registers_sets_carry_on_overflow() {
    let machine = alu_machine(&[0x60, 0xFF, 0x61, 0x01, 0x80, 0x14], true);
    assert_eq!(machine.registers()[0], 0x00);
    assert_eq!(machine.registers()[0xF], 1);
}

#[test]
fn add_registers_clears_carry_without_overflow() {
    let machine = alu_machine(&[0x60, 0x01, 0x61, 0x01, 0x6F, 0x01, 0x80, 0x14], true);
    assert_eq!(machine.registers()[0], 0x02);
    assert_eq!(machine.registers()[0xF], 0);
}

#[test]
fn add_registers_at_the_edge_of_overflow() {
    let machine = alu_machine(&[0x60, 0xFE, 0x61, 0x01, 0x80, 0x14], true);
    assert_eq!(machine.registers()[0], 0xFF);
    assert_eq!(machine.registers()[0xF], 0);
}

#[test]
fn add_into_the_flag_register_keeps_the_flag() {
    let machine = alu_machine(&[0x6F, 0xFF, 0x61, 0x01, 0x8F, 0x14], true);
    assert_eq!(machine.registers()[0xF], 1);
    let machine = alu_machine(&[0x6F, 0x03, 0x61, 0x01, 0x8F, 0x14], true);
    assert_eq!(machine.registers()[0xF], 0);
}

#[test]
fn subtract_without_borrow_sets_the_flag() {
    let machine = alu_machine(&[0x60, 0x05, 0x61, 0x03, 0x80, 0x15], true);
    assert_eq!(machine.registers()[0], 0x02);
    assert_eq!(machine.registers()[0xF], 1);
}

#[test]
fn subtract_with_borrow_clears_the_flag() {
    let machine = alu_machine(&[0x60, 0x03, 0x61, 0x05, 0x6F, 0x01, 0x80, 0x15], true);
    assert_eq!(machine.registers()[0], 0xFE);
    assert_eq!(machine.registers()[0xF], 0);
}

#[test]
fn subtract_equal_values_is_no_borrow() {
    let machine = alu_machine(&[0x60, 0x05, 0x61, 0x05, 0x80, 0x15], true);
    assert_eq!(machine.registers()[0], 0x00);
    assert_eq!(machine.registers()[0xF], 1);
}

#[test]
fn reverse_subtract_without_borrow_sets_the_flag() {
    let machine = alu_machine(&[0x60, 0x03, 0x61, 0x05, 0x80, 0x17], true);
    assert_eq!(machine.registers()[0], 0x02);
    assert_eq!(machine.registers()[0xF], 1);
}

#[test]
fn reverse_subtract_with_borrow_clears_the_flag() {
    let machine = alu_machine(&[0x60, 0x05, 0x61, 0x03, 0x6F, 0x01, 0x80, 0x17], true);
    assert_eq!(machine.registers()[0], 0xFE);
    assert_eq!(machine.registers()[0xF], 0);
}

#[test]
fn reverse_subtract_equal_values_is_no_borrow() {
    let machine = alu_machine(&[0x60, 0x09, 0x61, 0x09, 0x80, 0x17], true);
    assert_eq!(machine.registers()[0], 0x00);
    assert_eq!(machine.registers()[0xF], 1);
}

#[test]
fn shift_right_captures_the_low_bit() {
    let machine = alu_machine(&[0x60, 0x03, 0x80, 0x06], true);
    assert_eq!(machine.registers()[0], 0x01);
    assert_eq!(machine.registers()[0xF], 1);
}

#[test]
fn shift_right_of_an_even_value_clears_the_flag() {
    let machine = alu_machine(&[0x60, 0x04, 0x6F, 0x01, 0x80, 0x06], true);
    assert_eq!(machine.registers()[0], 0x02);
    assert_eq!(machine.registers()[0xF], 0);
}

#[test]
fn shift_right_takes_x_in_super_chip_mode() {
    let machine = alu_machine(&[0x60, 0x03, 0x61, 0x10, 0x80, 0x16], true);
    assert_eq!(machine.registers()[0], 0x01);
    assert_eq!(machine.registers()[1], 0x10);
    assert_eq!(machine.registers()[0xF], 1);
}

#[test]
fn shift_right_takes_y_in_legacy_mode() {
    let machine = alu_machine(&[0x60, 0x03, 0x61, 0x10, 0x80, 0x16], false);
    assert_eq!(machine.registers()[0], 0x08);
    assert_eq!(machine.registers()[1], 0x10);
    assert_eq!(machine.registers()[0xF], 0);
}

#[test]
fn shift_left_captures_the_high_bit() {
    let machine = alu_machine(&[0x60, 0x81, 0x80, 0x0E], true);
    assert_eq!(machine.registers()[0], 0x02);
    assert_eq!(machine.registers()[0xF], 1);
}

#[test]
fn shift_left_takes_y_in_legacy_mode() {
    let machine = alu_machine(&[0x60, 0x81, 0x61, 0x40, 0x6F, 0x01, 0x80, 0x1E], false);
    assert_eq!(machine.registers()[0], 0x80);
    assert_eq!(machine.registers()[0xF], 0);
}

#[test]
fn logic_operations_leave_the_flag_in_super_chip_mode() {
    let machine = alu_machine(&[0x60, 0x0C, 0x61, 0x0A, 0x6F, 0x07, 0x80, 0x11], true);
    assert_eq!(machine.registers()[0], 0x0E);
    assert_eq!(machine.registers()[0xF], 0x07);
    let machine = alu_machine(&[0x60, 0x0C, 0x61, 0x0A, 0x6F, 0x07, 0x80, 0x12], true);
    assert_eq!(machine.registers()[0], 0x08);
    assert_eq!(machine.registers()[0xF], 0x07);
    let machine = alu_machine(&[0x60, 0x0C, 0x61, 0x0A, 0x6F, 0x07, 0x80, 0x13], true);
    assert_eq!(machine.registers()[0], 0x06);
    assert_eq!(machine.registers()[0xF], 0x07);
}

#[test]
fn logic_operations_zero_the_flag_in_legacy_mode() {
    let machine = alu_machine(&[0x60, 0x0C, 0x61, 0x0A, 0x6F, 0x07, 0x80, 0x11], false);
    assert_eq!(machine.registers()[0], 0x0E);
    assert_eq!(machine.registers()[0xF], 0x00);
    let machine = alu_machine(&[0x60, 0x0C, 0x61, 0x0A, 0x6F, 0x07, 0x80, 0x12], false);
    assert_eq!(machine.registers()[0], 0x08);
    assert_eq!(machine.registers()[0xF], 0x00);
    let machine = alu_machine(&[0x60, 0x0C, 0x61, 0x0A, 0x6F, 0x07, 0x80, 0x13], false);
    assert_eq!(machine.registers()[0], 0x06);
    assert_eq!(machine.registers()[0xF], 0x00);
}

#[test]
fn random_is_masked_by_the_immediate() {
    let mut seen = [false; 256];
    for _ in 0..64 {
        let machine = alu_machine(&[0x60, 0xFF, 0xC0, 0x00, 0x61, 0xFF, 0xC1, 0x0F, 0xC2, 0xFF], true);
        assert_eq!(machine.registers()[0], 0x00);
        assert!(machine.registers()[1] <= 0x0F);
        seen[machine.registers()[2] as usize] = true;
    }
    assert!(seen.iter().filter(|s| **s).count() > 1);
}

#[test]
fn execute_with_uses_the_given_random_byte() {
    let mut machine = Chip8::new(600, false);
    let repaint = machine.execute_with(0xC3F0, 0xAB);
    assert!(!repaint);
    assert_eq!(machine.registers()[3], 0xA0);
    let repaint = machine.execute_with(0x7301, 0x00);
    assert!(!repaint);
    assert_eq!(machine.registers()[3], 0xA1);
}

#[test]
fn execute_draws_no_random_byte_into_other_instructions() {
    let mut machine = Chip8::new(600, false);
    assert!(!machine.execute(0x6455));
    assert_eq!(machine.registers()[4], 0x55);
    assert!(!machine.execute(0xC400));
    assert_eq!(machine.registers()[4], 0x00);
}
