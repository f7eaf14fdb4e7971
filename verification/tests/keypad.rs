use chip8::chip8::Chip8;
use chip8::keypad::{keypad_key, KEY_MAP};
use chip8::state::KeyState;
use scancode::Scancode;

#[test]
fn the_key_map_names_the_keys_of_the_left_hand_block() {
    let keys = [
        Scancode::X,
        Scancode::Num1,
        Scancode::Num2,
        Scancode::Num3,
        Scancode::Q,
        Scancode::W,
        Scancode::E,
        Scancode::A,
        Scancode::S,
        Scancode::D,
        Scancode::Z,
        Scancode::C,
        Scancode::Num4,
        Scancode::R,
        Scancode::F,
        Scancode::V,
    ];
    for (k, key) in keys.iter().enumerate() {
        assert_eq!(KEY_MAP[k], *key as u8);
    }
}

#[test]
fn keypad_key_finds_every_mapped_key() {
    for k in 0..16 {
        assert_eq!(keypad_key(KEY_MAP[k]), Some(k));
    }
    assert_eq!(keypad_key(27), Some(0));
    assert_eq!(keypad_key(30), Some(1));
    assert_eq!(keypad_key(25), Some(15));
}

#[test]
fn keypad_key_knows_no_other_key() {
    let mut mapped = 0;
    for usage in 0..=255u8 {
        match keypad_key(usage) {
            Some(k) => {
                assert_eq!(KEY_MAP[k], usage);
                mapped += 1;
            }
            None => assert!(!KEY_MAP.contains(&usage)),
        }
    }
    assert_eq!(mapped, 16);
    assert_eq!(keypad_key(5), None);
    assert_eq!(keypad_key(0), None);
}

#[test]
fn latch_key_latches_presses_and_releases() {
    let mut machine = Chip8::new(600, false);
    machine.latch_key(Some(Scancode::W as u8), true);
    assert_eq!(machine.input()[5], KeyState::Pressed);
    machine.latch_key(Some(Scancode::W as u8), false);
    assert_eq!(machine.input()[5], KeyState::JustReleased);
    machine.latch_key(Some(Scancode::V as u8), true);
    assert_eq!(machine.input()[0xF], KeyState::Pressed);
    for k in 0..15 {
        if k != 5 {
            assert_eq!(machine.input()[k], KeyState::Released);
        }
    }
}

#[test]
fn latch_key_ignores_keys_off_the_keypad() {
    let mut machine = Chip8::new(600, false);
    machine.latch_key(Some(Scancode::B as u8), true);
    machine.latch_key(Some(Scancode::Space as u8), false);
    machine.latch_key(None, true);
    assert!(machine.input().iter().all(|k| *k == KeyState::Released));
}

#[test]
fn key_event_goes_by_what_the_platform_calls_the_scancode() {
    for scan_code in 0..=255u32 {
        let mut machine = Chip8::new(600, false);
        machine.key_event(scan_code, true);
        let expected = Scancode::new(scan_code as u8).and_then(|key| keypad_key(key as u8));
        for k in 0..16 {
            let state = if expected == Some(k) { KeyState::Pressed } else { KeyState::Released };
            assert_eq!(machine.input()[k], state);
        }
        machine.key_event(scan_code, false);
        for k in 0..16 {
            let state = if expected == Some(k) { KeyState::JustReleased } else { KeyState::Released };
            assert_eq!(machine.input()[k], state);
        }
    }
}

#[test]
fn key_event_reaches_every_keypad_key() {
    let mut reached = [false; 16];
    for scan_code in 0..=255u32 {
        let mut machine = Chip8::new(600, false);
        machine.key_event(scan_code, true);
        for k in 0..16 {
            if machine.input()[k] == KeyState::Pressed {
                reached[k] = true;
            }
        }
    }
    assert!(reached.iter().all(|r| *r));
}

#[test]
fn key_event_takes_the_low_byte_of_the_scancode() {
    for scan_code in 0..=255u32 {
        let mut low = Chip8::new(600, false);
        low.key_event(scan_code, true);
        let mut high = Chip8::new(600, false);
        high.key_event(scan_code + 0x1_0000 + 0x300, true);
        assert_eq!(low.input(), high.input());
    }
}
