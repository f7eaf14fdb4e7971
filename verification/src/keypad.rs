//! The keypad: which key of the host's keyboard stands for which of the
//! sixteen keys, and how presses and releases are latched.
//!
//! A key is known by its USB HID usage number, which is the same on every
//! machine. The `scancode` crate translates the scancode the host's hardware
//! reports into it.
//!
//! ```text
//!     keyboard               keypad
//! -----------------    -----------------
//! | 1 | 2 | 3 | 4 |    | 1 | 2 | 3 | C |
//! -----------------    -----------------
//! | Q | W | E | R |    | 4 | 5 | 6 | D |
//! ----------------- -> -----------------
//! | A | S | D | F |    | 7 | 8 | 9 | E |
//! -----------------    -----------------
//! | Z | X | C | V |    | A | 0 | B | F |
//! -----------------    -----------------
//! ```

use crate::chip8::Chip8;
use crate::config::NUM_KEYS;
use crate::state::{KeyState, State};
use scancode::Scancode;
use vstd::prelude::*;

verus! {

/// The usage numbers of the keys that stand for keypad keys 0 to F: those of
/// X, 1, 2, 3, Q, W, E, A, S, D, Z, C, 4, R, F and V.
pub const KEY_MAP: [u8; 16] = [27, 30, 31, 32, 20, 26, 8, 4, 22, 7, 29, 6, 33, 21, 9, 25];

/// The first keypad key at or after `from` that the key with usage number
/// `usage` stands for, or -1.
pub open spec fn key_index(usage: u8, from: int) -> int
    decreases NUM_KEYS - from,
{
    if from < 0 || from >= NUM_KEYS {
        -1
    } else if KEY_MAP@[from] == usage {
        from
    } else {
        key_index(usage, from + 1)
    }
}

/// What a key event latches: a press as `Pressed`, a release as
/// `JustReleased`.
pub open spec fn latched(pressed: bool) -> KeyState {
    if pressed {
        KeyState::Pressed
    } else {
        KeyState::JustReleased
    }
}

/// The state after a press or release of the key with usage number `usage`,
/// if the host could name the key: the keypad key it stands for is latched,
/// and a key that stands for none changes nothing.
pub open spec fn key_latched(s: State, usage: Option<u8>, pressed: bool) -> State {
    match usage {
        Some(u) => if key_index(u, 0) >= 0 {
            State { keys: s.keys.update(key_index(u, 0), latched(pressed)), ..s }
        } else {
            s
        },
        None => s,
    }
}

/// `Scancode::new`: the key that the hardware scancode `scan_code` means on
/// this platform, if the crate knows one, handed out as its usage number.
/// Which key that is depends on the platform, so nothing is promised.
#[verifier::external_body]
pub(crate) fn key_usage(scan_code: u8) -> (usage: Option<u8>) {
    Scancode::new(scan_code).map(|key| key as u8)
}

/// The keypad key that the key with usage number `usage` stands for.
pub fn keypad_key(usage: u8) -> (key: Option<usize>)
    ensures
        match key {
            Some(k) => key_index(usage, 0) == k && k < NUM_KEYS,
            None => key_index(usage, 0) < 0,
        },
{
    let mut k: usize = 0;
    while k < NUM_KEYS
        invariant
            k <= NUM_KEYS,
            key_index(usage, 0) == key_index(usage, k as int),
        decreases NUM_KEYS - k,
    {
        if KEY_MAP[k] == usage {
            return Some(k);
        }
        k += 1;
    }
    None
}

impl Chip8 {
    /// Latches a press or release of the key with usage number `usage`.
    pub fn latch_key(&mut self, usage: Option<u8>, pressed: bool)
        requires
            old(self).wf(),
        ensures
            final(self).wf(),
            final(self)@ == key_latched(old(self)@, usage, pressed),
    {
        let state = if pressed {
            KeyState::Pressed
        } else {
            KeyState::JustReleased
        };
        match usage {
            Some(u) => {
                match keypad_key(u) {
                    Some(k) => {
                        self.set_key(k, state);
                    },
                    None => {},
                }
            },
            None => {},
        }
    }

    /// Latches a press or release of the key whose hardware scancode is the
    /// low byte of `scan_code`: whatever key the platform takes the scancode
    /// for, the keypad key it stands for is latched, if it stands for one.
    pub fn key_event(&mut self, scan_code: u32, pressed: bool)
        requires
            old(self).wf(),
        ensures
            final(self).wf(),
            exists|usage: Option<u8>|
                final(self)@ == #[trigger] key_latched(old(self)@, usage, pressed),
    {
        let usage = key_usage((scan_code & 0xFF) as u8);
        self.latch_key(usage, pressed);
    }
}

/// No two keys of the keyboard stand for the same keypad key: keypad key `k`
/// is the one its own key stands for.
pub proof fn law_key_map_is_one_to_one(k: int)
    requires
        0 <= k < NUM_KEYS,
    ensures
        key_index(KEY_MAP@[k], 0) == k,
{
    reveal_with_fuel(key_index, 17);
}

} // verus!
