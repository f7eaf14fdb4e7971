//! Fixed dimensions of the machine.

use vstd::prelude::*;

verus! {

/// Display width in cells. A power of two.
pub const DISPLAY_WIDTH: u32 = 64;

/// Display height in cells. A power of two.
pub const DISPLAY_HEIGHT: u32 = 32;

/// Number of cells of the display.
pub const NUM_PIXELS: usize = 2048;

/// Edge length, in host pixels, of one display cell.
pub const PIXEL_SIZE: u32 = 10;

/// Size of the memory in bytes.
pub const RAM_SIZE: usize = 4096;

/// Number of return addresses the call stack can hold.
pub const STACK_SIZE: usize = 16;

/// Number of general-purpose registers.
pub const REGISTER_COUNT: usize = 16;

/// Number of keys on the keypad.
pub const NUM_KEYS: usize = 16;

/// Width of the host window.
pub const WIDTH: u32 = 1366;

/// Height of the host window.
pub const HEIGHT: u32 = 768;

/// Address at which a program is loaded and starts.
pub const START_PC: usize = 0x200;

/// First address of the font glyphs.
pub const FONT_START: usize = 0x50;

/// First address after the font glyphs.
pub const FONT_END: usize = 0xA0;

/// Bytes per font glyph.
pub const GLYPH_SIZE: usize = 5;

/// Nanoseconds in a second.
pub const SECOND_IN_NS: u64 = 1000000000;

/// Period of the 60 Hz timer in nanoseconds.
pub const FRAME_NS: u64 = 16666666;

} // verus!
