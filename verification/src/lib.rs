//! A CHIP-8 interpreter core: memory, registers, call stack, the two
//! countdown registers, the key latch and a monochrome display, driven by a
//! fetch-decode-execute loop that is paced by two repeating timers.

pub mod chip8;
pub mod config;
pub mod display;
pub mod executor;
pub mod keypad;
pub mod laws;
pub mod random;
pub mod render;
pub mod semantics;
pub mod sprite;
pub mod state;
pub mod step;
pub mod timer;
