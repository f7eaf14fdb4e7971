//! The values the machine is made of, and the mathematical model of its
//! state over which every contract of this crate is stated.

use crate::config::{
    FRAME_NS, NUM_KEYS, NUM_PIXELS, RAM_SIZE, REGISTER_COUNT, SECOND_IN_NS, STACK_SIZE,
    START_PC,
};
use crate::timer::{carry, fires, max_duration_nanos};
use vstd::prelude::*;

verus! {

/// One display cell: 0 is off, 255 is fully on, anything in between is a
/// fading trace of a cell that was erased.
#[derive(Clone, Copy, Debug, PartialEq, Eq, Structural)]
pub struct DisplayPixel(pub u8);

impl Default for DisplayPixel {
    fn default() -> (p: DisplayPixel)
        ensures
            p.0 == 0,
    {
        DisplayPixel(0)
    }
}

/// The intensity of a cell one frame later: a trace loses five steps of
/// intensity until it is gone, a cell that is off or fully on stays.
pub open spec fn faded(v: u8) -> u8 {
    if 0 < v < 255 {
        if v > 5 {
            (v - 5) as u8
        } else {
            0
        }
    } else {
        v
    }
}

impl DisplayPixel {
    /// Fades the cell by one frame.
    pub fn fade(&mut self)
        ensures
            final(self).0 == faded(old(self).0),
    {
        if self.0 > 0 && self.0 < 255 {
            self.0 = if self.0 > 5 {
                self.0 - 5
            } else {
                0
            };
        }
    }
}

/// State of one key of the keypad.
///
/// The wait-for-key instruction reacts to a key that was pressed and then let
/// go, so a release is latched as `JustReleased` until the next instruction
/// has run.
#[derive(Clone, Copy, Debug, PartialEq, Eq, Structural)]
pub enum KeyState {
    Released,
    Pressed,
    JustReleased,
}

/// What one call of `step` reports to the host.
#[derive(Clone, Copy, Debug, PartialEq, Eq, Structural)]
pub struct StepResult {
    /// The screen should be repainted.
    pub drawn: bool,
    /// A tone should be sounding.
    pub beep: bool,
}

/// Why a step cannot go through. `pc` is the address the offending
/// instruction was fetched from, `instr` the instruction word.
#[derive(Clone, Copy, Debug, PartialEq, Eq, Structural)]
pub enum Fault {
    /// The program counter does not leave room for an instruction in memory.
    Fetch { pc: u16 },
    /// The word matches no instruction.
    Decode { instr: u16, pc: u16 },
    /// A call with the stack full.
    StackOverflow { instr: u16, pc: u16 },
    /// A return with the stack empty.
    StackUnderflow { instr: u16, pc: u16 },
    /// The instruction would read or write outside the memory, or push the
    /// index register past 16 bits.
    Address { instr: u16, pc: u16 },
    /// The instruction names a key that the keypad does not have.
    Key { instr: u16, pc: u16 },
    /// The elapsed time is more than a timer can add to the time it holds.
    Overrun,
}

/// Model of a repeating timer: nanoseconds accumulated towards the next
/// interval, and the interval's length.
pub struct Interval {
    pub elapsed: nat,
    pub period: nat,
}

impl Interval {
    pub open spec fn wf(self) -> bool {
        self.elapsed <= self.period <= u64::MAX
    }

    /// Whether `delta` more nanoseconds complete an interval.
    pub open spec fn fires(self, delta: nat) -> bool {
        fires(self.elapsed, self.period, delta)
    }

    /// The timer after `delta` more nanoseconds.
    pub open spec fn tick(self, delta: nat) -> Interval {
        Interval { elapsed: carry(self.elapsed, self.period, delta), period: self.period }
    }

    /// Whether the timer can take `delta` more nanoseconds without leaving
    /// the range of `Duration`.
    pub open spec fn can_tick(self, delta: nat) -> bool {
        self.elapsed + delta <= max_duration_nanos()
    }
}

/// Model of the whole machine.
pub struct State {
    pub ram: Seq<u8>,
    pub stack: Seq<u16>,
    pub screen: Seq<DisplayPixel>,
    pub pc: u16,
    pub index: u16,
    pub sp: nat,
    pub delay: u8,
    pub sound: u8,
    pub regs: Seq<u8>,
    pub keys: Seq<KeyState>,
    /// Paces instruction execution.
    pub clock: Interval,
    /// Paces the delay and sound registers at 60 Hz.
    pub frame: Interval,
    pub running: bool,
    pub rom_size: nat,
    /// Set by construction and reset, cleared when the host has seen it.
    pub fresh: bool,
    pub debug: bool,
    pub trace: bool,
    pub reduce_flicker: bool,
    pub clock_hz: u64,
    pub super_chip: bool,
}

impl State {
    /// Well-formedness: the fixed sizes, the stack pointer within the stack,
    /// and the two timers set to the periods the machine runs them at.
    pub open spec fn wf(self) -> bool {
        &&& self.ram.len() == RAM_SIZE
        &&& self.stack.len() == STACK_SIZE
        &&& self.screen.len() == NUM_PIXELS
        &&& self.regs.len() == REGISTER_COUNT
        &&& self.keys.len() == NUM_KEYS
        &&& self.sp <= STACK_SIZE
        &&& self.rom_size <= RAM_SIZE - START_PC
        &&& self.clock_hz > 0
        &&& self.clock.period == SECOND_IN_NS / self.clock_hz
        &&& self.frame.period == FRAME_NS
        &&& self.clock.wf()
        &&& self.frame.wf()
    }

    /// Register `i`.
    pub open spec fn reg(self, i: int) -> u8 {
        self.regs[i]
    }

    /// The state with register `i` set to `v`.
    pub open spec fn with_reg(self, i: int, v: u8) -> State {
        State { regs: self.regs.update(i, v), ..self }
    }

    /// The state with the flag register, `VF`, set to `v`.
    pub open spec fn with_flag(self, v: u8) -> State {
        self.with_reg(0xF, v)
    }

    /// The state with the next instruction skipped if `cond` holds.
    pub open spec fn skip_if(self, cond: bool) -> State {
        if cond {
            State { pc: (self.pc + 2) as u16, ..self }
        } else {
            self
        }
    }

    /// Whether both timers can take `delta` more nanoseconds.
    pub open spec fn can_tick(self, delta: nat) -> bool {
        self.clock.can_tick(delta) && self.frame.can_tick(delta)
    }

    /// The state with both timers advanced by `delta` nanoseconds.
    pub open spec fn ticked(self, delta: nat) -> State {
        State { clock: self.clock.tick(delta), frame: self.frame.tick(delta), ..self }
    }
}

/// The instruction's class: its top four bits.
pub open spec fn op_class(instr: u16) -> int {
    instr as int / 0x1000
}

/// The instruction's first register operand.
pub open spec fn op_x(instr: u16) -> int {
    (instr as int / 0x100) % 16
}

/// The instruction's second register operand.
pub open spec fn op_y(instr: u16) -> int {
    (instr as int / 0x10) % 16
}

/// The instruction's 4-bit immediate.
pub open spec fn op_n(instr: u16) -> int {
    instr as int % 16
}

/// The instruction's 8-bit immediate.
pub open spec fn op_kk(instr: u16) -> u8 {
    (instr as int % 0x100) as u8
}

/// The instruction's 12-bit immediate.
pub open spec fn op_nnn(instr: u16) -> u16 {
    (instr as int % 0x1000) as u16
}

} // verus!
