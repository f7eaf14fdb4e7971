//! The machine itself.

use crate::config::{
    FONT_END, FONT_START, FRAME_NS, NUM_KEYS, NUM_PIXELS, RAM_SIZE, REGISTER_COUNT,
    SECOND_IN_NS, STACK_SIZE, START_PC,
};
use crate::state::{DisplayPixel, Interval, KeyState, State};
use crate::timer::{repeating_timer, timer_active, timer_elapsed, timer_period};
use bevy::time::Timer;
use std::time::Duration;
use vstd::prelude::*;

verus! {

/// The font: sixteen glyphs of five rows each, for the digits 0 to F.
pub const FONT: [u8; 80] = [
    0xF0, 0x90, 0x90, 0x90, 0xF0,
    0x20, 0x60, 0x20, 0x20, 0x70,
    0xF0, 0x10, 0xF0, 0x80, 0xF0,
    0xF0, 0x10, 0xF0, 0x10, 0xF0,
    0x90, 0x90, 0xF0, 0x10, 0x10,
    0xF0, 0x80, 0xF0, 0x10, 0xF0,
    0xF0, 0x80, 0xF0, 0x90, 0xF0,
    0xF0, 0x10, 0x20, 0x40, 0x40,
    0xF0, 0x90, 0xF0, 0x90, 0xF0,
    0xF0, 0x90, 0xF0, 0x10, 0xF0,
    0xF0, 0x90, 0xF0, 0x90, 0x90,
    0xE0, 0x90, 0xE0, 0x90, 0xE0,
    0xF0, 0x80, 0x80, 0x80, 0xF0,
    0xE0, 0x90, 0x90, 0x90, 0xE0,
    0xF0, 0x80, 0xF0, 0x80, 0xF0,
    0xF0, 0x80, 0xF0, 0x80, 0x80,
];

/// The machine. While paused, every call of `step` runs one instruction, so
/// that a host can step through a program.
pub struct Chip8 {
    pub(crate) ram: [u8; RAM_SIZE],
    pub(crate) stack: [u16; STACK_SIZE],
    pub(crate) framebuffer: [DisplayPixel; NUM_PIXELS],
    pub(crate) pc: u16,
    pub(crate) index_register: u16,
    pub(crate) stack_ptr: usize,
    pub(crate) delay_timer: u8,
    pub(crate) sound_timer: u8,
    pub(crate) registers: [u8; REGISTER_COUNT],
    pub(crate) timer_clock: Timer,
    pub(crate) timer_60hz: Timer,
    pub(crate) running: bool,
    pub(crate) rom_size: usize,
    pub(crate) reset: bool,
    pub(crate) debug: bool,
    pub(crate) trace: bool,
    pub(crate) reduce_flicker: bool,
    pub(crate) input: [KeyState; NUM_KEYS],
    pub(crate) clock_hz: u64,
    pub(crate) super_chip: bool,
}

/// The memory of a machine that holds nothing but the font.
pub open spec fn font_memory() -> Seq<u8> {
    Seq::new(
        RAM_SIZE as nat,
        |a: int|
            if FONT_START <= a < FONT_END {
                FONT@[a - FONT_START]
            } else {
                0u8
            },
    )
}

/// The state of a machine just made for a clock of `clock_hz` Hz: paused, in
/// SUPER-CHIP mode, everything zero but the font and the program counter.
pub open spec fn power_on(clock_hz: u64, debug: bool) -> State {
    State {
        ram: font_memory(),
        stack: Seq::new(STACK_SIZE as nat, |i: int| 0u16),
        screen: Seq::new(NUM_PIXELS as nat, |i: int| DisplayPixel(0)),
        pc: START_PC as u16,
        index: 0,
        sp: 0,
        delay: 0,
        sound: 0,
        regs: Seq::new(REGISTER_COUNT as nat, |i: int| 0u8),
        keys: Seq::new(NUM_KEYS as nat, |i: int| KeyState::Released),
        clock: Interval { elapsed: 0, period: (SECOND_IN_NS / clock_hz) as nat },
        frame: Interval { elapsed: 0, period: FRAME_NS as nat },
        running: false,
        rom_size: 0,
        fresh: true,
        debug,
        trace: false,
        reduce_flicker: false,
        clock_hz,
        super_chip: true,
    }
}

/// The state with the program `rom` loaded at the start address.
pub open spec fn loaded(s: State, rom: Seq<u8>) -> State {
    State {
        ram: Seq::new(
            RAM_SIZE as nat,
            |a: int|
                if START_PC <= a < START_PC + rom.len() {
                    rom[a - START_PC]
                } else {
                    s.ram[a]
                },
        ),
        rom_size: rom.len(),
        ..s
    }
}

/// The state with the instruction clock set to `clock_hz` Hz.
pub open spec fn reclocked(s: State, clock_hz: u64) -> State {
    if clock_hz == s.clock_hz {
        s
    } else {
        State {
            clock_hz,
            clock: Interval { elapsed: 0, period: (SECOND_IN_NS / clock_hz) as nat },
            ..s
        }
    }
}

impl Chip8 {
    /// The model of this machine.
    pub open(crate) spec fn view(&self) -> State {
        State {
            ram: self.ram@,
            stack: self.stack@,
            screen: self.framebuffer@,
            pc: self.pc,
            index: self.index_register,
            sp: self.stack_ptr as nat,
            delay: self.delay_timer,
            sound: self.sound_timer,
            regs: self.registers@,
            keys: self.input@,
            clock: Interval {
                elapsed: timer_elapsed(self.timer_clock),
                period: timer_period(self.timer_clock),
            },
            frame: Interval {
                elapsed: timer_elapsed(self.timer_60hz),
                period: timer_period(self.timer_60hz),
            },
            running: self.running,
            rom_size: self.rom_size as nat,
            fresh: self.reset,
            debug: self.debug,
            trace: self.trace,
            reduce_flicker: self.reduce_flicker,
            clock_hz: self.clock_hz,
            super_chip: self.super_chip,
        }
    }
}

impl Chip8 {
    /// Well-formedness: the model is well-formed and both timers are
    /// repeating and not paused.
    pub open(crate) spec fn wf(&self) -> bool {
        &&& self@.wf()
        &&& timer_active(self.timer_clock)
        &&& timer_active(self.timer_60hz)
    }

    /// A well-formed machine has a well-formed model.
    pub proof fn lemma_wf(&self)
        requires
            self.wf(),
        ensures
            self@.wf(),
    {
    }

    /// A machine whose instruction clock runs at `clock_hz` Hz.
    pub fn new(clock_hz: u64, debug: bool) -> (res: Chip8)
        requires
            clock_hz > 0,
        ensures
            res.wf(),
            res@ == power_on(clock_hz, debug),
    {
        let mut ram: [u8; RAM_SIZE] = [0; RAM_SIZE];
        let mut i: usize = 0;
        while i < 80
            invariant
                i <= 80,
                forall|a: int|
                    0 <= a < RAM_SIZE ==> ram@[a] == if FONT_START <= a < FONT_START + i {
                        FONT@[a - FONT_START]
                    } else {
                        0u8
                    },
            decreases 80 - i,
        {
            ram[FONT_START + i] = FONT[i];
            i += 1;
        }
        let res = Chip8 {
            ram,
            stack: [0; STACK_SIZE],
            framebuffer: [DisplayPixel(0); NUM_PIXELS],
            pc: START_PC as u16,
            index_register: 0,
            stack_ptr: 0,
            delay_timer: 0,
            sound_timer: 0,
            registers: [0; REGISTER_COUNT],
            timer_clock: repeating_timer(Duration::from_nanos(SECOND_IN_NS / clock_hz)),
            timer_60hz: repeating_timer(Duration::from_nanos(FRAME_NS)),
            running: false,
            rom_size: 0,
            reset: true,
            debug,
            trace: false,
            reduce_flicker: false,
            input: [KeyState::Released; NUM_KEYS],
            clock_hz,
            super_chip: true,
        };
        proof {
            let m = power_on(clock_hz, debug);
            assert(res@.ram =~= m.ram);
            assert(res@.stack =~= m.stack);
            assert(res@.screen =~= m.screen);
            assert(res@.regs =~= m.regs);
            assert(res@.keys =~= m.keys);
        }
        res
    }

    /// Resets the machine and loads the program `data` at the start address.
    pub fn insert_cartridge(&mut self, data: &Vec<u8>)
        requires
            old(self).wf(),
            data.len() <= RAM_SIZE - START_PC,
        ensures
            final(self).wf(),
            final(self)@ == loaded(power_on(old(self)@.clock_hz, old(self)@.debug), data@),
    {
        self.reset();
        let ghost fresh = *self;
        let ghost before = self.ram@;
        let len: usize = data.len();
        let mut i: usize = 0;
        while i < len
            invariant
                i <= len,
                len == data.len(),
                len <= RAM_SIZE - START_PC,
                forall|a: int|
                    0 <= a < RAM_SIZE ==> self.ram@[a] == if START_PC <= a < START_PC + i {
                        data@[a - START_PC]
                    } else {
                        before[a]
                    },
                before == fresh.ram@,
                *self == (Chip8 { ram: self.ram, ..fresh }),
            decreases len - i,
        {
            self.ram[START_PC + i] = data[i];
            i += 1;
        }
        self.rom_size = len;
        proof {
            let m = loaded(power_on(old(self)@.clock_hz, old(self)@.debug), data@);
            assert(self@.ram =~= m.ram);
        }
    }

    /// Puts the machine back into the state it was made in, keeping its
    /// clock frequency and debug flag. A program has to be loaded again.
    pub fn reset(&mut self)
        requires
            old(self).wf(),
        ensures
            final(self).wf(),
            final(self)@ == power_on(old(self)@.clock_hz, old(self)@.debug),
    {
        *self = Chip8::new(self.clock_hz, self.debug);
        self.reset = true;
    }

    /// Whether the machine was made or reset since this was last asked.
    pub fn is_reset(&mut self) -> (fresh: bool)
        requires
            old(self).wf(),
        ensures
            final(self).wf(),
            fresh == old(self)@.fresh,
            final(self)@ == (State { fresh: false, ..old(self)@ }),
    {
        let res = self.reset;
        self.reset = false;
        res
    }

    /// The display, row by row.
    pub fn framebuffer(&self) -> (fb: &[DisplayPixel; NUM_PIXELS])
        ensures
            fb@ == self@.screen,
    {
        &self.framebuffer
    }

    /// The display, for the host to write to: what the host leaves in it is
    /// the machine's display from then on.
    pub fn framebuffer_mut(&mut self) -> (fb: &mut [DisplayPixel; NUM_PIXELS])
        requires
            old(self).wf(),
        ensures
            fb@ == old(self)@.screen,
            final(self).wf(),
            final(self)@ == (State { screen: final(fb)@, ..old(self)@ }),
    {
        &mut self.framebuffer
    }

    /// The memory.
    pub fn ram(&self) -> (ram: &[u8])
        ensures
            ram@ == self@.ram,
    {
        self.ram.as_slice()
    }

    /// The call stack. Slots at and above the stack pointer hold no return
    /// address.
    pub fn stack(&self) -> (stack: &[u16; STACK_SIZE])
        ensures
            stack@ == self@.stack,
    {
        &self.stack
    }

    /// The program counter.
    pub fn pc(&self) -> (pc: u16)
        ensures
            pc == self@.pc,
    {
        self.pc
    }

    /// The stack pointer: the number of return addresses on the stack.
    pub fn sp(&self) -> (sp: usize)
        ensures
            sp == self@.sp,
    {
        self.stack_ptr
    }

    /// The length of the loaded program in bytes.
    pub fn rom_sz(&self) -> (len: usize)
        ensures
            len == self@.rom_size,
    {
        self.rom_size
    }

    /// The general-purpose registers.
    pub fn registers(&self) -> (regs: &[u8; REGISTER_COUNT])
        ensures
            regs@ == self@.regs,
    {
        &self.registers
    }

    /// The key latch.
    pub fn input(&self) -> (keys: &[KeyState; NUM_KEYS])
        ensures
            keys@ == self@.keys,
    {
        &self.input
    }

    /// The frequency of the instruction clock in Hz.
    pub fn clock_hz(&self) -> (hz: u64)
        ensures
            hz == self@.clock_hz,
    {
        self.clock_hz
    }

    /// Whether the machine is in SUPER-CHIP mode.
    pub fn super_chip(&self) -> (on: bool)
        ensures
            on == self@.super_chip,
    {
        self.super_chip
    }

    /// Whether the machine is paused.
    pub fn paused(&self) -> (paused: bool)
        ensures
            paused == !self@.running,
    {
        !self.running
    }

    /// Latches the state of key `key`.
    pub fn set_key(&mut self, key: usize, state: KeyState)
        requires
            old(self).wf(),
            key < NUM_KEYS,
        ensures
            final(self).wf(),
            final(self)@ == (State { keys: old(self)@.keys.update(key as int, state), ..old(self)@ }),
    {
        self.input[key] = state;
    }

    /// Switches between SUPER-CHIP and legacy behaviour.
    pub fn set_super_chip(&mut self, on: bool)
        requires
            old(self).wf(),
        ensures
            final(self).wf(),
            final(self)@ == (State { super_chip: on, ..old(self)@ }),
    {
        self.super_chip = on;
    }

    /// Switches traces on or off: with traces, an erased cell is left at
    /// half intensity for the host to fade out.
    pub fn set_trace(&mut self, trace: bool)
        requires
            old(self).wf(),
        ensures
            final(self).wf(),
            final(self)@ == (State { trace, ..old(self)@ }),
    {
        self.trace = trace;
    }

    /// Switches flicker reduction on or off: with it, a draw that lights no
    /// cell asks for no repaint.
    pub fn set_reduce_flicker(&mut self, reduce: bool)
        requires
            old(self).wf(),
        ensures
            final(self).wf(),
            final(self)@ == (State { reduce_flicker: reduce, ..old(self)@ }),
    {
        self.reduce_flicker = reduce;
    }

    /// Pauses the machine.
    pub fn pause(&mut self)
        requires
            old(self).wf(),
        ensures
            final(self).wf(),
            final(self)@ == (State { running: false, ..old(self)@ }),
    {
        self.running = false;
    }

    /// Lets the machine run.
    pub fn run(&mut self)
        requires
            old(self).wf(),
        ensures
            final(self).wf(),
            final(self)@ == (State { running: true, ..old(self)@ }),
    {
        self.running = true;
    }

    /// Sets the frequency of the instruction clock. A new frequency restarts
    /// the clock's interval; the same frequency changes nothing.
    pub fn change_clock(&mut self, clock_hz: u64)
        requires
            old(self).wf(),
            clock_hz > 0,
        ensures
            final(self).wf(),
            final(self)@ == reclocked(old(self)@, clock_hz),
    {
        if clock_hz == self.clock_hz {
            return ;
        }
        self.clock_hz = clock_hz;
        self.timer_clock = repeating_timer(Duration::from_nanos(SECOND_IN_NS / clock_hz));
    }
}

} // verus!
