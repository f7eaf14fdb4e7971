//! What each instruction does to the machine, and which instructions the
//! machine cannot run.
//!
//! An instruction is a 16-bit word. Its top four bits give its class; the
//! remaining twelve hold, depending on the class, a register `x`, a register
//! `y`, and an immediate of 4, 8 or 12 bits. All functions here take the
//! state as it is after the fetch, with the program counter past the
//! instruction.

use crate::config::{
    FONT_START, GLYPH_SIZE, NUM_KEYS, NUM_PIXELS, RAM_SIZE, REGISTER_COUNT, STACK_SIZE,
};
use crate::sprite::{draw, draw_lights, draw_lights_any, draw_out_of_memory, draw_repaints};
use crate::state::{
    op_class, op_kk, op_n, op_nnn, op_x, op_y, DisplayPixel, Fault, KeyState, State, StepResult,
};
use vstd::prelude::*;

verus! {

/// A value reduced to eight bits.
pub open spec fn low8(v: int) -> u8 {
    (v % 256) as u8
}

/// The display with every cell off.
pub open spec fn blank_screen() -> Seq<DisplayPixel> {
    Seq::new(NUM_PIXELS as nat, |c: int| DisplayPixel(0))
}

/// Class 0: clear the screen, or return from a subroutine.
pub open spec fn exec_system(s: State, instr: u16) -> State {
    if op_kk(instr) == 0xE0 {
        State { screen: blank_screen(), ..s }
    } else {
        State {
            sp: (s.sp - 1) as nat,
            pc: s.stack[s.sp - 1],
            stack: s.stack.update(s.sp - 1, 0),
            ..s
        }
    }
}

/// Class 2: call the subroutine at the 12-bit immediate.
pub open spec fn exec_call(s: State, instr: u16) -> State {
    State { stack: s.stack.update(s.sp as int, s.pc), sp: s.sp + 1, pc: op_nnn(instr), ..s }
}

/// The operand of a shift: register `x` itself in SUPER-CHIP mode,
/// register `y` otherwise.
pub open spec fn shift_operand(vx: u8, vy: u8, super_chip: bool) -> u8 {
    if super_chip {
        vx
    } else {
        vy
    }
}

/// What a register-to-register operation leaves in register `x`, given what
/// registers `x` and `y` held.
pub open spec fn alu_value(vx: u8, vy: u8, n: int, super_chip: bool) -> u8 {
    if n == 0 {
        vy
    } else if n == 1 {
        vx | vy
    } else if n == 2 {
        vx & vy
    } else if n == 3 {
        vx ^ vy
    } else if n == 4 {
        low8(vx + vy)
    } else if n == 5 {
        low8(vx - vy)
    } else if n == 6 {
        shift_operand(vx, vy, super_chip) / 2
    } else if n == 7 {
        low8(vy - vx)
    } else {
        low8(shift_operand(vx, vy, super_chip) * 2)
    }
}

/// What a register-to-register operation writes to `VF`, if it writes it:
/// nothing for a copy; 0 for a bitwise operation outside SUPER-CHIP mode and
/// nothing in it; the carry for an addition; 1 for a subtraction without
/// borrow and 0 for one with; the bit shifted out for a shift.
pub open spec fn alu_flag(vx: u8, vy: u8, n: int, super_chip: bool) -> Option<u8> {
    if n == 0 {
        None
    } else if n == 1 || n == 2 || n == 3 {
        if super_chip {
            None
        } else {
            Some(0)
        }
    } else if n == 4 {
        Some(
            if vx + vy > 255 {
                1
            } else {
                0
            },
        )
    } else if n == 5 {
        Some(
            if vx >= vy {
                1
            } else {
                0
            },
        )
    } else if n == 6 {
        Some(shift_operand(vx, vy, super_chip) % 2)
    } else if n == 7 {
        Some(
            if vy >= vx {
                1
            } else {
                0
            },
        )
    } else {
        Some(shift_operand(vx, vy, super_chip) / 128)
    }
}

/// Class 8: register-to-register operations. The flag is written after the
/// result, so it wins when `x` is the flag register.
pub open spec fn exec_alu(s: State, x: int, y: int, n: int) -> State {
    let t = s.with_reg(x, alu_value(s.reg(x), s.reg(y), n, s.super_chip));
    match alu_flag(s.reg(x), s.reg(y), n, s.super_chip) {
        Some(flag) => t.with_flag(flag),
        None => t,
    }
}

/// Class B: jump to the 12-bit immediate plus a register: `x` in SUPER-CHIP
/// mode, register 0 otherwise.
pub open spec fn exec_jump_offset(s: State, instr: u16) -> State {
    let base = if s.super_chip {
        s.reg(op_x(instr))
    } else {
        s.reg(0)
    };
    State { pc: (base + op_nnn(instr)) as u16, ..s }
}

/// Index of the first key at or after `from` that was just released, or -1.
pub open spec fn first_released(keys: Seq<KeyState>, from: int) -> int
    decreases keys.len() - from,
{
    if from < 0 || from >= keys.len() {
        -1
    } else if keys[from] == KeyState::JustReleased {
        from
    } else {
        first_released(keys, from + 1)
    }
}

/// `FX0A`: take the first just-released key into register `x`, or rewind to
/// run the instruction again.
pub open spec fn exec_wait_key(s: State, x: int) -> State {
    let k = first_released(s.keys, 0);
    if k >= 0 {
        s.with_reg(x, k as u8)
    } else {
        State { pc: (s.pc - 2) as u16, ..s }
    }
}

/// How many decimal digits `FX33` writes for `v`.
pub open spec fn bcd_len(v: u8) -> int {
    if v < 10 {
        1
    } else if v < 100 {
        2
    } else {
        3
    }
}

/// `FX33`: the decimal digits of register `x`, most significant first and
/// without leading zeros, stored at the index register.
pub open spec fn exec_bcd(s: State, x: int) -> State {
    let v = s.reg(x);
    let i = s.index as int;
    let ram = if v < 10 {
        s.ram.update(i, v)
    } else if v < 100 {
        s.ram.update(i + 1, v % 10).update(i, v / 10)
    } else {
        s.ram.update(i + 2, v % 10).update(i + 1, (v / 10) % 10).update(i, v / 100)
    };
    State { ram, ..s }
}

/// The index register after storing or loading registers 0 to `x`: moved
/// past the range, unless the machine is in SUPER-CHIP mode.
pub open spec fn index_after_transfer(s: State, x: int) -> u16 {
    if s.super_chip {
        s.index
    } else {
        (s.index + x + 1) as u16
    }
}

/// `FX55`: registers 0 to `x` stored at the index register.
pub open spec fn exec_store(s: State, x: int) -> State {
    State {
        ram: Seq::new(
            RAM_SIZE as nat,
            |a: int|
                if s.index <= a <= s.index + x {
                    s.regs[a - s.index]
                } else {
                    s.ram[a]
                },
        ),
        index: index_after_transfer(s, x),
        ..s
    }
}

/// `FX65`: registers 0 to `x` loaded from the index register.
pub open spec fn exec_load(s: State, x: int) -> State {
    State {
        regs: Seq::new(
            REGISTER_COUNT as nat,
            |j: int|
                if j <= x {
                    s.ram[s.index + j]
                } else {
                    s.regs[j]
                },
        ),
        index: index_after_transfer(s, x),
        ..s
    }
}

/// `FX1E`: register `x` added to the index register; `VF` is set if the sum
/// leaves the memory, and left alone otherwise.
pub open spec fn exec_add_index(s: State, x: int) -> State {
    let sum = s.index + s.reg(x);
    State {
        index: sum as u16,
        regs: if sum >= RAM_SIZE {
            s.regs.update(0xF, 1)
        } else {
            s.regs
        },
        ..s
    }
}

/// Address of the glyph for the low four bits of `v`.
pub open spec fn glyph_address(v: u8) -> u16 {
    (FONT_START + GLYPH_SIZE * (v % 16)) as u16
}

/// Class F: timers, index register, keys, digits and register transfers.
pub open spec fn exec_misc(s: State, x: int, kk: u8) -> State {
    if kk == 0x07 {
        s.with_reg(x, s.delay)
    } else if kk == 0x15 {
        State { delay: s.reg(x), ..s }
    } else if kk == 0x18 {
        State { sound: s.reg(x), ..s }
    } else if kk == 0x1E {
        exec_add_index(s, x)
    } else if kk == 0x0A {
        exec_wait_key(s, x)
    } else if kk == 0x29 {
        State { index: glyph_address(s.reg(x)), ..s }
    } else if kk == 0x33 {
        exec_bcd(s, x)
    } else if kk == 0x55 {
        exec_store(s, x)
    } else {
        exec_load(s, x)
    }
}

/// The effect of the instruction itself. `random` is the byte the random
/// instruction draws.
pub open spec fn dispatch(s: State, instr: u16, random: u8) -> State {
    let c = op_class(instr);
    let x = op_x(instr);
    let y = op_y(instr);
    let kk = op_kk(instr);
    if c == 0 {
        exec_system(s, instr)
    } else if c == 1 {
        State { pc: op_nnn(instr), ..s }
    } else if c == 2 {
        exec_call(s, instr)
    } else if c == 3 {
        s.skip_if(s.reg(x) == kk)
    } else if c == 4 {
        s.skip_if(s.reg(x) != kk)
    } else if c == 5 {
        s.skip_if(s.reg(x) == s.reg(y))
    } else if c == 6 {
        s.with_reg(x, kk)
    } else if c == 7 {
        s.with_reg(x, low8(s.reg(x) + kk))
    } else if c == 8 {
        exec_alu(s, x, y, op_n(instr))
    } else if c == 9 {
        s.skip_if(s.reg(x) != s.reg(y))
    } else if c == 0xA {
        State { index: op_nnn(instr), ..s }
    } else if c == 0xB {
        exec_jump_offset(s, instr)
    } else if c == 0xC {
        s.with_reg(x, random & kk)
    } else if c == 0xD {
        draw(s, s.reg(x), s.reg(y), op_n(instr))
    } else if c == 0xE {
        s.skip_if((s.keys[s.reg(x) as int] == KeyState::Pressed) == (kk == 0x9E))
    } else {
        exec_misc(s, x, kk)
    }
}

/// The key latch with every release that no instruction consumed forgotten.
pub open spec fn settled(keys: Seq<KeyState>) -> Seq<KeyState> {
    Seq::new(
        keys.len(),
        |k: int|
            if keys[k] == KeyState::JustReleased {
                KeyState::Released
            } else {
                keys[k]
            },
    )
}

/// The state after executing `instr`: the instruction's effect, after which
/// no key is left just released.
pub open spec fn execute(s: State, instr: u16, random: u8) -> State {
    let t = dispatch(s, instr, random);
    State { keys: settled(t.keys), ..t }
}

/// Whether executing `instr` asks the host to repaint: only a draw does.
pub open spec fn repaints(s: State, instr: u16) -> bool {
    op_class(instr) == 0xD && draw_repaints(
        s,
        s.reg(op_x(instr)),
        s.reg(op_y(instr)),
        op_n(instr),
    )
}

/// Whether the word matches an instruction.
pub open spec fn recognised(instr: u16) -> bool {
    let c = op_class(instr);
    let n = op_n(instr);
    let kk = op_kk(instr);
    if c == 0 {
        kk == 0xE0 || op_nnn(instr) == 0x0EE
    } else if c == 5 || c == 9 {
        n == 0
    } else if c == 8 {
        n <= 7 || n == 0xE
    } else if c == 0xE {
        kk == 0x9E || kk == 0xA1
    } else if c == 0xF {
        kk == 0x07 || kk == 0x0A || kk == 0x15 || kk == 0x18 || kk == 0x1E || kk == 0x29
            || kk == 0x33 || kk == 0x55 || kk == 0x65
    } else {
        true
    }
}

/// Whether a recognised instruction reaches outside the memory or pushes the
/// index register past 16 bits.
pub open spec fn out_of_memory(s: State, instr: u16) -> bool {
    let c = op_class(instr);
    let x = op_x(instr);
    let kk = op_kk(instr);
    if c == 0xD {
        draw_out_of_memory(s, s.reg(op_y(instr)), op_n(instr))
    } else if c == 0xF {
        if kk == 0x1E {
            s.index + s.reg(x) > u16::MAX
        } else if kk == 0x33 {
            s.index + bcd_len(s.reg(x)) > RAM_SIZE
        } else if kk == 0x55 || kk == 0x65 {
            s.index + x + 1 > RAM_SIZE
        } else {
            false
        }
    } else {
        false
    }
}

/// Why `instr`, fetched from `pc`, cannot be executed in state `s`, if it
/// cannot.
pub open spec fn fault_of(s: State, instr: u16, pc: u16) -> Option<Fault> {
    let c = op_class(instr);
    if !recognised(instr) {
        Some(Fault::Decode { instr, pc })
    } else if c == 0 && op_kk(instr) != 0xE0 && s.sp == 0 {
        Some(Fault::StackUnderflow { instr, pc })
    } else if c == 2 && s.sp >= STACK_SIZE {
        Some(Fault::StackOverflow { instr, pc })
    } else if c == 0xE && s.reg(op_x(instr)) >= NUM_KEYS {
        Some(Fault::Key { instr, pc })
    } else if out_of_memory(s, instr) {
        Some(Fault::Address { instr, pc })
    } else {
        None
    }
}

/// Whether `instr` can be executed in state `s`: the program counter is just
/// past an instruction in memory, and the instruction raises no fault.
pub open spec fn executable(s: State, instr: u16) -> bool {
    2 <= s.pc <= RAM_SIZE && fault_of(s, instr, s.pc) is None
}

/// Whether the program counter leaves room to fetch an instruction.
pub open spec fn can_fetch(s: State) -> bool {
    s.pc + 1 < RAM_SIZE
}

/// The instruction word at the program counter: two bytes, high byte first.
pub open spec fn next_word(s: State) -> u16 {
    (s.ram[s.pc as int] * 256 + s.ram[s.pc + 1]) as u16
}

/// The state after the fetch: the program counter moved past the
/// instruction.
pub open spec fn fetched(s: State) -> State {
    State { pc: (s.pc + 2) as u16, ..s }
}

/// Why the machine cannot fetch and execute its next instruction, if it
/// cannot.
pub open spec fn next_fault(s: State) -> Option<Fault> {
    if !can_fetch(s) {
        Some(Fault::Fetch { pc: s.pc })
    } else {
        fault_of(fetched(s), next_word(s), s.pc)
    }
}

/// Which fault an instruction raises does not depend on where the program
/// counter stands.
pub proof fn lemma_fault_ignores_pc(s: State, instr: u16, at: u16, pc: u16)
    ensures
        fault_of(State { pc, ..s }, instr, at) == fault_of(s, instr, at),
{
}

/// Advancing the timers changes neither the next instruction nor whether
/// the machine can run it.
pub proof fn lemma_tick_keeps_program(s: State, delta: nat)
    ensures
        next_fault(s.ticked(delta)) == next_fault(s),
        next_word(s.ticked(delta)) == next_word(s),
        fetched(s.ticked(delta)) == fetched(s).ticked(delta),
        forall|instr: u16| #[trigger]
            repaints(fetched(s.ticked(delta)), instr) == repaints(fetched(s), instr),
{
    assert forall|instr: u16| #[trigger]
        repaints(fetched(s.ticked(delta)), instr) == repaints(fetched(s), instr) by {
        lemma_tick_keeps_draw(fetched(s), delta, instr);
    }
}

/// Advancing the timers does not change what a draw does.
pub proof fn lemma_tick_keeps_draw(s: State, delta: nat, instr: u16)
    ensures
        repaints(s.ticked(delta), instr) == repaints(s, instr),
{
    let t = s.ticked(delta);
    let vx = s.reg(op_x(instr));
    let vy = s.reg(op_y(instr));
    let n = op_n(instr);
    if draw_lights_any(s, vx, vy, n) {
        let w = choose|c: int| 0 <= c < NUM_PIXELS && #[trigger] draw_lights(s, vx, vy, n, c);
        assert(draw_lights(t, vx, vy, n, w));
    }
    if draw_lights_any(t, vx, vy, n) {
        let w = choose|c: int| 0 <= c < NUM_PIXELS && #[trigger] draw_lights(t, vx, vy, n, c);
        assert(draw_lights(s, vx, vy, n, w));
    }
}

/// Whether a call of `step` with `delta` nanoseconds runs an instruction: a
/// paused machine always does, a running one when its clock completes an
/// interval.
pub open spec fn executes(s: State, delta: nat) -> bool {
    !s.running || s.clock.fires(delta)
}

/// Whether a call of `step` with `delta` nanoseconds counts the delay and
/// sound registers down.
pub open spec fn counts_down(s: State, delta: nat) -> bool {
    !s.running || s.frame.fires(delta)
}

/// A countdown register one count later.
pub open spec fn count_down(v: u8) -> u8 {
    if v > 0 {
        (v - 1) as u8
    } else {
        0
    }
}

/// Why a call of `step` with `delta` nanoseconds cannot go through, if it
/// cannot.
pub open spec fn step_fault(s: State, delta: nat) -> Option<Fault> {
    if !s.can_tick(delta) {
        Some(Fault::Overrun)
    } else if executes(s, delta) {
        next_fault(s)
    } else {
        None
    }
}

/// The state a step that cannot go through leaves behind: the timers have
/// advanced if they could, and nothing else has changed.
pub open spec fn step_refused(s: State, delta: nat) -> State {
    if s.can_tick(delta) {
        s.ticked(delta)
    } else {
        s
    }
}

/// The state after the first half of a step: both timers advanced, and the
/// next instruction run if it is due.
pub open spec fn step_execute(s: State, delta: nat, random: u8) -> State {
    let t = s.ticked(delta);
    if executes(s, delta) {
        execute(fetched(t), next_word(t), random)
    } else {
        t
    }
}

/// The state after a step of `delta` nanoseconds. However many 60 Hz
/// intervals `delta` covers, the delay and sound registers count down once.
pub open spec fn step(s: State, delta: nat, random: u8) -> State {
    let u = step_execute(s, delta, random);
    if counts_down(s, delta) {
        State { delay: count_down(u.delay), sound: count_down(u.sound), ..u }
    } else {
        u
    }
}

/// What a step of `delta` nanoseconds reports: whether to repaint, and
/// whether a tone should sound, which it never does while paused.
pub open spec fn step_result(s: State, delta: nat, random: u8) -> StepResult {
    StepResult {
        drawn: executes(s, delta) && repaints(fetched(s), next_word(s)),
        beep: s.running && step(s, delta, random).sound > 0,
    }
}

} // verus!
