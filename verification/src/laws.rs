//! Laws of the machine, proved of its model.
//!
//! Every law speaks of the functions of `semantics` and `sprite` in which the
//! contracts of the machine's operations are stated, so each is a law of the
//! machine itself.

use crate::chip8::{power_on, FONT};
use crate::config::{
    FONT_END, FONT_START, GLYPH_SIZE, NUM_KEYS, NUM_PIXELS, RAM_SIZE, REGISTER_COUNT, START_PC,
};
use crate::semantics::{
    bcd_len, counts_down, dispatch, executable, execute, executes, fetched, first_released,
    next_word, settled, shift_operand, step, step_execute, step_fault,
};
use crate::sprite::{
    draw, draw_collides, draw_erases, draw_lights, draw_lights_any, draw_strikes, hits,
    origin_x, origin_y, struck,
};
use crate::state::{op_class, op_kk, op_n, op_x, op_y, DisplayPixel, KeyState, State};
use crate::timer::fires;
use vstd::prelude::*;

verus! {

/// Add-immediate (`7XKK`) leaves in register `X` the sum with `KK` modulo
/// 256 and changes no other register: no flag is touched.
pub proof fn law_add_immediate_wraps(s: State, instr: u16, random: u8)
    requires
        s.wf(),
        op_class(instr) == 7,
    ensures
        ({
            let t = execute(s, instr, random);
            let x = op_x(instr);
            &&& t.regs[x] == (s.regs[x] + op_kk(instr)) % 256
            &&& forall|j: int| 0 <= j < REGISTER_COUNT && j != x ==> t.regs[j] == s.regs[j]
        }),
{
}

/// Add-with-carry (`8XY4`) sets `VF` to 1 if the sum of the two registers
/// exceeds 255 and to 0 if it does not, and leaves the sum modulo 256 in
/// register `X` unless `X` is the flag register.
pub proof fn law_add_sets_carry(s: State, instr: u16, random: u8)
    requires
        s.wf(),
        op_class(instr) == 8,
        op_n(instr) == 4,
    ensures
        ({
            let t = execute(s, instr, random);
            let sum = s.regs[op_x(instr)] + s.regs[op_y(instr)];
            &&& t.regs[0xF] == if sum > 255 { 1int } else { 0int }
            &&& op_x(instr) != 0xF ==> t.regs[op_x(instr)] == sum % 256
        }),
{
}

/// Subtract (`8XY5`) and reverse subtract (`8XY7`) set `VF` to 1 if no
/// borrow occurred, that is if the minuend is at least the subtrahend, and
/// to 0 otherwise, and leave the difference modulo 256 in register `X`
/// unless `X` is the flag register.
pub proof fn law_subtract_sets_no_borrow(s: State, instr: u16, random: u8)
    requires
        s.wf(),
        op_class(instr) == 8,
        op_n(instr) == 5 || op_n(instr) == 7,
    ensures
        ({
            let t = execute(s, instr, random);
            let vx = s.regs[op_x(instr)];
            let vy = s.regs[op_y(instr)];
            let minuend = if op_n(instr) == 5 { vx } else { vy };
            let subtrahend = if op_n(instr) == 5 { vy } else { vx };
            &&& t.regs[0xF] == if minuend >= subtrahend { 1int } else { 0int }
            &&& op_x(instr) != 0xF ==> t.regs[op_x(instr)] == (minuend - subtrahend) % 256
        }),
{
}

/// Shift-right (`8XY6`) sets `VF` to the lowest bit its operand had before
/// the shift, and leaves the operand halved in register `X` unless `X` is
/// the flag register. Shift-left (`8XYE`) does the same with the highest
/// bit and the operand doubled modulo 256.
pub proof fn law_shift_captures_bit(s: State, instr: u16, random: u8)
    requires
        s.wf(),
        op_class(instr) == 8,
        op_n(instr) == 6 || op_n(instr) == 0xE,
    ensures
        ({
            let t = execute(s, instr, random);
            let v = shift_operand(s.regs[op_x(instr)], s.regs[op_y(instr)], s.super_chip);
            if op_n(instr) == 6 {
                &&& t.regs[0xF] == v % 2
                &&& op_x(instr) != 0xF ==> t.regs[op_x(instr)] == v / 2
            } else {
                &&& t.regs[0xF] == v / 128
                &&& op_x(instr) != 0xF ==> t.regs[op_x(instr)] == (v * 2) % 256
            }
        }),
{
}

/// A sprite that is not folded at the right edge strikes no cell twice, and
/// only cells in its eight columns.
pub proof fn lemma_hits_unfolded(row: u8, x0: int, col: int, upto: int)
    requires
        0 <= upto <= 8,
        0 <= x0,
        x0 + 8 <= 64,
    ensures
        hits(row, x0, col, upto) <= 1,
        col < x0 || col >= x0 + upto ==> hits(row, x0, col, upto) == 0,
    decreases upto,
{
    if upto > 0 {
        lemma_hits_unfolded(row, x0, col, upto - 1);
    }
}

/// Clear-screen (`00E0`) sets every cell to 0.
pub proof fn law_clear_blanks_screen(s: State, instr: u16, random: u8)
    requires
        s.wf(),
        op_class(instr) == 0,
        op_kk(instr) == 0xE0,
    ensures
        forall|c: int| 0 <= c < NUM_PIXELS ==> (#[trigger] execute(s, instr, random).screen[c]).0 == 0,
{
}

/// On a display with no cell fully on, as it is after a clear, a draw
/// erases a cell only where the sprite overlaps itself: `VF` is 1 if some
/// cell is struck at least twice, and 0 otherwise.
pub proof fn law_draw_on_blank_flags_overlap(s: State, vx: u8, vy: u8, n: int)
    requires
        s.wf(),
        forall|c: int| 0 <= c < NUM_PIXELS ==> (#[trigger] s.screen[c]).0 != 255,
    ensures
        draw(s, vx, vy, n).regs[0xF] == if exists|c: int|
            0 <= c < NUM_PIXELS && #[trigger] draw_strikes(s, vx, vy, n, c) >= 2 {
            1int
        } else {
            0int
        },
{
    if draw_collides(s, vx, vy, n) {
        let w = choose|c: int| 0 <= c < NUM_PIXELS && #[trigger] draw_erases(s, vx, vy, n, c);
        assert(s.screen[w].0 != 255);
        assert(draw_strikes(s, vx, vy, n, w) >= 2);
    }
    if exists|c: int| 0 <= c < NUM_PIXELS && #[trigger] draw_strikes(s, vx, vy, n, c) >= 2 {
        let w = choose|c: int| 0 <= c < NUM_PIXELS && #[trigger] draw_strikes(s, vx, vy, n, c) >= 2;
        assert(draw_erases(s, vx, vy, n, w));
    }
}

/// A sprite that is not folded at the right edge strikes no cell twice.
pub proof fn law_unfolded_sprite_has_no_overlap(s: State, vx: u8, vy: u8, n: int)
    requires
        origin_x(vx) + 8 <= 64,
    ensures
        forall|c: int| 0 <= c < NUM_PIXELS ==> #[trigger] draw_strikes(s, vx, vy, n, c) <= 1,
{
    assert forall|c: int| 0 <= c < NUM_PIXELS implies #[trigger] draw_strikes(s, vx, vy, n, c)
        <= 1 by {
        let r = c / 64 - origin_y(vy);
        if 0 <= r < n {
            lemma_hits_unfolded(s.ram[s.index + r], origin_x(vx), c % 64, 8);
        }
    }
}

/// Clear-screen followed by a draw instruction (`DXYN`) whose sprite does
/// not overlap itself leaves `VF` at 0.
pub proof fn law_clear_then_draw(s: State, clear: u16, sprite: u16, random: u8)
    requires
        s.wf(),
        op_class(clear) == 0,
        op_kk(clear) == 0xE0,
        op_class(sprite) == 0xD,
        forall|c: int|
            0 <= c < NUM_PIXELS ==> #[trigger] draw_strikes(
                s,
                s.regs[op_x(sprite)],
                s.regs[op_y(sprite)],
                op_n(sprite),
                c,
            ) <= 1,
    ensures
        execute(execute(s, clear, random), sprite, random).regs[0xF] == 0,
{
    let t = execute(s, clear, random);
    let vx = t.regs[op_x(sprite)];
    let vy = t.regs[op_y(sprite)];
    let n = op_n(sprite);
    law_clear_blanks_screen(s, clear, random);
    law_draw_on_blank_flags_overlap(t, vx, vy, n);
    assert forall|c: int| 0 <= c < NUM_PIXELS implies !(#[trigger] draw_strikes(t, vx, vy, n, c)
        >= 2) by {
        assert(draw_strikes(t, vx, vy, n, c) == draw_strikes(s, vx, vy, n, c));
    }
}

/// Whether every cell of the display is either off or fully on.
pub open spec fn two_valued(screen: Seq<DisplayPixel>) -> bool {
    forall|c: int| 0 <= c < screen.len() ==> (#[trigger] screen[c]).0 == 0 || screen[c].0 == 255
}

/// With traces off and every cell either off or fully on, drawing the same
/// sprite twice at the same place restores the display, and the second draw
/// sets `VF` to 1 exactly if the first draw lit a cell.
pub proof fn law_draw_twice_restores(s: State, vx: u8, vy: u8, n: int)
    requires
        s.wf(),
        !s.trace,
        two_valued(s.screen),
    ensures
        draw(draw(s, vx, vy, n), vx, vy, n).screen == s.screen,
        draw(draw(s, vx, vy, n), vx, vy, n).regs[0xF] == if draw_lights_any(s, vx, vy, n) {
            1int
        } else {
            0int
        },
        forall|c: int|
            0 <= c < NUM_PIXELS && s.screen[c].0 != 255 && (#[trigger] draw(
                s,
                vx,
                vy,
                n,
            ).screen[c]).0 == 255 ==> draw(draw(s, vx, vy, n), vx, vy, n).regs[0xF] == 1,
{
    let t = draw(s, vx, vy, n);
    let u = draw(t, vx, vy, n);
    assert forall|c: int| 0 <= c < NUM_PIXELS implies draw_strikes(t, vx, vy, n, c)
        == draw_strikes(s, vx, vy, n, c) && u.screen[c] == s.screen[c] && draw_erases(
        t,
        vx,
        vy,
        n,
        c,
    ) == draw_lights(s, vx, vy, n, c) by {
        let v = s.screen[c].0;
        let k = draw_strikes(s, vx, vy, n, c);
        assert(v == 0 || v == 255);
        assert(t.screen[c].0 == struck(v, k, false));
        assert(u.screen[c].0 == struck(struck(v, k, false), k, false));
    }
    assert(u.screen =~= s.screen);
    if draw_lights_any(s, vx, vy, n) {
        let w = choose|c: int| 0 <= c < NUM_PIXELS && #[trigger] draw_lights(s, vx, vy, n, c);
        assert(draw_erases(t, vx, vy, n, w));
    }
    if draw_collides(t, vx, vy, n) {
        let w = choose|c: int| 0 <= c < NUM_PIXELS && #[trigger] draw_erases(t, vx, vy, n, c);
        assert(draw_lights(s, vx, vy, n, w));
    }
    assert forall|c: int|
        0 <= c < NUM_PIXELS && s.screen[c].0 != 255 && (#[trigger] t.screen[c]).0
            == 255 implies u.regs[0xF] == 1 by {
        assert(draw_lights(s, vx, vy, n, c));
    }
}

/// Font-character (`FX29`) points the index register at the glyph for the
/// low four bits of register `X`: five bytes for each digit before it past
/// the start of the font. The glyph lies within the font, where a machine
/// that was just made holds its five rows.
pub proof fn law_font_character_address(s: State, instr: u16, random: u8)
    requires
        s.wf(),
        op_class(instr) == 0xF,
        op_kk(instr) == 0x29,
    ensures
        ({
            let digit = s.regs[op_x(instr)] % 16;
            let address = execute(s, instr, random).index;
            &&& address == FONT_START + GLYPH_SIZE * digit
            &&& FONT_START <= address
            &&& address + GLYPH_SIZE <= FONT_END
            &&& forall|r: int|
                0 <= r < GLYPH_SIZE ==> #[trigger] power_on(s.clock_hz, s.debug).ram[address + r]
                    == FONT@[GLYPH_SIZE * digit + r]
        }),
{
}

/// BCD-store (`FX33`) writes the decimal digits of register `X`, most
/// significant first and without leading zeros, from the index register on,
/// and changes no other byte of the memory.
pub proof fn law_bcd_writes_digits(s: State, instr: u16, random: u8)
    requires
        s.wf(),
        op_class(instr) == 0xF,
        op_kk(instr) == 0x33,
        s.index + bcd_len(s.regs[op_x(instr)]) <= RAM_SIZE,
    ensures
        ({
            let t = execute(s, instr, random);
            let v = s.regs[op_x(instr)];
            let i = s.index as int;
            let len = bcd_len(v);
            &&& len == 1 ==> v == t.ram[i]
            &&& len == 2 ==> v == 10 * t.ram[i] + t.ram[i + 1] && 1 <= t.ram[i]
            &&& len == 3 ==> v == 100 * t.ram[i] + 10 * t.ram[i + 1] + t.ram[i + 2] && 1
                <= t.ram[i]
            &&& forall|k: int| 0 <= k < len ==> #[trigger] t.ram[i + k] <= 9
            &&& forall|a: int|
                0 <= a < RAM_SIZE && !(i <= a < i + len) ==> #[trigger] t.ram[a] == s.ram[a]
        }),
{
}

/// One step counts the delay and sound registers down by one if the machine
/// is paused or the 60 Hz timer completes an interval, and not at all
/// otherwise: however many intervals the elapsed time covers, a register
/// never loses more than one count in a step. The count starts from what the
/// instruction run in the same step left in the register.
pub proof fn law_step_counts_down_once(s: State, delta: nat, random: u8)
    requires
        s.wf(),
    ensures
        ({
            let u = step_execute(s, delta, random);
            let t = step(s, delta, random);
            &&& t.delay == if counts_down(s, delta) && u.delay > 0 { u.delay - 1 } else { u.delay as int }
            &&& t.sound == if counts_down(s, delta) && u.sound > 0 { u.sound - 1 } else { u.sound as int }
        }),
{
}

/// A step that runs no instruction that writes the delay or sound register
/// counts from what the registers held before the step.
pub proof fn law_step_counts_down_from_before(s: State, delta: nat, random: u8)
    requires
        s.wf(),
        executes(s, delta) ==> !(op_class(next_word(s)) == 0xF && (op_kk(next_word(s)) == 0x15
            || op_kk(next_word(s)) == 0x18)),
    ensures
        ({
            let t = step(s, delta, random);
            &&& t.delay == if counts_down(s, delta) && s.delay > 0 { s.delay - 1 } else { s.delay as int }
            &&& t.sound == if counts_down(s, delta) && s.sound > 0 { s.sound - 1 } else { s.sound as int }
        }),
{
}

/// A step of a running machine that takes the 60 Hz timer to or past the end
/// of its interval, once or many times over, and runs no instruction that
/// writes the delay or sound register, counts both down by exactly one,
/// stopping at zero.
pub proof fn law_step_over_boundary_counts_once(s: State, delta: nat, random: u8)
    requires
        s.wf(),
        s.running,
        s.frame.elapsed + delta >= s.frame.period,
        (s.frame.elapsed + delta) / s.frame.period < 0x1_0000_0000,
        executes(s, delta) ==> !(op_class(next_word(s)) == 0xF && (op_kk(next_word(s)) == 0x15
            || op_kk(next_word(s)) == 0x18)),
    ensures
        ({
            let t = step(s, delta, random);
            &&& t.delay == if s.delay > 0 { s.delay - 1 } else { 0 }
            &&& t.sound == if s.sound > 0 { s.sound - 1 } else { 0 }
        }),
{
    law_timer_fires_at_boundary(s.frame.elapsed, s.frame.period, delta);
    law_step_counts_down_from_before(s, delta, random);
}

/// A repeating timer completes an interval when the time on it reaches the
/// interval's length, whether it reaches it once or many times over, as
/// long as the number of completed intervals fits in 32 bits.
pub proof fn law_timer_fires_at_boundary(elapsed: nat, period: nat, delta: nat)
    requires
        period > 0,
        (elapsed + delta) / period < 0x1_0000_0000,
    ensures
        fires(elapsed, period, delta) == (elapsed + delta >= period),
{
    let total = (elapsed + delta) as int;
    let p = period as int;
    if total >= p {
        vstd::arithmetic::div_mod::lemma_div_non_zero(total, p);
    } else {
        vstd::arithmetic::div_mod::lemma_basic_div(total, p);
    }
}

/// No instruction leaves a key just released: a release that the instruction
/// did not take is forgotten.
pub proof fn law_release_is_one_shot(s: State, instr: u16, random: u8)
    requires
        s.wf(),
    ensures
        execute(s, instr, random).keys.len() == NUM_KEYS,
        forall|k: int|
            0 <= k < NUM_KEYS ==> #[trigger] execute(s, instr, random).keys[k]
                != KeyState::JustReleased,
{
    let t = dispatch(s, instr, random);
    assert(t.keys.len() == NUM_KEYS);
}

/// The first just-released key is just released, and no key before it is;
/// if there is none, no key is just released.
pub proof fn lemma_first_released(keys: Seq<KeyState>, from: int)
    requires
        0 <= from <= keys.len(),
    ensures
        ({
            let k = first_released(keys, from);
            if k >= 0 {
                &&& from <= k < keys.len()
                &&& keys[k] == KeyState::JustReleased
                &&& forall|i: int| from <= i < k ==> keys[i] != KeyState::JustReleased
            } else {
                forall|i: int| from <= i < keys.len() ==> keys[i] != KeyState::JustReleased
            }
        }),
    decreases keys.len() - from,
{
    if from < keys.len() && keys[from] != KeyState::JustReleased {
        lemma_first_released(keys, from + 1);
    }
}

/// Wait-for-key (`FX0A`), fetched and executed with key `key` just released
/// and no key before it: register `X` holds `key`, the program counter has
/// moved on to the next instruction, and the key is released.
pub proof fn law_wait_key_takes_release(s: State, key: int, random: u8)
    requires
        s.wf(),
        op_class(next_word(s)) == 0xF,
        op_kk(next_word(s)) == 0x0A,
        s.pc + 2 <= RAM_SIZE,
        0 <= key < NUM_KEYS,
        s.keys[key] == KeyState::JustReleased,
        forall|i: int| 0 <= i < key ==> s.keys[i] != KeyState::JustReleased,
    ensures
        ({
            let t = execute(fetched(s), next_word(s), random);
            &&& t.regs[op_x(next_word(s))] == key
            &&& t.pc == s.pc + 2
            &&& t.keys[key] == KeyState::Released
        }),
{
    lemma_first_released(s.keys, 0);
}

/// Wait-for-key, fetched and executed with no key just released, changes
/// nothing: the program counter is back where it was, so the instruction
/// runs again.
pub proof fn law_wait_key_waits(s: State, random: u8)
    requires
        s.wf(),
        op_class(next_word(s)) == 0xF,
        op_kk(next_word(s)) == 0x0A,
        s.pc + 2 <= RAM_SIZE,
        forall|i: int| 0 <= i < NUM_KEYS ==> s.keys[i] != KeyState::JustReleased,
    ensures
        execute(fetched(s), next_word(s), random) == s,
{
    lemma_first_released(s.keys, 0);
    let t = execute(fetched(s), next_word(s), random);
    assert(t.keys =~= s.keys);
}

/// Executing an instruction that the machine can run keeps the state
/// well-formed: in particular the stack pointer stays within the stack.
pub proof fn law_execute_keeps_wf(s: State, instr: u16, random: u8)
    requires
        s.wf(),
        executable(s, instr),
    ensures
        execute(s, instr, random).wf(),
{
    let t = dispatch(s, instr, random);
    assert(t.keys.len() == NUM_KEYS);
    assert(settled(t.keys).len() == NUM_KEYS);
}

/// A step that goes through keeps the state well-formed.
pub proof fn law_step_keeps_wf(s: State, delta: nat, random: u8)
    requires
        s.wf(),
        step_fault(s, delta) is None,
    ensures
        step(s, delta, random).wf(),
{
    if s.clock.period > 0 {
        vstd::arithmetic::div_mod::lemma_mod_bound(
            (s.clock.elapsed + delta) as int,
            s.clock.period as int,
        );
    }
    vstd::arithmetic::div_mod::lemma_mod_bound(
        (s.frame.elapsed + delta) as int,
        s.frame.period as int,
    );
    let t = s.ticked(delta);
    if executes(s, delta) {
        crate::semantics::lemma_tick_keeps_program(s, delta);
        crate::semantics::lemma_fault_ignores_pc(t, next_word(t), t.pc, fetched(t).pc);
        law_execute_keeps_wf(fetched(t), next_word(t), random);
    }
}

/// Whether the machine holds, at the start address, the program that clears
/// the screen and jumps back to the start, stands at one of its two
/// instructions, and shows a blank display.
pub open spec fn idles(s: State) -> bool {
    &&& s.wf()
    &&& s.ram[START_PC as int] == 0x00
    &&& s.ram[START_PC + 1] == 0xE0
    &&& s.ram[START_PC + 2] == 0x12
    &&& s.ram[START_PC + 3] == 0x00
    &&& (s.pc == START_PC || s.pc == START_PC + 2)
    &&& forall|c: int| 0 <= c < NUM_PIXELS ==> (#[trigger] s.screen[c]).0 == 0
}

/// A machine that runs the program "clear the screen, jump to the start"
/// never faults and, whatever time elapses in a step, keeps a blank display
/// and stays within the program; when it has run the jump it is back at
/// the start address.
pub proof fn law_clear_loop_idles(s: State, delta: nat, random: u8)
    requires
        idles(s),
        s.can_tick(delta),
    ensures
        step_fault(s, delta) is None,
        idles(step(s, delta, random)),
        executes(s, delta) && s.pc == START_PC + 2 ==> step(s, delta, random).pc == START_PC,
{
    let t = s.ticked(delta);
    if s.clock.period > 0 {
        vstd::arithmetic::div_mod::lemma_mod_bound(
            (s.clock.elapsed + delta) as int,
            s.clock.period as int,
        );
    }
    vstd::arithmetic::div_mod::lemma_mod_bound(
        (s.frame.elapsed + delta) as int,
        s.frame.period as int,
    );
    assert(t.wf());
    let w = next_word(s);
    assert(w == if s.pc == START_PC { 0x00E0u16 } else { 0x1200u16 });
    if executes(s, delta) {
        let u = execute(fetched(t), w, random);
        assert(u.keys.len() == NUM_KEYS);
        assert(u.wf());
    }
}

} // verus!
