//! Drawing sprites on the display.

use crate::chip8::Chip8;
use crate::config::{NUM_PIXELS, RAM_SIZE, REGISTER_COUNT};
use crate::sprite::{
    collides, column_of, draw, draw_collides, draw_erases, draw_lights, draw_lights_any,
    draw_out_of_memory, draw_repaints, hits, lemma_struck_step, lights, off_value, sprite_at,
    sprite_bit, struck, Sprite,
};
use crate::state::DisplayPixel;
use vstd::prelude::*;

verus! {

/// How often cell `cell` has been struck once the rows before row `i` of the
/// sprite and the first `j` bits of row `i` have been drawn.
pub open spec fn strikes_so_far(sp: Sprite, i: int, j: int, cell: int) -> nat {
    let r = cell / 64 - sp.y0;
    if 0 <= r < i {
        hits(sp.row(r), sp.x0, cell % 64, 8)
    } else if r == i {
        hits(sp.row(r), sp.x0, cell % 64, j)
    } else {
        0
    }
}

/// Whether cell `cell` has been erased by the partial draw.
pub open spec fn erased_so_far(fb: Seq<DisplayPixel>, sp: Sprite, i: int, j: int, cell: int) -> bool {
    collides(fb[cell].0, strikes_so_far(sp, i, j, cell))
}

/// Whether cell `cell` has been lit by the partial draw.
pub open spec fn lit_so_far(fb: Seq<DisplayPixel>, sp: Sprite, i: int, j: int, cell: int) -> bool {
    lights(fb[cell].0, strikes_so_far(sp, i, j, cell))
}

/// The partial draw as a whole: `now` is the display that results from
/// `before`, and the two flags say whether a cell has been erased or lit.
pub open spec fn partial_draw(
    now: Seq<DisplayPixel>,
    erased: bool,
    lit: bool,
    before: Seq<DisplayPixel>,
    sp: Sprite,
    i: int,
    j: int,
    trace: bool,
) -> bool {
    &&& now.len() == NUM_PIXELS
    &&& forall|c: int|
        0 <= c < NUM_PIXELS ==> (#[trigger] now[c]).0 == struck(
            before[c].0,
            strikes_so_far(sp, i, j, c),
            trace,
        )
    &&& erased == exists|c: int|
        0 <= c < NUM_PIXELS && #[trigger] erased_so_far(before, sp, i, j, c)
    &&& lit == exists|c: int| 0 <= c < NUM_PIXELS && #[trigger] lit_so_far(before, sp, i, j, c)
}

/// Two stages of a draw at which every cell has been struck equally often
/// are the same partial draw.
proof fn lemma_same_strikes(
    now: Seq<DisplayPixel>,
    erased: bool,
    lit: bool,
    before: Seq<DisplayPixel>,
    sp: Sprite,
    i: int,
    j: int,
    i2: int,
    j2: int,
    trace: bool,
)
    requires
        partial_draw(now, erased, lit, before, sp, i, j, trace),
        forall|c: int|
            0 <= c < NUM_PIXELS ==> strikes_so_far(sp, i2, j2, c) == strikes_so_far(sp, i, j, c),
    ensures
        partial_draw(now, erased, lit, before, sp, i2, j2, trace),
{
    if erased {
        let w = choose|c: int| 0 <= c < NUM_PIXELS && #[trigger] erased_so_far(before, sp, i, j, c);
        assert(erased_so_far(before, sp, i2, j2, w));
    } else {
        assert forall|c: int| 0 <= c < NUM_PIXELS implies !#[trigger] erased_so_far(
            before,
            sp,
            i2,
            j2,
            c,
        ) by {
            assert(!erased_so_far(before, sp, i, j, c));
        }
    }
    if lit {
        let w = choose|c: int| 0 <= c < NUM_PIXELS && #[trigger] lit_so_far(before, sp, i, j, c);
        assert(lit_so_far(before, sp, i2, j2, w));
    } else {
        assert forall|c: int| 0 <= c < NUM_PIXELS implies !#[trigger] lit_so_far(
            before,
            sp,
            i2,
            j2,
            c,
        ) by {
            assert(!lit_so_far(before, sp, i, j, c));
        }
    }
}

/// Drawing bit `j` of row `i` takes a partial draw to the next one.
proof fn lemma_draw_bit(
    now: Seq<DisplayPixel>,
    erased: bool,
    lit: bool,
    before: Seq<DisplayPixel>,
    sp: Sprite,
    i: int,
    j: int,
    trace: bool,
)
    requires
        partial_draw(now, erased, lit, before, sp, i, j, trace),
        before.len() == NUM_PIXELS,
        0 <= sp.x0 < 64,
        0 <= sp.y0,
        0 <= i,
        sp.y0 + i < 32,
        0 <= j < 8,
    ensures
        ({
            let cell = (sp.y0 + i) * 64 + column_of(sp.x0, j);
            let v = now[cell].0;
            if sprite_bit(sp.row(i), j) {
                partial_draw(
                    now.update(cell, DisplayPixel(if v == 255 { off_value(trace) } else { 255 })),
                    erased || v == 255,
                    lit || v != 255,
                    before,
                    sp,
                    i,
                    j + 1,
                    trace,
                )
            } else {
                partial_draw(now, erased, lit, before, sp, i, j + 1, trace)
            }
        }),
{
    let cell = (sp.y0 + i) * 64 + column_of(sp.x0, j);
    let v = now[cell].0;
    let bit = sprite_bit(sp.row(i), j);
    let k = strikes_so_far(sp, i, j, cell);
    assert(cell / 64 - sp.y0 == i && cell % 64 == column_of(sp.x0, j));
    assert forall|c: int| 0 <= c < NUM_PIXELS implies strikes_so_far(sp, i, j + 1, c)
        == strikes_so_far(sp, i, j, c) + if bit && c == cell {
        1nat
    } else {
        0nat
    } by {
        if c / 64 - sp.y0 == i && c % 64 == column_of(sp.x0, j) {
            assert(c == cell);
        }
    }
    lemma_struck_step(before[cell].0, k, trace);
    if bit {
        let next = now.update(cell, DisplayPixel(if v == 255 { off_value(trace) } else { 255 }));
        assert forall|c: int| 0 <= c < NUM_PIXELS implies (#[trigger] next[c]).0 == struck(
            before[c].0,
            strikes_so_far(sp, i, j + 1, c),
            trace,
        ) by {
            if c != cell {
                assert(next[c] == now[c]);
            }
        }
        if erased || v == 255 {
            if erased {
                let w = choose|c: int|
                    0 <= c < NUM_PIXELS && #[trigger] erased_so_far(before, sp, i, j, c);
                assert(erased_so_far(before, sp, i, j + 1, w));
            } else {
                assert(erased_so_far(before, sp, i, j + 1, cell));
            }
        } else {
            assert forall|c: int| 0 <= c < NUM_PIXELS implies !#[trigger] erased_so_far(
                before,
                sp,
                i,
                j + 1,
                c,
            ) by {
                assert(!erased_so_far(before, sp, i, j, c));
            }
        }
        if lit || v != 255 {
            if lit {
                let w = choose|c: int|
                    0 <= c < NUM_PIXELS && #[trigger] lit_so_far(before, sp, i, j, c);
                assert(lit_so_far(before, sp, i, j + 1, w));
            } else {
                assert(lit_so_far(before, sp, i, j + 1, cell));
            }
        } else {
            assert forall|c: int| 0 <= c < NUM_PIXELS implies !#[trigger] lit_so_far(
                before,
                sp,
                i,
                j + 1,
                c,
            ) by {
                assert(!lit_so_far(before, sp, i, j, c));
            }
        }
    } else {
        lemma_same_strikes(now, erased, lit, before, sp, i, j, i, j + 1, trace);
    }
}

/// A partial draw that has reached the last visible row is the whole draw.
proof fn lemma_draw_done(
    now: Seq<DisplayPixel>,
    erased: bool,
    lit: bool,
    before: Seq<DisplayPixel>,
    sp: Sprite,
    trace: bool,
)
    requires
        partial_draw(now, erased, lit, before, sp, sp.visible_rows(), 0, trace),
        0 <= sp.y0 < 32,
        0 <= sp.n,
    ensures
        forall|c: int|
            0 <= c < NUM_PIXELS ==> (#[trigger] now[c]).0 == struck(
                before[c].0,
                sp.strikes(c),
                trace,
            ),
        erased == exists|c: int|
            0 <= c < NUM_PIXELS && collides(before[c].0, #[trigger] sp.strikes(c)),
        lit == exists|c: int| 0 <= c < NUM_PIXELS && lights(before[c].0, #[trigger] sp.strikes(c)),
{
    let rows = sp.visible_rows();
    assert forall|c: int| 0 <= c < NUM_PIXELS implies strikes_so_far(sp, rows, 0, c) == sp.strikes(
        c,
    ) by {}
    if erased {
        let w = choose|c: int|
            0 <= c < NUM_PIXELS && #[trigger] erased_so_far(before, sp, rows, 0, c);
        assert(collides(before[w].0, sp.strikes(w)));
    } else {
        assert forall|c: int| 0 <= c < NUM_PIXELS implies !collides(
            before[c].0,
            #[trigger] sp.strikes(c),
        ) by {
            assert(!erased_so_far(before, sp, rows, 0, c));
        }
    }
    if lit {
        let w = choose|c: int| 0 <= c < NUM_PIXELS && #[trigger] lit_so_far(before, sp, rows, 0, c);
        assert(lights(before[w].0, sp.strikes(w)));
    } else {
        assert forall|c: int| 0 <= c < NUM_PIXELS implies !lights(
            before[c].0,
            #[trigger] sp.strikes(c),
        ) by {
            assert(!lit_so_far(before, sp, rows, 0, c));
        }
    }
}

/// Draws the `n`-row sprite stored at `index` at column `x0` and row `y0`,
/// and reports whether a cell was erased and whether a cell was lit.
pub(crate) fn blit(
    fb: &mut [DisplayPixel; NUM_PIXELS],
    ram: &[u8; RAM_SIZE],
    index: usize,
    x0: usize,
    y0: usize,
    n: usize,
    trace: bool,
) -> (flags: (bool, bool))
    requires
        x0 < 64,
        y0 < 32,
        n < 16,
        !(Sprite { ram: ram@, index: index as int, x0: x0 as int, y0: y0 as int, n: n as int })
            .out_of_memory(),
    ensures
        ({
            let sp = Sprite {
                ram: ram@,
                index: index as int,
                x0: x0 as int,
                y0: y0 as int,
                n: n as int,
            };
            &&& forall|c: int|
                0 <= c < NUM_PIXELS ==> (#[trigger] final(fb)@[c]).0 == struck(
                    old(fb)@[c].0,
                    sp.strikes(c),
                    trace,
                )
            &&& flags.0 == exists|c: int|
                0 <= c < NUM_PIXELS && collides(old(fb)@[c].0, #[trigger] sp.strikes(c))
            &&& flags.1 == exists|c: int|
                0 <= c < NUM_PIXELS && lights(old(fb)@[c].0, #[trigger] sp.strikes(c))
        }),
{
    let ghost sp = Sprite {
        ram: ram@,
        index: index as int,
        x0: x0 as int,
        y0: y0 as int,
        n: n as int,
    };
    let ghost before = fb@;
    let rows: usize = if y0 + n <= 32 {
        n
    } else {
        32 - y0
    };
    let off: u8 = if trace {
        128
    } else {
        0
    };
    let mut erased = false;
    let mut lit = false;
    let mut i: usize = 0;
    assert(partial_draw(fb@, erased, lit, before, sp, 0, 0, trace));
    while i < rows
        invariant
            i <= rows,
            rows == sp.visible_rows(),
            sp == (Sprite {
                ram: ram@,
                index: index as int,
                x0: x0 as int,
                y0: y0 as int,
                n: n as int,
            }),
            x0 < 64,
            y0 < 32,
            rows > 0 ==> index + rows <= RAM_SIZE,
            off == off_value(trace),
            before.len() == NUM_PIXELS,
            partial_draw(fb@, erased, lit, before, sp, i as int, 0, trace),
        decreases rows - i,
    {
        let row: u8 = ram[index + i];
        let mut j: usize = 0;
        while j < 8
            invariant
                j <= 8,
                i < rows,
                rows == sp.visible_rows(),
                sp == (Sprite {
                    ram: ram@,
                    index: index as int,
                    x0: x0 as int,
                    y0: y0 as int,
                    n: n as int,
                }),
                x0 < 64,
                y0 < 32,
                row == sp.row(i as int),
                off == off_value(trace),
                before.len() == NUM_PIXELS,
                partial_draw(fb@, erased, lit, before, sp, i as int, j as int, trace),
            decreases 8 - j,
        {
            let bit: bool = row & (0x80u8 >> (j as u8)) != 0;
            let col: usize = if x0 + j < 64 {
                x0 + j
            } else {
                63
            };
            let cell: usize = (y0 + i) * 64 + col;
            proof {
                lemma_draw_bit(fb@, erased, lit, before, sp, i as int, j as int, trace);
            }
            if bit {
                if fb[cell].0 == 255 {
                    fb[cell] = DisplayPixel(off);
                    erased = true;
                } else {
                    fb[cell] = DisplayPixel(255);
                    lit = true;
                }
            }
            j += 1;
        }
        proof {
            lemma_same_strikes(fb@, erased, lit, before, sp, i as int, 8, i + 1, 0, trace);
        }
        i += 1;
    }
    proof {
        lemma_draw_done(fb@, erased, lit, before, sp, trace);
    }
    (erased, lit)
}

impl Chip8 {
    /// Draws the `n`-row sprite at the index register at the coordinates held
    /// in registers `x` and `y`, sets `VF` to whether a cell was erased, and
    /// returns whether the host should repaint.
    pub fn display(&mut self, x: u16, y: u16, n: u16) -> (repaint: bool)
        requires
            old(self).wf(),
            x < REGISTER_COUNT,
            y < REGISTER_COUNT,
            n < 16,
            !draw_out_of_memory(old(self)@, old(self)@.reg(y as int), n as int),
        ensures
            final(self).wf(),
            final(self)@ == draw(
                old(self)@,
                old(self)@.reg(x as int),
                old(self)@.reg(y as int),
                n as int,
            ),
            repaint == draw_repaints(
                old(self)@,
                old(self)@.reg(x as int),
                old(self)@.reg(y as int),
                n as int,
            ),
    {
        let vx: u8 = self.registers[x as usize];
        let vy: u8 = self.registers[y as usize];
        assert(vx & 63 == vx % 64 && vy & 31 == vy % 32) by (bit_vector);
        let flags = blit(
            &mut self.framebuffer,
            &self.ram,
            self.index_register as usize,
            (vx & 63) as usize,
            (vy & 31) as usize,
            n as usize,
            self.trace,
        );
        self.registers[0xF] = if flags.0 {
            1
        } else {
            0
        };
        proof {
            let s = old(self)@;
            let m = n as int;
            let sp = sprite_at(s, vx, vy, m);
            assert(self@.screen =~= draw(s, vx, vy, m).screen);
            if flags.0 {
                let w = choose|c: int|
                    0 <= c < NUM_PIXELS && collides(s.screen[c].0, #[trigger] sp.strikes(c));
                assert(draw_erases(s, vx, vy, m, w));
            } else {
                assert forall|c: int| 0 <= c < NUM_PIXELS implies !#[trigger] draw_erases(
                    s,
                    vx,
                    vy,
                    m,
                    c,
                ) by {
                    assert(!collides(s.screen[c].0, sp.strikes(c)));
                }
            }
            if flags.1 {
                let w = choose|c: int|
                    0 <= c < NUM_PIXELS && lights(s.screen[c].0, #[trigger] sp.strikes(c));
                assert(draw_lights(s, vx, vy, m, w));
            } else {
                assert forall|c: int| 0 <= c < NUM_PIXELS implies !#[trigger] draw_lights(
                    s,
                    vx,
                    vy,
                    m,
                    c,
                ) by {
                    assert(!lights(s.screen[c].0, sp.strikes(c)));
                }
            }
            assert(draw_collides(s, vx, vy, m) == flags.0);
            assert(draw_lights_any(s, vx, vy, m) == flags.1);
        }
        !self.reduce_flicker || flags.1
    }
}

} // verus!
