//! What drawing a sprite does to the display.
//!
//! A sprite is up to fifteen bytes of memory starting at the index register,
//! one byte per row, most significant bit leftmost. Every set bit strikes one
//! cell. A strike flips the cell between fully on and off. Columns past the
//! right edge are folded onto the last column, so several bits of one row can
//! strike the same cell; rows past the bottom edge are dropped.

use crate::config::NUM_PIXELS;
use crate::state::{DisplayPixel, State};
use vstd::prelude::*;

verus! {

/// Whether bit `j` of a sprite row is set, counting from the left.
pub open spec fn sprite_bit(row: u8, j: int) -> bool {
    row & (0x80u8 >> (j as u8)) != 0
}

/// The column that bit `j` of a sprite placed at column `x0` lands on.
pub open spec fn column_of(x0: int, j: int) -> int {
    if x0 + j < 64 {
        x0 + j
    } else {
        63
    }
}

/// How many of the first `upto` bits of `row`, placed at column `x0`, are set
/// and land on column `col`.
pub open spec fn hits(row: u8, x0: int, col: int, upto: int) -> nat
    decreases upto,
{
    if upto <= 0 {
        0
    } else {
        let here: nat = if sprite_bit(row, upto - 1) && column_of(x0, upto - 1) == col {
            1
        } else {
            0
        };
        hits(row, x0, col, upto - 1) + here
    }
}

/// A sprite placed on the display: `n` rows read from `ram` at `index`,
/// with the top left corner at column `x0` and row `y0`.
pub struct Sprite {
    pub ram: Seq<u8>,
    pub index: int,
    pub x0: int,
    pub y0: int,
    pub n: int,
}

impl Sprite {
    /// Row `r` of the sprite.
    pub open spec fn row(self, r: int) -> u8 {
        self.ram[self.index + r]
    }

    /// How many of the sprite's rows are on the display.
    pub open spec fn visible_rows(self) -> int {
        if self.y0 + self.n <= 32 {
            self.n
        } else {
            32 - self.y0
        }
    }

    /// How many times drawing the sprite strikes display cell `cell`.
    pub open spec fn strikes(self, cell: int) -> nat {
        let r = cell / 64 - self.y0;
        if 0 <= r < self.n {
            hits(self.row(r), self.x0, cell % 64, 8)
        } else {
            0
        }
    }

    /// Whether drawing the sprite reads a row from outside the memory.
    pub open spec fn out_of_memory(self) -> bool {
        self.visible_rows() > 0 && self.index + self.visible_rows() > self.ram.len()
    }
}

/// The intensity an erased cell is left at: a trace if traces are on.
pub open spec fn off_value(trace: bool) -> u8 {
    if trace {
        128
    } else {
        0
    }
}

/// The intensity of a cell after one strike.
pub open spec fn flipped(v: u8, trace: bool) -> u8 {
    if v == 255 {
        off_value(trace)
    } else {
        255
    }
}

/// The intensity of a cell that held `v` after `k` strikes.
pub open spec fn struck(v: u8, k: nat, trace: bool) -> u8 {
    if k == 0 {
        v
    } else if (v == 255) == (k % 2 == 0) {
        255
    } else {
        off_value(trace)
    }
}

/// Whether one of `k` strikes erased a cell that held `v`.
pub open spec fn collides(v: u8, k: nat) -> bool {
    k >= 2 || (k == 1 && v == 255)
}

/// Whether one of `k` strikes lit a cell that held `v`.
pub open spec fn lights(v: u8, k: nat) -> bool {
    k >= 2 || (k == 1 && v != 255)
}

/// Column at which a sprite whose horizontal coordinate is `vx` starts: the
/// coordinate wraps around the display.
pub open spec fn origin_x(vx: u8) -> int {
    vx as int % 64
}

/// Row at which a sprite whose vertical coordinate is `vy` starts.
pub open spec fn origin_y(vy: u8) -> int {
    vy as int % 32
}

/// The `n`-row sprite at the index register, placed at coordinates
/// `(vx, vy)`.
pub open spec fn sprite_at(s: State, vx: u8, vy: u8, n: int) -> Sprite {
    Sprite { ram: s.ram, index: s.index as int, x0: origin_x(vx), y0: origin_y(vy), n }
}

/// How many times drawing the `n`-row sprite at the index register, at
/// coordinates `(vx, vy)`, strikes display cell `cell`.
pub open spec fn draw_strikes(s: State, vx: u8, vy: u8, n: int, cell: int) -> nat {
    sprite_at(s, vx, vy, n).strikes(cell)
}

/// Whether the draw erases cell `cell`.
pub open spec fn draw_erases(s: State, vx: u8, vy: u8, n: int, cell: int) -> bool {
    collides(s.screen[cell].0, draw_strikes(s, vx, vy, n, cell))
}

/// Whether the draw lights cell `cell`.
pub open spec fn draw_lights(s: State, vx: u8, vy: u8, n: int, cell: int) -> bool {
    lights(s.screen[cell].0, draw_strikes(s, vx, vy, n, cell))
}

/// Whether the draw erases some cell.
pub open spec fn draw_collides(s: State, vx: u8, vy: u8, n: int) -> bool {
    exists|c: int| 0 <= c < NUM_PIXELS && #[trigger] draw_erases(s, vx, vy, n, c)
}

/// Whether the draw lights some cell.
pub open spec fn draw_lights_any(s: State, vx: u8, vy: u8, n: int) -> bool {
    exists|c: int| 0 <= c < NUM_PIXELS && #[trigger] draw_lights(s, vx, vy, n, c)
}

/// The display after the draw.
pub open spec fn drawn_screen(s: State, vx: u8, vy: u8, n: int) -> Seq<DisplayPixel> {
    Seq::new(
        NUM_PIXELS as nat,
        |c: int| DisplayPixel(struck(s.screen[c].0, draw_strikes(s, vx, vy, n, c), s.trace)),
    )
}

/// The state after drawing the `n`-row sprite at the index register at
/// coordinates `(vx, vy)`: the struck cells are flipped, and `VF` says
/// whether a cell was erased.
pub open spec fn draw(s: State, vx: u8, vy: u8, n: int) -> State {
    State {
        screen: drawn_screen(s, vx, vy, n),
        regs: s.regs.update(
            0xF,
            if draw_collides(s, vx, vy, n) {
                1u8
            } else {
                0u8
            },
        ),
        ..s
    }
}

/// Whether the host should repaint after the draw: always, unless flicker
/// reduction is on and the draw lit nothing.
pub open spec fn draw_repaints(s: State, vx: u8, vy: u8, n: int) -> bool {
    !s.reduce_flicker || draw_lights_any(s, vx, vy, n)
}

/// Whether the draw reads a sprite row from outside the memory.
pub open spec fn draw_out_of_memory(s: State, vy: u8, n: int) -> bool {
    sprite_at(s, 0, vy, n).out_of_memory()
}

/// One more strike flips the cell once more.
pub proof fn lemma_struck_step(v: u8, k: nat, trace: bool)
    ensures
        struck(v, k + 1, trace) == flipped(struck(v, k, trace), trace),
        collides(v, k + 1) == (collides(v, k) || struck(v, k, trace) == 255),
        lights(v, k + 1) == (lights(v, k) || struck(v, k, trace) != 255),
{
}

} // verus!
