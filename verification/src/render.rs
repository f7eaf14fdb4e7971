//! What the host paints: which shade each host pixel gets, and when a
//! repaint is due.
//!
//! Every display cell is painted as a square of `PIXEL_SIZE` by `PIXEL_SIZE`
//! host pixels.

use crate::config::{DISPLAY_HEIGHT, DISPLAY_WIDTH, NUM_PIXELS, PIXEL_SIZE};
use crate::state::DisplayPixel;
use vstd::prelude::*;

verus! {

/// How the host presents the machine.
#[derive(Clone, Copy, Debug, PartialEq, Eq, Structural)]
pub struct ConfigResource {
    /// Show the inspector panels.
    pub debug_ui: bool,
    /// Leave the first row and column of every cell dark. Applies when cells
    /// are painted as squares.
    pub show_grid: bool,
    /// Paint the traces of erased cells.
    pub trace: bool,
    /// Paint cells as discs.
    pub circle_pixels: bool,
    /// Repaint only when the machine asks for it.
    pub reduce_flicker: bool,
}

/// The shade of a host pixel.
#[derive(Clone, Copy, Debug, PartialEq, Eq, Structural)]
pub enum Shade {
    Black,
    White,
    /// A grey of the given intensity and opacity.
    Trace(u8),
}

/// The disc a cell is painted as when cells are discs, row by row: 1 is
/// inside the disc.
pub const CIRCLE_MATRIX: [u8; 100] = [
    0, 0, 0, 0, 0, 0, 0, 0, 0, 0,
    0, 0, 0, 1, 1, 1, 1, 0, 0, 0,
    0, 0, 1, 1, 1, 1, 1, 1, 0, 0,
    0, 1, 1, 1, 1, 1, 1, 1, 1, 0,
    0, 1, 1, 1, 1, 1, 1, 1, 1, 0,
    0, 1, 1, 1, 1, 1, 1, 1, 1, 0,
    0, 1, 1, 1, 1, 1, 1, 1, 1, 0,
    0, 0, 1, 1, 1, 1, 1, 1, 0, 0,
    0, 0, 0, 1, 1, 1, 1, 0, 0, 0,
    0, 0, 0, 0, 0, 0, 0, 0, 0, 0,
];

/// The display cell that host pixel `(x, y)` belongs to.
pub open spec fn cell_at(x: u32, y: u32) -> int {
    (y / PIXEL_SIZE) * DISPLAY_WIDTH + x / PIXEL_SIZE
}

/// Whether host pixel `(x, y)` lies in the first row or column of its cell.
pub open spec fn on_grid(x: u32, y: u32) -> bool {
    x % PIXEL_SIZE == 0 || y % PIXEL_SIZE == 0
}

/// Whether host pixel `(x, y)` lies inside the disc of its cell.
pub open spec fn in_disc(x: u32, y: u32) -> bool {
    CIRCLE_MATRIX@[(y % PIXEL_SIZE) * PIXEL_SIZE + x % PIXEL_SIZE] != 0
}

/// Whether host pixel `(x, y)` stays dark whatever its cell holds.
pub open spec fn masked(cfg: ConfigResource, x: u32, y: u32) -> bool {
    (cfg.show_grid && on_grid(x, y)) || (cfg.circle_pixels && !in_disc(x, y))
}

/// The shade of host pixel `(x, y)`: white where the cell is fully on, the
/// trace's grey where it holds a trace and traces are painted, black where
/// the cell is off or the pixel masked.
pub open spec fn shade_of(cfg: ConfigResource, screen: Seq<DisplayPixel>, x: u32, y: u32) -> Shade {
    let c = screen[cell_at(x, y)].0;
    if c == 0 || masked(cfg, x, y) {
        Shade::Black
    } else if cfg.trace && c < 255 {
        Shade::Trace(c)
    } else if c == 255 {
        Shade::White
    } else {
        Shade::Black
    }
}

/// The shade of host pixel `(x, y)` of a display painted from `framebuffer`.
pub fn shade(
    cfg: &ConfigResource,
    framebuffer: &[DisplayPixel; NUM_PIXELS],
    x: u32,
    y: u32,
) -> (s: Shade)
    requires
        x < DISPLAY_WIDTH * PIXEL_SIZE,
        y < DISPLAY_HEIGHT * PIXEL_SIZE,
    ensures
        s == shade_of(*cfg, framebuffer@, x, y),
{
    let cx: u32 = x / PIXEL_SIZE;
    let cy: u32 = y / PIXEL_SIZE;
    let c: u8 = framebuffer[(cy * DISPLAY_WIDTH + cx) as usize].0;
    let is_grid: bool = cfg.show_grid && (cx * PIXEL_SIZE == x || cy * PIXEL_SIZE == y);
    let outside_circle: bool = cfg.circle_pixels && CIRCLE_MATRIX[((y - cy * PIXEL_SIZE)
        * PIXEL_SIZE + (x - cx * PIXEL_SIZE)) as usize] == 0;
    if c > 0 && !is_grid && !outside_circle {
        if cfg.trace && c < 255 {
            Shade::Trace(c)
        } else if c == 255 {
            Shade::White
        } else {
            Shade::Black
        }
    } else {
        Shade::Black
    }
}

/// Whether the host repaints after a step: at once when the step asked for
/// it or the machine was reset, and otherwise when the frame timer is due,
/// unless flicker reduction is on.
pub fn repaint_due(forced: bool, frame_due: bool, reduce_flicker: bool) -> (due: bool)
    ensures
        due == (forced || (frame_due && !reduce_flicker)),
{
    if !forced && !frame_due {
        return false;
    }
    if reduce_flicker && !forced {
        return false;
    }
    true
}

} // verus!
