use vstd::prelude::*;
use crate::raycast::{RayHit, HitAxis, MAX_COLUMNS};
use crate::player::MAX_TILT;
use vstd::arithmetic::div_mod::lemma_fundamental_div_mod_converse;

verus! {

/// Width of the window's pixel buffer.
pub const BUFFER_WIDTH: u32 = 640;

/// Height of the window's pixel buffer.
pub const BUFFER_HEIGHT: u32 = 480;

/// Largest number of pixel rows.
pub const MAX_ROWS: u32 = 8192;

/// Largest projection constant.
pub const MAX_PROJECTION: i64 = 0x100_0000_0000_0000;

/// Largest vertical shift, in rows per degree of tilt.
pub const MAX_PITCH_SCALE: u32 = 64;

/// Index in a row-major buffer `width` pixels wide of the pixel at column
/// `x`, row `y` (top-left origin).
pub fn buffer_index(x: u32, y: u32, width: u32) -> (r: usize)
    requires
        x < width <= MAX_COLUMNS,
        y < MAX_ROWS,
    ensures
        r == y * width + x,
{
    proof {
        assert(y * width + x < MAX_ROWS * MAX_COLUMNS) by (nonlinear_arith)
            requires x < width <= MAX_COLUMNS, y < MAX_ROWS;
    }
    y as usize * width as usize + x as usize
}

/// Index of the screen pixel `(x, y)` in the window's buffer.
pub fn screen_to_buffer(x: u32, y: u32) -> (r: usize)
    requires
        x < BUFFER_WIDTH,
        y < BUFFER_HEIGHT,
    ensures
        r == y * BUFFER_WIDTH + x,
{
    buffer_index(x, y, BUFFER_WIDTH)
}

/// Screen size, projection and palette of the compositor.
#[derive(Clone, Copy, Debug, PartialEq, Eq)]
pub struct RenderConfig {
    /// Columns, one ray each.
    pub width: u32,
    /// Rows.
    pub height: u32,
    /// A wall at fixed-point distance `d` is `projection / d` rows tall.
    pub projection: i64,
    /// Rows the horizon moves down per degree of tilt.
    pub pitch_scale: u32,
    /// Color above the walls.
    pub ceiling: u32,
    /// Color below the walls.
    pub floor: u32,
    /// Color of walls struck on a vertical grid line.
    pub wall: u32,
    /// Color of walls struck on a horizontal grid line, the shaded side.
    pub wall_shaded: u32,
}

impl RenderConfig {
    pub open spec fn wf(&self) -> bool {
        &&& 1 <= self.width <= MAX_COLUMNS
        &&& 1 <= self.height <= MAX_ROWS
        &&& 1 <= self.projection <= MAX_PROJECTION
        &&& self.pitch_scale <= MAX_PITCH_SCALE
    }
}

/// Rows of wall drawn for `hit`: `projection / distance` clamped to the
/// screen height; none for a miss; the full height at a distance of zero
/// or less.
pub open spec fn wall_height(hit: RayHit, c: RenderConfig) -> int {
    if hit.axis == HitAxis::Miss {
        0
    } else if hit.distance <= 0 {
        c.height as int
    } else if c.projection as int / (hit.distance as int) > c.height {
        c.height as int
    } else {
        c.projection as int / (hit.distance as int)
    }
}

/// First row of the wall slice: centred on the horizon, which tilt moves.
pub open spec fn wall_top(hit: RayHit, tilt: int, c: RenderConfig) -> int {
    c.height / 2 + tilt * c.pitch_scale - wall_height(hit, c) / 2
}

/// The color of row `row` in a column that saw `hit`.
pub open spec fn pixel_color(hit: RayHit, tilt: int, row: int, c: RenderConfig) -> u32 {
    let top = wall_top(hit, tilt, c);
    if row < top {
        c.ceiling
    } else if row < top + wall_height(hit, c) {
        if hit.axis == HitAxis::Horizontal { c.wall_shaded } else { c.wall }
    } else {
        c.floor
    }
}

/// The rows `[top, bottom)` of the wall slice of one column.
fn column_span(hit: &RayHit, tilt: i32, c: &RenderConfig) -> (r: (i64, i64))
    requires
        c.wf(),
        -MAX_TILT <= tilt <= MAX_TILT,
    ensures
        r.0 == wall_top(*hit, tilt as int, *c),
        r.1 == r.0 + wall_height(*hit, *c),
{
    let h: i64 = c.height as i64;
    let hgt: i64 = if hit.axis == HitAxis::Miss {
        0
    } else if hit.distance <= 0 {
        h
    } else if c.projection / hit.distance > h {
        h
    } else {
        c.projection / hit.distance
    };
    proof {
        assert(-(45 * 64) <= tilt * c.pitch_scale <= 45 * 64) by (nonlinear_arith)
            requires -45 <= tilt <= 45, 0 <= c.pitch_scale <= 64;
    }
    let top: i64 = h / 2 + tilt as i64 * c.pitch_scale as i64 - hgt / 2;
    (top, top + hgt)
}

/// Fills `buf` with one frame: it is emptied, then every pixel of the
/// `width * height` screen is written row by row, so nothing of an earlier
/// frame survives. Column `x` shows `hits[x]`.
pub fn compose(hits: &Vec<RayHit>, tilt: i32, c: &RenderConfig, buf: &mut Vec<u32>)
    requires
        c.wf(),
        -MAX_TILT <= tilt <= MAX_TILT,
        hits@.len() == c.width,
    ensures
        final(buf)@.len() == c.width * c.height,
        forall|i: int| 0 <= i < c.width * c.height ==> #[trigger] final(buf)@[i]
            == pixel_color(hits@[i % c.width as int], tilt as int, i / c.width as int, *c),
{
    let w = c.width;
    let h = c.height;
    let mut spans: Vec<(i64, i64)> = Vec::new();
    let mut x: u32 = 0;
    while x < w
        invariant
            c.wf(),
            w == c.width,
            -MAX_TILT <= tilt <= MAX_TILT,
            x <= w,
            hits@.len() == w,
            spans@.len() == x,
            forall|k: int| 0 <= k < x ==> (#[trigger] spans@[k]).0 == wall_top(hits@[k], tilt as int, *c)
                && spans@[k].1 == spans@[k].0 + wall_height(hits@[k], *c),
        decreases w - x,
    {
        spans.push(column_span(&hits[x as usize], tilt, c));
        x = x + 1;
    }
    buf.clear();
    let mut y: u32 = 0;
    while y < h
        invariant
            c.wf(),
            w == c.width,
            h == c.height,
            y <= h,
            hits@.len() == w,
            spans@.len() == w,
            forall|k: int| 0 <= k < w ==> (#[trigger] spans@[k]).0 == wall_top(hits@[k], tilt as int, *c)
                && spans@[k].1 == spans@[k].0 + wall_height(hits@[k], *c),
            buf@.len() == y * w,
            forall|i: int| 0 <= i < y * w ==> #[trigger] buf@[i]
                == pixel_color(hits@[i % w as int], tilt as int, i / w as int, *c),
        decreases h - y,
    {
        let mut x: u32 = 0;
        while x < w
            invariant
                c.wf(),
                w == c.width,
                h == c.height,
                y < h,
                x <= w,
                hits@.len() == w,
                spans@.len() == w,
                forall|k: int| 0 <= k < w ==> (#[trigger] spans@[k]).0 == wall_top(hits@[k], tilt as int, *c)
                    && spans@[k].1 == spans@[k].0 + wall_height(hits@[k], *c),
                buf@.len() == y * w + x,
                forall|i: int| 0 <= i < y * w + x ==> #[trigger] buf@[i]
                    == pixel_color(hits@[i % w as int], tilt as int, i / w as int, *c),
            decreases w - x,
        {
            let (top, bottom) = spans[x as usize];
            let color: u32 = if (y as i64) < top {
                c.ceiling
            } else if (y as i64) < bottom {
                if hits[x as usize].axis == HitAxis::Horizontal { c.wall_shaded } else { c.wall }
            } else {
                c.floor
            };
            proof {
                lemma_fundamental_div_mod_converse((y * w + x) as int, w as int, y as int, x as int);
                assert(y * w + x == w * y + x) by (nonlinear_arith);
            }
            buf.push(color);
            x = x + 1;
        }
        proof {
            assert((y + 1) * w == y * w + w) by (nonlinear_arith);
        }
        y = y + 1;
    }
    proof {
        assert(h * w == c.width * c.height) by (nonlinear_arith)
            requires w == c.width, h == c.height;
    }
}

} // verus!
