use vstd::prelude::*;
use crate::angle::{Angle, norm_deg};
use crate::trig::{TrigTable, ONE};
use crate::grid::{GridMap, EMPTY};
use crate::player::{PlayerState, POS_LIMIT};
use crate::grid::MAX_CELL_SIZE;
use vstd::arithmetic::div_mod::lemma_fundamental_div_mod;

verus! {

/// Largest half field of view, in degrees.
pub const MAX_HALF_FOV: u32 = 89;

/// Largest number of grid lines a ray may cross.
pub const MAX_STEPS: u32 = 8192;

/// Largest ray length, in fixed point.
pub const MAX_RANGE: i64 = 0x4000_0000_0000;

/// Largest number of screen columns.
pub const MAX_COLUMNS: u32 = 8192;

/// Which kind of grid line a ray crossed into its wall cell.
#[derive(Clone, Copy, Debug, PartialEq, Eq, Structural)]
pub enum HitAxis {
    /// A line of constant x (the ray stepped along x).
    Vertical,
    /// A line of constant y (the ray stepped along y).
    Horizontal,
    /// No wall within range: a sky or void column.
    Miss,
}

/// What one ray found: the distance to the wall (fixed point), the wall's
/// surface, and the kind of grid line struck. A miss reports the maximum
/// range, surface `EMPTY` and `HitAxis::Miss`.
#[derive(Clone, Copy, Debug, PartialEq, Eq, Structural)]
pub struct RayHit {
    pub distance: i64,
    pub surface: u8,
    pub axis: HitAxis,
}

/// Limits of the ray caster.
#[derive(Clone, Copy, Debug, PartialEq, Eq)]
pub struct CastConfig {
    /// Half of the field of view, in degrees.
    pub half_fov: u32,
    /// Longest ray, in fixed point; walls farther away are not seen.
    pub max_distance: i64,
    /// Most grid lines a ray crosses before it gives up.
    pub max_steps: u32,
}

impl CastConfig {
    pub open spec fn wf(&self) -> bool {
        &&& 1 <= self.half_fov <= MAX_HALF_FOV
        &&& 1 <= self.max_distance <= MAX_RANGE
        &&& self.max_steps <= MAX_STEPS
    }
}

/// The hit reported when no wall is found.
pub open spec fn miss(c: CastConfig) -> RayHit {
    RayHit { distance: c.max_distance, surface: EMPTY, axis: HitAxis::Miss }
}

/// Whether the next grid line crossed is a vertical one. The ray meets the
/// next vertical line after `ax / adx` and the next horizontal one after
/// `ay / ady` (a zero speed never meets its lines); the nearer comes first
/// and a tie goes to the vertical line.
pub open spec fn steps_along_x(ax: int, ay: int, adx: int, ady: int) -> bool {
    adx != 0 && (ady == 0 || ax * ady <= ay * adx)
}

/// The grid march. From cell `(cx, cy)`, with `ax` and `ay` the distances
/// (along x and y) to the next vertical and horizontal lines, the ray crosses
/// at most `fuel` lines, moving one cell by `sx` or `sy` at each. The result
/// is the first wall cell entered, with the crossing time as `num / den` and
/// whether the line crossed was vertical; `None` if the fuel runs out first.
pub open spec fn march(
    m: &GridMap,
    sx: int,
    sy: int,
    adx: int,
    ady: int,
    cx: int,
    cy: int,
    ax: int,
    ay: int,
    fuel: nat,
) -> Option<(int, int, int, int, bool)>
    decreases fuel,
{
    if fuel == 0 {
        None
    } else if steps_along_x(ax, ay, adx, ady) {
        if m.wall_at(cx + sx, cy) {
            Some((cx + sx, cy, ax, adx, true))
        } else {
            march(m, sx, sy, adx, ady, cx + sx, cy, ax + m.cell_span(), ay, (fuel - 1) as nat)
        }
    } else {
        if m.wall_at(cx, cy + sy) {
            Some((cx, cy + sy, ay, ady, false))
        } else {
            march(m, sx, sy, adx, ady, cx, cy + sy, ax, ay + m.cell_span(), (fuel - 1) as nat)
        }
    }
}

pub open spec fn sign(d: int) -> int {
    if d > 0 { 1 } else if d < 0 { -1 } else { 0 }
}

pub open spec fn abs(d: int) -> int {
    if d < 0 { -d } else { d }
}

/// Distance along one axis from `p` to the next grid line in direction `d`.
pub open spec fn first_gap(m: &GridMap, p: int, d: int) -> int {
    if d > 0 {
        (m.cell_index(p) + 1) * m.cell_span() - p
    } else {
        p - m.cell_index(p) * m.cell_span()
    }
}

/// The ray from fixed-point `(px, py)` along direction `(dx, dy)`, as
/// measured along that direction (a direction of length `ONE` measures in
/// fixed-point world units).
pub open spec fn cast_spec(m: &GridMap, px: int, py: int, dx: int, dy: int, c: CastConfig) -> RayHit {
    if dx == 0 && dy == 0 {
        miss(c)
    } else {
        match march(
            m, sign(dx), sign(dy), abs(dx), abs(dy),
            m.cell_index(px), m.cell_index(py),
            first_gap(m, px, dx), first_gap(m, py, dy), c.max_steps as nat,
        ) {
            None => miss(c),
            Some((cx, cy, num, den, vertical)) => {
                let d = num * ONE / den;
                if d > c.max_distance {
                    miss(c)
                } else {
                    RayHit {
                        distance: d as i64,
                        surface: m.cell_at(cx, cy),
                        axis: if vertical { HitAxis::Vertical } else { HitAxis::Horizontal },
                    }
                }
            },
        }
    }
}

/// Bound on cell indices met while casting.
const INDEX_LIMIT: i64 = 0x4_0000_0000_0000;

/// The cell index of `p` and the gap from `p` to the next grid line in
/// direction `d`.
fn start_of(m: &GridMap, p: i64, d: i32) -> (r: (i64, i64))
    requires
        -POS_LIMIT <= p <= POS_LIMIT,
    ensures
        r.0 == m.cell_index(p as int),
        r.1 == first_gap(m, p as int, d as int),
        0 <= r.1 <= m.cell_span(),
        -INDEX_LIMIT <= r.0 <= INDEX_LIMIT,
{
    let span: i64 = m.cell_size() as i64 * ONE;
    let q = m.cell_index_of(p);
    proof {
        lemma_fundamental_div_mod(p as int, span as int);
        let r0 = p as int % span as int;
        assert(-INDEX_LIMIT <= q <= INDEX_LIMIT) by (nonlinear_arith)
            requires p == span * q + r0, 0 <= r0 < span, 1 <= span, -POS_LIMIT <= p <= POS_LIMIT;
        assert(q * span == span * q) by (nonlinear_arith);
    }
    let rem: i64 = p - q * span;
    if d > 0 {
        proof {
            assert((q + 1) * span == q * span + span) by (nonlinear_arith);
        }
        (q, span - rem)
    } else {
        (q, rem)
    }
}

/// A ray hit at crossing time `num / den`, unless that lies beyond range.
fn hit_at(m: &GridMap, cx: i64, cy: i64, num: i64, den: i64, vertical: bool, c: &CastConfig) -> (r: RayHit)
    requires
        c.wf(),
        0 <= num <= 0x400_0000_0000,
        1 <= den,
    ensures
        r == ({
            let d = num * ONE / den as int;
            if d > c.max_distance {
                miss(*c)
            } else {
                RayHit {
                    distance: d as i64,
                    surface: m.cell_at(cx as int, cy as int),
                    axis: if vertical { HitAxis::Vertical } else { HitAxis::Horizontal },
                }
            }
        }),
        0 <= r.distance <= c.max_distance,
{
    let d: i64 = num * ONE / den;
    proof {
        assert(0 <= num * ONE / den as int <= num * ONE) by (nonlinear_arith)
            requires 0 <= num, 1 <= den;
    }
    if d > c.max_distance {
        RayHit { distance: c.max_distance, surface: EMPTY, axis: HitAxis::Miss }
    } else {
        RayHit {
            distance: d,
            surface: m.cell(cx, cy),
            axis: if vertical { HitAxis::Vertical } else { HitAxis::Horizontal },
        }
    }
}

/// Casts one ray from the fixed-point point `(px, py)` along `(dx, dy)`
/// with a grid march, as `cast_spec` describes: a zero direction, no wall
/// within `max_steps` lines, or a wall beyond `max_distance` is a miss.
pub fn cast_ray(m: &GridMap, px: i64, py: i64, dx: i32, dy: i32, c: &CastConfig) -> (r: RayHit)
    requires
        -POS_LIMIT <= px <= POS_LIMIT,
        -POS_LIMIT <= py <= POS_LIMIT,
        -ONE <= dx <= ONE,
        -ONE <= dy <= ONE,
        c.wf(),
    ensures
        r == cast_spec(m, px as int, py as int, dx as int, dy as int, *c),
        0 <= r.distance <= c.max_distance,
{
    if dx == 0 && dy == 0 {
        return RayHit { distance: c.max_distance, surface: EMPTY, axis: HitAxis::Miss };
    }
    let cs = m.cell_size();
    let span: i64 = cs as i64 * ONE;
    proof {
        assert(1 <= span <= MAX_CELL_SIZE * ONE) by (nonlinear_arith)
            requires span == cs * ONE, 1 <= cs <= MAX_CELL_SIZE;
    }
    let sx: i64 = if dx > 0 { 1 } else if dx < 0 { -1 } else { 0 };
    let sy: i64 = if dy > 0 { 1 } else if dy < 0 { -1 } else { 0 };
    let adx: i64 = if dx < 0 { -(dx as i64) } else { dx as i64 };
    let ady: i64 = if dy < 0 { -(dy as i64) } else { dy as i64 };
    let (mut cx, mut ax) = start_of(m, px, dx);
    let (mut cy, mut ay) = start_of(m, py, dy);
    let ghost start = march(m, sx as int, sy as int, adx as int, ady as int, cx as int, cy as int,
        ax as int, ay as int, c.max_steps as nat);
    assert(sx == sign(dx as int) && sy == sign(dy as int));
    assert(adx == abs(dx as int) && ady == abs(dy as int));
    assert(start == march(m, sign(dx as int), sign(dy as int), abs(dx as int), abs(dy as int),
        m.cell_index(px as int), m.cell_index(py as int), first_gap(m, px as int, dx as int),
        first_gap(m, py as int, dy as int), c.max_steps as nat));
    let mut k: u32 = 0;
    while k < c.max_steps
        invariant
            c.wf(),
            !(dx == 0 && dy == 0),
            adx + ady >= 1,
            start == march(m, sign(dx as int), sign(dy as int), abs(dx as int), abs(dy as int),
                m.cell_index(px as int), m.cell_index(py as int), first_gap(m, px as int, dx as int),
                first_gap(m, py as int, dy as int), c.max_steps as nat),
            span == m.cell_span(),
            1 <= span <= MAX_CELL_SIZE * ONE,
            0 <= adx <= ONE,
            0 <= ady <= ONE,
            -1 <= sx <= 1,
            -1 <= sy <= 1,
            0 <= k <= c.max_steps,
            0 <= ax <= span * (k + 1),
            0 <= ay <= span * (k + 1),
            -INDEX_LIMIT - k <= cx <= INDEX_LIMIT + k,
            -INDEX_LIMIT - k <= cy <= INDEX_LIMIT + k,
            start == march(m, sx as int, sy as int, adx as int, ady as int, cx as int, cy as int,
                ax as int, ay as int, (c.max_steps - k) as nat),
        decreases c.max_steps - k,
    {
        proof {
            assert(span * (k + 1) <= 0x200_1000_0000) by (nonlinear_arith)
                requires 1 <= span <= MAX_CELL_SIZE * ONE, k < MAX_STEPS;
            assert(ax * ady <= 0x200_1000_0000 * ONE) by (nonlinear_arith)
                requires 0 <= ax <= 0x200_1000_0000, 0 <= ady <= ONE;
            assert(ay * adx <= 0x200_1000_0000 * ONE) by (nonlinear_arith)
                requires 0 <= ay <= 0x200_1000_0000, 0 <= adx <= ONE;
            assert(0 <= ax * ady && 0 <= ay * adx) by (nonlinear_arith)
                requires 0 <= ax, 0 <= ay, 0 <= adx, 0 <= ady;
            assert(span * (k + 2) == span * (k + 1) + span) by (nonlinear_arith);
        }
        if adx != 0 && (ady == 0 || ax * ady <= ay * adx) {
            if m.is_wall(cx + sx, cy) {
                assert(start == Some((cx + sx, cy as int, ax as int, adx as int, true)));
                return hit_at(m, cx + sx, cy, ax, adx, true, c);
            }
            cx = cx + sx;
            ax = ax + span;
        } else {
            if m.is_wall(cx, cy + sy) {
                assert(start == Some((cx as int, cy + sy, ay as int, ady as int, false)));
                return hit_at(m, cx, cy + sy, ay, ady, false, c);
            }
            cy = cy + sy;
            ay = ay + span;
        }
        k = k + 1;
    }
    RayHit { distance: c.max_distance, surface: EMPTY, axis: HitAxis::Miss }
}

/// The view angle of column `col` relative to the yaw: the leftmost column
/// looks `half_fov` degrees left and the rightmost `half_fov` degrees right.
pub open spec fn column_offset(col: int, width: int, half_fov: int) -> int {
    if width <= 1 {
        0
    } else {
        -half_fov + (col * 2 * half_fov) / (width - 1)
    }
}

/// The perpendicular distance of a ray of length `raw` whose angle from the
/// view centre has cosine `cos` (negative cosines count as zero).
pub open spec fn corrected(raw: int, cos: int) -> int {
    raw * (if cos < 0 { 0 } else { cos }) / (ONE as int)
}

/// What column `col` of `width` sees: the ray at `yaw + offset`, its length
/// corrected to the perpendicular distance. A miss is reported as is.
pub open spec fn column_hit(t: &TrigTable, m: &GridMap, p: PlayerState, c: CastConfig, col: int, width: int) -> RayHit {
    let off = column_offset(col, width, c.half_fov as int);
    let a = norm_deg(p.yaw@ + off);
    let raw = cast_spec(m, p.pos.x as int, p.pos.y as int, t.sin_seq()[a] as int, t.cos_seq()[a] as int, c);
    if raw.axis == HitAxis::Miss {
        raw
    } else {
        RayHit {
            distance: corrected(raw.distance as int, t.cos_seq()[norm_deg(off)] as int) as i64,
            surface: raw.surface,
            axis: raw.axis,
        }
    }
}

/// The offset of column `col`, in degrees.
fn offset_of(col: u32, width: u32, half_fov: u32) -> (r: i64)
    requires
        col < width <= MAX_COLUMNS,
        half_fov <= MAX_HALF_FOV,
    ensures
        r == column_offset(col as int, width as int, half_fov as int),
        -(MAX_HALF_FOV as int) <= r <= MAX_HALF_FOV,
{
    if width <= 1 {
        0
    } else {
        let h = half_fov as i64;
        proof {
            assert(0 <= col * 2 * h <= 8192 * 2 * 89) by (nonlinear_arith)
                requires col < 8192, 0 <= h <= 89;
            assert(col * 2 * h / (width - 1) <= 2 * h) by (nonlinear_arith)
                requires col <= width - 1, 0 <= h, width >= 2;
            assert(col * 2 * h / (width - 1) >= 0) by (nonlinear_arith)
                requires col >= 0, 0 <= h, width >= 2;
        }
        -h + (col as i64 * 2 * h) / (width as i64 - 1)
    }
}

/// Casts the ray of screen column `col` out of `width`, with fisheye
/// correction: a hit's distance is the ray length times the cosine of the
/// column's offset, so flat walls stay flat.
pub fn cast_column(t: &TrigTable, m: &GridMap, p: &PlayerState, c: &CastConfig, col: u32, width: u32) -> (r: RayHit)
    requires
        p.wf(),
        c.wf(),
        col < width <= MAX_COLUMNS,
    ensures
        r == column_hit(t, m, *p, *c, col as int, width as int),
        0 <= r.distance <= c.max_distance,
{
    let off = offset_of(col, width, c.half_fov);
    let a = p.yaw.add_degrees(off);
    let raw = cast_ray(m, p.pos.x, p.pos.y, t.sin(a), t.cos(a), c);
    if raw.axis == HitAxis::Miss {
        return raw;
    }
    let co = t.cos(Angle::from_degrees(off));
    let cf: i64 = if co < 0 { 0 } else { co as i64 };
    proof {
        assert(0 <= raw.distance * cf <= MAX_RANGE * ONE) by (nonlinear_arith)
            requires 0 <= raw.distance <= MAX_RANGE, 0 <= cf <= ONE;
        assert(raw.distance * cf / (ONE as int) <= raw.distance) by (nonlinear_arith)
            requires 0 <= raw.distance, 0 <= cf <= ONE;
    }
    RayHit { distance: raw.distance * cf / ONE, surface: raw.surface, axis: raw.axis }
}

/// Casts every column of a screen `width` columns wide, left to right.
/// The result depends on its arguments alone.
pub fn cast_all(t: &TrigTable, m: &GridMap, p: &PlayerState, c: &CastConfig, width: u32) -> (r: Vec<RayHit>)
    requires
        p.wf(),
        c.wf(),
        width <= MAX_COLUMNS,
    ensures
        r@.len() == width,
        forall|i: int| 0 <= i < width ==> #[trigger] r@[i] == column_hit(t, m, *p, *c, i, width as int),
        forall|i: int| 0 <= i < width ==> 0 <= #[trigger] r@[i].distance <= c.max_distance,
{
    let mut out: Vec<RayHit> = Vec::new();
    let mut col: u32 = 0;
    while col < width
        invariant
            col <= width <= MAX_COLUMNS,
            p.wf(),
            c.wf(),
            out@.len() == col,
            forall|i: int| 0 <= i < col ==> #[trigger] out@[i] == column_hit(t, m, *p, *c, i, width as int),
            forall|i: int| 0 <= i < col ==> 0 <= #[trigger] out@[i].distance <= c.max_distance,
        decreases width - col,
    {
        out.push(cast_column(t, m, p, c, col, width));
        col = col + 1;
    }
    out
}

/// Fisheye correction never lengthens a ray. It keeps the length of the
/// centre ray, whose cosine is `ONE`, and strictly shortens any ray of
/// positive length off the centre, where the cosine is below `ONE`.
pub proof fn lemma_fisheye_correction(raw: int, cos: int)
    requires
        0 <= raw,
        cos <= ONE,
    ensures
        0 <= corrected(raw, cos) <= raw,
        cos == ONE ==> corrected(raw, cos) == raw,
        raw > 0 && cos < ONE ==> corrected(raw, cos) < raw,
{
    let cf = if cos < 0 { 0 } else { cos };
    assert(0 <= raw * cf / (ONE as int) <= raw) by (nonlinear_arith)
        requires 0 <= raw, 0 <= cf <= ONE;
    if raw > 0 && cos < ONE {
        assert(raw * cf / (ONE as int) < raw) by (nonlinear_arith)
            requires 0 < raw, 0 <= cf < ONE;
    }
    if cos == ONE {
        vstd::arithmetic::div_mod::lemma_div_multiples_vanish(raw, ONE as int);
        assert(raw * cf == ONE * raw) by (nonlinear_arith)
            requires cf == ONE;
    }
}

/// On a screen of odd width, the middle column looks straight along the yaw.
pub proof fn lemma_centre_column(width: int, half_fov: int)
    requires
        width >= 1,
        width % 2 == 1,
        0 <= half_fov,
    ensures
        column_offset((width - 1) / 2, width, half_fov) == 0,
{
    if width > 1 {
        let k = (width - 1) / 2;
        assert(width - 1 == 2 * k);
        assert(k * 2 * half_fov == half_fov * (width - 1)) by (nonlinear_arith)
            requires width - 1 == 2 * k;
        vstd::arithmetic::div_mod::lemma_div_multiples_vanish(half_fov, width - 1);
        assert(half_fov * (width - 1) == (width - 1) * half_fov) by (nonlinear_arith);
    }
}

/// Ray casting is deterministic: two passes over all columns with the same
/// table, map, player and settings give the same hits.
pub proof fn lemma_columns_deterministic(
    t: &TrigTable,
    m: &GridMap,
    p: PlayerState,
    c: CastConfig,
    width: int,
    first: Seq<RayHit>,
    second: Seq<RayHit>,
)
    requires
        first.len() == width,
        second.len() == width,
        forall|i: int| 0 <= i < width ==> #[trigger] first[i] == column_hit(t, m, p, c, i, width),
        forall|i: int| 0 <= i < width ==> #[trigger] second[i] == column_hit(t, m, p, c, i, width),
    ensures
        first == second,
{
    assert(first =~= second);
}

proof fn lemma_march_north(m: &GridMap, px: int, py: int, cx: int, cy: int, ax: int, ay: int, fuel: nat)
    requires
        m.cell_span() >= 1,
        ay == (cy + 1) * m.cell_span() - py,
        ay >= 0,
    ensures
        march(m, 0, 1, 0, ONE as int, cx, cy, ax, ay, fuel) matches Some((hx, hy, num, den, vertical)) ==> {
            &&& hx == cx
            &&& num == hy * m.cell_span() - py
            &&& num >= 0
            &&& den == ONE
            &&& !vertical
            &&& m.wall_at(cx, hy)
        },
    decreases fuel,
{
    if fuel > 0 && !m.wall_at(cx, cy + 1) {
        assert((cy + 2) * m.cell_span() == (cy + 1) * m.cell_span() + m.cell_span()) by (nonlinear_arith);
        lemma_march_north(m, px, py, cx, cy + 1, ax, ay + m.cell_span(), (fuel - 1) as nat);
    }
}

/// A ray cast straight along +y (direction `(0, ONE)`, yaw 0 in an exact
/// table) that hits a wall ends exactly on the horizontal grid line in
/// front of that wall: its distance is the straight-line distance from the
/// origin to the wall's face.
pub proof fn lemma_head_on_distance(m: &GridMap, px: int, py: int, c: CastConfig)
    requires
        m.cell_span() >= 1,
    ensures
        ({
            let r = cast_spec(m, px, py, 0, ONE as int, c);
            r.axis != HitAxis::Miss ==> {
                &&& r.axis == HitAxis::Horizontal
                &&& (py + r.distance) % m.cell_span() == 0
                &&& m.wall_at(m.cell_index(px), (py + r.distance) / m.cell_span())
            }
        }),
{
    let span = m.cell_span();
    let cy = m.cell_index(py);
    lemma_fundamental_div_mod(py, span);
    assert((cy + 1) * span - py == span - py % span) by (nonlinear_arith)
        requires py == span * cy + py % span;
    lemma_march_north(m, px, py, m.cell_index(px), cy, first_gap(m, px, 0), first_gap(m, py, ONE as int),
        c.max_steps as nat);
    let r = cast_spec(m, px, py, 0, ONE as int, c);
    match march(m, 0, 1, 0, ONE as int, m.cell_index(px), cy, first_gap(m, px, 0),
        first_gap(m, py, ONE as int), c.max_steps as nat) {
        Some((hx, hy, num, den, vertical)) => {
            vstd::arithmetic::div_mod::lemma_div_multiples_vanish(num, ONE as int);
            assert(num * ONE == ONE * num) by (nonlinear_arith);
            if r.axis != HitAxis::Miss {
                assert(py + r.distance == hy * span);
                vstd::arithmetic::div_mod::lemma_fundamental_div_mod_converse(py + r.distance, span, hy, 0);
            }
        },
        None => {},
    }
}

/// On a screen of odd width, and with the table's cosine of 0 degrees
/// exactly `ONE`, the middle column reports the ray along the yaw itself:
/// there the corrected distance is the uncorrected ray length.
pub proof fn lemma_centre_column_uncorrected(t: &TrigTable, m: &GridMap, p: PlayerState, c: CastConfig, width: int)
    requires
        width >= 1,
        width % 2 == 1,
        t.cos_seq()[0] == ONE,
    ensures
        column_hit(t, m, p, c, (width - 1) / 2, width) == cast_spec(
            m, p.pos.x as int, p.pos.y as int,
            t.sin_seq()[norm_deg(p.yaw@)] as int, t.cos_seq()[norm_deg(p.yaw@)] as int, c),
{
    lemma_centre_column(width, c.half_fov as int);
    let raw = cast_spec(m, p.pos.x as int, p.pos.y as int,
        t.sin_seq()[norm_deg(p.yaw@)] as int, t.cos_seq()[norm_deg(p.yaw@)] as int, c);
    let d = raw.distance as int;
    vstd::arithmetic::div_mod::lemma_div_multiples_vanish(d, ONE as int);
    assert(d * ONE == ONE * d) by (nonlinear_arith);
    assert(corrected(d, ONE as int) == d);
}

} // verus!
