use vstd::prelude::*;
use crate::angle::{Angle, norm_deg};
use crate::trig::{TrigTable, ONE};
use crate::grid::{GridMap, MAX_GRID_DIM, MAX_CELL_SIZE};
use vstd::arithmetic::div_mod::{lemma_fundamental_div_mod, lemma_add_mod_noop_right, lemma_sub_mod_noop_right, lemma_mod_add_multiples_vanish};

verus! {

/// Tilt is kept within `[-MAX_TILT, MAX_TILT]` degrees.
pub const MAX_TILT: i32 = 45;

/// Bound on the magnitude of every fixed-point coordinate of a player.
pub const POS_LIMIT: i64 = 0x1_0000_0000_0000;

/// Largest speed, in world units per tick.
pub const MAX_SPEED: u32 = 1024;

/// Largest turn or tilt rate, in degrees per tick.
pub const MAX_RATE: u32 = 360;

/// A point in fixed point: `x`, `y` on the map plane, `z` the eye height.
#[derive(Clone, Copy, Debug, PartialEq, Eq)]
pub struct Position {
    pub x: i64,
    pub y: i64,
    pub z: i64,
}

/// Where the player stands and where it looks.
#[derive(Clone, Copy, Debug, PartialEq, Eq)]
pub struct PlayerState {
    pub pos: Position,
    pub yaw: Angle,
    pub tilt: i32,
}

impl PlayerState {
    /// Coordinates within `POS_LIMIT` and tilt within its bounds.
    pub open spec fn wf(&self) -> bool {
        &&& -POS_LIMIT <= self.pos.x <= POS_LIMIT
        &&& -POS_LIMIT <= self.pos.y <= POS_LIMIT
        &&& -POS_LIMIT <= self.pos.z <= POS_LIMIT
        &&& -MAX_TILT <= self.tilt <= MAX_TILT
    }
}

/// The movement and look actions held during a tick.
///
/// Opposite actions held together are all applied and their contributions
/// summed: forward and backward at equal speeds cancel out, as do turning
/// left and right, looking up and down, or strafing both ways.
#[derive(Clone, Copy, Debug, PartialEq, Eq, Default)]
pub struct InputState {
    pub forward: bool,
    pub backward: bool,
    pub strafe_left: bool,
    pub strafe_right: bool,
    pub turn_left: bool,
    pub turn_right: bool,
    pub look_up: bool,
    pub look_down: bool,
}

/// Rates of the motion integrator, per tick of elapsed time.
#[derive(Clone, Copy, Debug, PartialEq, Eq)]
pub struct MotionConfig {
    /// Degrees of yaw per tick.
    pub turn_rate: u32,
    /// Degrees of tilt per tick.
    pub tilt_rate: u32,
    /// World units per tick moving forward.
    pub forward_speed: u32,
    /// World units per tick moving backward.
    pub backward_speed: u32,
    /// World units per tick strafing.
    pub strafe_speed: u32,
}

impl MotionConfig {
    pub open spec fn wf(&self) -> bool {
        &&& self.turn_rate <= MAX_RATE
        &&& self.tilt_rate <= MAX_RATE
        &&& self.forward_speed <= MAX_SPEED
        &&& self.backward_speed <= MAX_SPEED
        &&& self.strafe_speed <= MAX_SPEED
    }
}

/// `v` when only `pos` is held, `-v` when only `neg` is, else zero.
pub open spec fn signed(pos: bool, neg: bool, v: int) -> int {
    if pos && !neg { v } else if neg && !pos { -v } else { 0 }
}

/// Yaw after `dt` ticks: right turns add, left turns subtract, wrapped.
pub open spec fn yaw_after(yaw: int, i: InputState, c: MotionConfig, dt: int) -> int {
    norm_deg(yaw + signed(i.turn_right, i.turn_left, c.turn_rate * dt))
}

pub open spec fn clamp_tilt(t: int) -> int {
    if t < -MAX_TILT { -MAX_TILT as int } else if t > MAX_TILT { MAX_TILT as int } else { t }
}

/// Tilt after `dt` ticks, clamped (never wrapped).
pub open spec fn tilt_after(tilt: int, i: InputState, c: MotionConfig, dt: int) -> int {
    clamp_tilt(tilt + signed(i.look_up, i.look_down, c.tilt_rate * dt))
}

/// Signed speed along the view direction.
pub open spec fn ahead_speed(i: InputState, c: MotionConfig) -> int {
    (if i.forward { c.forward_speed as int } else { 0 }) - (if i.backward { c.backward_speed as int } else { 0 })
}

/// Signed speed to the right of the view direction.
pub open spec fn side_speed(i: InputState, c: MotionConfig) -> int {
    signed(i.strafe_right, i.strafe_left, c.strafe_speed as int)
}

/// Candidate displacement along x, in fixed point, for a player facing
/// `yaw`: the view direction is `(sin, cos)` of the yaw, and strafing uses
/// the direction turned by 90 degrees.
pub open spec fn step_x(t: &TrigTable, yaw: int, i: InputState, c: MotionConfig, dt: int) -> int {
    (ahead_speed(i, c) * t.sin_seq()[yaw] + side_speed(i, c) * t.sin_seq()[norm_deg(yaw + 90)]) * dt
}

/// Candidate displacement along y, in fixed point.
pub open spec fn step_y(t: &TrigTable, yaw: int, i: InputState, c: MotionConfig, dt: int) -> int {
    (ahead_speed(i, c) * t.cos_seq()[yaw] + side_speed(i, c) * t.cos_seq()[norm_deg(yaw + 90)]) * dt
}

/// x after collision: the move along x is dropped when it would enter a wall.
pub open spec fn resolved_x(m: &GridMap, x: int, y: int, dx: int) -> int {
    if m.blocked(x + dx, y) { x } else { x + dx }
}

/// y after collision, tested at the already resolved x.
pub open spec fn resolved_y(m: &GridMap, x1: int, y: int, dy: int) -> int {
    if m.blocked(x1, y + dy) { y } else { y + dy }
}

proof fn lemma_abs_mul(a: int, b: int, ba: int, bb: int)
    requires
        -ba <= a <= ba,
        -bb <= b <= bb,
    ensures
        -(ba * bb) <= a * b <= ba * bb,
{
    assert(-(ba * bb) <= a * b <= ba * bb) by (nonlinear_arith)
        requires -ba <= a <= ba, -bb <= b <= bb;
}

/// A coordinate whose cell index lies inside the map is within `[0, 2^40)`.
proof fn lemma_inside_is_small(p: int, span: int, q: int, dim: int)
    requires
        1 <= span <= MAX_CELL_SIZE * ONE,
        1 <= dim <= MAX_GRID_DIM,
        q == p / span,
        0 <= q < dim,
    ensures
        0 <= p < 0x100_0000_0000,
{
    lemma_fundamental_div_mod(p, span);
    let r = p % span;
    assert(0 <= p < 0x100_0000_0000) by (nonlinear_arith)
        requires p == span * q + r, 0 <= r < span, 0 <= q < dim, 1 <= span <= 4096 * 65536, dim <= 4096;
}

/// The yaw after `dt` ticks of `input`.
fn turned(yaw: Angle, input: &InputState, c: &MotionConfig, dt: u16) -> (r: Angle)
    requires
        c.wf(),
    ensures
        r@ == yaw_after(yaw@, *input, *c, dt as int),
{
    proof {
        lemma_abs_mul(c.turn_rate as int, dt as int, 360, 65535);
    }
    let amount: i64 = c.turn_rate as i64 * dt as i64;
    let delta: i64 = if input.turn_right && !input.turn_left {
        amount
    } else if input.turn_left && !input.turn_right {
        -amount
    } else {
        0
    };
    yaw.add_degrees(delta)
}

/// The tilt after `dt` ticks of `input`, clamped.
fn tilted(tilt: i32, input: &InputState, c: &MotionConfig, dt: u16) -> (r: i32)
    requires
        c.wf(),
        -MAX_TILT <= tilt <= MAX_TILT,
    ensures
        r == tilt_after(tilt as int, *input, *c, dt as int),
        -MAX_TILT <= r <= MAX_TILT,
{
    proof {
        lemma_abs_mul(c.tilt_rate as int, dt as int, 360, 65535);
    }
    let amount: i64 = c.tilt_rate as i64 * dt as i64;
    let delta: i64 = if input.look_up && !input.look_down {
        amount
    } else if input.look_down && !input.look_up {
        -amount
    } else {
        0
    };
    let t: i64 = tilt as i64 + delta;
    if t < -(MAX_TILT as i64) {
        -MAX_TILT
    } else if t > MAX_TILT as i64 {
        MAX_TILT
    } else {
        t as i32
    }
}

/// Bound on one candidate displacement.
pub const MAX_STEP: i64 = 0x1000_0000_0000;

/// The candidate displacement `(dx, dy)` for `dt` ticks of `input`.
fn displacement(table: &TrigTable, yaw: Angle, input: &InputState, c: &MotionConfig, dt: u16) -> (r: (i64, i64))
    requires
        c.wf(),
    ensures
        r.0 == step_x(table, yaw@, *input, *c, dt as int),
        r.1 == step_y(table, yaw@, *input, *c, dt as int),
        -MAX_STEP <= r.0 <= MAX_STEP,
        -MAX_STEP <= r.1 <= MAX_STEP,
{
    let ahead: i64 = (if input.forward { c.forward_speed as i64 } else { 0 })
        - (if input.backward { c.backward_speed as i64 } else { 0 });
    let side: i64 = if input.strafe_right && !input.strafe_left {
        c.strafe_speed as i64
    } else if input.strafe_left && !input.strafe_right {
        -(c.strafe_speed as i64)
    } else {
        0
    };
    assert(ahead == ahead_speed(*input, *c));
    assert(side == side_speed(*input, *c));
    let right = yaw.add_degrees(90);
    let s0 = table.sin(yaw) as i64;
    let s1 = table.sin(right) as i64;
    let c0 = table.cos(yaw) as i64;
    let c1 = table.cos(right) as i64;
    let dti = dt as i64;
    proof {
        lemma_abs_mul(ahead as int, s0 as int, 1024, 65536);
        lemma_abs_mul(side as int, s1 as int, 1024, 65536);
        lemma_abs_mul(ahead as int, c0 as int, 1024, 65536);
        lemma_abs_mul(side as int, c1 as int, 1024, 65536);
        lemma_abs_mul(ahead * s0 + side * s1, dti as int, 0x800_0000, 65536);
        lemma_abs_mul(ahead * c0 + side * c1, dti as int, 0x800_0000, 65536);
    }
    ((ahead * s0 + side * s1) * dti, (ahead * c0 + side * c1) * dti)
}

/// `r` is `s` after `dt` ticks of `input`: yaw and tilt as `yaw_after` and
/// `tilt_after` say, then the move along the new yaw resolved per axis.
pub open spec fn integrated(
    s: PlayerState,
    r: PlayerState,
    input: InputState,
    c: MotionConfig,
    dt: int,
    table: &TrigTable,
    m: &GridMap,
) -> bool {
    &&& r.yaw@ == yaw_after(s.yaw@, input, c, dt)
    &&& r.tilt == tilt_after(s.tilt as int, input, c, dt)
    &&& r.pos.x == resolved_x(m, s.pos.x as int, s.pos.y as int, step_x(table, r.yaw@, input, c, dt))
    &&& r.pos.y == resolved_y(m, r.pos.x as int, s.pos.y as int, step_y(table, r.yaw@, input, c, dt))
    &&& r.pos.z == s.pos.z
}

/// Moves the player by `dt` ticks of `input`.
///
/// Turning happens first, and the move uses the new yaw. The candidate move
/// is resolved per axis, x then y: an axis whose candidate cell is a wall
/// keeps its coordinate, so the player slides along walls. A player that
/// starts in an empty cell ends in an empty cell.
pub fn integrate(
    s: &PlayerState,
    input: &InputState,
    c: &MotionConfig,
    dt: u16,
    table: &TrigTable,
    m: &GridMap,
) -> (r: PlayerState)
    requires
        s.wf(),
        c.wf(),
    ensures
        r.wf(),
        integrated(*s, r, *input, *c, dt as int, table, m),
        !m.blocked(s.pos.x as int, s.pos.y as int) ==> !m.blocked(r.pos.x as int, r.pos.y as int),
{
    let yaw = turned(s.yaw, input, c, dt);
    let tilt = tilted(s.tilt, input, c, dt);
    let (dx, dy) = displacement(table, yaw, input, c, dt);
    let cs = m.cell_size();
    let w = m.width();
    let h = m.height();
    let x0 = s.pos.x;
    let y0 = s.pos.y;
    let cy0 = m.cell_index_of(y0);
    let x1: i64 = if m.is_wall(m.cell_index_of(x0 + dx), cy0) { x0 } else { x0 + dx };
    let cx1 = m.cell_index_of(x1);
    let y1: i64 = if m.is_wall(cx1, m.cell_index_of(y0 + dy)) { y0 } else { y0 + dy };
    proof {
        let span = m.cell_span();
        assert(1 <= span <= MAX_CELL_SIZE * ONE) by (nonlinear_arith)
            requires span == cs * ONE, 1 <= cs <= MAX_CELL_SIZE;
        if x1 != x0 {
            lemma_inside_is_small(x1 as int, span, m.cell_index(x1 as int), w as int);
        }
        if y1 != y0 {
            lemma_inside_is_small(y1 as int, span, m.cell_index(y1 as int), h as int);
        }
    }
    PlayerState { pos: Position { x: x1, y: y1, z: s.pos.z }, yaw, tilt }
}

/// The input that holds only turn-left.
pub open spec fn turn_left_only() -> InputState {
    InputState {
        forward: false,
        backward: false,
        strafe_left: false,
        strafe_right: false,
        turn_left: true,
        turn_right: false,
        look_up: false,
        look_down: false,
    }
}

/// Yaw after `n` ticks of one tick each, all with input `i`, from `yaw`.
pub open spec fn yaw_after_ticks(yaw: int, i: InputState, c: MotionConfig, n: nat) -> int
    decreases n,
{
    if n == 0 {
        yaw
    } else {
        yaw_after(yaw_after_ticks(yaw, i, c, (n - 1) as nat), i, c, 1)
    }
}

/// Turning left for `n` ticks from yaw 0 at `turn_rate` degrees per tick
/// leaves the yaw at `(360 - (turn_rate * n) mod 360) mod 360`.
pub proof fn lemma_turn_left_ticks(c: MotionConfig, n: nat)
    requires
        c.wf(),
    ensures
        yaw_after_ticks(0, turn_left_only(), c, n) == (360 - (c.turn_rate * n) % 360) % 360,
    decreases n,
{
    lemma_turn_left_wraps(c, n);
    let k = c.turn_rate * n;
    lemma_sub_mod_noop_right(360, k, 360);
    lemma_mod_add_multiples_vanish(-k, 360);
}

proof fn lemma_turn_left_wraps(c: MotionConfig, n: nat)
    ensures
        yaw_after_ticks(0, turn_left_only(), c, n) == (-(c.turn_rate * n)) % 360,
    decreases n,
{
    if n > 0 {
        lemma_turn_left_wraps(c, (n - 1) as nat);
        let x = -(c.turn_rate * (n - 1));
        let y = -(c.turn_rate as int);
        lemma_add_mod_noop_right(y, x, 360);
        assert(x + y == -(c.turn_rate * n)) by (nonlinear_arith)
            requires x == -(c.turn_rate * (n - 1)), y == -(c.turn_rate as int);
        let prev = yaw_after_ticks(0, turn_left_only(), c, (n - 1) as nat);
        assert(prev == x % 360);
        assert(c.turn_rate * 1 == c.turn_rate);
        assert(yaw_after_ticks(0, turn_left_only(), c, n) == (prev + y) % 360);
        assert(prev + y == y + x % 360);
    } else {
        assert(c.turn_rate * n == 0) by (nonlinear_arith)
            requires n == 0;
    }
}

/// Moving into a wall along x keeps x while the move along y still applies
/// when its cell is free: the player slides along the wall.
pub proof fn lemma_slide_along_wall(
    s: PlayerState,
    r: PlayerState,
    input: InputState,
    c: MotionConfig,
    dt: int,
    table: &TrigTable,
    m: &GridMap,
)
    requires
        integrated(s, r, input, c, dt, table, m),
        m.blocked(s.pos.x + step_x(table, r.yaw@, input, c, dt), s.pos.y as int),
        !m.blocked(s.pos.x as int, s.pos.y + step_y(table, r.yaw@, input, c, dt)),
    ensures
        r.pos.x == s.pos.x,
        r.pos.y == s.pos.y + step_y(table, r.yaw@, input, c, dt),
{
}

/// The same with the axes swapped: moving into a wall along y keeps y while
/// the move along x applies when its cell is free.
pub proof fn lemma_slide_along_wall_y(
    s: PlayerState,
    r: PlayerState,
    input: InputState,
    c: MotionConfig,
    dt: int,
    table: &TrigTable,
    m: &GridMap,
)
    requires
        integrated(s, r, input, c, dt, table, m),
        !m.blocked(s.pos.x + step_x(table, r.yaw@, input, c, dt), s.pos.y as int),
        m.blocked(s.pos.x + step_x(table, r.yaw@, input, c, dt), s.pos.y + step_y(table, r.yaw@, input, c, dt)),
    ensures
        r.pos.x == s.pos.x + step_x(table, r.yaw@, input, c, dt),
        r.pos.y == s.pos.y,
{
}

} // verus!
