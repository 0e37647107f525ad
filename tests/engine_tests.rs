use doom::angle::Angle;
use doom::engine::{ConfigError, Engine};
use doom::grid::{GridError, GridMap, BOUNDARY_SURFACE};
use doom::player::{integrate, InputState, MotionConfig, PlayerState, Position};
use doom::raycast::{cast_all, cast_column, cast_ray, CastConfig, HitAxis, RayHit};
use doom::render::{compose, screen_to_buffer, RenderConfig};
use doom::trig::{TrigTable, ONE};

fn entries() -> (Vec<i32>, Vec<i32>) {
    let mut sin = Vec::new();
    let mut cos = Vec::new();
    for d in 0..360 {
        let r = (d as f64).to_radians();
        sin.push((r.sin() * ONE as f64).round() as i32);
        cos.push((r.cos() * ONE as f64).round() as i32);
    }
    (sin, cos)
}

fn table() -> TrigTable {
    let (sin, cos) = entries();
    TrigTable::from_entries(sin, cos).unwrap()
}

/// A `size` by `size` map whose border cells are walls (surface 1).
fn ring(size: u32, cell_size: u32) -> GridMap {
    let mut cells = Vec::new();
    for y in 0..size {
        for x in 0..size {
            let border = x == 0 || y == 0 || x == size - 1 || y == size - 1;
            cells.push(if border { 1 } else { 0 });
        }
    }
    GridMap::new(size, size, cell_size, cells).unwrap()
}

fn world(v: i64) -> i64 {
    v * ONE
}

fn player_at(x: i64, y: i64, yaw: i64) -> PlayerState {
    PlayerState {
        pos: Position { x: world(x), y: world(y), z: world(20) },
        yaw: Angle::from_degrees(yaw),
        tilt: 0,
    }
}

fn motion() -> MotionConfig {
    MotionConfig { turn_rate: 4, tilt_rate: 2, forward_speed: 10, backward_speed: 5, strafe_speed: 8 }
}

fn cast_config() -> CastConfig {
    CastConfig { half_fov: 30, max_distance: world(100_000), max_steps: 256 }
}

fn render_config(width: u32, height: u32) -> RenderConfig {
    RenderConfig {
        width,
        height,
        projection: world(64) * 100,
        pitch_scale: 1,
        ceiling: 0x0000_00ff,
        floor: 0x0000_ff00,
        wall: 0x00ff_0000,
        wall_shaded: 0x0080_0000,
    }
}

#[test]
fn table_matches_trigonometry() {
    let t = table();
    for d in 0..360i64 {
        let a = Angle::from_degrees(d);
        let r = (d as f64).to_radians();
        let s = t.sin(a) as f64 / ONE as f64;
        let c = t.cos(a) as f64 / ONE as f64;
        assert!((s - r.sin()).abs() < 1e-4, "sin {}", d);
        assert!((c - r.cos()).abs() < 1e-4, "cos {}", d);
    }
    assert_eq!(t.sin(Angle::from_degrees(90)), ONE as i32);
    assert_eq!(t.cos(Angle::from_degrees(0)), ONE as i32);
    assert_eq!(t.cos(Angle::from_degrees(180)), -ONE as i32);
}

#[test]
fn table_rejects_bad_entries() {
    let (sin, cos) = entries();
    let mut short = sin.clone();
    short.pop();
    assert!(TrigTable::from_entries(short, cos.clone()).is_none());
    let mut big = cos.clone();
    big[7] = ONE as i32 + 1;
    assert!(TrigTable::from_entries(sin.clone(), big).is_none());
    assert!(TrigTable::from_entries(sin, cos).is_some());
}

#[test]
fn angle_wraps_by_full_turns() {
    for a in 0..360i64 {
        assert_eq!(Angle::from_degrees(a + 360).degrees() as i64, a);
        assert_eq!(Angle::from_degrees(a - 360).degrees() as i64, a);
    }
    assert_eq!(Angle::from_degrees(-4).degrees(), 356);
    assert_eq!(Angle::from_degrees(725).degrees(), 5);
    assert_eq!(Angle::from_degrees(358).add_degrees(4).degrees(), 2);
    assert_eq!(Angle::from_degrees(2).add_degrees(-4).degrees(), 358);
}

#[test]
fn grid_errors_and_boundary() {
    assert_eq!(GridMap::new(0, 3, 8, vec![]).unwrap_err(), GridError::ZeroDimension);
    assert_eq!(GridMap::new(5000, 1, 8, vec![0; 5000]).unwrap_err(), GridError::TooLarge);
    assert_eq!(GridMap::new(1, 1, 0, vec![0]).unwrap_err(), GridError::BadCellSize);
    assert_eq!(GridMap::new(2, 2, 8, vec![0; 3]).unwrap_err(), GridError::CellCountMismatch);
    let m = GridMap::new(2, 2, 8, vec![0, 3, 0, 0]).unwrap();
    assert!(!m.is_wall(0, 0));
    assert!(m.is_wall(1, 0));
    assert_eq!(m.cell(1, 0), 3);
    assert!(m.is_wall(-1, 0));
    assert!(m.is_wall(0, 2));
    assert_eq!(m.cell(5, 5), BOUNDARY_SURFACE);
    assert_eq!(m.cell_index_of(0), 0);
    assert_eq!(m.cell_index_of(world(8) - 1), 0);
    assert_eq!(m.cell_index_of(world(8)), 1);
    assert_eq!(m.cell_index_of(-1), -1);
    assert_eq!(m.cell_index_of(-world(8)), -1);
    assert_eq!(m.cell_index_of(-world(8) - 1), -2);
}

#[test]
fn turning_wraps_and_tilt_clamps() {
    let t = table();
    let m = ring(10, 64);
    let s = player_at(320, 320, 0);
    let left = InputState { turn_left: true, ..Default::default() };
    let r = integrate(&s, &left, &motion(), 1, &t, &m);
    assert_eq!(r.yaw.degrees(), 356);
    let right = InputState { turn_right: true, ..Default::default() };
    let r = integrate(&s, &right, &motion(), 3, &t, &m);
    assert_eq!(r.yaw.degrees(), 12);
    let both = InputState { turn_right: true, turn_left: true, ..Default::default() };
    assert_eq!(integrate(&s, &both, &motion(), 3, &t, &m).yaw.degrees(), 0);
    let up = InputState { look_up: true, ..Default::default() };
    assert_eq!(integrate(&s, &up, &motion(), 10, &t, &m).tilt, 20);
    assert_eq!(integrate(&s, &up, &motion(), 100, &t, &m).tilt, 45);
    let down = InputState { look_down: true, ..Default::default() };
    assert_eq!(integrate(&s, &down, &motion(), 100, &t, &m).tilt, -45);
}

#[test]
fn turn_left_for_n_ticks() {
    let t = table();
    let m = ring(10, 64);
    let left = InputState { turn_left: true, ..Default::default() };
    for rate in [4u32, 7, 360] {
        let c = MotionConfig { turn_rate: rate, ..motion() };
        let mut s = player_at(320, 320, 0);
        for n in 1..=200u32 {
            s = integrate(&s, &left, &c, 1, &t, &m);
            let expected = (360 - (rate * n) % 360) % 360;
            assert_eq!(s.yaw.degrees() as u32, expected);
        }
    }
}

#[test]
fn moving_forward_backward_and_strafing() {
    let t = table();
    let m = ring(10, 64);
    let s = player_at(320, 320, 0);
    let fwd = InputState { forward: true, ..Default::default() };
    let r = integrate(&s, &fwd, &motion(), 1, &t, &m);
    assert_eq!(r.pos.x, s.pos.x);
    assert_eq!(r.pos.y, s.pos.y + world(10));
    assert_eq!(r.pos.z, s.pos.z);
    let back = InputState { backward: true, ..Default::default() };
    let r = integrate(&s, &back, &motion(), 2, &t, &m);
    assert_eq!(r.pos.y, s.pos.y - world(10));
    let east = player_at(320, 320, 90);
    let r = integrate(&east, &fwd, &motion(), 1, &t, &m);
    assert_eq!(r.pos.x, east.pos.x + world(10));
    assert_eq!(r.pos.y, east.pos.y);
    let strafe = InputState { strafe_right: true, ..Default::default() };
    let r = integrate(&s, &strafe, &motion(), 1, &t, &m);
    assert_eq!(r.pos.x, s.pos.x + world(8));
    assert_eq!(r.pos.y, s.pos.y);
    let both = InputState { forward: true, backward: true, ..Default::default() };
    let r = integrate(&s, &both, &motion(), 1, &t, &m);
    assert_eq!(r.pos.y, s.pos.y + world(5));
}

#[test]
fn collision_slides_along_wall() {
    let t = table();
    let m = ring(10, 64);
    // Facing north, one unit short of the wall face at y = 576.
    let s = player_at(320, 575, 0);
    let fwd = InputState { forward: true, ..Default::default() };
    let r = integrate(&s, &fwd, &motion(), 1, &t, &m);
    assert_eq!(r.pos.y, s.pos.y);
    assert_eq!(r.pos.x, s.pos.x);
    let slide = InputState { forward: true, strafe_right: true, ..Default::default() };
    let r = integrate(&s, &slide, &motion(), 1, &t, &m);
    assert_eq!(r.pos.y, s.pos.y);
    assert_eq!(r.pos.x, s.pos.x + world(8));
    // Facing east against the wall face at x = 576, sliding north.
    let e = player_at(570, 320, 90);
    let slide = InputState { forward: true, strafe_left: true, ..Default::default() };
    let r = integrate(&e, &slide, &motion(), 1, &t, &m);
    assert_eq!(r.pos.x, e.pos.x);
    assert_eq!(r.pos.y, e.pos.y + world(8));
    assert!(!m.is_wall(m.cell_index_of(r.pos.x), m.cell_index_of(r.pos.y)));
}

#[test]
fn centred_player_sees_symmetric_ring() {
    let t = table();
    let m = ring(10, 64);
    let c = cast_config();
    let north = player_at(320, 320, 0);
    let hit = cast_column(&t, &m, &north, &c, 30, 61);
    assert_eq!(hit.axis, HitAxis::Horizontal);
    assert_eq!(hit.surface, 1);
    assert_eq!(hit.distance, world(256));
    let south = player_at(320, 320, 180);
    let hit = cast_column(&t, &m, &south, &c, 30, 61);
    assert_eq!(hit.axis, HitAxis::Horizontal);
    assert_eq!(hit.distance, world(256));
    let east = player_at(320, 320, 90);
    let hit = cast_column(&t, &m, &east, &c, 30, 61);
    assert_eq!(hit.axis, HitAxis::Vertical);
    assert_eq!(hit.distance, world(256));
}

#[test]
fn fisheye_correction_shortens_off_centre_rays() {
    let t = table();
    let m = ring(10, 64);
    let c = cast_config();
    let p = player_at(320, 320, 0);
    let centre = cast_column(&t, &m, &p, &c, 30, 61);
    let raw_centre = cast_ray(&m, p.pos.x, p.pos.y, 0, ONE as i32, &c);
    assert_eq!(centre.distance, raw_centre.distance);
    assert_eq!(centre.distance, world(256));
    for col in [0u32, 10, 29, 31, 50, 60] {
        let hit = cast_column(&t, &m, &p, &c, col, 61);
        let off = -30 + (col as i64 * 60) / 60;
        let a = Angle::from_degrees(off);
        let raw = cast_ray(&m, p.pos.x, p.pos.y, t.sin(a), t.cos(a), &c);
        assert_eq!(hit.axis, raw.axis);
        assert!(hit.distance < raw.distance, "column {}", col);
        // A flat wall stays flat: perpendicular distances agree within rounding.
        assert!((hit.distance - world(256)).abs() < world(1), "column {}", col);
    }
}

#[test]
fn casting_is_deterministic() {
    let t = table();
    let m = ring(10, 64);
    let c = cast_config();
    let p = player_at(200, 300, 37);
    let first = cast_all(&t, &m, &p, &c, 61);
    let second = cast_all(&t, &m, &p, &c, 61);
    assert_eq!(first.len(), 61);
    assert_eq!(first, second);
}

#[test]
fn rays_miss_beyond_range_and_on_zero_direction() {
    let m = ring(10, 64);
    let short = CastConfig { half_fov: 30, max_distance: world(100), max_steps: 256 };
    let p = player_at(320, 320, 0);
    let r = cast_ray(&m, p.pos.x, p.pos.y, 0, ONE as i32, &short);
    assert_eq!(r, RayHit { distance: world(100), surface: 0, axis: HitAxis::Miss });
    let r = cast_ray(&m, p.pos.x, p.pos.y, 0, 0, &cast_config());
    assert_eq!(r.axis, HitAxis::Miss);
    let few = CastConfig { half_fov: 30, max_distance: world(1000), max_steps: 2 };
    assert_eq!(cast_ray(&m, p.pos.x, p.pos.y, 0, ONE as i32, &few).axis, HitAxis::Miss);
}

#[test]
fn screen_index_is_row_major() {
    assert_eq!(screen_to_buffer(0, 0), 0);
    assert_eq!(screen_to_buffer(3, 2), 2 * 640 + 3);
    assert_eq!(screen_to_buffer(639, 479), 640 * 480 - 1);
}

#[test]
fn compose_writes_every_pixel() {
    let rc = render_config(4, 10);
    let hits = vec![
        RayHit { distance: world(64), surface: 1, axis: HitAxis::Vertical },
        RayHit { distance: world(64), surface: 1, axis: HitAxis::Horizontal },
        RayHit { distance: world(100_000), surface: 0, axis: HitAxis::Miss },
        RayHit { distance: world(640), surface: 1, axis: HitAxis::Vertical },
    ];
    let mut buf = vec![7u32; 3];
    compose(&hits, 0, &rc, &mut buf);
    assert_eq!(buf.len(), 40);
    assert!(buf.iter().all(|&p| p != 7));
    // Column 0: wall of full height 10 (100 rows clamped).
    for y in 0..10 {
        assert_eq!(buf[y * 4], rc.wall);
        assert_eq!(buf[y * 4 + 1], rc.wall_shaded);
    }
    // Column 2: sky above the horizon at row 5, floor from there.
    for y in 0..5 {
        assert_eq!(buf[y * 4 + 2], rc.ceiling);
    }
    for y in 5..10 {
        assert_eq!(buf[y * 4 + 2], rc.floor);
    }
    // Column 3: 10 rows tall at a tenth of the projection: rows 0..10.
    assert_eq!(buf[3], rc.wall);
    // Tilt moves the horizon down.
    compose(&hits, 2, &rc, &mut buf);
    assert_eq!(buf[6 * 4 + 2], rc.ceiling);
    assert_eq!(buf[7 * 4 + 2], rc.floor);
}

#[test]
fn wall_height_follows_distance() {
    let rc = render_config(1, 100);
    let hits = vec![RayHit { distance: world(640), surface: 1, axis: HitAxis::Vertical }];
    let mut buf = Vec::new();
    compose(&hits, 0, &rc, &mut buf);
    // projection / distance = 10 rows, from row 45 to row 54.
    assert_eq!(buf[44], rc.ceiling);
    assert_eq!(buf[45], rc.wall);
    assert_eq!(buf[54], rc.wall);
    assert_eq!(buf[55], rc.floor);
}

#[test]
fn engine_checks_configuration() {
    let p = player_at(320, 320, 0);
    let mk = |c: CastConfig, r: RenderConfig, p: PlayerState| {
        Engine::new(table(), ring(10, 64), p, motion(), c, r).map(|_| ()).unwrap_err()
    };
    assert_eq!(mk(cast_config(), render_config(0, 10), p), ConfigError::BadScreen);
    assert_eq!(mk(CastConfig { half_fov: 0, ..cast_config() }, render_config(8, 8), p), ConfigError::BadFieldOfView);
    assert_eq!(mk(CastConfig { max_distance: 0, ..cast_config() }, render_config(8, 8), p), ConfigError::BadRange);
    assert_eq!(mk(CastConfig { max_steps: 0, ..cast_config() }, render_config(8, 8), p), ConfigError::BadSteps);
    assert_eq!(mk(cast_config(), RenderConfig { projection: 0, ..render_config(8, 8) }, p), ConfigError::BadProjection);
    assert_eq!(mk(cast_config(), RenderConfig { pitch_scale: 1000, ..render_config(8, 8) }, p), ConfigError::BadPitch);
    let bad_tilt = PlayerState { tilt: 60, ..p };
    assert_eq!(mk(cast_config(), render_config(8, 8), bad_tilt), ConfigError::BadPlayer);
    let fast = MotionConfig { forward_speed: 5000, ..motion() };
    let e = Engine::new(table(), ring(10, 64), p, fast, cast_config(), render_config(8, 8));
    assert_eq!(e.map(|_| ()).unwrap_err(), ConfigError::BadMotion);
}

#[test]
fn engine_runs_frames() {
    let p = player_at(320, 320, 0);
    let mut e = Engine::new(table(), ring(10, 64), p, motion(), cast_config(), render_config(61, 40)).unwrap();
    assert_eq!(e.buffer().len(), 61 * 40);
    assert!(e.buffer().iter().all(|&c| c == 0));
    e.clear_background(0x123456);
    assert!(e.buffer().iter().all(|&c| c == 0x123456));
    e.pixel(3, 2, 9);
    assert_eq!(e.buffer()[2 * 61 + 3], 9);
    let fwd = InputState { forward: true, ..Default::default() };
    e.tick(&fwd, 1);
    assert_eq!(e.player().pos.y, p.pos.y + world(10));
    assert_eq!(e.buffer().len(), 61 * 40);
    assert!(e.buffer().iter().all(|&c| c != 0x123456 && c != 9));
    assert_eq!((e.width(), e.height()), (61, 40));
}
