use vstd::prelude::*;
use crate::trig::TrigTable;
use crate::grid::GridMap;
use crate::player::{PlayerState, InputState, MotionConfig, integrate, integrated};
use crate::raycast::{CastConfig, cast_all, column_hit, MAX_COLUMNS, MAX_HALF_FOV, MAX_RANGE, MAX_STEPS};
use crate::render::{RenderConfig, compose, pixel_color, MAX_ROWS, MAX_PROJECTION, MAX_PITCH_SCALE};

verus! {

/// Why an engine could not be set up.
#[derive(Clone, Copy, Debug, PartialEq, Eq)]
pub enum ConfigError {
    /// Screen width or height is zero or too large.
    BadScreen,
    /// Half field of view is zero or too wide.
    BadFieldOfView,
    /// Maximum ray length is not positive, or too large.
    BadRange,
    /// Step limit of the grid march is zero or too large.
    BadSteps,
    /// Projection constant is not positive, or too large.
    BadProjection,
    /// Tilt scale is too large.
    BadPitch,
    /// A turn, tilt or move rate is too large.
    BadMotion,
    /// The player's coordinates or tilt are out of bounds.
    BadPlayer,
}

/// The error, if any, that `Engine::new` reports for these settings.
pub open spec fn config_error(p: PlayerState, mc: MotionConfig, cc: CastConfig, rc: RenderConfig) -> Option<ConfigError> {
    if !(1 <= rc.width <= MAX_COLUMNS && 1 <= rc.height <= MAX_ROWS) {
        Some(ConfigError::BadScreen)
    } else if !(1 <= cc.half_fov <= MAX_HALF_FOV) {
        Some(ConfigError::BadFieldOfView)
    } else if !(1 <= cc.max_distance <= MAX_RANGE) {
        Some(ConfigError::BadRange)
    } else if !(1 <= cc.max_steps <= MAX_STEPS) {
        Some(ConfigError::BadSteps)
    } else if !(1 <= rc.projection <= MAX_PROJECTION) {
        Some(ConfigError::BadProjection)
    } else if rc.pitch_scale > MAX_PITCH_SCALE {
        Some(ConfigError::BadPitch)
    } else if !mc.wf() {
        Some(ConfigError::BadMotion)
    } else if !p.wf() {
        Some(ConfigError::BadPlayer)
    } else {
        None
    }
}

/// The frame loop's state: the trig table, the map, the player, the
/// settings and the pixel buffer, all owned here. Each `tick` runs one
/// frame in order: motion, ray casting, compositing.
#[derive(Debug)]
pub struct Engine {
    table: TrigTable,
    map: GridMap,
    player: PlayerState,
    motion: MotionConfig,
    cast: CastConfig,
    render: RenderConfig,
    buffer: Vec<u32>,
}

impl Engine {
    #[verifier::type_invariant]
    spec fn well_formed(self) -> bool {
        &&& config_error(self.player, self.motion, self.cast, self.render) is None
        &&& self.buffer@.len() == self.render.width * self.render.height
    }

    pub closed spec fn table_spec(&self) -> TrigTable {
        self.table
    }

    pub closed spec fn map_spec(&self) -> GridMap {
        self.map
    }

    pub closed spec fn player_spec(&self) -> PlayerState {
        self.player
    }

    pub closed spec fn motion_config(&self) -> MotionConfig {
        self.motion
    }

    pub closed spec fn cast_config(&self) -> CastConfig {
        self.cast
    }

    pub closed spec fn render_config(&self) -> RenderConfig {
        self.render
    }

    pub closed spec fn buffer_spec(&self) -> Seq<u32> {
        self.buffer@
    }

    /// Everything but the player and the buffer is as in `o`.
    pub open spec fn same_world(&self, o: &Engine) -> bool {
        &&& self.table_spec() == o.table_spec()
        &&& self.map_spec() == o.map_spec()
        &&& self.motion_config() == o.motion_config()
        &&& self.cast_config() == o.cast_config()
        &&& self.render_config() == o.render_config()
    }

    /// Sets up an engine with a black buffer of `width * height` pixels.
    /// Fails exactly as `config_error` says.
    pub fn new(
        table: TrigTable,
        map: GridMap,
        player: PlayerState,
        motion: MotionConfig,
        cast: CastConfig,
        render: RenderConfig,
    ) -> (r: Result<Engine, ConfigError>)
        ensures
            match r {
                Ok(e) => config_error(player, motion, cast, render) is None
                    && e.table_spec() == table && e.map_spec() == map && e.player_spec() == player
                    && e.motion_config() == motion && e.cast_config() == cast && e.render_config() == render
                    && e.buffer_spec() =~= Seq::new((render.width * render.height) as nat, |i: int| 0u32),
                Err(err) => config_error(player, motion, cast, render) == Some(err),
            },
    {
        if render.width < 1 || render.width > MAX_COLUMNS || render.height < 1 || render.height > MAX_ROWS {
            return Err(ConfigError::BadScreen);
        }
        if cast.half_fov < 1 || cast.half_fov > MAX_HALF_FOV {
            return Err(ConfigError::BadFieldOfView);
        }
        if cast.max_distance < 1 || cast.max_distance > MAX_RANGE {
            return Err(ConfigError::BadRange);
        }
        if cast.max_steps < 1 || cast.max_steps > MAX_STEPS {
            return Err(ConfigError::BadSteps);
        }
        if render.projection < 1 || render.projection > MAX_PROJECTION {
            return Err(ConfigError::BadProjection);
        }
        if render.pitch_scale > MAX_PITCH_SCALE {
            return Err(ConfigError::BadPitch);
        }
        if !motion_ok(&motion) {
            return Err(ConfigError::BadMotion);
        }
        if !player_ok(&player) {
            return Err(ConfigError::BadPlayer);
        }
        proof {
            assert(render.width * render.height <= MAX_COLUMNS * MAX_ROWS) by (nonlinear_arith)
                requires render.width <= MAX_COLUMNS, render.height <= MAX_ROWS;
        }
        let n: usize = render.width as usize * render.height as usize;
        let mut buffer: Vec<u32> = Vec::new();
        while buffer.len() < n
            invariant
                buffer@.len() <= n,
                forall|i: int| 0 <= i < buffer@.len() ==> #[trigger] buffer@[i] == 0u32,
            decreases n - buffer@.len(),
        {
            buffer.push(0);
        }
        Ok(Engine { table, map, player, motion, cast, render, buffer })
    }

    /// Runs one frame: moves the player by `dt` ticks of `input`, casts one
    /// ray per column from the new state, and redraws the whole buffer.
    pub fn tick(&mut self, input: &InputState, dt: u16)
        ensures
            final(self).same_world(old(self)),
            integrated(old(self).player_spec(), final(self).player_spec(), *input,
                old(self).motion_config(), dt as int, &old(self).table_spec(), &old(self).map_spec()),
            final(self).buffer_spec().len() == old(self).buffer_spec().len(),
            forall|i: int| 0 <= i < final(self).buffer_spec().len() ==> #[trigger] final(self).buffer_spec()[i]
                == pixel_color(
                    column_hit(&final(self).table_spec(), &final(self).map_spec(), final(self).player_spec(),
                        final(self).cast_config(), i % final(self).render_config().width as int,
                        final(self).render_config().width as int),
                    final(self).player_spec().tilt as int,
                    i / final(self).render_config().width as int,
                    final(self).render_config(),
                ),
    {
        proof {
            use_type_invariant(&*self);
        }
        let next = integrate(&self.player, input, &self.motion, dt, &self.table, &self.map);
        let hits = cast_all(&self.table, &self.map, &next, &self.cast, self.render.width);
        let mut buffer: Vec<u32> = Vec::new();
        compose(&hits, next.tilt, &self.render, &mut buffer);
        self.player = next;
        self.buffer = buffer;
    }

    /// Fills the whole buffer with `color`.
    pub fn clear_background(&mut self, color: u32)
        ensures
            final(self).same_world(old(self)),
            final(self).player_spec() == old(self).player_spec(),
            final(self).buffer_spec() =~= Seq::new(old(self).buffer_spec().len(), |i: int| color),
    {
        proof {
            use_type_invariant(&*self);
        }
        let n = self.buffer.len();
        let mut buffer: Vec<u32> = Vec::new();
        while buffer.len() < n
            invariant
                buffer@.len() <= n,
                forall|i: int| 0 <= i < buffer@.len() ==> #[trigger] buffer@[i] == color,
            decreases n - buffer@.len(),
        {
            buffer.push(color);
        }
        self.buffer = buffer;
    }

    /// Sets the pixel at column `x`, row `y` to `color`.
    pub fn pixel(&mut self, x: u32, y: u32, color: u32)
        requires
            x < old(self).render_config().width,
            y < old(self).render_config().height,
        ensures
            final(self).same_world(old(self)),
            final(self).player_spec() == old(self).player_spec(),
            final(self).buffer_spec() == old(self).buffer_spec().update(
                y * old(self).render_config().width + x, color),
    {
        proof {
            use_type_invariant(&*self);
            assert(y * self.render.width + x < self.render.width * self.render.height) by (nonlinear_arith)
                requires x < self.render.width, y < self.render.height;
        }
        let i = crate::render::buffer_index(x, y, self.render.width);
        let mut buffer = self.buffer.clone();
        buffer.set(i, color);
        self.buffer = buffer;
    }

    /// The player's current state.
    pub fn player(&self) -> (r: PlayerState)
        ensures
            r == self.player_spec(),
    {
        self.player
    }

    /// The pixels of the last frame, row by row.
    pub fn buffer(&self) -> (r: &Vec<u32>)
        ensures
            r@ == self.buffer_spec(),
    {
        &self.buffer
    }

    /// Screen width in pixels.
    pub fn width(&self) -> (r: u32)
        ensures
            r == self.render_config().width,
    {
        self.render.width
    }

    /// Screen height in pixels.
    pub fn height(&self) -> (r: u32)
        ensures
            r == self.render_config().height,
    {
        self.render.height
    }
}

fn motion_ok(c: &MotionConfig) -> (r: bool)
    ensures
        r == c.wf(),
{
    c.turn_rate <= crate::player::MAX_RATE && c.tilt_rate <= crate::player::MAX_RATE
        && c.forward_speed <= crate::player::MAX_SPEED && c.backward_speed <= crate::player::MAX_SPEED
        && c.strafe_speed <= crate::player::MAX_SPEED
}

fn player_ok(p: &PlayerState) -> (r: bool)
    ensures
        r == p.wf(),
{
    let lim = crate::player::POS_LIMIT;
    -lim <= p.pos.x && p.pos.x <= lim && -lim <= p.pos.y && p.pos.y <= lim && -lim <= p.pos.z
        && p.pos.z <= lim && -crate::player::MAX_TILT <= p.tilt && p.tilt <= crate::player::MAX_TILT
}

} // verus!
