//! The snowfall as a whole: configuration, viewport, particle field, wind and
//! clock, advanced once per frame.
//!
//! A [`SnowfallShader`] draws nothing itself. It computes what a graphics
//! backend needs: the vertex attributes of the particles after every
//! regeneration and the shader parameters after every call. The host brings
//! what the library cannot have: canvas geometry, timestamps and random draws.

use crate::clock::FrameStats;
use crate::config::SnowConfig;
use crate::config::SnowConfigView;
use crate::config::TextureHandle;
use crate::fixed::Fixed;
use crate::fixed::Sample;
use crate::fixed::SCALE;
use crate::particles::field_spec;
use crate::particles::generate;
use crate::particles::lemma_count_at_whole_aspect;
use crate::particles::lemma_field_within_bounds;
use crate::particles::lemma_world_box_has_size;
use crate::particles::particle_count_spec;
use crate::particles::required_draws;
use crate::particles::required_draws_spec;
use crate::particles::Particle;
use crate::particles::ParticleAttributes;
use crate::particles::WorldExtents;
use crate::viewport::aspect_ratio;
use crate::viewport::aspect_ratio_spec;
use crate::viewport::backing_size_spec;
use crate::viewport::point_scale_spec;
use crate::viewport::project;
use crate::viewport::projection_spec;
use crate::viewport::Projection;
use crate::wind::WindDraws;
use crate::wind::WindState;
use vstd::arithmetic::div_mod::lemma_fundamental_div_mod;
use vstd::prelude::*;

verus! {

/// What a frame reports.
#[derive(Clone, Copy, Debug, PartialEq, Eq, Structural)]
pub struct RenderResult {
    pub fps: u32,
    pub time: Fixed,
    pub wind: Fixed,
    pub particle_count: u32,
}

/// A color that multiplies that of the particles.
#[derive(Clone, Copy, Debug, PartialEq, Eq, Structural)]
pub struct Tint {
    pub red: Fixed,
    pub green: Fixed,
    pub blue: Fixed,
}

/// The shader parameters that go with the current state.
#[derive(Clone, Copy, Debug)]
pub struct ShaderUniforms {
    /// Seconds simulated so far.
    pub time: Fixed,
    /// The wind that the particles feel.
    pub wind: Fixed,
    /// Gravity with the sign of the vertical direction.
    pub gravity: Fixed,
    pub rotation_speed: Fixed,
    /// Half the size of the world box.
    pub world_size: WorldExtents,
    pub point_scale: Fixed,
    /// Width and height of the backing buffer in device pixels.
    pub resolution: (u32, u32),
    /// The perspective projection, column by column.
    pub projection: [Fixed; 16],
    pub color_tint: Tint,
    pub use_color_tint: bool,
    pub use_texture: bool,
}

/// A snowfall: its state between frames.
pub struct SnowfallShader {
    configurable: bool,
    config: SnowConfig,
    wind: WindState,
    clock: FrameStats,
    device_pixel_ratio: Fixed,
    projection: Projection,
    extents: WorldExtents,
    particles: ParticleAttributes,
    color_tint: Tint,
    use_color_tint: bool,
    texture: Option<TextureHandle>,
}

/// The state of a snowfall as a plain value.
pub struct ShaderState {
    /// Whether the setters have any effect.
    pub configurable: bool,
    /// Particles at an aspect ratio of one: the configured particle count.
    pub base_particle_count: u32,
    pub config: SnowConfigView,
    pub wind: WindState,
    pub clock: FrameStats,
    pub device_pixel_ratio: Fixed,
    pub buffer_width: u32,
    pub buffer_height: u32,
    pub matrix: Seq<Fixed>,
    pub point_scale: Fixed,
    pub extents: WorldExtents,
    pub particles: Seq<Particle>,
    pub color_tint: Tint,
    pub use_color_tint: bool,
    pub texture: Option<TextureHandle>,
}

/// The draws that a field of `base_count` particles takes on a canvas of the
/// given client size.
pub open spec fn draws_on_canvas(
    base_count: u32,
    client_width: Fixed,
    client_height: Fixed,
    device_pixel_ratio: Fixed,
) -> int {
    required_draws_spec(
        base_count,
        aspect_ratio_spec(
            backing_size_spec(client_width, device_pixel_ratio),
            backing_size_spec(client_height, device_pixel_ratio),
        ),
    )
}

/// The tint and whether it is in use at the start: where the setters have
/// effect, the first three numbers of the configured tint, white where none is
/// configured, and black and unused where fewer than three numbers are; white
/// and unused where the setters have none.
pub open spec fn initial_tint(config: SnowConfigView, configurable: bool) -> (Tint, bool) {
    if !configurable {
        (Tint::white(), false)
    } else {
        match config.color {
            Some(c) => if c.len() >= 3 {
                (Tint { red: c[0], green: c[1], blue: c[2] }, true)
            } else {
                (Tint::black(), false)
            },
            None => (Tint::white(), true),
        }
    }
}

impl Tint {
    /// The tint that leaves every color as it is.
    pub open spec fn white() -> Tint {
        Tint { red: Fixed { raw: SCALE }, green: Fixed { raw: SCALE }, blue: Fixed { raw: SCALE } }
    }

    /// The tint that leaves no color.
    pub open spec fn black() -> Tint {
        Tint { red: Fixed { raw: 0 }, green: Fixed { raw: 0 }, blue: Fixed { raw: 0 } }
    }
}

impl ShaderState {
    /// Width over height of the backing buffer.
    pub open spec fn aspect(self) -> Fixed {
        aspect_ratio_spec(self.buffer_width, self.buffer_height)
    }

    /// The draws that a regeneration takes.
    pub open spec fn draws_needed(self) -> int {
        required_draws_spec(self.base_particle_count, self.aspect())
    }

    /// What holds between the parts of every state that the library makes:
    /// the base count is the configured particle count, projection, point
    /// scale and world box are those of the backing buffer and the configured
    /// depth, the field has the particles that the buffer's aspect ratio asks
    /// for, and every particle lies within the bounds of the configuration.
    pub open spec fn consistent(self) -> bool {
        &&& self.base_particle_count == self.config.particle_count
        &&& self.matrix == projection_spec(self.aspect())
        &&& self.point_scale == point_scale_spec(self.buffer_height)
        &&& self.extents == WorldExtents::of(self.aspect(), self.config.depth)
        &&& self.particles.len() == particle_count_spec(self.base_particle_count, self.aspect())
        &&& forall|i: int|
            0 <= i < self.particles.len() ==> (#[trigger] self.particles[i]).within(
                self.config,
                self.extents,
            )
    }

    /// The state with a new particle field, made of `draws`.
    pub open spec fn regenerated(self, draws: Seq<Sample>) -> ShaderState {
        ShaderState {
            extents: WorldExtents::of(self.aspect(), self.config.depth),
            particles: field_spec(self.base_particle_count, self.aspect(), self.config, draws),
            ..self
        }
    }

    /// The state after the canvas took a new client size or pixel ratio: the
    /// backing buffer is sized anew, and with it projection, point scale and
    /// the whole particle field.
    pub open spec fn resized(
        self,
        client_width: Fixed,
        client_height: Fixed,
        device_pixel_ratio: Fixed,
        draws: Seq<Sample>,
    ) -> ShaderState {
        let buffer_width = backing_size_spec(client_width, device_pixel_ratio);
        let buffer_height = backing_size_spec(client_height, device_pixel_ratio);
        ShaderState {
            device_pixel_ratio,
            buffer_width,
            buffer_height,
            matrix: projection_spec(aspect_ratio_spec(buffer_width, buffer_height)),
            point_scale: point_scale_spec(buffer_height),
            ..self
        }.regenerated(draws)
    }

    /// The state that a new snowfall starts in: clock and wind at their
    /// beginning, and buffer, projection and particle field as the canvas
    /// asks for them.
    pub open spec fn created(
        config: SnowConfigView,
        configurable: bool,
        client_width: Fixed,
        client_height: Fixed,
        device_pixel_ratio: Fixed,
        draws: Seq<Sample>,
    ) -> ShaderState {
        let buffer_width = backing_size_spec(client_width, device_pixel_ratio);
        let buffer_height = backing_size_spec(client_height, device_pixel_ratio);
        let aspect = aspect_ratio_spec(buffer_width, buffer_height);
        ShaderState {
            configurable,
            base_particle_count: config.particle_count,
            config,
            wind: WindState::initial(),
            clock: FrameStats::initial(),
            device_pixel_ratio,
            buffer_width,
            buffer_height,
            matrix: projection_spec(aspect),
            point_scale: point_scale_spec(buffer_height),
            extents: WorldExtents::of(aspect, config.depth),
            particles: field_spec(config.particle_count, aspect, config, draws),
            color_tint: initial_tint(config, configurable).0,
            use_color_tint: initial_tint(config, configurable).1,
            texture: if configurable {
                config.texture
            } else {
                None
            },
        }
    }

    /// The state after a frame at the timestamp `now`: the clock ticks, and
    /// the wind steps by the time that the clock measured.
    pub open spec fn rendered(self, now: Fixed, draws: WindDraws) -> ShaderState {
        ShaderState {
            clock: self.clock.ticked(now),
            wind: self.wind.stepped(self.clock.delta_spec(now), draws),
            ..self
        }
    }

    /// What a frame reports of the state that it leaves.
    pub open spec fn report(self) -> RenderResult {
        RenderResult {
            fps: self.clock.current_fps,
            time: self.clock.simulation_time,
            wind: self.wind.current,
            particle_count: self.particles.len() as u32,
        }
    }

    /// The state with another configuration and, where `regenerate` says so, a
    /// new particle field; the state as it is where the setters have no effect.
    pub open spec fn reconfigured(
        self,
        config: SnowConfigView,
        regenerate: bool,
        draws: Seq<Sample>,
    ) -> ShaderState {
        if !self.configurable {
            self
        } else if regenerate {
            ShaderState { config, ..self }.regenerated(draws)
        } else {
            ShaderState { config, ..self }
        }
    }

    /// The state with another particle count, in the configuration and as
    /// the base count, and a new field for it; the state as it is where the
    /// setters have no effect.
    pub open spec fn with_particle_count(self, count: u32, draws: Seq<Sample>) -> ShaderState {
        if !self.configurable {
            self
        } else {
            ShaderState {
                base_particle_count: count,
                config: SnowConfigView { particle_count: count, ..self.config },
                ..self
            }.regenerated(draws)
        }
    }

    /// The state with a tint in use, or as it is where the setters have no
    /// effect.
    pub open spec fn with_color(self, tint: Tint) -> ShaderState {
        if !self.configurable {
            self
        } else {
            ShaderState { color_tint: tint, use_color_tint: true, ..self }
        }
    }

    /// The state with the tint out of use, or as it is where the setters have
    /// no effect.
    pub open spec fn without_color(self) -> ShaderState {
        if !self.configurable {
            self
        } else {
            ShaderState { use_color_tint: false, ..self }
        }
    }

    /// The state with the texture `texture`, or as it is where the setters
    /// have no effect.
    pub open spec fn with_texture(self, texture: Option<TextureHandle>) -> ShaderState {
        if !self.configurable {
            self
        } else {
            ShaderState { texture, ..self }
        }
    }
}

/// Every particle of a consistent state starts inside the world box as far
/// as the box has a size (it always has a width and a height), and has an
/// opacity and a size within the configured bounds.
pub proof fn lemma_particles_within_bounds(state: ShaderState, i: int)
    requires
        state.consistent(),
        0 <= i < state.particles.len(),
    ensures
        state.particles[i].within(state.config, state.extents),
        -state.extents.half_width.raw <= state.particles[i].x.raw <= state.extents.half_width.raw,
        -state.extents.half_height.raw <= state.particles[i].y.raw <= state.extents.half_height.raw,
{
    lemma_world_box_has_size(state.aspect(), state.config.depth);
}

/// A resize leaves a consistent state, whatever buffer, projection and
/// field the state had before, as long as its base count is the configured
/// one and the draws lie in `[0, 1)` and are as many as the new field takes.
pub proof fn lemma_resized_is_consistent(
    state: ShaderState,
    client_width: Fixed,
    client_height: Fixed,
    device_pixel_ratio: Fixed,
    draws: Seq<Sample>,
)
    requires
        state.base_particle_count == state.config.particle_count,
        draws.len() >= draws_on_canvas(
            state.base_particle_count,
            client_width,
            client_height,
            device_pixel_ratio,
        ),
        forall|k: int| 0 <= k < draws.len() ==> (#[trigger] draws[k]).in_unit_interval(),
    ensures
        state.resized(client_width, client_height, device_pixel_ratio, draws).consistent(),
{
    let after = state.resized(client_width, client_height, device_pixel_ratio, draws);
    lemma_field_within_bounds(state.base_particle_count, after.aspect(), state.config, draws);
}

/// A frame leaves a consistent state consistent, and the particle field,
/// the configuration and the viewport as they were.
pub proof fn lemma_rendered_is_consistent(state: ShaderState, now: Fixed, draws: WindDraws)
    requires
        state.consistent(),
    ensures
        state.rendered(now, draws).consistent(),
        state.rendered(now, draws).particles == state.particles,
        state.rendered(now, draws).config == state.config,
        state.rendered(now, draws).extents == state.extents,
        state.rendered(now, draws).matrix == state.matrix,
{
}

/// The particle count of a buffer is taken from its aspect ratio rounded
/// down to a millionth. It is never more than the base count times width
/// over height, rounded down, and falls short of that by no more than one
/// and one for every million of the base count.
pub proof fn lemma_count_near_exact_quotient(base_count: u32, width: u32, height: u32)
    requires
        height > 0,
        (width * base_count) / (height as int) <= u32::MAX,
    ensures
        particle_count_spec(base_count, aspect_ratio_spec(width, height)) <= (width * base_count)
            / (height as int),
        particle_count_spec(base_count, aspect_ratio_spec(width, height)) >= (width * base_count)
            / (height as int) - base_count / 1_000_000 - 1,
{
    let h = height as int;
    let b = base_count as int;
    let scaled = width * 1_000_000;
    let a = scaled / h;
    let r1 = scaled % h;
    lemma_fundamental_div_mod(scaled, h);
    let p = a * b;
    let c = p / 1_000_000;
    let wb = width * b;
    let e = wb / h;
    let r3 = wb % h;
    lemma_fundamental_div_mod(wb, h);
    assert(a >= 0 && p >= 0) by (nonlinear_arith)
        requires
            scaled == h * a + r1,
            0 <= r1 < h,
            scaled >= 0,
            b >= 0,
            p == a * b,
    ;
    let lost = r1 * b;
    assert(h * p == 1_000_000 * wb - lost) by (nonlinear_arith)
        requires
            scaled == h * a + r1,
            scaled == width * 1_000_000,
            wb == width * b,
            p == a * b,
            lost == r1 * b,
    ;
    assert(0 <= lost <= h * b) by (nonlinear_arith)
        requires
            lost == r1 * b,
            0 <= r1 < h,
            b >= 0,
    ;
    assert(h * p < h * (1_000_000 * (e + 1)) && h * p >= h * (1_000_000 * e - b))
        by (nonlinear_arith)
        requires
            h * p == 1_000_000 * wb - lost,
            0 <= lost <= h * b,
            wb == h * e + r3,
            0 <= r3 < h,
    ;
    assert(p < 1_000_000 * (e + 1) && p >= 1_000_000 * e - b) by (nonlinear_arith)
        requires
            h * p < h * (1_000_000 * (e + 1)),
            h * p >= h * (1_000_000 * e - b),
            h > 0,
    ;
    assert(aspect_ratio_spec(width, height).raw == a);
    assert(particle_count_spec(base_count, aspect_ratio_spec(width, height)) == c);
}

/// A canvas whose backing buffer has no height counts as square: a resize
/// to it leaves as many particles as the base count says, so a field that is
/// not empty wherever that count is not zero.
pub proof fn lemma_flat_canvas_counts_as_square(
    state: ShaderState,
    client_width: Fixed,
    client_height: Fixed,
    device_pixel_ratio: Fixed,
    draws: Seq<Sample>,
)
    requires
        backing_size_spec(client_height, device_pixel_ratio) == 0,
    ensures
        state.resized(client_width, client_height, device_pixel_ratio, draws).aspect().raw
            == SCALE,
        state.resized(client_width, client_height, device_pixel_ratio, draws).particles.len()
            == state.base_particle_count,
{
    lemma_count_at_whole_aspect(state.base_particle_count, 1);
}

impl View for SnowfallShader {
    type V = ShaderState;

    closed spec fn view(&self) -> ShaderState {
        ShaderState {
            configurable: self.configurable,
            base_particle_count: self.config.particle_count,
            config: self.config@,
            wind: self.wind,
            clock: self.clock,
            device_pixel_ratio: self.device_pixel_ratio,
            buffer_width: self.projection.buffer_width,
            buffer_height: self.projection.buffer_height,
            matrix: self.projection.matrix@,
            point_scale: self.projection.point_scale,
            extents: self.extents,
            particles: self.particles@,
            color_tint: self.color_tint,
            use_color_tint: self.use_color_tint,
            texture: self.texture,
        }
    }
}

impl SnowfallShader {
    /// The parts of the state fit together, and the arrays of the particle
    /// field are as long as its particles ask for.
    pub closed spec fn wf(&self) -> bool {
        &&& self@.consistent()
        &&& self.particles.wf()
    }

    /// The draws that a snowfall of `base_count` particles takes on a canvas of
    /// the given client size, where their number fits a `usize`.
    pub fn draws_for(
        base_count: u32,
        client_width: Fixed,
        client_height: Fixed,
        device_pixel_ratio: Fixed,
    ) -> (r: Option<usize>)
        ensures
            match r {
                Some(n) => n == draws_on_canvas(
                    base_count,
                    client_width,
                    client_height,
                    device_pixel_ratio,
                ),
                None => draws_on_canvas(
                    base_count,
                    client_width,
                    client_height,
                    device_pixel_ratio,
                ) > usize::MAX,
            },
    {
        let p = project(client_width, client_height, device_pixel_ratio);
        required_draws(base_count, aspect_ratio(p.buffer_width, p.buffer_height))
    }

    /// The draws that a resize to the given client size takes, where their
    /// number fits a `usize`.
    pub fn draws_for_resize(
        &self,
        client_width: Fixed,
        client_height: Fixed,
        device_pixel_ratio: Fixed,
    ) -> (r: Option<usize>)
        ensures
            match r {
                Some(n) => n == draws_on_canvas(
                    self@.base_particle_count,
                    client_width,
                    client_height,
                    device_pixel_ratio,
                ),
                None => draws_on_canvas(
                    self@.base_particle_count,
                    client_width,
                    client_height,
                    device_pixel_ratio,
                ) > usize::MAX,
            },
    {
        SnowfallShader::draws_for(
            self.config.particle_count,
            client_width,
            client_height,
            device_pixel_ratio,
        )
    }

    /// The draws that a snowfall of `base_count` particles takes on the canvas
    /// as it is, where their number fits a `usize`.
    pub fn draws_for_count(&self, base_count: u32) -> (r: Option<usize>)
        ensures
            match r {
                Some(n) => n == required_draws_spec(base_count, self@.aspect()),
                None => required_draws_spec(base_count, self@.aspect()) > usize::MAX,
            },
    {
        required_draws(
            base_count,
            aspect_ratio(self.projection.buffer_width, self.projection.buffer_height),
        )
    }

    /// Starts a snowfall on a canvas of the given client size.
    ///
    /// `configurable` says whether the setters will have any effect.
    pub fn new(
        config: SnowConfig,
        configurable: bool,
        client_width: Fixed,
        client_height: Fixed,
        device_pixel_ratio: Fixed,
        draws: &Vec<Sample>,
    ) -> (r: SnowfallShader)
        requires
            draws@.len() >= draws_on_canvas(
                config.particle_count,
                client_width,
                client_height,
                device_pixel_ratio,
            ),
        ensures
            r.wf(),
            r@ == ShaderState::created(
                config@,
                configurable,
                client_width,
                client_height,
                device_pixel_ratio,
                draws@,
            ),
    {
        let white = Tint {
            red: Fixed { raw: SCALE },
            green: Fixed { raw: SCALE },
            blue: Fixed { raw: SCALE },
        };
        let mut color_tint = white;
        let mut use_color_tint: bool = false;
        let mut texture: Option<TextureHandle> = None;
        if configurable {
            match &config.color {
                Some(c) => {
                    if c.len() >= 3 {
                        color_tint = Tint { red: c[0], green: c[1], blue: c[2] };
                        use_color_tint = true;
                    } else {
                        color_tint = Tint {
                            red: Fixed { raw: 0 },
                            green: Fixed { raw: 0 },
                            blue: Fixed { raw: 0 },
                        };
                    }
                },
                None => {
                    use_color_tint = true;
                },
            }
            texture = config.texture;
        }
        let projection = project(client_width, client_height, device_pixel_ratio);
        let aspect = aspect_ratio(projection.buffer_width, projection.buffer_height);
        let particles = generate(config.particle_count, aspect, &config, draws);
        let extents = WorldExtents::new(aspect, config.depth);
        SnowfallShader {
            configurable,
            config,
            wind: WindState::default(),
            clock: FrameStats::new(),
            device_pixel_ratio,
            projection,
            extents,
            particles,
            color_tint,
            use_color_tint,
            texture,
        }
    }

    /// Makes the particle field anew for the state as it is.
    fn regenerate(&mut self, draws: &Vec<Sample>)
        requires
            draws@.len() >= old(self)@.draws_needed(),
            old(self)@.matrix == projection_spec(old(self)@.aspect()),
            old(self)@.point_scale == point_scale_spec(old(self)@.buffer_height),
        ensures
            final(self).wf(),
            final(self)@ == old(self)@.regenerated(draws@),
    {
        let aspect = aspect_ratio(self.projection.buffer_width, self.projection.buffer_height);
        self.particles = generate(self.config.particle_count, aspect, &self.config, draws);
        self.extents = WorldExtents::new(aspect, self.config.depth);
    }

    /// Takes over a new client size or pixel ratio of the canvas: sizes the
    /// backing buffer, and computes projection, point scale and particle field
    /// for it. A buffer without height counts as square.
    pub fn resize(
        &mut self,
        client_width: Fixed,
        client_height: Fixed,
        device_pixel_ratio: Fixed,
        draws: &Vec<Sample>,
    )
        requires
            draws@.len() >= draws_on_canvas(
                old(self)@.base_particle_count,
                client_width,
                client_height,
                device_pixel_ratio,
            ),
        ensures
            final(self).wf(),
            final(self)@ == old(self)@.resized(
                client_width,
                client_height,
                device_pixel_ratio,
                draws@,
            ),
    {
        self.device_pixel_ratio = device_pixel_ratio;
        self.projection = project(client_width, client_height, device_pixel_ratio);
        self.regenerate(draws);
    }

    /// Advances the snowfall to a frame at `current_time`, a timestamp in
    /// milliseconds, and reports the state that the frame leaves.
    ///
    /// A frame within the open window is counted and reports the frames per
    /// second as they were. A frame that closes the window reports the frames
    /// counted, itself included, and starts the count again at zero and the
    /// next window at `current_time`.
    pub fn render(&mut self, current_time: Fixed, draws: WindDraws) -> (r: RenderResult)
        requires
            old(self).wf(),
            old(self)@.clock.frame_count < u32::MAX,
        ensures
            final(self).wf(),
            final(self)@ == old(self)@.rendered(current_time, draws),
            r == final(self)@.report(),
            !old(self)@.clock.window_elapsed(current_time) ==> {
                &&& final(self)@.clock.frame_count == old(self)@.clock.frame_count + 1
                &&& final(self)@.clock.current_fps == old(self)@.clock.current_fps
                &&& r.fps == old(self)@.clock.current_fps
                &&& final(self)@.clock.fps_window_start == old(self)@.clock.fps_window_start
            },
            old(self)@.clock.window_elapsed(current_time) ==> {
                &&& final(self)@.clock.frame_count == 0
                &&& final(self)@.clock.current_fps == old(self)@.clock.frame_count + 1
                &&& r.fps == old(self)@.clock.frame_count + 1
                &&& final(self)@.clock.fps_window_start == current_time
            },
    {
        let tick = self.clock.tick(current_time);
        self.wind.step(tick.delta_seconds, draws);
        RenderResult {
            fps: self.clock.current_fps,
            time: self.clock.simulation_time,
            wind: self.wind.current,
            particle_count: self.particles.len() as u32,
        }
    }

    /// Sets the configured particle count and makes the particle field anew
    /// for it.
    pub fn set_particle_count(&mut self, count: u32, draws: &Vec<Sample>)
        requires
            old(self).wf(),
            old(self)@.configurable ==> draws@.len() >= required_draws_spec(
                count,
                old(self)@.aspect(),
            ),
        ensures
            final(self).wf(),
            final(self)@ == old(self)@.with_particle_count(count, draws@),
    {
        if self.configurable {
            self.config.particle_count = count;
            self.regenerate(draws);
        }
    }

    /// Sets the gravity.
    pub fn set_gravity(&mut self, value: Fixed)
        requires
            old(self).wf(),
        ensures
            final(self).wf(),
            final(self)@ == old(self)@.reconfigured(
                SnowConfigView { gravity: value, ..old(self)@.config },
                false,
                Seq::empty(),
            ),
    {
        if self.configurable {
            self.config.gravity = value;
        }
    }

    /// Sets the depth of the world box and makes the particle field anew.
    pub fn set_depth(&mut self, value: Fixed, draws: &Vec<Sample>)
        requires
            old(self).wf(),
            old(self)@.configurable ==> draws@.len() >= old(self)@.draws_needed(),
        ensures
            final(self).wf(),
            final(self)@ == old(self)@.reconfigured(
                SnowConfigView { depth: value, ..old(self)@.config },
                true,
                draws@,
            ),
    {
        if self.configurable {
            self.config.depth = value;
            self.regenerate(draws);
        }
    }

    /// Sets the least particle size and makes the particle field anew.
    pub fn set_min_size(&mut self, value: Fixed, draws: &Vec<Sample>)
        requires
            old(self).wf(),
            old(self)@.configurable ==> draws@.len() >= old(self)@.draws_needed(),
        ensures
            final(self).wf(),
            final(self)@ == old(self)@.reconfigured(
                SnowConfigView { min_size: value, ..old(self)@.config },
                true,
                draws@,
            ),
    {
        if self.configurable {
            self.config.min_size = value;
            self.regenerate(draws);
        }
    }

    /// Sets the least opacity and makes the particle field anew.
    pub fn set_min_alpha(&mut self, value: Fixed, draws: &Vec<Sample>)
        requires
            old(self).wf(),
            old(self)@.configurable ==> draws@.len() >= old(self)@.draws_needed(),
        ensures
            final(self).wf(),
            final(self)@ == old(self)@.reconfigured(
                SnowConfigView { min_alpha: value, ..old(self)@.config },
                true,
                draws@,
            ),
    {
        if self.configurable {
            self.config.min_alpha = value;
            self.regenerate(draws);
        }
    }

    /// Sets the least horizontal speed and makes the particle field anew.
    pub fn set_speed_x(&mut self, value: Fixed, draws: &Vec<Sample>)
        requires
            old(self).wf(),
            old(self)@.configurable ==> draws@.len() >= old(self)@.draws_needed(),
        ensures
            final(self).wf(),
            final(self)@ == old(self)@.reconfigured(
                SnowConfigView { speed_x: value, ..old(self)@.config },
                true,
                draws@,
            ),
    {
        if self.configurable {
            self.config.speed_x = value;
            self.regenerate(draws);
        }
    }

    /// Sets the least vertical speed and makes the particle field anew.
    pub fn set_speed_y(&mut self, value: Fixed, draws: &Vec<Sample>)
        requires
            old(self).wf(),
            old(self)@.configurable ==> draws@.len() >= old(self)@.draws_needed(),
        ensures
            final(self).wf(),
            final(self)@ == old(self)@.reconfigured(
                SnowConfigView { speed_y: value, ..old(self)@.config },
                true,
                draws@,
            ),
    {
        if self.configurable {
            self.config.speed_y = value;
            self.regenerate(draws);
        }
    }

    /// Sets the horizontal direction and makes the particle field anew.
    pub fn set_direction_x(&mut self, value: Fixed, draws: &Vec<Sample>)
        requires
            old(self).wf(),
            old(self)@.configurable ==> draws@.len() >= old(self)@.draws_needed(),
        ensures
            final(self).wf(),
            final(self)@ == old(self)@.reconfigured(
                SnowConfigView { direction_x: value, ..old(self)@.config },
                true,
                draws@,
            ),
    {
        if self.configurable {
            self.config.direction_x = value;
            self.regenerate(draws);
        }
    }

    /// Sets the vertical direction.
    pub fn set_direction_y(&mut self, value: Fixed)
        requires
            old(self).wf(),
        ensures
            final(self).wf(),
            final(self)@ == old(self)@.reconfigured(
                SnowConfigView { direction_y: value, ..old(self)@.config },
                false,
                Seq::empty(),
            ),
    {
        if self.configurable {
            self.config.direction_y = value;
        }
    }

    /// Sets the rotation speed. The particles keep the angular rates that
    /// they were made with until the field is made anew.
    pub fn set_rotation_speed(&mut self, value: Fixed)
        requires
            old(self).wf(),
        ensures
            final(self).wf(),
            final(self)@ == old(self)@.reconfigured(
                SnowConfigView { rotation_speed: value, ..old(self)@.config },
                false,
                Seq::empty(),
            ),
    {
        if self.configurable {
            self.config.rotation_speed = value;
        }
    }

    /// Puts a tint in use.
    pub fn set_color(&mut self, r: Fixed, g: Fixed, b: Fixed)
        requires
            old(self).wf(),
        ensures
            final(self).wf(),
            final(self)@ == old(self)@.with_color(Tint { red: r, green: g, blue: b }),
    {
        if self.configurable {
            self.color_tint = Tint { red: r, green: g, blue: b };
            self.use_color_tint = true;
        }
    }

    /// Puts the tint out of use.
    pub fn clear_color(&mut self)
        requires
            old(self).wf(),
        ensures
            final(self).wf(),
            final(self)@ == old(self)@.without_color(),
    {
        if self.configurable {
            self.use_color_tint = false;
        }
    }

    /// Puts a texture in use.
    pub fn set_texture(&mut self, image: TextureHandle)
        requires
            old(self).wf(),
        ensures
            final(self).wf(),
            final(self)@ == old(self)@.with_texture(Some(image)),
    {
        if self.configurable {
            self.texture = Some(image);
        }
    }

    /// Puts the texture out of use.
    pub fn clear_texture(&mut self)
        requires
            old(self).wf(),
        ensures
            final(self).wf(),
            final(self)@ == old(self)@.with_texture(None),
    {
        if self.configurable {
            self.texture = None;
        }
    }

    /// Frames counted in the last window that closed.
    pub fn get_fps(&self) -> (r: u32)
        ensures
            r == self@.clock.current_fps,
    {
        self.clock.current_fps
    }

    /// Seconds simulated so far.
    pub fn get_time(&self) -> (r: Fixed)
        ensures
            r == self@.clock.simulation_time,
    {
        self.clock.simulation_time
    }

    /// The wind that the particles feel.
    pub fn get_wind(&self) -> (r: Fixed)
        ensures
            r == self@.wind.current,
    {
        self.wind.current
    }

    /// The number of particles in the field.
    pub fn get_particle_count(&self) -> (r: u32)
        requires
            self.wf(),
        ensures
            r == self@.particles.len(),
            r == particle_count_spec(self@.base_particle_count, self@.aspect()),
    {
        self.particles.len() as u32
    }

    /// A copy of the configuration.
    pub fn get_config(&self) -> (r: SnowConfig)
        ensures
            r@ == self@.config,
    {
        self.config.clone()
    }

    /// Whether the setters have any effect.
    pub fn is_configurable(&self) -> (r: bool)
        ensures
            r == self@.configurable,
    {
        self.configurable
    }

    /// Frames counted in the window that is open.
    pub fn frame_count(&self) -> (r: u32)
        ensures
            r == self@.clock.frame_count,
    {
        self.clock.frame_count
    }

    /// The draws that making the field anew takes, where their number fits a
    /// `usize`.
    pub fn draws_needed(&self) -> (r: Option<usize>)
        ensures
            match r {
                Some(n) => n == self@.draws_needed(),
                None => self@.draws_needed() > usize::MAX,
            },
    {
        self.draws_for_count(self.config.particle_count)
    }

    /// The particle field.
    pub fn particles(&self) -> (r: &ParticleAttributes)
        requires
            self.wf(),
        ensures
            r.wf(),
            r@ == self@.particles,
    {
        &self.particles
    }

    /// The texture in use, if any.
    pub fn texture(&self) -> (r: Option<TextureHandle>)
        ensures
            r == self@.texture,
    {
        self.texture
    }

    /// The shader parameters that go with the state as it is.
    pub fn uniforms(&self) -> (r: ShaderUniforms)
        ensures
            r.time == self@.clock.simulation_time,
            r.wind == self@.wind.current,
            r.gravity == self@.config.gravity.mul_spec(self@.config.direction_y),
            r.rotation_speed == self@.config.rotation_speed,
            r.world_size == self@.extents,
            r.point_scale == self@.point_scale,
            r.resolution == (self@.buffer_width, self@.buffer_height),
            r.projection@ == self@.matrix,
            r.color_tint == self@.color_tint,
            r.use_color_tint == self@.use_color_tint,
            r.use_texture == self@.texture.is_some(),
    {
        ShaderUniforms {
            time: self.clock.simulation_time,
            wind: self.wind.current,
            gravity: self.config.gravity.saturating_mul(self.config.direction_y),
            rotation_speed: self.config.rotation_speed,
            world_size: self.extents,
            point_scale: self.projection.point_scale,
            resolution: (self.projection.buffer_width, self.projection.buffer_height),
            projection: self.projection.matrix,
            color_tint: self.color_tint,
            use_color_tint: self.use_color_tint,
            use_texture: self.texture.is_some(),
        }
    }

    /// What holds of every well-formed snowfall.
    pub proof fn lemma_wf_is_consistent(&self)
        requires
            self.wf(),
        ensures
            self@.consistent(),
    {
    }
}

} // verus!
