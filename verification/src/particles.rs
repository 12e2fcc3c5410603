//! The particle field: how many particles a viewport gets, and what each is made of.
//!
//! A field is made from a configuration, the viewport's aspect ratio and a
//! sequence of draws from a random source, eleven to a particle. The same
//! inputs always give the same field.

use crate::config::SnowConfig;
use crate::config::SnowConfigView;
use crate::constants::ANGULAR_RATE_SPREAD;
use crate::constants::FULL_TURN;
use crate::constants::SIZE_SPREAD;
use crate::constants::SPAN_FACTOR;
use crate::constants::SPEED_X_SPREAD;
use crate::constants::SPEED_Y_SPREAD;
use crate::constants::SPEED_Z_SPREAD;
use crate::constants::SWING_SPREAD;
use crate::constants::WORLD_HEIGHT;
use crate::fixed::lemma_scaled_between;
use crate::fixed::Fixed;
use crate::fixed::Sample;
use crate::fixed::SCALE;
use vstd::prelude::*;

verus! {

/// Draws that one particle takes.
pub const DRAWS_PER_PARTICLE: usize = 11;

/// Half the size of the world box along each axis.
#[derive(Clone, Copy, Debug, PartialEq, Eq, Structural)]
pub struct WorldExtents {
    pub half_width: Fixed,
    pub half_height: Fixed,
    pub half_depth: Fixed,
}

/// One particle: where it starts, how it moves and turns, and how it looks.
#[derive(Clone, Copy, Debug, PartialEq, Eq, Structural)]
pub struct Particle {
    pub x: Fixed,
    pub y: Fixed,
    pub z: Fixed,
    pub speed_x: Fixed,
    pub speed_y: Fixed,
    pub speed_z: Fixed,
    pub base_angle: Fixed,
    pub angular_rate: Fixed,
    pub swing: Fixed,
    pub red: Fixed,
    pub green: Fixed,
    pub blue: Fixed,
    pub alpha: Fixed,
    pub size: Fixed,
}

/// A particle field as five parallel arrays, laid out as a vertex buffer
/// wants them: three numbers to a position, a speed and a rotation, four to a
/// color, one to a size.
#[derive(Debug)]
pub struct ParticleAttributes {
    pub positions: Vec<Fixed>,
    pub colors: Vec<Fixed>,
    pub sizes: Vec<Fixed>,
    pub rotations: Vec<Fixed>,
    pub speeds: Vec<Fixed>,
}

/// The number of particles for `base_count` at an aspect ratio: their product
/// rounded down, held between zero and the largest `u32`.
///
/// The product is that of the aspect ratio as it is given, a number of
/// millionths. Where that number was itself rounded, as the ratio of a
/// buffer's width and height is, the count is that of the rounded ratio and
/// may fall short of what the exact ratio would give: a third, held as
/// 0.333333, gives 999 particles for a base count of 3000, not 1000.
pub open spec fn particle_count_spec(base_count: u32, aspect: Fixed) -> u32 {
    let exact = (aspect.raw * base_count) / (SCALE as int);
    if exact < 0 {
        0
    } else if exact > u32::MAX {
        u32::MAX
    } else {
        exact as u32
    }
}

/// The draws that a field for `base_count` at an aspect ratio takes.
pub open spec fn required_draws_spec(base_count: u32, aspect: Fixed) -> int {
    DRAWS_PER_PARTICLE * particle_count_spec(base_count, aspect)
}

/// A coordinate in `[-half, half]`: the lower end plus the part `s` of the span.
pub open spec fn placed(half: Fixed, s: Sample) -> Fixed {
    half.neg_spec().add_spec(half.scaled_spec(s).mul_spec(Fixed { raw: SPAN_FACTOR }))
}

/// The particle that the eleven draws `d` give.
pub open spec fn spawned(
    config: SnowConfigView,
    extents: WorldExtents,
    d: Seq<Sample>,
) -> Particle {
    Particle {
        x: placed(extents.half_width, d[0]),
        y: placed(extents.half_height, d[1]),
        z: placed(extents.half_depth, d[2]),
        speed_x: config.speed_x.add_spec(Fixed { raw: SPEED_X_SPREAD }.scaled_spec(d[3])).mul_spec(
            config.direction_x,
        ),
        speed_y: config.speed_y.add_spec(Fixed { raw: SPEED_Y_SPREAD }.scaled_spec(d[4])),
        speed_z: Fixed { raw: SPEED_Z_SPREAD }.scaled_spec(d[5]),
        base_angle: Fixed { raw: FULL_TURN }.scaled_spec(d[6]),
        angular_rate: Fixed { raw: ANGULAR_RATE_SPREAD }.scaled_spec(d[7]).mul_spec(
            config.rotation_speed,
        ),
        swing: Fixed { raw: SWING_SPREAD }.scaled_spec(d[8]),
        red: Fixed { raw: SCALE },
        green: Fixed { raw: SCALE },
        blue: Fixed { raw: SCALE },
        alpha: config.min_alpha.add_spec(
            Fixed { raw: SCALE }.sub_spec(config.min_alpha).scaled_spec(d[9]),
        ),
        size: config.min_size.add_spec(Fixed { raw: SIZE_SPREAD }.scaled_spec(d[10])),
    }
}

/// The eleven draws of particle `i`: those from `11 * i` on.
pub open spec fn draws_of(draws: Seq<Sample>, i: int) -> Seq<Sample> {
    draws.subrange(DRAWS_PER_PARTICLE * i, DRAWS_PER_PARTICLE * i + DRAWS_PER_PARTICLE)
}

/// The field of `base_count` particles at an aspect ratio, each made of its
/// own eleven draws.
pub open spec fn field_spec(
    base_count: u32,
    aspect: Fixed,
    config: SnowConfigView,
    draws: Seq<Sample>,
) -> Seq<Particle> {
    Seq::new(
        particle_count_spec(base_count, aspect) as nat,
        |i: int|
            spawned(config, WorldExtents::of(aspect, config.depth), draws_of(draws, i)),
    )
}

/// The particle whose attributes stand at place `i` of five parallel arrays.
pub open spec fn particle_in(
    positions: Seq<Fixed>,
    colors: Seq<Fixed>,
    sizes: Seq<Fixed>,
    rotations: Seq<Fixed>,
    speeds: Seq<Fixed>,
    i: int,
) -> Particle {
    Particle {
        x: positions[3 * i],
        y: positions[3 * i + 1],
        z: positions[3 * i + 2],
        speed_x: speeds[3 * i],
        speed_y: speeds[3 * i + 1],
        speed_z: speeds[3 * i + 2],
        base_angle: rotations[3 * i],
        angular_rate: rotations[3 * i + 1],
        swing: rotations[3 * i + 2],
        red: colors[4 * i],
        green: colors[4 * i + 1],
        blue: colors[4 * i + 2],
        alpha: colors[4 * i + 3],
        size: sizes[i],
    }
}

impl WorldExtents {
    /// The world box for a viewport: as high as the fixed world height, as wide
    /// as the aspect ratio makes it, as deep as the configuration says.
    pub open spec fn of(aspect: Fixed, depth: Fixed) -> WorldExtents {
        WorldExtents {
            half_width: aspect.mul_spec(Fixed { raw: WORLD_HEIGHT }),
            half_height: Fixed { raw: WORLD_HEIGHT },
            half_depth: depth,
        }
    }

    /// The world box for a viewport.
    pub fn new(aspect: Fixed, depth: Fixed) -> (r: WorldExtents)
        ensures
            r == WorldExtents::of(aspect, depth),
    {
        WorldExtents {
            half_width: aspect.saturating_mul(Fixed { raw: WORLD_HEIGHT }),
            half_height: Fixed { raw: WORLD_HEIGHT },
            half_depth: depth,
        }
    }
}

impl Particle {
    /// Whether the particle starts inside the world box, is no fainter than the
    /// least opacity and not opaque beyond one, and is no smaller than the least
    /// size and no larger than that plus the spread. A bound along an axis is
    /// claimed where the half-extent is not negative, and that of the opacity
    /// where the least opacity is at most one.
    pub open spec fn within(self, config: SnowConfigView, extents: WorldExtents) -> bool {
        &&& extents.half_width.raw >= 0 ==> -extents.half_width.raw <= self.x.raw
            <= extents.half_width.raw
        &&& extents.half_height.raw >= 0 ==> -extents.half_height.raw <= self.y.raw
            <= extents.half_height.raw
        &&& extents.half_depth.raw >= 0 ==> -extents.half_depth.raw <= self.z.raw
            <= extents.half_depth.raw
        &&& config.min_alpha.raw <= SCALE ==> config.min_alpha.raw <= self.alpha.raw <= SCALE
        &&& config.min_size.raw <= self.size.raw <= config.min_size.add_spec(
            Fixed { raw: SIZE_SPREAD },
        ).raw
    }
}

impl View for ParticleAttributes {
    type V = Seq<Particle>;

    open spec fn view(&self) -> Seq<Particle> {
        Seq::new(
            self.sizes@.len(),
            |i: int|
                particle_in(
                    self.positions@,
                    self.colors@,
                    self.sizes@,
                    self.rotations@,
                    self.speeds@,
                    i,
                ),
        )
    }
}

impl ParticleAttributes {
    /// The five arrays hold the same number of particles.
    pub open spec fn wf(&self) -> bool {
        &&& self.positions@.len() == 3 * self.sizes@.len()
        &&& self.colors@.len() == 4 * self.sizes@.len()
        &&& self.rotations@.len() == 3 * self.sizes@.len()
        &&& self.speeds@.len() == 3 * self.sizes@.len()
    }

    /// The number of particles.
    pub fn len(&self) -> (r: usize)
        ensures
            r == self@.len(),
    {
        self.sizes.len()
    }

    /// Particle `i` of the field.
    pub fn particle(&self, i: usize) -> (r: Particle)
        requires
            self.wf(),
            i < self@.len(),
        ensures
            r == self@[i as int],
    {
        assert(3 * i + 2 < self.positions.len() && 4 * i + 3 < self.colors.len());
        Particle {
            x: self.positions[3 * i],
            y: self.positions[3 * i + 1],
            z: self.positions[3 * i + 2],
            speed_x: self.speeds[3 * i],
            speed_y: self.speeds[3 * i + 1],
            speed_z: self.speeds[3 * i + 2],
            base_angle: self.rotations[3 * i],
            angular_rate: self.rotations[3 * i + 1],
            swing: self.rotations[3 * i + 2],
            red: self.colors[4 * i],
            green: self.colors[4 * i + 1],
            blue: self.colors[4 * i + 2],
            alpha: self.colors[4 * i + 3],
            size: self.sizes[i],
        }
    }
}

/// A placed coordinate lies in `[-half, half]`.
pub proof fn lemma_placed_within(half: Fixed, s: Sample)
    requires
        s.in_unit_interval(),
        half.raw >= 0,
    ensures
        -half.raw <= placed(half, s).raw <= half.raw,
{
    lemma_scaled_between(half.raw as int, s@);
}

/// Every particle that draws from `[0, 1)` give starts inside the world box
/// and has an opacity and a size within the configured bounds.
pub proof fn lemma_spawned_within(config: SnowConfigView, extents: WorldExtents, d: Seq<Sample>)
    requires
        d.len() == DRAWS_PER_PARTICLE,
        forall|k: int| 0 <= k < d.len() ==> (#[trigger] d[k]).in_unit_interval(),
    ensures
        spawned(config, extents, d).within(config, extents),
{
    if extents.half_width.raw >= 0 {
        lemma_placed_within(extents.half_width, d[0]);
    }
    if extents.half_height.raw >= 0 {
        lemma_placed_within(extents.half_height, d[1]);
    }
    if extents.half_depth.raw >= 0 {
        lemma_placed_within(extents.half_depth, d[2]);
    }
    lemma_scaled_between(Fixed { raw: SCALE }.sub_spec(config.min_alpha).raw as int, d[9]@);
    lemma_scaled_between(SIZE_SPREAD as int, d[10]@);
}

/// Every particle of a field made of draws from `[0, 1)` starts inside the
/// world box and has an opacity and a size within the configured bounds.
pub proof fn lemma_field_within_bounds(
    base_count: u32,
    aspect: Fixed,
    config: SnowConfigView,
    draws: Seq<Sample>,
)
    requires
        draws.len() >= required_draws_spec(base_count, aspect),
        forall|k: int| 0 <= k < draws.len() ==> (#[trigger] draws[k]).in_unit_interval(),
    ensures
        forall|i: int|
            0 <= i < particle_count_spec(base_count, aspect) ==> (#[trigger] field_spec(
                base_count,
                aspect,
                config,
                draws,
            )[i]).within(config, WorldExtents::of(aspect, config.depth)),
{
    let extents = WorldExtents::of(aspect, config.depth);
    assert forall|i: int| 0 <= i < particle_count_spec(base_count, aspect) implies (
    #[trigger] field_spec(base_count, aspect, config, draws)[i]).within(config, extents) by {
        let d = draws_of(draws, i);
        assert forall|k: int| 0 <= k < d.len() implies (#[trigger] d[k]).in_unit_interval() by {
            assert(d[k] == draws[DRAWS_PER_PARTICLE * i + k]);
        }
        lemma_spawned_within(config, extents, d);
    }
}

/// For an aspect ratio that is not negative, the number of particles is the
/// product of aspect ratio and base count, rounded down, as long as a `u32`
/// holds it.
pub proof fn lemma_count_is_product_rounded_down(base_count: u32, aspect: Fixed)
    requires
        aspect.raw >= 0,
        (aspect.raw * base_count) / (SCALE as int) <= u32::MAX,
    ensures
        particle_count_spec(base_count, aspect) == (aspect.raw * base_count) / (SCALE as int),
{
    assert(aspect.raw * base_count >= 0) by (nonlinear_arith)
        requires
            aspect.raw >= 0,
            base_count >= 0,
    ;
}

/// At a whole aspect ratio the number of particles is that many times the
/// base count; at an aspect ratio of one it is the base count.
pub proof fn lemma_count_at_whole_aspect(base_count: u32, whole: nat)
    requires
        whole * base_count <= u32::MAX,
        whole * SCALE <= i64::MAX,
    ensures
        particle_count_spec(base_count, Fixed { raw: (whole * SCALE) as i64 }) == whole
            * base_count,
{
    let product = (whole * SCALE) * base_count;
    assert(product == (whole * base_count) * SCALE) by (nonlinear_arith)
        requires
            product == (whole * SCALE) * base_count,
    ;
}

/// The world box of an aspect ratio that is not negative has a width and a
/// height that are not negative.
pub proof fn lemma_world_box_has_size(aspect: Fixed, depth: Fixed)
    requires
        aspect.raw >= 0,
    ensures
        WorldExtents::of(aspect, depth).half_width.raw >= 0,
        WorldExtents::of(aspect, depth).half_height.raw > 0,
{
}

/// A field is made of the draws that its particles take and of no others:
/// two sequences of draws that agree on those give the same field.
pub proof fn lemma_field_reads_its_draws(
    base_count: u32,
    aspect: Fixed,
    config: SnowConfigView,
    first: Seq<Sample>,
    second: Seq<Sample>,
)
    requires
        first.len() >= required_draws_spec(base_count, aspect),
        second.len() >= required_draws_spec(base_count, aspect),
        forall|k: int| 0 <= k < required_draws_spec(base_count, aspect) ==> first[k] == second[k],
    ensures
        field_spec(base_count, aspect, config, first) == field_spec(
            base_count,
            aspect,
            config,
            second,
        ),
{
    let count = particle_count_spec(base_count, aspect) as int;
    assert forall|i: int| 0 <= i < count implies #[trigger] draws_of(first, i) == draws_of(
        second,
        i,
    ) by {
        assert(draws_of(first, i) =~= draws_of(second, i));
    }
    assert(field_spec(base_count, aspect, config, first) =~= field_spec(
        base_count,
        aspect,
        config,
        second,
    ));
}

/// The number of particles for `base_count` at an aspect ratio.
pub fn particle_count(base_count: u32, aspect: Fixed) -> (r: u32)
    ensures
        r == particle_count_spec(base_count, aspect),
{
    if aspect.raw < 0 {
        assert((aspect.raw * base_count) / (SCALE as int) <= 0) by (nonlinear_arith)
            requires
                aspect.raw < 0,
                base_count >= 0,
        ;
        return 0;
    }
    let a: u128 = aspect.raw as u128;
    let b: u128 = base_count as u128;
    assert(0 <= a * b <= 0x8000_0000_0000_0000_0000_0000) by (nonlinear_arith)
        requires
            0 <= a <= 0x8000_0000_0000_0000,
            0 <= b <= 0x1_0000_0000,
    ;
    let exact: u128 = (a * b) / 1_000_000;
    if exact > u32::MAX as u128 {
        u32::MAX
    } else {
        exact as u32
    }
}

/// The draws that a field for `base_count` at an aspect ratio takes, where
/// their number fits a `usize`.
pub fn required_draws(base_count: u32, aspect: Fixed) -> (r: Option<usize>)
    ensures
        match r {
            Some(n) => n == required_draws_spec(base_count, aspect),
            None => required_draws_spec(base_count, aspect) > usize::MAX,
        },
{
    let needed: u64 = 11 * (particle_count(base_count, aspect) as u64);
    if needed <= usize::MAX as u64 {
        Some(needed as usize)
    } else {
        None
    }
}

/// The particle made of the eleven draws from `start` on.
pub fn spawn(config: &SnowConfig, extents: &WorldExtents, draws: &Vec<Sample>, start: usize) -> (r:
    Particle)
    requires
        start + DRAWS_PER_PARTICLE <= draws@.len(),
    ensures
        r == spawned(
            config@,
            *extents,
            draws@.subrange(start as int, start + DRAWS_PER_PARTICLE),
        ),
        r.within(config@, *extents),
{
    let ghost d = draws@.subrange(start as int, start + DRAWS_PER_PARTICLE);
    assert(start + 10 < draws.len());
    let one = Fixed { raw: SCALE };
    let x = extents.half_width.saturating_neg().saturating_add(
        extents.half_width.scaled_by(draws[start]).saturating_mul(Fixed { raw: SPAN_FACTOR }),
    );
    let y = extents.half_height.saturating_neg().saturating_add(
        extents.half_height.scaled_by(draws[start + 1]).saturating_mul(Fixed { raw: SPAN_FACTOR }),
    );
    let z = extents.half_depth.saturating_neg().saturating_add(
        extents.half_depth.scaled_by(draws[start + 2]).saturating_mul(Fixed { raw: SPAN_FACTOR }),
    );
    let speed_x = config.speed_x.saturating_add(
        Fixed { raw: SPEED_X_SPREAD }.scaled_by(draws[start + 3]),
    ).saturating_mul(config.direction_x);
    let speed_y = config.speed_y.saturating_add(
        Fixed { raw: SPEED_Y_SPREAD }.scaled_by(draws[start + 4]),
    );
    let speed_z = Fixed { raw: SPEED_Z_SPREAD }.scaled_by(draws[start + 5]);
    let base_angle = Fixed { raw: FULL_TURN }.scaled_by(draws[start + 6]);
    let angular_rate = Fixed { raw: ANGULAR_RATE_SPREAD }.scaled_by(
        draws[start + 7],
    ).saturating_mul(config.rotation_speed);
    let swing = Fixed { raw: SWING_SPREAD }.scaled_by(draws[start + 8]);
    let alpha = config.min_alpha.saturating_add(
        one.saturating_sub(config.min_alpha).scaled_by(draws[start + 9]),
    );
    let size = config.min_size.saturating_add(
        Fixed { raw: SIZE_SPREAD }.scaled_by(draws[start + 10]),
    );
    proof {
        assert forall|k: int| 0 <= k < d.len() implies (#[trigger] d[k]).in_unit_interval() by {
            assert(d[k] == draws@[start + k]);
        }
        lemma_spawned_within(config@, *extents, d);
    }
    Particle {
        x,
        y,
        z,
        speed_x,
        speed_y,
        speed_z,
        base_angle,
        angular_rate,
        swing,
        red: one,
        green: one,
        blue: one,
        alpha,
        size,
    }
}

/// Makes the particle field for `base_count` particles at an aspect ratio.
///
/// Particle `i` is made of the draws from `11 * i` on; draws beyond those of
/// the last particle are not looked at.
pub fn generate(base_count: u32, aspect: Fixed, config: &SnowConfig, draws: &Vec<Sample>) -> (r:
    ParticleAttributes)
    requires
        draws@.len() >= required_draws_spec(base_count, aspect),
    ensures
        r.wf(),
        r@ == field_spec(base_count, aspect, config@, draws@),
        r@.len() == particle_count_spec(base_count, aspect),
        r.positions@.len() == 3 * particle_count_spec(base_count, aspect),
        r.colors@.len() == 4 * particle_count_spec(base_count, aspect),
        r.sizes@.len() == particle_count_spec(base_count, aspect),
        r.rotations@.len() == 3 * particle_count_spec(base_count, aspect),
        r.speeds@.len() == 3 * particle_count_spec(base_count, aspect),
        forall|i: int|
            0 <= i < r@.len() ==> (#[trigger] r@[i]).within(
                config@,
                WorldExtents::of(aspect, config.depth),
            ),
{
    let count: usize = particle_count(base_count, aspect) as usize;
    let available: usize = draws.len();
    let extents = WorldExtents::new(aspect, config.depth);
    let mut positions: Vec<Fixed> = Vec::new();
    let mut colors: Vec<Fixed> = Vec::new();
    let mut sizes: Vec<Fixed> = Vec::new();
    let mut rotations: Vec<Fixed> = Vec::new();
    let mut speeds: Vec<Fixed> = Vec::new();
    let mut i: usize = 0;
    while i < count
        invariant
            i <= count,
            DRAWS_PER_PARTICLE * count <= available,
            available == draws@.len(),
            extents == WorldExtents::of(aspect, config.depth),
            positions@.len() == 3 * i,
            colors@.len() == 4 * i,
            sizes@.len() == i,
            rotations@.len() == 3 * i,
            speeds@.len() == 3 * i,
            forall|j: int|
                0 <= j < i ==> #[trigger] particle_in(
                    positions@,
                    colors@,
                    sizes@,
                    rotations@,
                    speeds@,
                    j,
                ) == spawned(config@, extents, draws_of(draws@, j)),
            forall|j: int|
                0 <= j < i ==> (#[trigger] particle_in(
                    positions@,
                    colors@,
                    sizes@,
                    rotations@,
                    speeds@,
                    j,
                )).within(config@, extents),
        decreases count - i,
    {
        let ghost before = (positions@, colors@, sizes@, rotations@, speeds@);
        let p = spawn(config, &extents, draws, DRAWS_PER_PARTICLE * i);
        positions.push(p.x);
        positions.push(p.y);
        positions.push(p.z);
        colors.push(p.red);
        colors.push(p.green);
        colors.push(p.blue);
        colors.push(p.alpha);
        sizes.push(p.size);
        rotations.push(p.base_angle);
        rotations.push(p.angular_rate);
        rotations.push(p.swing);
        speeds.push(p.speed_x);
        speeds.push(p.speed_y);
        speeds.push(p.speed_z);
        proof {
            assert forall|j: int| 0 <= j < i implies particle_in(
                positions@,
                colors@,
                sizes@,
                rotations@,
                speeds@,
                j,
            ) == particle_in(before.0, before.1, before.2, before.3, before.4, j) by {}
            assert(particle_in(positions@, colors@, sizes@, rotations@, speeds@, i as int) == p);
        }
        i += 1;
    }
    let r = ParticleAttributes { positions, colors, sizes, rotations, speeds };
    proof {
        assert(r@ =~= field_spec(base_count, aspect, config@, draws@));
    }
    r
}

/// Making a field twice from the same inputs gives the same five arrays,
/// number for number.
pub proof fn lemma_generation_repeats(
    base_count: u32,
    aspect: Fixed,
    config: SnowConfigView,
    draws: Seq<Sample>,
    first: ParticleAttributes,
    second: ParticleAttributes,
)
    requires
        first.wf(),
        second.wf(),
        first@ == field_spec(base_count, aspect, config, draws),
        second@ == field_spec(base_count, aspect, config, draws),
    ensures
        first.positions@ == second.positions@,
        first.colors@ == second.colors@,
        first.sizes@ == second.sizes@,
        first.rotations@ == second.rotations@,
        first.speeds@ == second.speeds@,
{
    lemma_same_particles_same_arrays(first, second);
}

/// Two well-formed fields of the same particles hold the same arrays.
pub proof fn lemma_same_particles_same_arrays(a: ParticleAttributes, b: ParticleAttributes)
    requires
        a.wf(),
        b.wf(),
        a@ == b@,
    ensures
        a.positions@ == b.positions@,
        a.colors@ == b.colors@,
        a.sizes@ == b.sizes@,
        a.rotations@ == b.rotations@,
        a.speeds@ == b.speeds@,
{
    let n = a.sizes@.len() as int;
    assert(a@.len() == n && b@.len() == b.sizes@.len());
    assert forall|i: int| 0 <= i < n implies particle_in(
        a.positions@,
        a.colors@,
        a.sizes@,
        a.rotations@,
        a.speeds@,
        i,
    ) == #[trigger] particle_in(b.positions@, b.colors@, b.sizes@, b.rotations@, b.speeds@, i) by {
        assert(a@[i] == particle_in(a.positions@, a.colors@, a.sizes@, a.rotations@, a.speeds@, i));
        assert(b@[i] == particle_in(b.positions@, b.colors@, b.sizes@, b.rotations@, b.speeds@, i));
    }
    assert forall|k: int| 0 <= k < 3 * n implies a.positions@[k] == b.positions@[k]
        && a.rotations@[k] == b.rotations@[k] && a.speeds@[k] == b.speeds@[k] by {
        let i = k / 3;
        let pa = particle_in(a.positions@, a.colors@, a.sizes@, a.rotations@, a.speeds@, i);
        let pb = particle_in(b.positions@, b.colors@, b.sizes@, b.rotations@, b.speeds@, i);
        assert(pa == pb);
        assert(k == 3 * i || k == 3 * i + 1 || k == 3 * i + 2);
    }
    assert forall|k: int| 0 <= k < 4 * n implies a.colors@[k] == b.colors@[k] by {
        let i = k / 4;
        let pa = particle_in(a.positions@, a.colors@, a.sizes@, a.rotations@, a.speeds@, i);
        let pb = particle_in(b.positions@, b.colors@, b.sizes@, b.rotations@, b.speeds@, i);
        assert(pa == pb);
        assert(k == 4 * i || k == 4 * i + 1 || k == 4 * i + 2 || k == 4 * i + 3);
    }
    assert forall|k: int| 0 <= k < n implies a.sizes@[k] == b.sizes@[k] by {
        let pa = particle_in(a.positions@, a.colors@, a.sizes@, a.rotations@, a.speeds@, k);
        let pb = particle_in(b.positions@, b.colors@, b.sizes@, b.rotations@, b.speeds@, k);
        assert(pa == pb);
    }
    assert(a.positions@ =~= b.positions@);
    assert(a.colors@ =~= b.colors@);
    assert(a.sizes@ =~= b.sizes@);
    assert(a.rotations@ =~= b.rotations@);
    assert(a.speeds@ =~= b.speeds@);
}

} // verus!
