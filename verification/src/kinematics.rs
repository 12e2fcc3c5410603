//! Where a particle stands and how it looks at a time: the transform that the
//! vertex stage of the shader applies to every particle in every frame.
//!
//! A particle drifts sideways with time and wind and falls with gravity, and
//! leaves the world box on one side to come back in on the other. On top of
//! that it swings: the host evaluates sine and cosine of the phase that
//! [`oscillation_phase`] gives and hands them to [`position_at`].

use crate::constants::DRIFT_RATE;
use crate::constants::OSCILLATION_RATE;
use crate::constants::ROTATION_RATE;
use crate::constants::SPAN_FACTOR;
use crate::fixed::Fixed;
use crate::particles::Particle;
use crate::particles::WorldExtents;
use vstd::arithmetic::div_mod::lemma_fundamental_div_mod;
use vstd::arithmetic::div_mod::lemma_fundamental_div_mod_converse;
use vstd::prelude::*;

verus! {

/// Where a particle stands at a time.
#[derive(Clone, Copy, Debug, PartialEq, Eq, Structural)]
pub struct Position {
    pub x: Fixed,
    pub y: Fixed,
    pub z: Fixed,
}

/// The coordinate `value` brought into `[-half, half)`: what is left of it
/// over whole spans of twice `half`, never negative, less `half`.
pub open spec fn wrapped_spec(value: Fixed, half: Fixed) -> Fixed {
    let span = half.mul_spec(Fixed { raw: SPAN_FACTOR });
    Fixed { raw: (value.raw % span.raw) as i64 }.sub_spec(half)
}

/// The sideways coordinate at time `t` in a wind: the start plus half the
/// time plus the wind times the particle's own speed, wrapped.
pub open spec fn drifted_x_spec(
    p: Particle,
    t: Fixed,
    wind: Fixed,
    extents: WorldExtents,
) -> Fixed {
    wrapped_spec(
        p.x.add_spec(t.mul_spec(Fixed { raw: DRIFT_RATE })).add_spec(wind.mul_spec(p.speed_x)),
        extents.half_width,
    )
}

/// The height at time `t` under gravity: the start less time times the
/// particle's own speed times gravity, wrapped.
pub open spec fn fallen_y_spec(
    p: Particle,
    t: Fixed,
    gravity: Fixed,
    extents: WorldExtents,
) -> Fixed {
    wrapped_spec(p.y.sub_spec(t.mul_spec(p.speed_y).mul_spec(gravity)), extents.half_height)
}

/// The phase of the swing at time `t`.
pub open spec fn oscillation_phase_spec(p: Particle, t: Fixed, rotation_speed: Fixed) -> Fixed {
    t.mul_spec(p.speed_z).mul_spec(rotation_speed).mul_spec(Fixed { raw: OSCILLATION_RATE })
}

/// How far the particle swings to either side.
pub open spec fn swing_amplitude_spec(p: Particle) -> Fixed {
    p.swing.mul_spec(Fixed { raw: SPAN_FACTOR })
}

/// The angle by which the sprite is turned at time `t`.
pub open spec fn rotation_angle_spec(p: Particle, t: Fixed, rotation_speed: Fixed) -> Fixed {
    p.base_angle.add_spec(
        t.mul_spec(p.angular_rate).mul_spec(rotation_speed).mul_spec(Fixed { raw: ROTATION_RATE }),
    )
}

/// The size of the sprite in device pixels at the clip distance `w`.
pub open spec fn point_size_spec(p: Particle, point_scale: Fixed, w: Fixed) -> Fixed {
    p.size.mul_spec(point_scale).div_spec(w)
}

/// Where the particle stands at time `t`, given sine and cosine of its
/// oscillation phase: drifted and fallen, and swung sideways by the sine and
/// in depth by the cosine.
pub open spec fn position_at_spec(
    p: Particle,
    t: Fixed,
    wind: Fixed,
    gravity: Fixed,
    extents: WorldExtents,
    sine: Fixed,
    cosine: Fixed,
) -> Position {
    Position {
        x: drifted_x_spec(p, t, wind, extents).add_spec(sine.mul_spec(swing_amplitude_spec(p))),
        y: fallen_y_spec(p, t, gravity, extents),
        z: p.z.add_spec(cosine.mul_spec(swing_amplitude_spec(p))),
    }
}

/// What is left of a negative number over whole spans counts up from the
/// far end of the span.
proof fn lemma_remainder_of_negative(n: int, d: int)
    requires
        n > 0,
        d > 0,
    ensures
        (-n) % d == if n % d == 0 {
            0
        } else {
            d - n % d
        },
{
    let q = n / d;
    let r = n % d;
    lemma_fundamental_div_mod(n, d);
    if r == 0 {
        assert(-n == (-q) * d + 0) by (nonlinear_arith)
            requires
                n == d * q + r,
                r == 0,
        ;
        lemma_fundamental_div_mod_converse(-n, d, -q, 0);
    } else {
        assert(-n == (-q - 1) * d + (d - r)) by (nonlinear_arith)
            requires
                n == d * q + r,
        ;
        lemma_fundamental_div_mod_converse(-n, d, -q - 1, d - r);
    }
}

/// The span of a box that has a size is twice its half-extent, or all that
/// the range holds, and has a size too.
proof fn lemma_span_of_box(half: Fixed)
    requires
        half.raw > 0,
    ensures
        0 < half.mul_spec(Fixed { raw: SPAN_FACTOR }).raw <= 2 * half.raw,
{
    assert((half.raw * 2_000_000) / 1_000_000 == 2 * half.raw);
}

/// A wrapped coordinate lies in the world box, at or above its lower side and
/// below its upper side.
pub proof fn lemma_wrapped_in_box(value: Fixed, half: Fixed)
    requires
        half.raw > 0,
    ensures
        -half.raw <= wrapped_spec(value, half).raw < half.raw,
{
    let span = half.mul_spec(Fixed { raw: SPAN_FACTOR });
    lemma_span_of_box(half);
    lemma_fundamental_div_mod(value.raw as int, span.raw as int);
}

/// A coordinate that is one span further on wraps to the same place: what
/// leaves the box on one side comes back in on the other.
pub proof fn lemma_wrap_is_periodic(value: Fixed, further: Fixed, half: Fixed)
    requires
        half.raw > 0,
        further.raw == value.raw + half.mul_spec(Fixed { raw: SPAN_FACTOR }).raw,
    ensures
        wrapped_spec(further, half) == wrapped_spec(value, half),
{
    let span = half.mul_spec(Fixed { raw: SPAN_FACTOR }).raw as int;
    lemma_span_of_box(half);
    let q = (value.raw as int) / span;
    let r = (value.raw as int) % span;
    lemma_fundamental_div_mod(value.raw as int, span);
    assert(further.raw == (q + 1) * span + r) by (nonlinear_arith)
        requires
            value.raw == span * q + r,
            further.raw == value.raw + span,
    ;
    lemma_fundamental_div_mod_converse(further.raw as int, span, q + 1, r);
}

/// The coordinate `value` brought into `[-half, half)`.
pub fn wrapped(value: Fixed, half: Fixed) -> (r: Fixed)
    requires
        half.raw > 0,
    ensures
        r == wrapped_spec(value, half),
        -half.raw <= r.raw < half.raw,
{
    let span: i64 = half.saturating_mul(Fixed { raw: SPAN_FACTOR }).raw;
    proof {
        lemma_span_of_box(half);
    }
    let rest: i64 = if value.raw >= 0 {
        value.raw % span
    } else {
        let back: u64 = ((-(value.raw as i128)) as u64) % (span as u64);
        proof {
            lemma_remainder_of_negative(-(value.raw as int), span as int);
        }
        if back == 0 {
            0
        } else {
            span - (back as i64)
        }
    };
    proof {
        lemma_wrapped_in_box(value, half);
    }
    Fixed { raw: rest }.saturating_sub(half)
}

/// The sideways coordinate at time `t` in a wind.
pub fn drifted_x(p: &Particle, t: Fixed, wind: Fixed, extents: &WorldExtents) -> (r: Fixed)
    requires
        extents.half_width.raw > 0,
    ensures
        r == drifted_x_spec(*p, t, wind, *extents),
        -extents.half_width.raw <= r.raw < extents.half_width.raw,
{
    wrapped(
        p.x.saturating_add(t.saturating_mul(Fixed { raw: DRIFT_RATE })).saturating_add(
            wind.saturating_mul(p.speed_x),
        ),
        extents.half_width,
    )
}

/// The height at time `t` under gravity.
pub fn fallen_y(p: &Particle, t: Fixed, gravity: Fixed, extents: &WorldExtents) -> (r: Fixed)
    requires
        extents.half_height.raw > 0,
    ensures
        r == fallen_y_spec(*p, t, gravity, *extents),
        -extents.half_height.raw <= r.raw < extents.half_height.raw,
{
    wrapped(
        p.y.saturating_sub(t.saturating_mul(p.speed_y).saturating_mul(gravity)),
        extents.half_height,
    )
}

/// The phase of the swing at time `t`.
pub fn oscillation_phase(p: &Particle, t: Fixed, rotation_speed: Fixed) -> (r: Fixed)
    ensures
        r == oscillation_phase_spec(*p, t, rotation_speed),
{
    t.saturating_mul(p.speed_z).saturating_mul(rotation_speed).saturating_mul(
        Fixed { raw: OSCILLATION_RATE },
    )
}

/// How far the particle swings to either side.
pub fn swing_amplitude(p: &Particle) -> (r: Fixed)
    ensures
        r == swing_amplitude_spec(*p),
{
    p.swing.saturating_mul(Fixed { raw: SPAN_FACTOR })
}

/// The angle by which the sprite is turned at time `t`.
pub fn rotation_angle(p: &Particle, t: Fixed, rotation_speed: Fixed) -> (r: Fixed)
    ensures
        r == rotation_angle_spec(*p, t, rotation_speed),
{
    p.base_angle.saturating_add(
        t.saturating_mul(p.angular_rate).saturating_mul(rotation_speed).saturating_mul(
            Fixed { raw: ROTATION_RATE },
        ),
    )
}

/// The size of the sprite in device pixels at the clip distance `w`.
pub fn point_size(p: &Particle, point_scale: Fixed, w: Fixed) -> (r: Fixed)
    ensures
        r == point_size_spec(*p, point_scale, w),
{
    p.size.saturating_mul(point_scale).saturating_div(w)
}

/// Where the particle stands at time `t`, given sine and cosine of its
/// oscillation phase.
pub fn position_at(
    p: &Particle,
    t: Fixed,
    wind: Fixed,
    gravity: Fixed,
    extents: &WorldExtents,
    sine: Fixed,
    cosine: Fixed,
) -> (r: Position)
    requires
        extents.half_width.raw > 0,
        extents.half_height.raw > 0,
    ensures
        r == position_at_spec(*p, t, wind, gravity, *extents, sine, cosine),
{
    let swing = swing_amplitude(p);
    Position {
        x: drifted_x(p, t, wind, extents).saturating_add(sine.saturating_mul(swing)),
        y: fallen_y(p, t, gravity, extents),
        z: p.z.saturating_add(cosine.saturating_mul(swing)),
    }
}

} // verus!
