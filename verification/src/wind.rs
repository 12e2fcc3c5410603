//! The wind: one number per frame, eased towards a target that a gust moves
//! now and then.

use crate::constants::GUST_THRESHOLD;
use crate::constants::SIGN_THRESHOLD;
use crate::constants::WIND_EASING;
use crate::constants::WIND_FORCE_INITIAL;
use crate::constants::WIND_GAIN;
use crate::constants::WIND_MAX;
use crate::constants::WIND_MIN;
use crate::constants::WIND_TARGET_INITIAL;
use crate::fixed::lemma_scaled_between;
use crate::fixed::Fixed;
use crate::fixed::Sample;
use vstd::prelude::*;

verus! {

/// The wind's state. `current` is the wind that the particles feel; `force`
/// and `target` drive it. Nothing bounds `current` or `force`.
#[derive(Clone, Copy, Debug, PartialEq, Eq, Structural)]
pub struct WindState {
    pub current: Fixed,
    pub force: Fixed,
    pub target: Fixed,
    pub min: Fixed,
    pub max: Fixed,
    pub easing: Fixed,
}

/// The three draws that a step of the wind takes.
#[derive(Clone, Copy, Debug, PartialEq, Eq, Structural)]
pub struct WindDraws {
    /// Above ninety-nine hundredths it brings a gust: a new target.
    pub gust: Sample,
    /// Above one half it turns the new target positive, else negative.
    pub sign: Sample,
    /// Where between `min` and `max` the new target's magnitude lies.
    pub magnitude: Sample,
}

impl WindDraws {
    /// Whether the three draws lie in `[0, 1)`.
    pub open spec fn in_unit_interval(self) -> bool {
        &&& self.gust.in_unit_interval()
        &&& self.sign.in_unit_interval()
        &&& self.magnitude.in_unit_interval()
    }

    /// Whether the draws bring a gust.
    pub open spec fn gusts(self) -> bool {
        self.gust@ > GUST_THRESHOLD
    }
}

impl WindState {
    /// The wind before the first frame: calm, with a force and a target to
    /// start from.
    pub open spec fn initial() -> WindState {
        WindState {
            current: Fixed { raw: 0 },
            force: Fixed { raw: WIND_FORCE_INITIAL },
            target: Fixed { raw: WIND_TARGET_INITIAL },
            min: Fixed { raw: WIND_MIN },
            max: Fixed { raw: WIND_MAX },
            easing: Fixed { raw: WIND_EASING },
        }
    }

    /// Whether the target's magnitude lies between `min` and `max`.
    pub open spec fn target_in_range(self) -> bool {
        ||| self.min.raw <= self.target.raw <= self.max.raw
        ||| self.min.raw <= -self.target.raw <= self.max.raw
    }

    /// The target that a gust sets: `min` plus a part of the way to `max`,
    /// with the sign that the draw picks.
    pub open spec fn gust_target(self, draws: WindDraws) -> Fixed {
        let magnitude = self.min.add_spec(self.max.sub_spec(self.min).scaled_spec(draws.magnitude));
        if draws.sign@ > SIGN_THRESHOLD {
            magnitude
        } else {
            magnitude.neg_spec()
        }
    }

    /// The wind after a step of `delta_seconds`: the force moves the share
    /// `easing` of its way to the target, the wind gains half the new force
    /// times the time, and a gust, if one comes, sets a new target.
    pub open spec fn stepped(self, delta_seconds: Fixed, draws: WindDraws) -> WindState {
        let force = self.force.add_spec(self.target.sub_spec(self.force).mul_spec(self.easing));
        WindState {
            current: self.current.add_spec(
                force.mul_spec(delta_seconds).mul_spec(Fixed { raw: WIND_GAIN }),
            ),
            force,
            target: if draws.gusts() {
                self.gust_target(draws)
            } else {
                self.target
            },
            min: self.min,
            max: self.max,
            easing: self.easing,
        }
    }

    /// The wind after one step for each of `deltas`, with the draws at the
    /// same place of `draws`.
    pub open spec fn stepped_all(self, deltas: Seq<Fixed>, draws: Seq<WindDraws>) -> WindState
        decreases deltas.len(),
    {
        if deltas.len() == 0 {
            self
        } else {
            self.stepped_all(deltas.drop_last(), draws.drop_last()).stepped(
                deltas.last(),
                draws.last(),
            )
        }
    }

    /// Advances the wind by `delta_seconds`.
    pub fn step(&mut self, delta_seconds: Fixed, draws: WindDraws)
        ensures
            *final(self) == old(self).stepped(delta_seconds, draws),
            draws.in_unit_interval(),
    {
        self.force = self.force.saturating_add(
            self.target.saturating_sub(self.force).saturating_mul(self.easing),
        );
        self.current = self.current.saturating_add(
            self.force.saturating_mul(delta_seconds).saturating_mul(Fixed { raw: WIND_GAIN }),
        );
        let gusts: bool = draws.gust.exceeds(GUST_THRESHOLD);
        let positive: bool = draws.sign.exceeds(SIGN_THRESHOLD);
        let part = self.max.saturating_sub(self.min).scaled_by(draws.magnitude);
        if gusts {
            let magnitude = self.min.saturating_add(part);
            self.target = if positive {
                magnitude
            } else {
                magnitude.saturating_neg()
            };
        }
    }
}

impl Default for WindState {
    fn default() -> (r: Self)
        ensures
            r == WindState::initial(),
            r.target_in_range(),
    {
        WindState {
            current: Fixed { raw: 0 },
            force: Fixed { raw: WIND_FORCE_INITIAL },
            target: Fixed { raw: WIND_TARGET_INITIAL },
            min: Fixed { raw: WIND_MIN },
            max: Fixed { raw: WIND_MAX },
            easing: Fixed { raw: WIND_EASING },
        }
    }
}

/// With an easing between zero and one, a step moves the force towards the
/// target and not beyond it.
pub proof fn lemma_force_approaches_target(wind: WindState, delta_seconds: Fixed, draws: WindDraws)
    requires
        0 <= wind.easing.raw <= 1_000_000,
    ensures
        wind.force.raw <= wind.target.raw ==> wind.force.raw <= wind.stepped(
            delta_seconds,
            draws,
        ).force.raw <= wind.target.raw,
        wind.force.raw >= wind.target.raw ==> wind.force.raw >= wind.stepped(
            delta_seconds,
            draws,
        ).force.raw >= wind.target.raw,
{
    let gap = wind.target.sub_spec(wind.force).raw as int;
    let eased = gap * wind.easing.raw;
    if gap >= 0 {
        assert(0 <= eased <= gap * 1_000_000) by (nonlinear_arith)
            requires
                eased == gap * wind.easing.raw,
                gap >= 0,
                0 <= wind.easing.raw <= 1_000_000,
        ;
    } else {
        assert(gap * 1_000_000 <= eased <= 0) by (nonlinear_arith)
            requires
                eased == gap * wind.easing.raw,
                gap <= 0,
                0 <= wind.easing.raw <= 1_000_000,
        ;
    }
}

/// A gust sets a target whose magnitude lies between `min` and `max`.
pub proof fn lemma_gust_target_in_range(wind: WindState, delta_seconds: Fixed, draws: WindDraws)
    requires
        0 <= wind.min.raw <= wind.max.raw,
        draws.in_unit_interval(),
        draws.gusts(),
    ensures
        wind.stepped(delta_seconds, draws).target == wind.gust_target(draws),
        wind.stepped(delta_seconds, draws).target_in_range(),
{
    lemma_scaled_between(wind.max.sub_spec(wind.min).raw as int, draws.magnitude@);
}

/// A step keeps a target whose magnitude lies between `min` and `max` there,
/// and never touches `min`, `max` or the easing.
pub proof fn lemma_step_keeps_target_in_range(
    wind: WindState,
    delta_seconds: Fixed,
    draws: WindDraws,
)
    requires
        0 <= wind.min.raw <= wind.max.raw,
        draws.in_unit_interval(),
        wind.target_in_range(),
    ensures
        wind.stepped(delta_seconds, draws).target_in_range(),
        wind.stepped(delta_seconds, draws).min == wind.min,
        wind.stepped(delta_seconds, draws).max == wind.max,
        wind.stepped(delta_seconds, draws).easing == wind.easing,
{
    if draws.gusts() {
        lemma_gust_target_in_range(wind, delta_seconds, draws);
    }
}

/// Where every step brings a gust, the target's magnitude lies between `min`
/// and `max` after any number of steps but none, whatever it was before and
/// whatever the easing.
pub proof fn lemma_gusty_wind_stays_in_range(
    wind: WindState,
    deltas: Seq<Fixed>,
    draws: Seq<WindDraws>,
)
    requires
        0 <= wind.min.raw <= wind.max.raw,
        deltas.len() == draws.len(),
        deltas.len() >= 1,
        forall|i: int|
            0 <= i < draws.len() ==> (#[trigger] draws[i]).in_unit_interval() && draws[i].gusts(),
    ensures
        wind.stepped_all(deltas, draws).target == wind.stepped_all(
            deltas.drop_last(),
            draws.drop_last(),
        ).gust_target(draws.last()),
        wind.stepped_all(deltas, draws).target_in_range(),
        wind.stepped_all(deltas, draws).min == wind.min,
        wind.stepped_all(deltas, draws).max == wind.max,
        wind.stepped_all(deltas, draws).easing == wind.easing,
    decreases deltas.len(),
{
    let earlier = wind.stepped_all(deltas.drop_last(), draws.drop_last());
    if deltas.len() > 1 {
        assert forall|i: int| 0 <= i < draws.drop_last().len() implies (
        #[trigger] draws.drop_last()[i]).in_unit_interval() && draws.drop_last()[i].gusts() by {
            assert(draws.drop_last()[i] == draws[i]);
        }
        lemma_gusty_wind_stays_in_range(wind, deltas.drop_last(), draws.drop_last());
    } else {
        assert(deltas.drop_last().len() == 0);
        assert(earlier == wind);
    }
    assert(draws.last() == draws[draws.len() - 1]);
    lemma_gust_target_in_range(earlier, deltas.last(), draws.last());
}

} // verus!
