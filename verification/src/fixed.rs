//! Decimal fixed-point numbers with six fractional digits.
//!
//! Every quantity of the simulation (lengths, speeds, angles, times) is a
//! [`Fixed`]: a count of millionths in an `i64`. Arithmetic rounds towards
//! minus infinity and is held at the ends of the `i64` range, so that every
//! operation is total. A [`Sample`] is a number of the half-open interval
//! from zero to one, as a random source hands out.

use vstd::arithmetic::div_mod::lemma_fundamental_div_mod;
use vstd::arithmetic::div_mod::lemma_fundamental_div_mod_converse;
use vstd::prelude::*;

verus! {

/// Raw units in one whole.
pub const SCALE: i64 = 1_000_000;

/// A fixed-point number; `raw` counts millionths.
#[derive(Clone, Copy, Debug, PartialEq, Eq, Structural)]
pub struct Fixed {
    pub raw: i64,
}

/// A number in `[0, 1)`, counted in millionths.
#[derive(Clone, Copy, Debug, PartialEq, Eq, Structural)]
pub struct Sample {
    micros: u32,
}

/// The integer nearest to `v` that an `i64` holds.
pub open spec fn saturate(v: int) -> int {
    if v < i64::MIN {
        i64::MIN as int
    } else if v > i64::MAX {
        i64::MAX as int
    } else {
        v
    }
}

/// Rounding a negative quotient down is rounding the opposite quotient up.
proof fn lemma_floor_of_negative(n: int, d: int)
    requires
        n >= 0,
        d > 0,
    ensures
        (-n) / d == -((n + d - 1) / d),
{
    let q = (n + d - 1) / d;
    let r = (n + d - 1) % d;
    lemma_fundamental_div_mod(n + d - 1, d);
    assert(-n == (-q) * d + (d - 1 - r)) by (nonlinear_arith)
        requires
            n + d - 1 == d * q + r,
    ;
    lemma_fundamental_div_mod_converse(-n, d, -q, d - 1 - r);
}

/// A product with a factor in `[0, 1)` lies between zero and the other factor.
pub proof fn lemma_scaled_between(x: int, s: int)
    requires
        0 <= s < SCALE,
    ensures
        x >= 0 ==> 0 <= (x * s) / (SCALE as int) <= x,
        x <= 0 ==> x <= (x * s) / (SCALE as int) <= 0,
{
    let p = x * s;
    if x >= 0 {
        assert(0 <= p <= x * 1_000_000) by (nonlinear_arith)
            requires
                p == x * s,
                x >= 0,
                0 <= s < 1_000_000,
        ;
    } else {
        assert(x * 1_000_000 <= p <= 0) by (nonlinear_arith)
            requires
                p == x * s,
                x <= 0,
                0 <= s < 1_000_000,
        ;
    }
}

impl Sample {
    /// The sample in millionths.
    pub closed spec fn view(self) -> int {
        self.micros as int
    }

    /// Whether the sample lies in `[0, 1)`. Every sample that executable code
    /// holds does; a sample that only a proof speaks of may not.
    pub open spec fn in_unit_interval(self) -> bool {
        0 <= self@ < SCALE
    }

    #[verifier::type_invariant]
    spec fn below_one(self) -> bool {
        self.micros < 1_000_000
    }

    /// The sample of `micros` millionths, where that is below one.
    pub fn new(micros: u32) -> (r: Option<Sample>)
        ensures
            r is Some <==> micros < SCALE,
            r is Some ==> r->Some_0@ == micros && r->Some_0.in_unit_interval(),
    {
        if micros < 1_000_000 {
            Some(Sample { micros })
        } else {
            None
        }
    }

    /// The sample in millionths.
    pub fn micros(self) -> (r: u32)
        ensures
            r == self@,
            self.in_unit_interval(),
    {
        proof {
            use_type_invariant(&self);
        }
        self.micros
    }

    /// Whether the sample is above `threshold` millionths.
    pub fn exceeds(self, threshold: u32) -> (r: bool)
        ensures
            r == (self@ > threshold),
            self.in_unit_interval(),
    {
        proof {
            use_type_invariant(&self);
        }
        self.micros > threshold
    }
}

impl Fixed {
    /// The number nearest to `v` millionths.
    pub open spec fn nearest(v: int) -> Fixed {
        Fixed { raw: saturate(v) as i64 }
    }

    /// Sum.
    pub open spec fn add_spec(self, rhs: Fixed) -> Fixed {
        Fixed::nearest(self.raw + rhs.raw)
    }

    /// Difference.
    pub open spec fn sub_spec(self, rhs: Fixed) -> Fixed {
        Fixed::nearest(self.raw - rhs.raw)
    }

    /// Opposite.
    pub open spec fn neg_spec(self) -> Fixed {
        Fixed::nearest(-self.raw)
    }

    /// Product, rounded down to a millionth.
    pub open spec fn mul_spec(self, rhs: Fixed) -> Fixed {
        Fixed::nearest((self.raw * rhs.raw) / (SCALE as int))
    }

    /// Quotient, rounded down to a millionth. A division by zero gives the end
    /// of the range on the dividend's side, and zero for zero.
    pub open spec fn div_spec(self, rhs: Fixed) -> Fixed {
        if rhs.raw > 0 {
            Fixed::nearest((self.raw * SCALE) / (rhs.raw as int))
        } else if rhs.raw < 0 {
            Fixed::nearest((-(self.raw * SCALE)) / (-(rhs.raw as int)))
        } else if self.raw > 0 {
            Fixed { raw: i64::MAX }
        } else if self.raw < 0 {
            Fixed { raw: i64::MIN }
        } else {
            Fixed { raw: 0 }
        }
    }

    /// The part `s` of this number, rounded down to a millionth.
    pub open spec fn scaled_spec(self, s: Sample) -> Fixed {
        Fixed::nearest((self.raw * s@) / (SCALE as int))
    }

    /// The whole number `n / d`, rounded down to a millionth; one where `d` is zero
    /// has no place here and is left to the caller.
    pub open spec fn ratio_spec(n: u32, d: u32) -> Fixed {
        Fixed { raw: ((n * SCALE) / (d as int)) as i64 }
    }

    /// The whole part as a `u32`: zero for a negative number, the largest `u32`
    /// for one beyond it.
    pub open spec fn to_u32_spec(self) -> u32 {
        if self.raw < 0 {
            0
        } else if self.raw / SCALE > u32::MAX {
            u32::MAX
        } else {
            (self.raw / SCALE) as u32
        }
    }

    /// The number of `raw` millionths.
    pub fn from_micros(raw: i64) -> (r: Fixed)
        ensures
            r.raw == raw,
    {
        Fixed { raw }
    }

    /// The whole number `v`.
    pub fn from_int(v: i32) -> (r: Fixed)
        ensures
            r.raw == v * SCALE,
    {
        Fixed { raw: (v as i64) * SCALE }
    }

    /// The number nearest to `v` millionths.
    fn clamp(v: i128) -> (r: Fixed)
        ensures
            r == Fixed::nearest(v as int),
    {
        if v > i64::MAX as i128 {
            Fixed { raw: i64::MAX }
        } else if v < i64::MIN as i128 {
            Fixed { raw: i64::MIN }
        } else {
            Fixed { raw: v as i64 }
        }
    }

    /// Sum, held at the ends of the range.
    pub fn saturating_add(self, rhs: Fixed) -> (r: Fixed)
        ensures
            r == self.add_spec(rhs),
    {
        Fixed::clamp(self.raw as i128 + rhs.raw as i128)
    }

    /// Difference, held at the ends of the range.
    pub fn saturating_sub(self, rhs: Fixed) -> (r: Fixed)
        ensures
            r == self.sub_spec(rhs),
    {
        Fixed::clamp(self.raw as i128 - rhs.raw as i128)
    }

    /// Opposite, held at the upper end of the range.
    pub fn saturating_neg(self) -> (r: Fixed)
        ensures
            r == self.neg_spec(),
    {
        Fixed::clamp(-(self.raw as i128))
    }

    /// Product, rounded down and held at the ends of the range.
    pub fn saturating_mul(self, rhs: Fixed) -> (r: Fixed)
        ensures
            r == self.mul_spec(rhs),
    {
        let a: i128 = self.raw as i128;
        let b: i128 = rhs.raw as i128;
        assert(-0x4000_0000_0000_0000_0000_0000_0000_0000 <= a * b
            <= 0x4000_0000_0000_0000_0000_0000_0000_0000) by (nonlinear_arith)
            requires
                -0x8000_0000_0000_0000 <= a <= 0x8000_0000_0000_0000,
                -0x8000_0000_0000_0000 <= b <= 0x8000_0000_0000_0000,
        ;
        let p: i128 = a * b;
        Fixed::clamp(Fixed::floor_div(p, SCALE as i128))
    }

    /// `n / d` rounded towards minus infinity.
    fn floor_div(n: i128, d: i128) -> (q: i128)
        requires
            d > 0,
            -0x4000_0000_0000_0000_0000_0000_0000_0000 <= n
                <= 0x4000_0000_0000_0000_0000_0000_0000_0000,
            d <= 0x4000_0000_0000_0000_0000_0000_0000_0000,
        ensures
            q == (n as int) / (d as int),
            -0x4000_0000_0000_0000_0000_0000_0000_0000 <= q
                <= 0x4000_0000_0000_0000_0000_0000_0000_0000,
    {
        proof {
            lemma_fundamental_div_mod(n as int, d as int);
            assert(-0x4000_0000_0000_0000_0000_0000_0000_0000 <= (n as int) / (d as int)
                <= 0x4000_0000_0000_0000_0000_0000_0000_0000) by (nonlinear_arith)
                requires
                    d > 0,
                    -0x4000_0000_0000_0000_0000_0000_0000_0000 <= n
                        <= 0x4000_0000_0000_0000_0000_0000_0000_0000,
                    n == d * ((n as int) / (d as int)) + (n as int) % (d as int),
                    0 <= (n as int) % (d as int) < d,
            ;
        }
        if n >= 0 {
            n / d
        } else {
            proof {
                lemma_floor_of_negative(-n, d as int);
            }
            -((-n + (d - 1)) / d)
        }
    }

    /// Quotient, rounded down and held at the ends of the range.
    pub fn saturating_div(self, rhs: Fixed) -> (r: Fixed)
        ensures
            r == self.div_spec(rhs),
    {
        let n: i128 = (self.raw as i128) * 1_000_000;
        if rhs.raw > 0 {
            Fixed::clamp(Fixed::floor_div(n, rhs.raw as i128))
        } else if rhs.raw < 0 {
            Fixed::clamp(Fixed::floor_div(-n, -(rhs.raw as i128)))
        } else if self.raw > 0 {
            Fixed { raw: i64::MAX }
        } else if self.raw < 0 {
            Fixed { raw: i64::MIN }
        } else {
            Fixed { raw: 0 }
        }
    }

    /// The part `s` of this number, rounded down.
    pub fn scaled_by(self, s: Sample) -> (r: Fixed)
        ensures
            r == self.scaled_spec(s),
            s.in_unit_interval(),
            self.raw >= 0 ==> 0 <= r.raw <= self.raw,
            self.raw <= 0 ==> self.raw <= r.raw <= 0,
    {
        let a: i128 = self.raw as i128;
        let b: i128 = s.micros() as i128;
        assert(-0x4000_0000_0000_0000_0000_0000_0000_0000 <= a * b
            <= 0x4000_0000_0000_0000_0000_0000_0000_0000) by (nonlinear_arith)
            requires
                -0x8000_0000_0000_0000 <= a <= 0x8000_0000_0000_0000,
                0 <= b <= 0x8000_0000_0000_0000,
        ;
        proof {
            lemma_scaled_between(self.raw as int, s@);
        }
        Fixed::clamp(Fixed::floor_div(a * b, SCALE as i128))
    }

    /// The quotient of two whole numbers, rounded down to a millionth.
    pub fn ratio(n: u32, d: u32) -> (r: Fixed)
        requires
            d != 0,
        ensures
            r == Fixed::ratio_spec(n, d),
            r.raw >= 0,
    {
        let scaled: u64 = (n as u64) * 1_000_000;
        let q: u64 = scaled / (d as u64);
        assert(q <= scaled) by (nonlinear_arith)
            requires
                q == scaled / (d as u64),
                d > 0,
        ;
        Fixed { raw: q as i64 }
    }

    /// The whole part as a `u32`, held at the ends of that type's range.
    pub fn to_u32(self) -> (r: u32)
        ensures
            r == self.to_u32_spec(),
    {
        if self.raw < 0 {
            0
        } else {
            let whole: i64 = self.raw / SCALE;
            if whole > u32::MAX as i64 {
                u32::MAX
            } else {
                whole as u32
            }
        }
    }
}

} // verus!
