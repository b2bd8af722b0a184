//! Binary fixed-point numbers.
//!
//! What the oscillator is told and what its collaborators answer (ratios,
//! pitches, frequencies, gains) is a [`Fixed`]: a signed 64-bit integer
//! that stands for `raw / 2^32`.  The product of two such numbers is kept
//! exactly, as a [`Wide`] with 64 fractional bits, and so is the phase,
//! which adds up sample by sample.  The only rounding in the crate is the
//! floor of a quotient, at `2^-64`.
use vstd::prelude::*;
use vstd::arithmetic::div_mod::lemma_fundamental_div_mod;
use vstd::arithmetic::div_mod::lemma_fundamental_div_mod_converse;
use vstd::arithmetic::div_mod::lemma_mod_bound;

verus! {

/// The raw value of the number one: `2^32`.
pub const SCALE: i64 = 0x1_0000_0000;

/// A signed fixed-point number with 32 fractional bits.
///
/// Its view is the raw integer, so the number it stands for is
/// `self@ / 2^32`.
#[derive(Clone, Copy, Debug, PartialEq, Eq, Structural)]
pub struct Fixed {
    pub raw: i64,
}

/// A signed fixed-point number with 64 fractional bits: what the product of
/// two [`Fixed`] numbers is, without rounding, and what the phase is kept
/// in.
///
/// Its view is the raw integer, so the number it stands for is
/// `self@ / 2^64`.
#[derive(Clone, Copy, Debug, PartialEq, Eq, Structural)]
pub struct Wide {
    pub raw: i128,
}

impl View for Fixed {
    type V = int;

    open spec fn view(&self) -> int {
        self.raw as int
    }
}

impl View for Wide {
    type V = int;

    open spec fn view(&self) -> int {
        self.raw as int
    }
}

/// Whether `x` is the raw value of some [`Fixed`].
pub open spec fn fits(x: int) -> bool {
    i64::MIN <= x <= i64::MAX
}

/// The [`Fixed`] whose raw value is `x`, where there is one.
pub open spec fn fixed_of(x: int) -> Option<Fixed> {
    if fits(x) {
        Some(Fixed { raw: x as i64 })
    } else {
        None
    }
}

/// Whether `x` is the raw value of some [`Wide`].
pub open spec fn fits_wide(x: int) -> bool {
    i128::MIN <= x <= i128::MAX
}

/// The [`Wide`] whose raw value is `x`, where there is one.
pub open spec fn wide_of(x: int) -> Option<Wide> {
    if fits_wide(x) {
        Some(Wide { raw: x as i128 })
    } else {
        None
    }
}

/// The floor of `n / d` for a positive `d`.
pub open spec fn floor_div(n: int, d: int) -> int
    recommends
        d > 0,
{
    n / d
}

impl Fixed {
    /// The whole number `n`.
    pub fn from_int(n: i32) -> (r: Fixed)
        ensures
            r@ == n * SCALE,
    {
        Fixed { raw: (n as i64) * SCALE }
    }

    /// Whether the number is greater than zero.
    pub fn is_positive(self) -> (r: bool)
        ensures
            r == (self@ > 0),
    {
        self.raw > 0
    }

    /// The exact product of two numbers.
    pub fn times(self, rhs: Fixed) -> (r: Wide)
        ensures
            r@ == self@ * rhs@,
    {
        let a: i128 = self.raw as i128;
        let b: i128 = rhs.raw as i128;
        assert(-0x4000_0000_0000_0000_0000_0000_0000_0000 <= a * b
            <= 0x4000_0000_0000_0000_0000_0000_0000_0000) by (nonlinear_arith)
            requires
                -0x8000_0000_0000_0000 <= a <= 0x8000_0000_0000_0000,
                -0x8000_0000_0000_0000 <= b <= 0x8000_0000_0000_0000,
        ;
        Wide { raw: a * b }
    }

    /// The number whose raw value is `delta` more than this one's; `None`
    /// where that is no [`Fixed`].
    pub fn offset(self, delta: i128) -> (r: Option<Fixed>)
        ensures
            r == fixed_of(self@ + delta),
    {
        if delta < -0x1_0000_0000_0000_0000 || delta > 0x1_0000_0000_0000_0000 {
            // Further from zero than any 64-bit value can make up for.
            return None;
        }
        let sum: i128 = (self.raw as i128) + delta;
        if sum < (i64::MIN as i128) || sum > (i64::MAX as i128) {
            None
        } else {
            Some(Fixed { raw: sum as i64 })
        }
    }
}

/// The floor of `n / d` and what is left over, for a positive `d`.
fn floor_div_rem(n: i128, d: i64) -> (r: (i128, i64))
    requires
        d > 0,
    ensures
        r.0 == floor_div(n as int, d as int),
        n == r.0 * d + r.1,
        0 <= r.1 < d,
{
    let wide: i128 = d as i128;
    if n >= 0 {
        proof {
            lemma_fundamental_div_mod(n as int, wide as int);
            lemma_mod_bound(n as int, wide as int);
            assert((wide as int) * ((n as int) / (wide as int)) == ((n as int) / (wide as int))
                * (wide as int)) by (nonlinear_arith);
        }
        (n / wide, (n % wide) as i64)
    } else {
        // n = -(m + 1) with m >= 0, and floor(n / d) = -floor(m / d) - 1.
        let m: i128 = -(n + 1);
        let k: i128 = m / wide;
        let j: i128 = m % wide;
        proof {
            lemma_fundamental_div_mod(m as int, wide as int);
            assert((n as int) == (-(k as int) - 1) * (wide as int) + ((wide as int) - (j as int)
                - 1)) by (nonlinear_arith)
                requires
                    (m as int) == (wide as int) * (k as int) + (j as int),
                    (n as int) == -((m as int) + 1),
            ;
            lemma_fundamental_div_mod_converse(
                n as int,
                wide as int,
                -(k as int) - 1,
                (wide as int) - (j as int) - 1,
            );
        }
        assert((n as int) == ((-k - 1) as int) * (d as int) + ((wide - 1 - j) as int));
        (-k - 1, (wide - 1 - j) as i64)
    }
}

impl Wide {
    /// The quotient of this number by a positive `d`, rounded towards minus
    /// infinity at 64 fractional bits; `None` where that is no [`Wide`].
    pub fn per(self, d: Fixed) -> (r: Option<Wide>)
        requires
            d@ > 0,
        ensures
            r == wide_of(floor_div(self@ * SCALE, d@)),
    {
        let (q, left) = floor_div_rem(self.raw, d.raw);
        let wide: i128 = d.raw as i128;
        let scale: i128 = SCALE as i128;
        assert(0 <= (left as int) * (scale as int) < (wide as int) * (scale as int))
            by (nonlinear_arith)
            requires
                0 <= left < wide,
                scale == 0x1_0000_0000,
        ;
        let fine: i128 = ((left as i128) * scale) / wide;
        proof {
            let over: int = ((left as int) * (scale as int)) % (wide as int);
            lemma_fundamental_div_mod((left as int) * (scale as int), wide as int);
            lemma_mod_bound((left as int) * (scale as int), wide as int);
            assert(0 <= fine < scale) by (nonlinear_arith)
                requires
                    (left as int) * (scale as int) == (wide as int) * (fine as int) + over,
                    0 <= over < wide,
                    0 <= (left as int) * (scale as int) < (wide as int) * (scale as int),
            ;
            assert(self@ * (scale as int) == ((q as int) * (scale as int) + (fine as int)) * (
            wide as int) + over) by (nonlinear_arith)
                requires
                    self@ == (q as int) * (wide as int) + (left as int),
                    (left as int) * (scale as int) == (wide as int) * (fine as int) + over,
            ;
            lemma_fundamental_div_mod_converse(
                self@ * (scale as int),
                wide as int,
                (q as int) * (scale as int) + (fine as int),
                over,
            );
        }
        if q < -0x8000_0000_0000_0000_0000_0000 || q >= 0x8000_0000_0000_0000_0000_0000 {
            // Too far from zero for 64 more bits.
            None
        } else {
            Some(Wide { raw: q * scale + fine })
        }
    }

    /// The sum of two numbers; `None` where that is no [`Wide`].
    pub fn plus(self, rhs: Wide) -> (r: Option<Wide>)
        ensures
            r == wide_of(self@ + rhs@),
    {
        if rhs.raw >= 0 {
            if self.raw > i128::MAX - rhs.raw {
                None
            } else {
                Some(Wide { raw: self.raw + rhs.raw })
            }
        } else {
            if self.raw < i128::MIN - rhs.raw {
                None
            } else {
                Some(Wide { raw: self.raw + rhs.raw })
            }
        }
    }
}

} // verus!
