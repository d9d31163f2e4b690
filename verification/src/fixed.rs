//! Fixed-point numbers with six decimal places and saturating arithmetic.

use vstd::prelude::*;

verus! {

/// Number of millionths in one unit.
pub const SCALE: i64 = 1_000_000;

/// A signed fixed-point number with six decimal places.
///
/// The number held is `micros / 1_000_000`. Arithmetic never wraps: a result
/// beyond the range of `i64` millionths becomes the nearest end of that
/// range, and a quotient or product that falls between two representable
/// numbers becomes the lower of them.
#[derive(Clone, Copy, Debug, PartialEq, Eq, Structural, Hash, PartialOrd, Ord)]
pub struct Fixed {
    pub micros: i64,
}

impl View for Fixed {
    type V = int;

    /// The number of millionths, as a mathematical integer.
    open spec fn view(&self) -> int {
        self.micros as int
    }
}

/// The representable count of millionths nearest to `v`.
pub open spec fn saturate(v: int) -> i64 {
    if v < i64::MIN {
        i64::MIN
    } else if v > i64::MAX {
        i64::MAX
    } else {
        v as i64
    }
}

/// The quotient `n / d` rounded down, for any non-zero divisor.
pub open spec fn floor_div(n: int, d: int) -> int
    recommends
        d != 0,
{
    if d > 0 {
        n / d
    } else {
        (-n) / (-d)
    }
}

fn clamp(v: i128) -> (r: Fixed)
    ensures
        r.micros == saturate(v as int),
{
    if v < i64::MIN as i128 {
        Fixed { micros: i64::MIN }
    } else if v > i64::MAX as i128 {
        Fixed { micros: i64::MAX }
    } else {
        Fixed { micros: v as i64 }
    }
}

/// `n / d` rounded down, for a positive divisor.
fn div_floor(n: i128, d: i128) -> (q: i128)
    requires
        d > 0,
    ensures
        q == n as int / d as int,
{
    if n >= 0 {
        n / d
    } else {
        // -(n + 1) is non-negative and representable; the floor of n / d is
        // one below the negated quotient of it.
        let m: i128 = -(n + 1);
        let t: i128 = m / d;
        proof {
            let ni = n as int;
            let di = d as int;
            let mi = m as int;
            assert(mi == di * (mi / di) + mi % di) by {
                vstd::arithmetic::div_mod::lemma_fundamental_div_mod(mi, di);
            }
            assert(0 <= mi % di < di) by {
                vstd::arithmetic::div_mod::lemma_mod_pos_bound(mi, di);
            }
            let q = -(mi / di) - 1;
            let r = di - 1 - mi % di;
            assert(ni == q * di + r) by (nonlinear_arith)
                requires
                    mi == -(ni + 1),
                    mi == di * (mi / di) + mi % di,
                    q == -(mi / di) - 1,
                    r == di - 1 - mi % di,
            ;
            vstd::arithmetic::div_mod::lemma_fundamental_div_mod_converse(ni, di, q, r);
            assert(0 <= mi / di) by {
                vstd::arithmetic::div_mod::lemma_div_pos_is_pos(mi, di);
            }
            assert(mi / di <= mi) by {
                vstd::arithmetic::div_mod::lemma_div_is_ordered_by_denominator(mi, 1, di);
                vstd::arithmetic::div_mod::lemma_div_basics(mi);
            }
        }
        -t - 1
    }
}

impl Fixed {
    /// The number with the given count of millionths.
    pub fn from_micros(micros: i64) -> (r: Fixed)
        ensures
            r@ == micros,
    {
        Fixed { micros }
    }

    pub open spec fn spec_from_int(units: i32) -> Fixed {
        Fixed { micros: (units * SCALE) as i64 }
    }

    /// The whole number `units`.
    #[verifier::when_used_as_spec(spec_from_int)]
    pub fn from_int(units: i32) -> (r: Fixed)
        ensures
            r == Self::spec_from_int(units),
            r@ == units * SCALE,
    {
        Fixed { micros: units as i64 * SCALE }
    }

    pub open spec fn spec_zero() -> Fixed {
        Fixed { micros: 0 }
    }

    #[verifier::when_used_as_spec(spec_zero)]
    pub fn zero() -> (r: Fixed)
        ensures
            r == Self::spec_zero(),
    {
        Fixed { micros: 0 }
    }

    pub open spec fn spec_one() -> Fixed {
        Fixed { micros: SCALE }
    }

    #[verifier::when_used_as_spec(spec_one)]
    pub fn one() -> (r: Fixed)
        ensures
            r == Self::spec_one(),
    {
        Fixed { micros: SCALE }
    }

    /// The count of millionths.
    pub fn micros(&self) -> (r: i64)
        ensures
            r == self@,
    {
        self.micros
    }

    pub open spec fn spec_plus(self, rhs: Fixed) -> Fixed {
        Fixed { micros: saturate(self@ + rhs@) }
    }

    /// Saturating sum.
    #[verifier::when_used_as_spec(spec_plus)]
    pub fn plus(self, rhs: Fixed) -> (r: Fixed)
        ensures
            r == self.spec_plus(rhs),
    {
        clamp(self.micros as i128 + rhs.micros as i128)
    }

    pub open spec fn spec_minus(self, rhs: Fixed) -> Fixed {
        Fixed { micros: saturate(self@ - rhs@) }
    }

    /// Saturating difference.
    #[verifier::when_used_as_spec(spec_minus)]
    pub fn minus(self, rhs: Fixed) -> (r: Fixed)
        ensures
            r == self.spec_minus(rhs),
    {
        clamp(self.micros as i128 - rhs.micros as i128)
    }

    pub open spec fn spec_times(self, rhs: Fixed) -> Fixed {
        Fixed { micros: saturate((self@ * rhs@) / (SCALE as int)) }
    }

    /// Saturating product, rounded down to a millionth.
    #[verifier::when_used_as_spec(spec_times)]
    pub fn times(self, rhs: Fixed) -> (r: Fixed)
        ensures
            r == self.spec_times(rhs),
    {
        let a: i128 = self.micros as i128;
        let b: i128 = rhs.micros as i128;
        assert(-0x4000_0000_0000_0000_0000_0000_0000_0000 <= a * b
            <= 0x4000_0000_0000_0000_0000_0000_0000_0000) by (nonlinear_arith)
            requires
                -0x8000_0000_0000_0000 <= a <= 0x8000_0000_0000_0000,
                -0x8000_0000_0000_0000 <= b <= 0x8000_0000_0000_0000,
        ;
        clamp(div_floor(a * b, SCALE as i128))
    }

    pub open spec fn spec_over(self, rhs: Fixed) -> Fixed {
        if rhs@ == 0 {
            if self@ > 0 {
                Fixed { micros: i64::MAX }
            } else if self@ < 0 {
                Fixed { micros: i64::MIN }
            } else {
                Fixed { micros: 0 }
            }
        } else {
            Fixed { micros: saturate(floor_div(self@ * SCALE, rhs@)) }
        }
    }

    /// Saturating quotient, rounded down to a millionth.
    ///
    /// A non-zero number over zero is the end of the range on its side; zero
    /// over zero is zero.
    #[verifier::when_used_as_spec(spec_over)]
    pub fn over(self, rhs: Fixed) -> (r: Fixed)
        ensures
            r == self.spec_over(rhs),
    {
        if rhs.micros == 0 {
            if self.micros > 0 {
                Fixed { micros: i64::MAX }
            } else if self.micros < 0 {
                Fixed { micros: i64::MIN }
            } else {
                Fixed { micros: 0 }
            }
        } else {
            let a: i128 = self.micros as i128;
            assert(-0x8000_0000_0000_0000 * 1_000_000 <= a * 1_000_000
                <= 0x8000_0000_0000_0000 * 1_000_000);
            let n: i128 = a * 1_000_000;
            let d: i128 = rhs.micros as i128;
            if d > 0 {
                clamp(div_floor(n, d))
            } else {
                clamp(div_floor(-n, -d))
            }
        }
    }

    pub open spec fn spec_min(self, rhs: Fixed) -> Fixed {
        if self@ <= rhs@ {
            self
        } else {
            rhs
        }
    }

    /// The smaller of two numbers.
    #[verifier::when_used_as_spec(spec_min)]
    pub fn min(self, rhs: Fixed) -> (r: Fixed)
        ensures
            r == self.spec_min(rhs),
    {
        if self.micros <= rhs.micros {
            self
        } else {
            rhs
        }
    }

    pub open spec fn spec_max(self, rhs: Fixed) -> Fixed {
        if self@ >= rhs@ {
            self
        } else {
            rhs
        }
    }

    /// The larger of two numbers.
    #[verifier::when_used_as_spec(spec_max)]
    pub fn max(self, rhs: Fixed) -> (r: Fixed)
        ensures
            r == self.spec_max(rhs),
    {
        if self.micros >= rhs.micros {
            self
        } else {
            rhs
        }
    }
}

/// A product with zero is zero.
pub proof fn times_zero(a: Fixed)
    ensures
        a.times(Fixed::zero()) == Fixed::zero(),
        Fixed::zero().times(a) == Fixed::zero(),
{
    assert(a@ * 0 == 0) by (nonlinear_arith);
    assert(0 * a@ == 0) by (nonlinear_arith);
}

/// A product with a factor that is not negative grows with the other factor.
pub proof fn times_is_monotonic(factor: Fixed, a: Fixed, b: Fixed)
    requires
        factor@ >= 0,
        a@ <= b@,
    ensures
        factor.times(a)@ <= factor.times(b)@,
{
    assert(factor@ * a@ <= factor@ * b@) by (nonlinear_arith)
        requires
            factor@ >= 0,
            a@ <= b@,
    ;
    vstd::arithmetic::div_mod::lemma_div_is_ordered(factor@ * a@, factor@ * b@, SCALE as int);
}

/// A quotient by a divisor that is not negative grows with the dividend.
pub proof fn over_is_monotonic(a: Fixed, b: Fixed, divisor: Fixed)
    requires
        divisor@ >= 0,
        a@ <= b@,
    ensures
        a.over(divisor)@ <= b.over(divisor)@,
{
    if divisor@ > 0 {
        vstd::arithmetic::div_mod::lemma_div_is_ordered(a@ * SCALE, b@ * SCALE, divisor@);
    }
}

} // verus!
