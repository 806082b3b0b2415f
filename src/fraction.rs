//! Exact rational values in the unit interval and linear axis normalization.
use vstd::prelude::*;

verus! {

/// A non-negative rational value `num / den`.
///
/// A denominator of zero never comes out of this library's normalizer; in the
/// comparisons below such a value with a non-zero numerator compares above
/// every value with a non-zero denominator.
#[derive(Clone, Copy, Debug, PartialEq, Eq, Structural)]
pub struct Fraction {
    pub num: u32,
    pub den: u32,
}

impl Fraction {
    /// The value lies in `[0, 1]` and has a non-zero denominator.
    pub open spec fn in_unit(self) -> bool {
        self.den > 0 && self.num <= self.den
    }

    /// `self < other` as rationals (cross-multiplied).
    pub open spec fn lt(self, other: Fraction) -> bool {
        (self.num as int) * (other.den as int) < (other.num as int) * (self.den as int)
    }

    /// `self <= other` as rationals (cross-multiplied).
    pub open spec fn le(self, other: Fraction) -> bool {
        (self.num as int) * (other.den as int) <= (other.num as int) * (self.den as int)
    }

    /// The value zero.
    pub fn zero() -> (r: Fraction)
        ensures
            r.num == 0,
            r.den == 1,
    {
        Fraction { num: 0, den: 1 }
    }

    /// The value one.
    pub fn one() -> (r: Fraction)
        ensures
            r.num == 1,
            r.den == 1,
    {
        Fraction { num: 1, den: 1 }
    }

    /// Whether `self` is strictly below `other`.
    pub fn is_less_than(&self, other: &Fraction) -> (r: bool)
        ensures
            r == self.lt(*other),
    {
        let (a, b, c, d) = (self.num as u64, other.den as u64, other.num as u64, self.den as u64);
        proof {
            lemma_u32_product_fits(a, b);
            lemma_u32_product_fits(c, d);
        }
        a * b < c * d
    }
}

proof fn lemma_u32_product_fits(a: u64, b: u64)
    requires
        a <= u32::MAX,
        b <= u32::MAX,
    ensures
        a * b <= u64::MAX,
{
    assert(a * b <= (u32::MAX as int) * (u32::MAX as int)) by (nonlinear_arith)
        requires
            a <= u32::MAX,
            b <= u32::MAX,
    ;
}

/// The raw domain `[min, max]` of one hardware axis.
#[derive(Clone, Copy, Debug, PartialEq, Eq, Structural)]
pub struct AxisRange {
    pub min: u32,
    pub max: u32,
}

impl AxisRange {
    /// A usable domain has a non-zero width.
    pub open spec fn valid(self) -> bool {
        self.min < self.max
    }

    /// Validates a domain once, when a hardware profile is set up: a domain
    /// of zero (or negative) width is refused.
    pub fn new(min: u32, max: u32) -> (r: Option<AxisRange>)
        ensures
            r is Some <==> min < max,
            r matches Some(a) ==> a.min == min && a.max == max,
    {
        if min < max {
            Some(AxisRange { min, max })
        } else {
            None
        }
    }
}

/// `(raw - min) / (max - min)`, clamped to `[0, 1]`.
pub open spec fn normalized(raw: u32, range: AxisRange) -> Fraction {
    let width = (range.max - range.min) as u32;
    if raw <= range.min {
        Fraction { num: 0, den: width }
    } else if raw >= range.max {
        Fraction { num: width, den: width }
    } else {
        Fraction { num: (raw - range.min) as u32, den: width }
    }
}

/// Linearly rescales `raw` from `range` into the unit interval, clamping
/// values outside the domain to its ends.
pub fn normalize(raw: u32, range: AxisRange) -> (r: Fraction)
    requires
        range.valid(),
    ensures
        r == normalized(raw, range),
        r.in_unit(),
{
    let width = range.max - range.min;
    if raw <= range.min {
        Fraction { num: 0, den: width }
    } else if raw >= range.max {
        Fraction { num: width, den: width }
    } else {
        Fraction { num: raw - range.min, den: width }
    }
}

/// The domain minimum normalizes to zero, the domain maximum to one, and
/// normalization never decreases as the raw value grows.
pub proof fn lemma_normalize_bounds_and_monotonic(range: AxisRange, a: u32, b: u32)
    requires
        range.valid(),
        a <= b,
    ensures
        normalized(range.min, range).num == 0,
        normalized(range.max, range).num == normalized(range.max, range).den,
        normalized(range.min, range).in_unit(),
        normalized(range.max, range).in_unit(),
        normalized(a, range).le(normalized(b, range)),
{
    let w = (range.max - range.min) as int;
    let na = normalized(a, range);
    let nb = normalized(b, range);
    assert(na.den == nb.den);
    assert(na.num <= nb.num);
    assert((na.num as int) * w <= (nb.num as int) * w) by (nonlinear_arith)
        requires
            na.num <= nb.num,
            w > 0,
    ;
}

} // verus!
