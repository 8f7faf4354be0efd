//! Exact rational numbers on `i64` numerator/denominator pairs.
//!
//! The controller's recurrence is stated and proved over the mathematical
//! value of these pairs: `Ratio` is the ghost value (a pair of `int`s with a
//! positive denominator), `Rational` the executable carrier. The executable
//! operations build exactly the representative that the corresponding spec
//! operation names, so contracts can speak of representatives directly and
//! compare values by cross-multiplication.

use vstd::prelude::*;

verus! {

/// Ghost value of a rational number: `num / den` with `den > 0`.
pub struct Ratio {
    pub num: int,
    pub den: int,
}

/// Well-formedness of a ghost rational: the denominator is positive.
pub open spec fn ratio_wf(q: Ratio) -> bool {
    q.den > 0
}

/// The rational value zero.
pub open spec fn ratio_zero() -> Ratio {
    Ratio { num: 0, den: 1 }
}

/// The rational value one.
pub open spec fn ratio_one() -> Ratio {
    Ratio { num: 1, den: 1 }
}

/// The rational value of an integer.
pub open spec fn ratio_of_int(n: int) -> Ratio {
    Ratio { num: n, den: 1 }
}

/// Value equality by cross-multiplication (denominators positive).
pub open spec fn ratio_eq(a: Ratio, b: Ratio) -> bool {
    a.num * b.den == b.num * a.den
}

/// Value ordering by cross-multiplication (denominators positive).
pub open spec fn ratio_le(a: Ratio, b: Ratio) -> bool {
    a.num * b.den <= b.num * a.den
}

/// Strict value ordering by cross-multiplication (denominators positive).
pub open spec fn ratio_lt(a: Ratio, b: Ratio) -> bool {
    a.num * b.den < b.num * a.den
}

/// Sum, as the canonical cross-multiplied representative.
pub open spec fn ratio_add(a: Ratio, b: Ratio) -> Ratio {
    Ratio { num: a.num * b.den + b.num * a.den, den: a.den * b.den }
}

/// Difference, as the canonical cross-multiplied representative.
pub open spec fn ratio_sub(a: Ratio, b: Ratio) -> Ratio {
    Ratio { num: a.num * b.den - b.num * a.den, den: a.den * b.den }
}

/// Product, multiplying componentwise.
pub open spec fn ratio_mul(a: Ratio, b: Ratio) -> Ratio {
    Ratio { num: a.num * b.num, den: a.den * b.den }
}

/// Quotient `a / b` for `b.num != 0`, with the sign moved into the numerator
/// so that the representative keeps a positive denominator.
pub open spec fn ratio_div(a: Ratio, b: Ratio) -> Ratio {
    if b.num >= 0 {
        Ratio { num: a.num * b.den, den: a.den * b.num }
    } else {
        Ratio { num: -(a.num * b.den), den: -(a.den * b.num) }
    }
}

/// Absolute value.
pub open spec fn ratio_abs(a: Ratio) -> Ratio {
    Ratio { num: if a.num >= 0 { a.num } else { -a.num }, den: a.den }
}

/// Whether an unbounded integer fits in `i64`.
pub open spec fn in_i64(x: int) -> bool {
    i64::MIN <= x <= i64::MAX
}

/// Whether both components of a ghost rational fit in `i64`.
pub open spec fn ratio_in_i64(q: Ratio) -> bool {
    in_i64(q.num) && in_i64(q.den)
}

/// A product of two `i64` values stays well inside the `i128` range.
proof fn lemma_i64_product_in_i128(x: int, y: int)
    by (nonlinear_arith)
    requires
        -0x8000_0000_0000_0000 <= x <= 0x7fff_ffff_ffff_ffff,
        -0x8000_0000_0000_0000 <= y <= 0x7fff_ffff_ffff_ffff,
    ensures
        -0x4000_0000_0000_0000_0000_0000_0000_0000 <= x * y
            <= 0x4000_0000_0000_0000_0000_0000_0000_0000,
{
}

/// A product of an `i64` value with a positive `i64` value is bounded so that
/// two such products can still be added inside `i128`.
proof fn lemma_i64_half_product(x: int, y: int)
    by (nonlinear_arith)
    requires
        -0x8000_0000_0000_0000 <= x <= 0x7fff_ffff_ffff_ffff,
        1 <= y <= 0x7fff_ffff_ffff_ffff,
    ensures
        -0x3fff_ffff_ffff_ffff_8000_0000_0000_0000 <= x * y
            <= 0x3fff_ffff_ffff_ffff_8000_0000_0000_0000,
{
}

/// A product of two positive values is positive.
proof fn lemma_pos_mul_pos(x: int, y: int)
    by (nonlinear_arith)
    requires
        x > 0,
        y > 0,
    ensures
        x * y > 0,
{
}

/// A product of a positive and a negative value is negative.
proof fn lemma_pos_mul_neg(x: int, y: int)
    by (nonlinear_arith)
    requires
        x > 0,
        y < 0,
    ensures
        x * y < 0,
{
}

/// Executable rational number. The mathematical value is `self@`, a `Ratio`
/// whose denominator well-formed code keeps positive.
#[derive(Clone, Copy, Debug, PartialEq, Eq, Structural)]
pub struct Rational {
    num: i64,
    den: i64,
}

impl View for Rational {
    type V = Ratio;

    closed spec fn view(&self) -> Ratio {
        Ratio { num: self.num as int, den: self.den as int }
    }
}

impl Rational {
    /// Well-formedness: the denominator is positive.
    pub open spec fn wf(self) -> bool {
        ratio_wf(self@)
    }

    /// Builds `num / den` from a positive denominator.
    pub fn new(num: i64, den: i64) -> (r: Rational)
        requires
            den > 0,
        ensures
            r.wf(),
            r@ == (Ratio { num: num as int, den: den as int }),
    {
        Rational { num, den }
    }

    /// Builds the rational value of an integer.
    pub fn from_int(n: i64) -> (r: Rational)
        ensures
            r.wf(),
            r@ == ratio_of_int(n as int),
    {
        Rational { num: n, den: 1 }
    }

    /// Sum of two rationals; the exact result must fit the carrier.
    pub fn add(self, other: Rational) -> (r: Rational)
        requires
            self.wf(),
            other.wf(),
            ratio_in_i64(ratio_add(self@, other@)),
        ensures
            r.wf(),
            r@ == ratio_add(self@, other@),
    {
        proof {
            lemma_i64_half_product(self.num as int, other.den as int);
            lemma_i64_half_product(other.num as int, self.den as int);
            lemma_pos_mul_pos(self.den as int, other.den as int);
            lemma_i64_half_product(self.den as int, other.den as int);
        }
        let n: i128 = (self.num as i128) * (other.den as i128)
            + (other.num as i128) * (self.den as i128);
        let d: i128 = (self.den as i128) * (other.den as i128);
        Rational { num: n as i64, den: d as i64 }
    }

    /// Difference of two rationals; the exact result must fit the carrier.
    pub fn sub(self, other: Rational) -> (r: Rational)
        requires
            self.wf(),
            other.wf(),
            ratio_in_i64(ratio_sub(self@, other@)),
        ensures
            r.wf(),
            r@ == ratio_sub(self@, other@),
    {
        proof {
            lemma_i64_half_product(self.num as int, other.den as int);
            lemma_i64_half_product(other.num as int, self.den as int);
            lemma_pos_mul_pos(self.den as int, other.den as int);
            lemma_i64_half_product(self.den as int, other.den as int);
        }
        let n: i128 = (self.num as i128) * (other.den as i128)
            - (other.num as i128) * (self.den as i128);
        let d: i128 = (self.den as i128) * (other.den as i128);
        Rational { num: n as i64, den: d as i64 }
    }

    /// Product of two rationals; the exact result must fit the carrier.
    pub fn mul(self, other: Rational) -> (r: Rational)
        requires
            self.wf(),
            other.wf(),
            ratio_in_i64(ratio_mul(self@, other@)),
        ensures
            r.wf(),
            r@ == ratio_mul(self@, other@),
    {
        proof {
            lemma_i64_product_in_i128(self.num as int, other.num as int);
            lemma_pos_mul_pos(self.den as int, other.den as int);
            lemma_i64_half_product(self.den as int, other.den as int);
        }
        let n: i128 = (self.num as i128) * (other.num as i128);
        let d: i128 = (self.den as i128) * (other.den as i128);
        Rational { num: n as i64, den: d as i64 }
    }

    /// Quotient of two rationals; the divisor must be non-zero and the exact
    /// result must fit the carrier.
    pub fn div(self, other: Rational) -> (r: Rational)
        requires
            self.wf(),
            other.wf(),
            other@.num != 0,
            ratio_in_i64(ratio_div(self@, other@)),
        ensures
            r.wf(),
            r@ == ratio_div(self@, other@),
    {
        proof {
            lemma_i64_product_in_i128(self.num as int, other.den as int);
            lemma_i64_product_in_i128(self.den as int, other.num as int);
            if other.num > 0 {
                lemma_pos_mul_pos(self.den as int, other.num as int);
            } else {
                lemma_pos_mul_neg(self.den as int, other.num as int);
            }
        }
        let n: i128 = (self.num as i128) * (other.den as i128);
        let d: i128 = (self.den as i128) * (other.num as i128);
        if other.num >= 0 {
            Rational { num: n as i64, den: d as i64 }
        } else {
            Rational { num: (-n) as i64, den: (-d) as i64 }
        }
    }

    /// Sum of two rationals, or `None` when the exact result does not fit.
    pub fn checked_add(self, other: Rational) -> (r: Option<Rational>)
        requires
            self.wf(),
            other.wf(),
        ensures
            r is Some <==> ratio_in_i64(ratio_add(self@, other@)),
            r matches Some(v) ==> v.wf() && v@ == ratio_add(self@, other@),
    {
        proof {
            lemma_i64_half_product(self.num as int, other.den as int);
            lemma_i64_half_product(other.num as int, self.den as int);
            lemma_pos_mul_pos(self.den as int, other.den as int);
            lemma_i64_half_product(self.den as int, other.den as int);
        }
        let n: i128 = (self.num as i128) * (other.den as i128)
            + (other.num as i128) * (self.den as i128);
        let d: i128 = (self.den as i128) * (other.den as i128);
        if i64::MIN as i128 <= n && n <= i64::MAX as i128 && d <= i64::MAX as i128 {
            Some(Rational { num: n as i64, den: d as i64 })
        } else {
            None
        }
    }

    /// Difference of two rationals, or `None` when the exact result does not
    /// fit.
    pub fn checked_sub(self, other: Rational) -> (r: Option<Rational>)
        requires
            self.wf(),
            other.wf(),
        ensures
            r is Some <==> ratio_in_i64(ratio_sub(self@, other@)),
            r matches Some(v) ==> v.wf() && v@ == ratio_sub(self@, other@),
    {
        proof {
            lemma_i64_half_product(self.num as int, other.den as int);
            lemma_i64_half_product(other.num as int, self.den as int);
            lemma_pos_mul_pos(self.den as int, other.den as int);
            lemma_i64_half_product(self.den as int, other.den as int);
        }
        let n: i128 = (self.num as i128) * (other.den as i128)
            - (other.num as i128) * (self.den as i128);
        let d: i128 = (self.den as i128) * (other.den as i128);
        if i64::MIN as i128 <= n && n <= i64::MAX as i128 && d <= i64::MAX as i128 {
            Some(Rational { num: n as i64, den: d as i64 })
        } else {
            None
        }
    }

    /// Product of two rationals, or `None` when the exact result does not fit.
    pub fn checked_mul(self, other: Rational) -> (r: Option<Rational>)
        requires
            self.wf(),
            other.wf(),
        ensures
            r is Some <==> ratio_in_i64(ratio_mul(self@, other@)),
            r matches Some(v) ==> v.wf() && v@ == ratio_mul(self@, other@),
    {
        proof {
            lemma_i64_product_in_i128(self.num as int, other.num as int);
            lemma_pos_mul_pos(self.den as int, other.den as int);
            lemma_i64_half_product(self.den as int, other.den as int);
        }
        let n: i128 = (self.num as i128) * (other.num as i128);
        let d: i128 = (self.den as i128) * (other.den as i128);
        if i64::MIN as i128 <= n && n <= i64::MAX as i128 && d <= i64::MAX as i128 {
            Some(Rational { num: n as i64, den: d as i64 })
        } else {
            None
        }
    }

    /// Quotient of two rationals for a non-zero divisor, or `None` when the
    /// exact result does not fit.
    pub fn checked_div(self, other: Rational) -> (r: Option<Rational>)
        requires
            self.wf(),
            other.wf(),
            other@.num != 0,
        ensures
            r is Some <==> ratio_in_i64(ratio_div(self@, other@)),
            r matches Some(v) ==> v.wf() && v@ == ratio_div(self@, other@),
    {
        proof {
            lemma_i64_product_in_i128(self.num as int, other.den as int);
            lemma_i64_product_in_i128(self.den as int, other.num as int);
            if other.num > 0 {
                lemma_pos_mul_pos(self.den as int, other.num as int);
            } else {
                lemma_pos_mul_neg(self.den as int, other.num as int);
            }
        }
        let n: i128 = (self.num as i128) * (other.den as i128);
        let d: i128 = (self.den as i128) * (other.num as i128);
        let (sn, sd): (i128, i128) = if other.num >= 0 { (n, d) } else { (-n, -d) };
        if i64::MIN as i128 <= sn && sn <= i64::MAX as i128 && sd <= i64::MAX as i128 {
            Some(Rational { num: sn as i64, den: sd as i64 })
        } else {
            None
        }
    }

    /// Whether `self <= other` as rational values.
    pub fn le(self, other: Rational) -> (r: bool)
        requires
            self.wf(),
            other.wf(),
        ensures
            r == ratio_le(self@, other@),
    {
        proof {
            lemma_i64_product_in_i128(self.num as int, other.den as int);
            lemma_i64_product_in_i128(other.num as int, self.den as int);
        }
        (self.num as i128) * (other.den as i128) <= (other.num as i128) * (self.den as i128)
    }

    /// Whether `self < other` as rational values.
    pub fn lt(self, other: Rational) -> (r: bool)
        requires
            self.wf(),
            other.wf(),
        ensures
            r == ratio_lt(self@, other@),
    {
        proof {
            lemma_i64_product_in_i128(self.num as int, other.den as int);
            lemma_i64_product_in_i128(other.num as int, self.den as int);
        }
        (self.num as i128) * (other.den as i128) < (other.num as i128) * (self.den as i128)
    }

    /// Whether `self` and `other` are the same rational value.
    pub fn eq_value(self, other: Rational) -> (r: bool)
        requires
            self.wf(),
            other.wf(),
        ensures
            r == ratio_eq(self@, other@),
    {
        proof {
            lemma_i64_product_in_i128(self.num as int, other.den as int);
            lemma_i64_product_in_i128(other.num as int, self.den as int);
        }
        (self.num as i128) * (other.den as i128) == (other.num as i128) * (self.den as i128)
    }

    /// The numerator of this representative.
    pub fn numerator(self) -> (r: i64)
        ensures
            r as int == self@.num,
    {
        self.num
    }

    /// The denominator of this representative; positive on well-formed
    /// values.
    pub fn denominator(self) -> (r: i64)
        ensures
            r as int == self@.den,
    {
        self.den
    }

    /// Whether `self` is the value zero.
    pub fn is_zero(self) -> (r: bool)
        requires
            self.wf(),
        ensures
            r == ratio_eq(self@, ratio_zero()),
    {
        self.num == 0
    }

    /// Whether `self` is strictly positive.
    pub fn is_positive(self) -> (r: bool)
        requires
            self.wf(),
        ensures
            r == ratio_lt(ratio_zero(), self@),
    {
        self.num > 0
    }
}

} // verus!
