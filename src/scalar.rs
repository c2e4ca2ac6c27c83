use vstd::prelude::*;

verus! {

/// Whether an integer fits in an `i64`.
pub open spec fn fits_i64(v: int) -> bool {
    i64::MIN <= v <= i64::MAX
}

/// Bounds of the product of two `i64` values: it always fits in an `i128`, with
/// room to add or subtract one more such product.
pub proof fn lemma_product_bounds(x: int, y: int)
    requires
        fits_i64(x),
        fits_i64(y),
    ensures
        -0x4000_0000_0000_0000_0000_0000_0000_0000 + 0x8000_0000_0000_0000 <= x * y,
        x * y <= 0x4000_0000_0000_0000_0000_0000_0000_0000,
{
    let m: int = 0x8000_0000_0000_0000;
    if x >= 0 && y >= 0 {
        assert(x * y <= (m - 1) * (m - 1)) by (nonlinear_arith)
            requires 0 <= x < m, 0 <= y < m;
        assert(0 <= x * y) by (nonlinear_arith)
            requires 0 <= x, 0 <= y;
    } else if x < 0 && y < 0 {
        assert(x * y <= m * m) by (nonlinear_arith)
            requires -m <= x < 0, -m <= y < 0;
        assert(0 <= x * y) by (nonlinear_arith)
            requires x < 0, y < 0;
    } else if x < 0 {
        assert(x * y >= -m * (m - 1)) by (nonlinear_arith)
            requires -m <= x < 0, 0 <= y < m;
        assert(x * y <= 0) by (nonlinear_arith)
            requires x < 0, 0 <= y;
    } else {
        assert(x * y >= -m * (m - 1)) by (nonlinear_arith)
            requires -m <= y < 0, 0 <= x < m;
        assert(x * y <= 0) by (nonlinear_arith)
            requires y < 0, 0 <= x;
    }
}

/// `10^n`.
pub open spec fn pow10(n: nat) -> int
    decreases n,
{
    if n == 0 {
        1
    } else {
        10 * pow10((n - 1) as nat)
    }
}

/// The integer nearest to `n / d` (for `d > 0`), halves rounded away from zero.
pub open spec fn round_div(n: int, d: int) -> int {
    if n >= 0 {
        (2 * n + d) / (2 * d)
    } else {
        -((2 * -n + d) / (2 * d))
    }
}

proof fn lemma_pow10_monotone(n: nat, m: nat)
    requires
        n <= m,
    ensures
        1 <= pow10(n) <= pow10(m),
    decreases m,
{
    if n < m {
        lemma_pow10_monotone(n, (m - 1) as nat);
    } else if n > 0 {
        lemma_pow10_monotone((n - 1) as nat, (n - 1) as nat);
    }
}

pub proof fn lemma_pow10_bounds(n: nat)
    requires
        n <= 18,
    ensures
        1 <= pow10(n) <= 1_000_000_000_000_000_000,
{
    lemma_pow10_monotone(n, 18);
    reveal_with_fuel(pow10, 19);
}

/// Computes `10^n` for `n <= 18`, the largest power of ten an `i64` holds.
pub fn power_of_ten(n: u8) -> (r: i64)
    requires
        n <= 18,
    ensures
        r == pow10(n as nat),
{
    let mut r: i64 = 1;
    let mut i: u8 = 0;
    while i < n
        invariant
            i <= n <= 18,
            r == pow10(i as nat),
        decreases n - i,
    {
        proof {
            lemma_pow10_bounds((i + 1) as nat);
        }
        r = r * 10;
        i = i + 1;
    }
    r
}

/// Rounding to a number of decimal digits after the point.
pub trait RoundTo<T>: Sized {
    /// Whether the rounded value can be represented.
    spec fn can_round_to(&self, digits_after_comma: u8) -> bool;

    /// Whether `r` is the value rounded to `digits_after_comma` decimal digits,
    /// halves away from zero.
    spec fn is_rounded(&self, digits_after_comma: u8, r: T) -> bool;

    fn round_to(&self, digits_after_comma: u8) -> (r: T)
        requires
            self.can_round_to(digits_after_comma),
        ensures
            self.is_rounded(digits_after_comma, r),
    ;
}

/// Whether `n / d` rounded to `digits` decimal digits has a numerator over
/// `10^digits` that fits in an `i64`.
pub open spec fn can_round_scaled(n: int, d: int, digits: nat) -> bool {
    &&& d > 0
    &&& digits <= 18
    &&& fits_i64(round_div(n * pow10(digits), d))
}

/// Numerator over `10^digits` of `n / d` rounded to `digits` decimal digits.
pub fn round_scaled(n: i64, d: i64, digits: u8) -> (r: i64)
    requires
        can_round_scaled(n as int, d as int, digits as nat),
    ensures
        r == round_div(n * pow10(digits as nat), d as int),
{
    let p = power_of_ten(digits);
    proof {
        lemma_pow10_bounds(digits as nat);
        assert(-0x8000_0000_0000_0000 * 1_000_000_000_000_000_000 <= n * p <= 0x8000_0000_0000_0000
            * 1_000_000_000_000_000_000) by (nonlinear_arith)
            requires
                -0x8000_0000_0000_0000 <= n <= 0x8000_0000_0000_0000,
                1 <= p <= 1_000_000_000_000_000_000,
        ;
    }
    let x = (n as i128) * (p as i128);
    let twice_d = 2 * (d as i128);
    if x >= 0 {
        ((2 * x + d as i128) / twice_d) as i64
    } else {
        (-((2 * (-x) + d as i128) / twice_d)) as i64
    }
}

/// An exact rational number `numerator / denominator`, with a positive denominator.
#[derive(Debug, Clone, Copy)]
pub struct Fraction {
    pub numerator: i64,
    pub denominator: i64,
}

impl Fraction {
    pub open spec fn wf(&self) -> bool {
        self.denominator > 0
    }

    pub fn new(numerator: i64, denominator: i64) -> (r: Self)
        requires
            denominator > 0,
        ensures
            r.wf(),
            r.numerator == numerator,
            r.denominator == denominator,
    {
        Fraction { numerator, denominator }
    }
}

impl RoundTo<Fraction> for Fraction {
    open spec fn can_round_to(&self, digits_after_comma: u8) -> bool {
        can_round_scaled(self.numerator as int, self.denominator as int, digits_after_comma as nat)
    }

    open spec fn is_rounded(&self, digits_after_comma: u8, r: Fraction) -> bool {
        &&& r.numerator == round_div(self.numerator * pow10(digits_after_comma as nat), self.denominator as int)
        &&& r.denominator == pow10(digits_after_comma as nat)
    }

    fn round_to(&self, digits_after_comma: u8) -> (r: Fraction) {
        let numerator = round_scaled(self.numerator, self.denominator, digits_after_comma);
        let denominator = power_of_ten(digits_after_comma);
        proof {
            lemma_pow10_bounds(digits_after_comma as nat);
        }
        Fraction { numerator, denominator }
    }
}

/// Two fractions are equal when they stand for the same rational number.
impl PartialEq for Fraction {
    fn eq(&self, other: &Fraction) -> (r: bool) {
        proof {
            lemma_product_bounds(self.numerator as int, other.denominator as int);
            lemma_product_bounds(other.numerator as int, self.denominator as int);
        }
        (self.numerator as i128) * (other.denominator as i128) == (other.numerator as i128) * (
        self.denominator as i128)
    }
}

impl vstd::std_specs::cmp::PartialEqSpecImpl for Fraction {
    open spec fn obeys_eq_spec() -> bool {
        true
    }

    open spec fn eq_spec(&self, other: &Fraction) -> bool {
        self.numerator * other.denominator == other.numerator * self.denominator
    }
}

} // verus!
