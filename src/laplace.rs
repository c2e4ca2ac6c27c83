use vstd::prelude::*;

verus! {

// Products of an entry with a 3 x 3 cofactor, spread into monomials whose
// factors stand in one fixed order, so that the sums below cancel linearly.
pub(crate) proof fn lemma_mul_neg(x: int, d: int)
    ensures
        x * -d == -(x * d),
{
    assert(x * -d == -(x * d)) by (nonlinear_arith);
}

proof fn lemma_mul_three_terms(x: int, a: int, b: int, c: int)
    ensures
        x * (a - b + c) == x * a - x * b + x * c,
{
    assert(x * (a - b + c) == x * a - x * b + x * c) by (nonlinear_arith);
}

proof fn lemma_mul_difference(x: int, e: int, p: int, q: int)
    ensures
        x * (e * (p - q)) == x * e * p - x * e * q,
{
    assert(x * (e * (p - q)) == x * e * p - x * e * q) by (nonlinear_arith);
}

proof fn lemma_mul_regroup(y: int, s: int, t: int)
    ensures
        y * (s * t) == y * s * t,
{
    assert(y * (s * t) == y * s * t) by (nonlinear_arith);
}

proof fn lemma_mul_four_orders(a: int, b: int, c: int, d: int)
    ensures
        a * b * c * d == a * b * d * c,
        a * b * c * d == a * c * b * d,
        a * b * c * d == a * c * d * b,
        a * b * c * d == a * d * b * c,
        a * b * c * d == a * d * c * b,
        a * b * c * d == b * a * c * d,
        a * b * c * d == b * a * d * c,
        a * b * c * d == b * c * a * d,
        a * b * c * d == b * c * d * a,
        a * b * c * d == b * d * a * c,
        a * b * c * d == b * d * c * a,
        a * b * c * d == c * a * b * d,
        a * b * c * d == c * a * d * b,
        a * b * c * d == c * b * a * d,
        a * b * c * d == c * b * d * a,
        a * b * c * d == c * d * a * b,
        a * b * c * d == c * d * b * a,
        a * b * c * d == d * a * b * c,
        a * b * c * d == d * a * c * b,
        a * b * c * d == d * b * a * c,
        a * b * c * d == d * b * c * a,
        a * b * c * d == d * c * a * b,
        a * b * c * d == d * c * b * a,
{
    assert(a * b * c * d == a * b * d * c) by (nonlinear_arith);
    assert(a * b * c * d == a * c * b * d) by (nonlinear_arith);
    assert(a * b * c * d == a * c * d * b) by (nonlinear_arith);
    assert(a * b * c * d == a * d * b * c) by (nonlinear_arith);
    assert(a * b * c * d == a * d * c * b) by (nonlinear_arith);
    assert(a * b * c * d == b * a * c * d) by (nonlinear_arith);
    assert(a * b * c * d == b * a * d * c) by (nonlinear_arith);
    assert(a * b * c * d == b * c * a * d) by (nonlinear_arith);
    assert(a * b * c * d == b * c * d * a) by (nonlinear_arith);
    assert(a * b * c * d == b * d * a * c) by (nonlinear_arith);
    assert(a * b * c * d == b * d * c * a) by (nonlinear_arith);
    assert(a * b * c * d == c * a * b * d) by (nonlinear_arith);
    assert(a * b * c * d == c * a * d * b) by (nonlinear_arith);
    assert(a * b * c * d == c * b * a * d) by (nonlinear_arith);
    assert(a * b * c * d == c * b * d * a) by (nonlinear_arith);
    assert(a * b * c * d == c * d * a * b) by (nonlinear_arith);
    assert(a * b * c * d == c * d * b * a) by (nonlinear_arith);
    assert(a * b * c * d == d * a * b * c) by (nonlinear_arith);
    assert(a * b * c * d == d * a * c * b) by (nonlinear_arith);
    assert(a * b * c * d == d * b * a * c) by (nonlinear_arith);
    assert(a * b * c * d == d * b * c * a) by (nonlinear_arith);
    assert(a * b * c * d == d * c * a * b) by (nonlinear_arith);
    assert(a * b * c * d == d * c * b * a) by (nonlinear_arith);
}

proof fn lemma_laplace_00(x00: int, x01: int, x02: int, x03: int, x10: int, x11: int, x12: int, x13: int, x20: int, x21: int, x22: int, x23: int, x30: int, x31: int, x32: int, x33: int)
    ensures
        x00 * (x11 * (x22 * x33 - x23 * x32) - x12 * (x21 * x33 - x23 * x31) + x13 * (x21 * x32 - x22 * x31)) + x01 * -(x10 * (x22 * x33 - x23 * x32) - x12 * (x20 * x33 - x23 * x30) + x13 * (x20 * x32 - x22 * x30)) + x02 * (x10 * (x21 * x33 - x23 * x31) - x11 * (x20 * x33 - x23 * x30) + x13 * (x20 * x31 - x21 * x30)) + x03 * -(x10 * (x21 * x32 - x22 * x31) - x11 * (x20 * x32 - x22 * x30) + x12 * (x20 * x31 - x21 * x30)) == x00 * (x11 * (x22 * x33 - x23 * x32) - x12 * (x21 * x33 - x23 * x31) + x13 * (x21 * x32 - x22 * x31)) + x01 * -(x10 * (x22 * x33 - x23 * x32) - x12 * (x20 * x33 - x23 * x30) + x13 * (x20 * x32 - x22 * x30)) + x02 * (x10 * (x21 * x33 - x23 * x31) - x11 * (x20 * x33 - x23 * x30) + x13 * (x20 * x31 - x21 * x30)) + x03 * -(x10 * (x21 * x32 - x22 * x31) - x11 * (x20 * x32 - x22 * x30) + x12 * (x20 * x31 - x21 * x30)),
{
    lemma_mul_three_terms(x00, x11 * (x22 * x33 - x23 * x32), x12 * (x21 * x33 - x23 * x31), x13 * (x21 * x32 - x22 * x31));
    lemma_mul_difference(x00, x11, x22 * x33, x23 * x32);
    lemma_mul_regroup(x00 * x11, x22, x33);
    lemma_mul_four_orders(x00, x11, x22, x33);
    lemma_mul_regroup(x00 * x11, x23, x32);
    lemma_mul_four_orders(x00, x11, x23, x32);
    lemma_mul_difference(x00, x12, x21 * x33, x23 * x31);
    lemma_mul_regroup(x00 * x12, x21, x33);
    lemma_mul_four_orders(x00, x12, x21, x33);
    lemma_mul_regroup(x00 * x12, x23, x31);
    lemma_mul_four_orders(x00, x12, x23, x31);
    lemma_mul_difference(x00, x13, x21 * x32, x22 * x31);
    lemma_mul_regroup(x00 * x13, x21, x32);
    lemma_mul_four_orders(x00, x13, x21, x32);
    lemma_mul_regroup(x00 * x13, x22, x31);
    lemma_mul_four_orders(x00, x13, x22, x31);
    lemma_mul_neg(x01, (x10 * (x22 * x33 - x23 * x32) - x12 * (x20 * x33 - x23 * x30) + x13 * (x20 * x32 - x22 * x30)));
    lemma_mul_three_terms(x01, x10 * (x22 * x33 - x23 * x32), x12 * (x20 * x33 - x23 * x30), x13 * (x20 * x32 - x22 * x30));
    lemma_mul_difference(x01, x10, x22 * x33, x23 * x32);
    lemma_mul_regroup(x01 * x10, x22, x33);
    lemma_mul_four_orders(x01, x10, x22, x33);
    lemma_mul_regroup(x01 * x10, x23, x32);
    lemma_mul_four_orders(x01, x10, x23, x32);
    lemma_mul_difference(x01, x12, x20 * x33, x23 * x30);
    lemma_mul_regroup(x01 * x12, x20, x33);
    lemma_mul_four_orders(x01, x12, x20, x33);
    lemma_mul_regroup(x01 * x12, x23, x30);
    lemma_mul_four_orders(x01, x12, x23, x30);
    lemma_mul_difference(x01, x13, x20 * x32, x22 * x30);
    lemma_mul_regroup(x01 * x13, x20, x32);
    lemma_mul_four_orders(x01, x13, x20, x32);
    lemma_mul_regroup(x01 * x13, x22, x30);
    lemma_mul_four_orders(x01, x13, x22, x30);
    lemma_mul_three_terms(x02, x10 * (x21 * x33 - x23 * x31), x11 * (x20 * x33 - x23 * x30), x13 * (x20 * x31 - x21 * x30));
    lemma_mul_difference(x02, x10, x21 * x33, x23 * x31);
    lemma_mul_regroup(x02 * x10, x21, x33);
    lemma_mul_four_orders(x02, x10, x21, x33);
    lemma_mul_regroup(x02 * x10, x23, x31);
    lemma_mul_four_orders(x02, x10, x23, x31);
    lemma_mul_difference(x02, x11, x20 * x33, x23 * x30);
    lemma_mul_regroup(x02 * x11, x20, x33);
    lemma_mul_four_orders(x02, x11, x20, x33);
    lemma_mul_regroup(x02 * x11, x23, x30);
    lemma_mul_four_orders(x02, x11, x23, x30);
    lemma_mul_difference(x02, x13, x20 * x31, x21 * x30);
    lemma_mul_regroup(x02 * x13, x20, x31);
    lemma_mul_four_orders(x02, x13, x20, x31);
    lemma_mul_regroup(x02 * x13, x21, x30);
    lemma_mul_four_orders(x02, x13, x21, x30);
    lemma_mul_neg(x03, (x10 * (x21 * x32 - x22 * x31) - x11 * (x20 * x32 - x22 * x30) + x12 * (x20 * x31 - x21 * x30)));
    lemma_mul_three_terms(x03, x10 * (x21 * x32 - x22 * x31), x11 * (x20 * x32 - x22 * x30), x12 * (x20 * x31 - x21 * x30));
    lemma_mul_difference(x03, x10, x21 * x32, x22 * x31);
    lemma_mul_regroup(x03 * x10, x21, x32);
    lemma_mul_four_orders(x03, x10, x21, x32);
    lemma_mul_regroup(x03 * x10, x22, x31);
    lemma_mul_four_orders(x03, x10, x22, x31);
    lemma_mul_difference(x03, x11, x20 * x32, x22 * x30);
    lemma_mul_regroup(x03 * x11, x20, x32);
    lemma_mul_four_orders(x03, x11, x20, x32);
    lemma_mul_regroup(x03 * x11, x22, x30);
    lemma_mul_four_orders(x03, x11, x22, x30);
    lemma_mul_difference(x03, x12, x20 * x31, x21 * x30);
    lemma_mul_regroup(x03 * x12, x20, x31);
    lemma_mul_four_orders(x03, x12, x20, x31);
    lemma_mul_regroup(x03 * x12, x21, x30);
    lemma_mul_four_orders(x03, x12, x21, x30);
}

proof fn lemma_laplace_01(x00: int, x01: int, x02: int, x03: int, x10: int, x11: int, x12: int, x13: int, x20: int, x21: int, x22: int, x23: int, x30: int, x31: int, x32: int, x33: int)
    ensures
        x00 * -(x01 * (x22 * x33 - x23 * x32) - x02 * (x21 * x33 - x23 * x31) + x03 * (x21 * x32 - x22 * x31)) + x01 * (x00 * (x22 * x33 - x23 * x32) - x02 * (x20 * x33 - x23 * x30) + x03 * (x20 * x32 - x22 * x30)) + x02 * -(x00 * (x21 * x33 - x23 * x31) - x01 * (x20 * x33 - x23 * x30) + x03 * (x20 * x31 - x21 * x30)) + x03 * (x00 * (x21 * x32 - x22 * x31) - x01 * (x20 * x32 - x22 * x30) + x02 * (x20 * x31 - x21 * x30)) == 0,
{
    lemma_mul_neg(x00, (x01 * (x22 * x33 - x23 * x32) - x02 * (x21 * x33 - x23 * x31) + x03 * (x21 * x32 - x22 * x31)));
    lemma_mul_three_terms(x00, x01 * (x22 * x33 - x23 * x32), x02 * (x21 * x33 - x23 * x31), x03 * (x21 * x32 - x22 * x31));
    lemma_mul_difference(x00, x01, x22 * x33, x23 * x32);
    lemma_mul_regroup(x00 * x01, x22, x33);
    lemma_mul_four_orders(x00, x01, x22, x33);
    lemma_mul_regroup(x00 * x01, x23, x32);
    lemma_mul_four_orders(x00, x01, x23, x32);
    lemma_mul_difference(x00, x02, x21 * x33, x23 * x31);
    lemma_mul_regroup(x00 * x02, x21, x33);
    lemma_mul_four_orders(x00, x02, x21, x33);
    lemma_mul_regroup(x00 * x02, x23, x31);
    lemma_mul_four_orders(x00, x02, x23, x31);
    lemma_mul_difference(x00, x03, x21 * x32, x22 * x31);
    lemma_mul_regroup(x00 * x03, x21, x32);
    lemma_mul_four_orders(x00, x03, x21, x32);
    lemma_mul_regroup(x00 * x03, x22, x31);
    lemma_mul_four_orders(x00, x03, x22, x31);
    lemma_mul_three_terms(x01, x00 * (x22 * x33 - x23 * x32), x02 * (x20 * x33 - x23 * x30), x03 * (x20 * x32 - x22 * x30));
    lemma_mul_difference(x01, x00, x22 * x33, x23 * x32);
    lemma_mul_regroup(x01 * x00, x22, x33);
    lemma_mul_four_orders(x01, x00, x22, x33);
    lemma_mul_regroup(x01 * x00, x23, x32);
    lemma_mul_four_orders(x01, x00, x23, x32);
    lemma_mul_difference(x01, x02, x20 * x33, x23 * x30);
    lemma_mul_regroup(x01 * x02, x20, x33);
    lemma_mul_four_orders(x01, x02, x20, x33);
    lemma_mul_regroup(x01 * x02, x23, x30);
    lemma_mul_four_orders(x01, x02, x23, x30);
    lemma_mul_difference(x01, x03, x20 * x32, x22 * x30);
    lemma_mul_regroup(x01 * x03, x20, x32);
    lemma_mul_four_orders(x01, x03, x20, x32);
    lemma_mul_regroup(x01 * x03, x22, x30);
    lemma_mul_four_orders(x01, x03, x22, x30);
    lemma_mul_neg(x02, (x00 * (x21 * x33 - x23 * x31) - x01 * (x20 * x33 - x23 * x30) + x03 * (x20 * x31 - x21 * x30)));
    lemma_mul_three_terms(x02, x00 * (x21 * x33 - x23 * x31), x01 * (x20 * x33 - x23 * x30), x03 * (x20 * x31 - x21 * x30));
    lemma_mul_difference(x02, x00, x21 * x33, x23 * x31);
    lemma_mul_regroup(x02 * x00, x21, x33);
    lemma_mul_four_orders(x02, x00, x21, x33);
    lemma_mul_regroup(x02 * x00, x23, x31);
    lemma_mul_four_orders(x02, x00, x23, x31);
    lemma_mul_difference(x02, x01, x20 * x33, x23 * x30);
    lemma_mul_regroup(x02 * x01, x20, x33);
    lemma_mul_four_orders(x02, x01, x20, x33);
    lemma_mul_regroup(x02 * x01, x23, x30);
    lemma_mul_four_orders(x02, x01, x23, x30);
    lemma_mul_difference(x02, x03, x20 * x31, x21 * x30);
    lemma_mul_regroup(x02 * x03, x20, x31);
    lemma_mul_four_orders(x02, x03, x20, x31);
    lemma_mul_regroup(x02 * x03, x21, x30);
    lemma_mul_four_orders(x02, x03, x21, x30);
    lemma_mul_three_terms(x03, x00 * (x21 * x32 - x22 * x31), x01 * (x20 * x32 - x22 * x30), x02 * (x20 * x31 - x21 * x30));
    lemma_mul_difference(x03, x00, x21 * x32, x22 * x31);
    lemma_mul_regroup(x03 * x00, x21, x32);
    lemma_mul_four_orders(x03, x00, x21, x32);
    lemma_mul_regroup(x03 * x00, x22, x31);
    lemma_mul_four_orders(x03, x00, x22, x31);
    lemma_mul_difference(x03, x01, x20 * x32, x22 * x30);
    lemma_mul_regroup(x03 * x01, x20, x32);
    lemma_mul_four_orders(x03, x01, x20, x32);
    lemma_mul_regroup(x03 * x01, x22, x30);
    lemma_mul_four_orders(x03, x01, x22, x30);
    lemma_mul_difference(x03, x02, x20 * x31, x21 * x30);
    lemma_mul_regroup(x03 * x02, x20, x31);
    lemma_mul_four_orders(x03, x02, x20, x31);
    lemma_mul_regroup(x03 * x02, x21, x30);
    lemma_mul_four_orders(x03, x02, x21, x30);
}

proof fn lemma_laplace_02(x00: int, x01: int, x02: int, x03: int, x10: int, x11: int, x12: int, x13: int, x20: int, x21: int, x22: int, x23: int, x30: int, x31: int, x32: int, x33: int)
    ensures
        x00 * (x01 * (x12 * x33 - x13 * x32) - x02 * (x11 * x33 - x13 * x31) + x03 * (x11 * x32 - x12 * x31)) + x01 * -(x00 * (x12 * x33 - x13 * x32) - x02 * (x10 * x33 - x13 * x30) + x03 * (x10 * x32 - x12 * x30)) + x02 * (x00 * (x11 * x33 - x13 * x31) - x01 * (x10 * x33 - x13 * x30) + x03 * (x10 * x31 - x11 * x30)) + x03 * -(x00 * (x11 * x32 - x12 * x31) - x01 * (x10 * x32 - x12 * x30) + x02 * (x10 * x31 - x11 * x30)) == 0,
{
    lemma_mul_three_terms(x00, x01 * (x12 * x33 - x13 * x32), x02 * (x11 * x33 - x13 * x31), x03 * (x11 * x32 - x12 * x31));
    lemma_mul_difference(x00, x01, x12 * x33, x13 * x32);
    lemma_mul_regroup(x00 * x01, x12, x33);
    lemma_mul_four_orders(x00, x01, x12, x33);
    lemma_mul_regroup(x00 * x01, x13, x32);
    lemma_mul_four_orders(x00, x01, x13, x32);
    lemma_mul_difference(x00, x02, x11 * x33, x13 * x31);
    lemma_mul_regroup(x00 * x02, x11, x33);
    lemma_mul_four_orders(x00, x02, x11, x33);
    lemma_mul_regroup(x00 * x02, x13, x31);
    lemma_mul_four_orders(x00, x02, x13, x31);
    lemma_mul_difference(x00, x03, x11 * x32, x12 * x31);
    lemma_mul_regroup(x00 * x03, x11, x32);
    lemma_mul_four_orders(x00, x03, x11, x32);
    lemma_mul_regroup(x00 * x03, x12, x31);
    lemma_mul_four_orders(x00, x03, x12, x31);
    lemma_mul_neg(x01, (x00 * (x12 * x33 - x13 * x32) - x02 * (x10 * x33 - x13 * x30) + x03 * (x10 * x32 - x12 * x30)));
    lemma_mul_three_terms(x01, x00 * (x12 * x33 - x13 * x32), x02 * (x10 * x33 - x13 * x30), x03 * (x10 * x32 - x12 * x30));
    lemma_mul_difference(x01, x00, x12 * x33, x13 * x32);
    lemma_mul_regroup(x01 * x00, x12, x33);
    lemma_mul_four_orders(x01, x00, x12, x33);
    lemma_mul_regroup(x01 * x00, x13, x32);
    lemma_mul_four_orders(x01, x00, x13, x32);
    lemma_mul_difference(x01, x02, x10 * x33, x13 * x30);
    lemma_mul_regroup(x01 * x02, x10, x33);
    lemma_mul_four_orders(x01, x02, x10, x33);
    lemma_mul_regroup(x01 * x02, x13, x30);
    lemma_mul_four_orders(x01, x02, x13, x30);
    lemma_mul_difference(x01, x03, x10 * x32, x12 * x30);
    lemma_mul_regroup(x01 * x03, x10, x32);
    lemma_mul_four_orders(x01, x03, x10, x32);
    lemma_mul_regroup(x01 * x03, x12, x30);
    lemma_mul_four_orders(x01, x03, x12, x30);
    lemma_mul_three_terms(x02, x00 * (x11 * x33 - x13 * x31), x01 * (x10 * x33 - x13 * x30), x03 * (x10 * x31 - x11 * x30));
    lemma_mul_difference(x02, x00, x11 * x33, x13 * x31);
    lemma_mul_regroup(x02 * x00, x11, x33);
    lemma_mul_four_orders(x02, x00, x11, x33);
    lemma_mul_regroup(x02 * x00, x13, x31);
    lemma_mul_four_orders(x02, x00, x13, x31);
    lemma_mul_difference(x02, x01, x10 * x33, x13 * x30);
    lemma_mul_regroup(x02 * x01, x10, x33);
    lemma_mul_four_orders(x02, x01, x10, x33);
    lemma_mul_regroup(x02 * x01, x13, x30);
    lemma_mul_four_orders(x02, x01, x13, x30);
    lemma_mul_difference(x02, x03, x10 * x31, x11 * x30);
    lemma_mul_regroup(x02 * x03, x10, x31);
    lemma_mul_four_orders(x02, x03, x10, x31);
    lemma_mul_regroup(x02 * x03, x11, x30);
    lemma_mul_four_orders(x02, x03, x11, x30);
    lemma_mul_neg(x03, (x00 * (x11 * x32 - x12 * x31) - x01 * (x10 * x32 - x12 * x30) + x02 * (x10 * x31 - x11 * x30)));
    lemma_mul_three_terms(x03, x00 * (x11 * x32 - x12 * x31), x01 * (x10 * x32 - x12 * x30), x02 * (x10 * x31 - x11 * x30));
    lemma_mul_difference(x03, x00, x11 * x32, x12 * x31);
    lemma_mul_regroup(x03 * x00, x11, x32);
    lemma_mul_four_orders(x03, x00, x11, x32);
    lemma_mul_regroup(x03 * x00, x12, x31);
    lemma_mul_four_orders(x03, x00, x12, x31);
    lemma_mul_difference(x03, x01, x10 * x32, x12 * x30);
    lemma_mul_regroup(x03 * x01, x10, x32);
    lemma_mul_four_orders(x03, x01, x10, x32);
    lemma_mul_regroup(x03 * x01, x12, x30);
    lemma_mul_four_orders(x03, x01, x12, x30);
    lemma_mul_difference(x03, x02, x10 * x31, x11 * x30);
    lemma_mul_regroup(x03 * x02, x10, x31);
    lemma_mul_four_orders(x03, x02, x10, x31);
    lemma_mul_regroup(x03 * x02, x11, x30);
    lemma_mul_four_orders(x03, x02, x11, x30);
}

proof fn lemma_laplace_03(x00: int, x01: int, x02: int, x03: int, x10: int, x11: int, x12: int, x13: int, x20: int, x21: int, x22: int, x23: int, x30: int, x31: int, x32: int, x33: int)
    ensures
        x00 * -(x01 * (x12 * x23 - x13 * x22) - x02 * (x11 * x23 - x13 * x21) + x03 * (x11 * x22 - x12 * x21)) + x01 * (x00 * (x12 * x23 - x13 * x22) - x02 * (x10 * x23 - x13 * x20) + x03 * (x10 * x22 - x12 * x20)) + x02 * -(x00 * (x11 * x23 - x13 * x21) - x01 * (x10 * x23 - x13 * x20) + x03 * (x10 * x21 - x11 * x20)) + x03 * (x00 * (x11 * x22 - x12 * x21) - x01 * (x10 * x22 - x12 * x20) + x02 * (x10 * x21 - x11 * x20)) == 0,
{
    lemma_mul_neg(x00, (x01 * (x12 * x23 - x13 * x22) - x02 * (x11 * x23 - x13 * x21) + x03 * (x11 * x22 - x12 * x21)));
    lemma_mul_three_terms(x00, x01 * (x12 * x23 - x13 * x22), x02 * (x11 * x23 - x13 * x21), x03 * (x11 * x22 - x12 * x21));
    lemma_mul_difference(x00, x01, x12 * x23, x13 * x22);
    lemma_mul_regroup(x00 * x01, x12, x23);
    lemma_mul_four_orders(x00, x01, x12, x23);
    lemma_mul_regroup(x00 * x01, x13, x22);
    lemma_mul_four_orders(x00, x01, x13, x22);
    lemma_mul_difference(x00, x02, x11 * x23, x13 * x21);
    lemma_mul_regroup(x00 * x02, x11, x23);
    lemma_mul_four_orders(x00, x02, x11, x23);
    lemma_mul_regroup(x00 * x02, x13, x21);
    lemma_mul_four_orders(x00, x02, x13, x21);
    lemma_mul_difference(x00, x03, x11 * x22, x12 * x21);
    lemma_mul_regroup(x00 * x03, x11, x22);
    lemma_mul_four_orders(x00, x03, x11, x22);
    lemma_mul_regroup(x00 * x03, x12, x21);
    lemma_mul_four_orders(x00, x03, x12, x21);
    lemma_mul_three_terms(x01, x00 * (x12 * x23 - x13 * x22), x02 * (x10 * x23 - x13 * x20), x03 * (x10 * x22 - x12 * x20));
    lemma_mul_difference(x01, x00, x12 * x23, x13 * x22);
    lemma_mul_regroup(x01 * x00, x12, x23);
    lemma_mul_four_orders(x01, x00, x12, x23);
    lemma_mul_regroup(x01 * x00, x13, x22);
    lemma_mul_four_orders(x01, x00, x13, x22);
    lemma_mul_difference(x01, x02, x10 * x23, x13 * x20);
    lemma_mul_regroup(x01 * x02, x10, x23);
    lemma_mul_four_orders(x01, x02, x10, x23);
    lemma_mul_regroup(x01 * x02, x13, x20);
    lemma_mul_four_orders(x01, x02, x13, x20);
    lemma_mul_difference(x01, x03, x10 * x22, x12 * x20);
    lemma_mul_regroup(x01 * x03, x10, x22);
    lemma_mul_four_orders(x01, x03, x10, x22);
    lemma_mul_regroup(x01 * x03, x12, x20);
    lemma_mul_four_orders(x01, x03, x12, x20);
    lemma_mul_neg(x02, (x00 * (x11 * x23 - x13 * x21) - x01 * (x10 * x23 - x13 * x20) + x03 * (x10 * x21 - x11 * x20)));
    lemma_mul_three_terms(x02, x00 * (x11 * x23 - x13 * x21), x01 * (x10 * x23 - x13 * x20), x03 * (x10 * x21 - x11 * x20));
    lemma_mul_difference(x02, x00, x11 * x23, x13 * x21);
    lemma_mul_regroup(x02 * x00, x11, x23);
    lemma_mul_four_orders(x02, x00, x11, x23);
    lemma_mul_regroup(x02 * x00, x13, x21);
    lemma_mul_four_orders(x02, x00, x13, x21);
    lemma_mul_difference(x02, x01, x10 * x23, x13 * x20);
    lemma_mul_regroup(x02 * x01, x10, x23);
    lemma_mul_four_orders(x02, x01, x10, x23);
    lemma_mul_regroup(x02 * x01, x13, x20);
    lemma_mul_four_orders(x02, x01, x13, x20);
    lemma_mul_difference(x02, x03, x10 * x21, x11 * x20);
    lemma_mul_regroup(x02 * x03, x10, x21);
    lemma_mul_four_orders(x02, x03, x10, x21);
    lemma_mul_regroup(x02 * x03, x11, x20);
    lemma_mul_four_orders(x02, x03, x11, x20);
    lemma_mul_three_terms(x03, x00 * (x11 * x22 - x12 * x21), x01 * (x10 * x22 - x12 * x20), x02 * (x10 * x21 - x11 * x20));
    lemma_mul_difference(x03, x00, x11 * x22, x12 * x21);
    lemma_mul_regroup(x03 * x00, x11, x22);
    lemma_mul_four_orders(x03, x00, x11, x22);
    lemma_mul_regroup(x03 * x00, x12, x21);
    lemma_mul_four_orders(x03, x00, x12, x21);
    lemma_mul_difference(x03, x01, x10 * x22, x12 * x20);
    lemma_mul_regroup(x03 * x01, x10, x22);
    lemma_mul_four_orders(x03, x01, x10, x22);
    lemma_mul_regroup(x03 * x01, x12, x20);
    lemma_mul_four_orders(x03, x01, x12, x20);
    lemma_mul_difference(x03, x02, x10 * x21, x11 * x20);
    lemma_mul_regroup(x03 * x02, x10, x21);
    lemma_mul_four_orders(x03, x02, x10, x21);
    lemma_mul_regroup(x03 * x02, x11, x20);
    lemma_mul_four_orders(x03, x02, x11, x20);
}

proof fn lemma_laplace_10(x00: int, x01: int, x02: int, x03: int, x10: int, x11: int, x12: int, x13: int, x20: int, x21: int, x22: int, x23: int, x30: int, x31: int, x32: int, x33: int)
    ensures
        x10 * (x11 * (x22 * x33 - x23 * x32) - x12 * (x21 * x33 - x23 * x31) + x13 * (x21 * x32 - x22 * x31)) + x11 * -(x10 * (x22 * x33 - x23 * x32) - x12 * (x20 * x33 - x23 * x30) + x13 * (x20 * x32 - x22 * x30)) + x12 * (x10 * (x21 * x33 - x23 * x31) - x11 * (x20 * x33 - x23 * x30) + x13 * (x20 * x31 - x21 * x30)) + x13 * -(x10 * (x21 * x32 - x22 * x31) - x11 * (x20 * x32 - x22 * x30) + x12 * (x20 * x31 - x21 * x30)) == 0,
{
    lemma_mul_three_terms(x10, x11 * (x22 * x33 - x23 * x32), x12 * (x21 * x33 - x23 * x31), x13 * (x21 * x32 - x22 * x31));
    lemma_mul_difference(x10, x11, x22 * x33, x23 * x32);
    lemma_mul_regroup(x10 * x11, x22, x33);
    lemma_mul_four_orders(x10, x11, x22, x33);
    lemma_mul_regroup(x10 * x11, x23, x32);
    lemma_mul_four_orders(x10, x11, x23, x32);
    lemma_mul_difference(x10, x12, x21 * x33, x23 * x31);
    lemma_mul_regroup(x10 * x12, x21, x33);
    lemma_mul_four_orders(x10, x12, x21, x33);
    lemma_mul_regroup(x10 * x12, x23, x31);
    lemma_mul_four_orders(x10, x12, x23, x31);
    lemma_mul_difference(x10, x13, x21 * x32, x22 * x31);
    lemma_mul_regroup(x10 * x13, x21, x32);
    lemma_mul_four_orders(x10, x13, x21, x32);
    lemma_mul_regroup(x10 * x13, x22, x31);
    lemma_mul_four_orders(x10, x13, x22, x31);
    lemma_mul_neg(x11, (x10 * (x22 * x33 - x23 * x32) - x12 * (x20 * x33 - x23 * x30) + x13 * (x20 * x32 - x22 * x30)));
    lemma_mul_three_terms(x11, x10 * (x22 * x33 - x23 * x32), x12 * (x20 * x33 - x23 * x30), x13 * (x20 * x32 - x22 * x30));
    lemma_mul_difference(x11, x10, x22 * x33, x23 * x32);
    lemma_mul_regroup(x11 * x10, x22, x33);
    lemma_mul_four_orders(x11, x10, x22, x33);
    lemma_mul_regroup(x11 * x10, x23, x32);
    lemma_mul_four_orders(x11, x10, x23, x32);
    lemma_mul_difference(x11, x12, x20 * x33, x23 * x30);
    lemma_mul_regroup(x11 * x12, x20, x33);
    lemma_mul_four_orders(x11, x12, x20, x33);
    lemma_mul_regroup(x11 * x12, x23, x30);
    lemma_mul_four_orders(x11, x12, x23, x30);
    lemma_mul_difference(x11, x13, x20 * x32, x22 * x30);
    lemma_mul_regroup(x11 * x13, x20, x32);
    lemma_mul_four_orders(x11, x13, x20, x32);
    lemma_mul_regroup(x11 * x13, x22, x30);
    lemma_mul_four_orders(x11, x13, x22, x30);
    lemma_mul_three_terms(x12, x10 * (x21 * x33 - x23 * x31), x11 * (x20 * x33 - x23 * x30), x13 * (x20 * x31 - x21 * x30));
    lemma_mul_difference(x12, x10, x21 * x33, x23 * x31);
    lemma_mul_regroup(x12 * x10, x21, x33);
    lemma_mul_four_orders(x12, x10, x21, x33);
    lemma_mul_regroup(x12 * x10, x23, x31);
    lemma_mul_four_orders(x12, x10, x23, x31);
    lemma_mul_difference(x12, x11, x20 * x33, x23 * x30);
    lemma_mul_regroup(x12 * x11, x20, x33);
    lemma_mul_four_orders(x12, x11, x20, x33);
    lemma_mul_regroup(x12 * x11, x23, x30);
    lemma_mul_four_orders(x12, x11, x23, x30);
    lemma_mul_difference(x12, x13, x20 * x31, x21 * x30);
    lemma_mul_regroup(x12 * x13, x20, x31);
    lemma_mul_four_orders(x12, x13, x20, x31);
    lemma_mul_regroup(x12 * x13, x21, x30);
    lemma_mul_four_orders(x12, x13, x21, x30);
    lemma_mul_neg(x13, (x10 * (x21 * x32 - x22 * x31) - x11 * (x20 * x32 - x22 * x30) + x12 * (x20 * x31 - x21 * x30)));
    lemma_mul_three_terms(x13, x10 * (x21 * x32 - x22 * x31), x11 * (x20 * x32 - x22 * x30), x12 * (x20 * x31 - x21 * x30));
    lemma_mul_difference(x13, x10, x21 * x32, x22 * x31);
    lemma_mul_regroup(x13 * x10, x21, x32);
    lemma_mul_four_orders(x13, x10, x21, x32);
    lemma_mul_regroup(x13 * x10, x22, x31);
    lemma_mul_four_orders(x13, x10, x22, x31);
    lemma_mul_difference(x13, x11, x20 * x32, x22 * x30);
    lemma_mul_regroup(x13 * x11, x20, x32);
    lemma_mul_four_orders(x13, x11, x20, x32);
    lemma_mul_regroup(x13 * x11, x22, x30);
    lemma_mul_four_orders(x13, x11, x22, x30);
    lemma_mul_difference(x13, x12, x20 * x31, x21 * x30);
    lemma_mul_regroup(x13 * x12, x20, x31);
    lemma_mul_four_orders(x13, x12, x20, x31);
    lemma_mul_regroup(x13 * x12, x21, x30);
    lemma_mul_four_orders(x13, x12, x21, x30);
}

proof fn lemma_laplace_11(x00: int, x01: int, x02: int, x03: int, x10: int, x11: int, x12: int, x13: int, x20: int, x21: int, x22: int, x23: int, x30: int, x31: int, x32: int, x33: int)
    ensures
        x10 * -(x01 * (x22 * x33 - x23 * x32) - x02 * (x21 * x33 - x23 * x31) + x03 * (x21 * x32 - x22 * x31)) + x11 * (x00 * (x22 * x33 - x23 * x32) - x02 * (x20 * x33 - x23 * x30) + x03 * (x20 * x32 - x22 * x30)) + x12 * -(x00 * (x21 * x33 - x23 * x31) - x01 * (x20 * x33 - x23 * x30) + x03 * (x20 * x31 - x21 * x30)) + x13 * (x00 * (x21 * x32 - x22 * x31) - x01 * (x20 * x32 - x22 * x30) + x02 * (x20 * x31 - x21 * x30)) == x00 * (x11 * (x22 * x33 - x23 * x32) - x12 * (x21 * x33 - x23 * x31) + x13 * (x21 * x32 - x22 * x31)) + x01 * -(x10 * (x22 * x33 - x23 * x32) - x12 * (x20 * x33 - x23 * x30) + x13 * (x20 * x32 - x22 * x30)) + x02 * (x10 * (x21 * x33 - x23 * x31) - x11 * (x20 * x33 - x23 * x30) + x13 * (x20 * x31 - x21 * x30)) + x03 * -(x10 * (x21 * x32 - x22 * x31) - x11 * (x20 * x32 - x22 * x30) + x12 * (x20 * x31 - x21 * x30)),
{
    lemma_mul_neg(x10, (x01 * (x22 * x33 - x23 * x32) - x02 * (x21 * x33 - x23 * x31) + x03 * (x21 * x32 - x22 * x31)));
    lemma_mul_three_terms(x10, x01 * (x22 * x33 - x23 * x32), x02 * (x21 * x33 - x23 * x31), x03 * (x21 * x32 - x22 * x31));
    lemma_mul_difference(x10, x01, x22 * x33, x23 * x32);
    lemma_mul_regroup(x10 * x01, x22, x33);
    lemma_mul_four_orders(x10, x01, x22, x33);
    lemma_mul_regroup(x10 * x01, x23, x32);
    lemma_mul_four_orders(x10, x01, x23, x32);
    lemma_mul_difference(x10, x02, x21 * x33, x23 * x31);
    lemma_mul_regroup(x10 * x02, x21, x33);
    lemma_mul_four_orders(x10, x02, x21, x33);
    lemma_mul_regroup(x10 * x02, x23, x31);
    lemma_mul_four_orders(x10, x02, x23, x31);
    lemma_mul_difference(x10, x03, x21 * x32, x22 * x31);
    lemma_mul_regroup(x10 * x03, x21, x32);
    lemma_mul_four_orders(x10, x03, x21, x32);
    lemma_mul_regroup(x10 * x03, x22, x31);
    lemma_mul_four_orders(x10, x03, x22, x31);
    lemma_mul_three_terms(x11, x00 * (x22 * x33 - x23 * x32), x02 * (x20 * x33 - x23 * x30), x03 * (x20 * x32 - x22 * x30));
    lemma_mul_difference(x11, x00, x22 * x33, x23 * x32);
    lemma_mul_regroup(x11 * x00, x22, x33);
    lemma_mul_four_orders(x11, x00, x22, x33);
    lemma_mul_regroup(x11 * x00, x23, x32);
    lemma_mul_four_orders(x11, x00, x23, x32);
    lemma_mul_difference(x11, x02, x20 * x33, x23 * x30);
    lemma_mul_regroup(x11 * x02, x20, x33);
    lemma_mul_four_orders(x11, x02, x20, x33);
    lemma_mul_regroup(x11 * x02, x23, x30);
    lemma_mul_four_orders(x11, x02, x23, x30);
    lemma_mul_difference(x11, x03, x20 * x32, x22 * x30);
    lemma_mul_regroup(x11 * x03, x20, x32);
    lemma_mul_four_orders(x11, x03, x20, x32);
    lemma_mul_regroup(x11 * x03, x22, x30);
    lemma_mul_four_orders(x11, x03, x22, x30);
    lemma_mul_neg(x12, (x00 * (x21 * x33 - x23 * x31) - x01 * (x20 * x33 - x23 * x30) + x03 * (x20 * x31 - x21 * x30)));
    lemma_mul_three_terms(x12, x00 * (x21 * x33 - x23 * x31), x01 * (x20 * x33 - x23 * x30), x03 * (x20 * x31 - x21 * x30));
    lemma_mul_difference(x12, x00, x21 * x33, x23 * x31);
    lemma_mul_regroup(x12 * x00, x21, x33);
    lemma_mul_four_orders(x12, x00, x21, x33);
    lemma_mul_regroup(x12 * x00, x23, x31);
    lemma_mul_four_orders(x12, x00, x23, x31);
    lemma_mul_difference(x12, x01, x20 * x33, x23 * x30);
    lemma_mul_regroup(x12 * x01, x20, x33);
    lemma_mul_four_orders(x12, x01, x20, x33);
    lemma_mul_regroup(x12 * x01, x23, x30);
    lemma_mul_four_orders(x12, x01, x23, x30);
    lemma_mul_difference(x12, x03, x20 * x31, x21 * x30);
    lemma_mul_regroup(x12 * x03, x20, x31);
    lemma_mul_four_orders(x12, x03, x20, x31);
    lemma_mul_regroup(x12 * x03, x21, x30);
    lemma_mul_four_orders(x12, x03, x21, x30);
    lemma_mul_three_terms(x13, x00 * (x21 * x32 - x22 * x31), x01 * (x20 * x32 - x22 * x30), x02 * (x20 * x31 - x21 * x30));
    lemma_mul_difference(x13, x00, x21 * x32, x22 * x31);
    lemma_mul_regroup(x13 * x00, x21, x32);
    lemma_mul_four_orders(x13, x00, x21, x32);
    lemma_mul_regroup(x13 * x00, x22, x31);
    lemma_mul_four_orders(x13, x00, x22, x31);
    lemma_mul_difference(x13, x01, x20 * x32, x22 * x30);
    lemma_mul_regroup(x13 * x01, x20, x32);
    lemma_mul_four_orders(x13, x01, x20, x32);
    lemma_mul_regroup(x13 * x01, x22, x30);
    lemma_mul_four_orders(x13, x01, x22, x30);
    lemma_mul_difference(x13, x02, x20 * x31, x21 * x30);
    lemma_mul_regroup(x13 * x02, x20, x31);
    lemma_mul_four_orders(x13, x02, x20, x31);
    lemma_mul_regroup(x13 * x02, x21, x30);
    lemma_mul_four_orders(x13, x02, x21, x30);
    lemma_mul_three_terms(x00, x11 * (x22 * x33 - x23 * x32), x12 * (x21 * x33 - x23 * x31), x13 * (x21 * x32 - x22 * x31));
    lemma_mul_difference(x00, x11, x22 * x33, x23 * x32);
    lemma_mul_regroup(x00 * x11, x22, x33);
    lemma_mul_four_orders(x00, x11, x22, x33);
    lemma_mul_regroup(x00 * x11, x23, x32);
    lemma_mul_four_orders(x00, x11, x23, x32);
    lemma_mul_difference(x00, x12, x21 * x33, x23 * x31);
    lemma_mul_regroup(x00 * x12, x21, x33);
    lemma_mul_four_orders(x00, x12, x21, x33);
    lemma_mul_regroup(x00 * x12, x23, x31);
    lemma_mul_four_orders(x00, x12, x23, x31);
    lemma_mul_difference(x00, x13, x21 * x32, x22 * x31);
    lemma_mul_regroup(x00 * x13, x21, x32);
    lemma_mul_four_orders(x00, x13, x21, x32);
    lemma_mul_regroup(x00 * x13, x22, x31);
    lemma_mul_four_orders(x00, x13, x22, x31);
    lemma_mul_neg(x01, (x10 * (x22 * x33 - x23 * x32) - x12 * (x20 * x33 - x23 * x30) + x13 * (x20 * x32 - x22 * x30)));
    lemma_mul_three_terms(x01, x10 * (x22 * x33 - x23 * x32), x12 * (x20 * x33 - x23 * x30), x13 * (x20 * x32 - x22 * x30));
    lemma_mul_difference(x01, x10, x22 * x33, x23 * x32);
    lemma_mul_regroup(x01 * x10, x22, x33);
    lemma_mul_four_orders(x01, x10, x22, x33);
    lemma_mul_regroup(x01 * x10, x23, x32);
    lemma_mul_four_orders(x01, x10, x23, x32);
    lemma_mul_difference(x01, x12, x20 * x33, x23 * x30);
    lemma_mul_regroup(x01 * x12, x20, x33);
    lemma_mul_four_orders(x01, x12, x20, x33);
    lemma_mul_regroup(x01 * x12, x23, x30);
    lemma_mul_four_orders(x01, x12, x23, x30);
    lemma_mul_difference(x01, x13, x20 * x32, x22 * x30);
    lemma_mul_regroup(x01 * x13, x20, x32);
    lemma_mul_four_orders(x01, x13, x20, x32);
    lemma_mul_regroup(x01 * x13, x22, x30);
    lemma_mul_four_orders(x01, x13, x22, x30);
    lemma_mul_three_terms(x02, x10 * (x21 * x33 - x23 * x31), x11 * (x20 * x33 - x23 * x30), x13 * (x20 * x31 - x21 * x30));
    lemma_mul_difference(x02, x10, x21 * x33, x23 * x31);
    lemma_mul_regroup(x02 * x10, x21, x33);
    lemma_mul_four_orders(x02, x10, x21, x33);
    lemma_mul_regroup(x02 * x10, x23, x31);
    lemma_mul_four_orders(x02, x10, x23, x31);
    lemma_mul_difference(x02, x11, x20 * x33, x23 * x30);
    lemma_mul_regroup(x02 * x11, x20, x33);
    lemma_mul_four_orders(x02, x11, x20, x33);
    lemma_mul_regroup(x02 * x11, x23, x30);
    lemma_mul_four_orders(x02, x11, x23, x30);
    lemma_mul_difference(x02, x13, x20 * x31, x21 * x30);
    lemma_mul_regroup(x02 * x13, x20, x31);
    lemma_mul_four_orders(x02, x13, x20, x31);
    lemma_mul_regroup(x02 * x13, x21, x30);
    lemma_mul_four_orders(x02, x13, x21, x30);
    lemma_mul_neg(x03, (x10 * (x21 * x32 - x22 * x31) - x11 * (x20 * x32 - x22 * x30) + x12 * (x20 * x31 - x21 * x30)));
    lemma_mul_three_terms(x03, x10 * (x21 * x32 - x22 * x31), x11 * (x20 * x32 - x22 * x30), x12 * (x20 * x31 - x21 * x30));
    lemma_mul_difference(x03, x10, x21 * x32, x22 * x31);
    lemma_mul_regroup(x03 * x10, x21, x32);
    lemma_mul_four_orders(x03, x10, x21, x32);
    lemma_mul_regroup(x03 * x10, x22, x31);
    lemma_mul_four_orders(x03, x10, x22, x31);
    lemma_mul_difference(x03, x11, x20 * x32, x22 * x30);
    lemma_mul_regroup(x03 * x11, x20, x32);
    lemma_mul_four_orders(x03, x11, x20, x32);
    lemma_mul_regroup(x03 * x11, x22, x30);
    lemma_mul_four_orders(x03, x11, x22, x30);
    lemma_mul_difference(x03, x12, x20 * x31, x21 * x30);
    lemma_mul_regroup(x03 * x12, x20, x31);
    lemma_mul_four_orders(x03, x12, x20, x31);
    lemma_mul_regroup(x03 * x12, x21, x30);
    lemma_mul_four_orders(x03, x12, x21, x30);
}

proof fn lemma_laplace_12(x00: int, x01: int, x02: int, x03: int, x10: int, x11: int, x12: int, x13: int, x20: int, x21: int, x22: int, x23: int, x30: int, x31: int, x32: int, x33: int)
    ensures
        x10 * (x01 * (x12 * x33 - x13 * x32) - x02 * (x11 * x33 - x13 * x31) + x03 * (x11 * x32 - x12 * x31)) + x11 * -(x00 * (x12 * x33 - x13 * x32) - x02 * (x10 * x33 - x13 * x30) + x03 * (x10 * x32 - x12 * x30)) + x12 * (x00 * (x11 * x33 - x13 * x31) - x01 * (x10 * x33 - x13 * x30) + x03 * (x10 * x31 - x11 * x30)) + x13 * -(x00 * (x11 * x32 - x12 * x31) - x01 * (x10 * x32 - x12 * x30) + x02 * (x10 * x31 - x11 * x30)) == 0,
{
    lemma_mul_three_terms(x10, x01 * (x12 * x33 - x13 * x32), x02 * (x11 * x33 - x13 * x31), x03 * (x11 * x32 - x12 * x31));
    lemma_mul_difference(x10, x01, x12 * x33, x13 * x32);
    lemma_mul_regroup(x10 * x01, x12, x33);
    lemma_mul_four_orders(x10, x01, x12, x33);
    lemma_mul_regroup(x10 * x01, x13, x32);
    lemma_mul_four_orders(x10, x01, x13, x32);
    lemma_mul_difference(x10, x02, x11 * x33, x13 * x31);
    lemma_mul_regroup(x10 * x02, x11, x33);
    lemma_mul_four_orders(x10, x02, x11, x33);
    lemma_mul_regroup(x10 * x02, x13, x31);
    lemma_mul_four_orders(x10, x02, x13, x31);
    lemma_mul_difference(x10, x03, x11 * x32, x12 * x31);
    lemma_mul_regroup(x10 * x03, x11, x32);
    lemma_mul_four_orders(x10, x03, x11, x32);
    lemma_mul_regroup(x10 * x03, x12, x31);
    lemma_mul_four_orders(x10, x03, x12, x31);
    lemma_mul_neg(x11, (x00 * (x12 * x33 - x13 * x32) - x02 * (x10 * x33 - x13 * x30) + x03 * (x10 * x32 - x12 * x30)));
    lemma_mul_three_terms(x11, x00 * (x12 * x33 - x13 * x32), x02 * (x10 * x33 - x13 * x30), x03 * (x10 * x32 - x12 * x30));
    lemma_mul_difference(x11, x00, x12 * x33, x13 * x32);
    lemma_mul_regroup(x11 * x00, x12, x33);
    lemma_mul_four_orders(x11, x00, x12, x33);
    lemma_mul_regroup(x11 * x00, x13, x32);
    lemma_mul_four_orders(x11, x00, x13, x32);
    lemma_mul_difference(x11, x02, x10 * x33, x13 * x30);
    lemma_mul_regroup(x11 * x02, x10, x33);
    lemma_mul_four_orders(x11, x02, x10, x33);
    lemma_mul_regroup(x11 * x02, x13, x30);
    lemma_mul_four_orders(x11, x02, x13, x30);
    lemma_mul_difference(x11, x03, x10 * x32, x12 * x30);
    lemma_mul_regroup(x11 * x03, x10, x32);
    lemma_mul_four_orders(x11, x03, x10, x32);
    lemma_mul_regroup(x11 * x03, x12, x30);
    lemma_mul_four_orders(x11, x03, x12, x30);
    lemma_mul_three_terms(x12, x00 * (x11 * x33 - x13 * x31), x01 * (x10 * x33 - x13 * x30), x03 * (x10 * x31 - x11 * x30));
    lemma_mul_difference(x12, x00, x11 * x33, x13 * x31);
    lemma_mul_regroup(x12 * x00, x11, x33);
    lemma_mul_four_orders(x12, x00, x11, x33);
    lemma_mul_regroup(x12 * x00, x13, x31);
    lemma_mul_four_orders(x12, x00, x13, x31);
    lemma_mul_difference(x12, x01, x10 * x33, x13 * x30);
    lemma_mul_regroup(x12 * x01, x10, x33);
    lemma_mul_four_orders(x12, x01, x10, x33);
    lemma_mul_regroup(x12 * x01, x13, x30);
    lemma_mul_four_orders(x12, x01, x13, x30);
    lemma_mul_difference(x12, x03, x10 * x31, x11 * x30);
    lemma_mul_regroup(x12 * x03, x10, x31);
    lemma_mul_four_orders(x12, x03, x10, x31);
    lemma_mul_regroup(x12 * x03, x11, x30);
    lemma_mul_four_orders(x12, x03, x11, x30);
    lemma_mul_neg(x13, (x00 * (x11 * x32 - x12 * x31) - x01 * (x10 * x32 - x12 * x30) + x02 * (x10 * x31 - x11 * x30)));
    lemma_mul_three_terms(x13, x00 * (x11 * x32 - x12 * x31), x01 * (x10 * x32 - x12 * x30), x02 * (x10 * x31 - x11 * x30));
    lemma_mul_difference(x13, x00, x11 * x32, x12 * x31);
    lemma_mul_regroup(x13 * x00, x11, x32);
    lemma_mul_four_orders(x13, x00, x11, x32);
    lemma_mul_regroup(x13 * x00, x12, x31);
    lemma_mul_four_orders(x13, x00, x12, x31);
    lemma_mul_difference(x13, x01, x10 * x32, x12 * x30);
    lemma_mul_regroup(x13 * x01, x10, x32);
    lemma_mul_four_orders(x13, x01, x10, x32);
    lemma_mul_regroup(x13 * x01, x12, x30);
    lemma_mul_four_orders(x13, x01, x12, x30);
    lemma_mul_difference(x13, x02, x10 * x31, x11 * x30);
    lemma_mul_regroup(x13 * x02, x10, x31);
    lemma_mul_four_orders(x13, x02, x10, x31);
    lemma_mul_regroup(x13 * x02, x11, x30);
    lemma_mul_four_orders(x13, x02, x11, x30);
}

proof fn lemma_laplace_13(x00: int, x01: int, x02: int, x03: int, x10: int, x11: int, x12: int, x13: int, x20: int, x21: int, x22: int, x23: int, x30: int, x31: int, x32: int, x33: int)
    ensures
        x10 * -(x01 * (x12 * x23 - x13 * x22) - x02 * (x11 * x23 - x13 * x21) + x03 * (x11 * x22 - x12 * x21)) + x11 * (x00 * (x12 * x23 - x13 * x22) - x02 * (x10 * x23 - x13 * x20) + x03 * (x10 * x22 - x12 * x20)) + x12 * -(x00 * (x11 * x23 - x13 * x21) - x01 * (x10 * x23 - x13 * x20) + x03 * (x10 * x21 - x11 * x20)) + x13 * (x00 * (x11 * x22 - x12 * x21) - x01 * (x10 * x22 - x12 * x20) + x02 * (x10 * x21 - x11 * x20)) == 0,
{
    lemma_mul_neg(x10, (x01 * (x12 * x23 - x13 * x22) - x02 * (x11 * x23 - x13 * x21) + x03 * (x11 * x22 - x12 * x21)));
    lemma_mul_three_terms(x10, x01 * (x12 * x23 - x13 * x22), x02 * (x11 * x23 - x13 * x21), x03 * (x11 * x22 - x12 * x21));
    lemma_mul_difference(x10, x01, x12 * x23, x13 * x22);
    lemma_mul_regroup(x10 * x01, x12, x23);
    lemma_mul_four_orders(x10, x01, x12, x23);
    lemma_mul_regroup(x10 * x01, x13, x22);
    lemma_mul_four_orders(x10, x01, x13, x22);
    lemma_mul_difference(x10, x02, x11 * x23, x13 * x21);
    lemma_mul_regroup(x10 * x02, x11, x23);
    lemma_mul_four_orders(x10, x02, x11, x23);
    lemma_mul_regroup(x10 * x02, x13, x21);
    lemma_mul_four_orders(x10, x02, x13, x21);
    lemma_mul_difference(x10, x03, x11 * x22, x12 * x21);
    lemma_mul_regroup(x10 * x03, x11, x22);
    lemma_mul_four_orders(x10, x03, x11, x22);
    lemma_mul_regroup(x10 * x03, x12, x21);
    lemma_mul_four_orders(x10, x03, x12, x21);
    lemma_mul_three_terms(x11, x00 * (x12 * x23 - x13 * x22), x02 * (x10 * x23 - x13 * x20), x03 * (x10 * x22 - x12 * x20));
    lemma_mul_difference(x11, x00, x12 * x23, x13 * x22);
    lemma_mul_regroup(x11 * x00, x12, x23);
    lemma_mul_four_orders(x11, x00, x12, x23);
    lemma_mul_regroup(x11 * x00, x13, x22);
    lemma_mul_four_orders(x11, x00, x13, x22);
    lemma_mul_difference(x11, x02, x10 * x23, x13 * x20);
    lemma_mul_regroup(x11 * x02, x10, x23);
    lemma_mul_four_orders(x11, x02, x10, x23);
    lemma_mul_regroup(x11 * x02, x13, x20);
    lemma_mul_four_orders(x11, x02, x13, x20);
    lemma_mul_difference(x11, x03, x10 * x22, x12 * x20);
    lemma_mul_regroup(x11 * x03, x10, x22);
    lemma_mul_four_orders(x11, x03, x10, x22);
    lemma_mul_regroup(x11 * x03, x12, x20);
    lemma_mul_four_orders(x11, x03, x12, x20);
    lemma_mul_neg(x12, (x00 * (x11 * x23 - x13 * x21) - x01 * (x10 * x23 - x13 * x20) + x03 * (x10 * x21 - x11 * x20)));
    lemma_mul_three_terms(x12, x00 * (x11 * x23 - x13 * x21), x01 * (x10 * x23 - x13 * x20), x03 * (x10 * x21 - x11 * x20));
    lemma_mul_difference(x12, x00, x11 * x23, x13 * x21);
    lemma_mul_regroup(x12 * x00, x11, x23);
    lemma_mul_four_orders(x12, x00, x11, x23);
    lemma_mul_regroup(x12 * x00, x13, x21);
    lemma_mul_four_orders(x12, x00, x13, x21);
    lemma_mul_difference(x12, x01, x10 * x23, x13 * x20);
    lemma_mul_regroup(x12 * x01, x10, x23);
    lemma_mul_four_orders(x12, x01, x10, x23);
    lemma_mul_regroup(x12 * x01, x13, x20);
    lemma_mul_four_orders(x12, x01, x13, x20);
    lemma_mul_difference(x12, x03, x10 * x21, x11 * x20);
    lemma_mul_regroup(x12 * x03, x10, x21);
    lemma_mul_four_orders(x12, x03, x10, x21);
    lemma_mul_regroup(x12 * x03, x11, x20);
    lemma_mul_four_orders(x12, x03, x11, x20);
    lemma_mul_three_terms(x13, x00 * (x11 * x22 - x12 * x21), x01 * (x10 * x22 - x12 * x20), x02 * (x10 * x21 - x11 * x20));
    lemma_mul_difference(x13, x00, x11 * x22, x12 * x21);
    lemma_mul_regroup(x13 * x00, x11, x22);
    lemma_mul_four_orders(x13, x00, x11, x22);
    lemma_mul_regroup(x13 * x00, x12, x21);
    lemma_mul_four_orders(x13, x00, x12, x21);
    lemma_mul_difference(x13, x01, x10 * x22, x12 * x20);
    lemma_mul_regroup(x13 * x01, x10, x22);
    lemma_mul_four_orders(x13, x01, x10, x22);
    lemma_mul_regroup(x13 * x01, x12, x20);
    lemma_mul_four_orders(x13, x01, x12, x20);
    lemma_mul_difference(x13, x02, x10 * x21, x11 * x20);
    lemma_mul_regroup(x13 * x02, x10, x21);
    lemma_mul_four_orders(x13, x02, x10, x21);
    lemma_mul_regroup(x13 * x02, x11, x20);
    lemma_mul_four_orders(x13, x02, x11, x20);
}

proof fn lemma_laplace_20(x00: int, x01: int, x02: int, x03: int, x10: int, x11: int, x12: int, x13: int, x20: int, x21: int, x22: int, x23: int, x30: int, x31: int, x32: int, x33: int)
    ensures
        x20 * (x11 * (x22 * x33 - x23 * x32) - x12 * (x21 * x33 - x23 * x31) + x13 * (x21 * x32 - x22 * x31)) + x21 * -(x10 * (x22 * x33 - x23 * x32) - x12 * (x20 * x33 - x23 * x30) + x13 * (x20 * x32 - x22 * x30)) + x22 * (x10 * (x21 * x33 - x23 * x31) - x11 * (x20 * x33 - x23 * x30) + x13 * (x20 * x31 - x21 * x30)) + x23 * -(x10 * (x21 * x32 - x22 * x31) - x11 * (x20 * x32 - x22 * x30) + x12 * (x20 * x31 - x21 * x30)) == 0,
{
    lemma_mul_three_terms(x20, x11 * (x22 * x33 - x23 * x32), x12 * (x21 * x33 - x23 * x31), x13 * (x21 * x32 - x22 * x31));
    lemma_mul_difference(x20, x11, x22 * x33, x23 * x32);
    lemma_mul_regroup(x20 * x11, x22, x33);
    lemma_mul_four_orders(x20, x11, x22, x33);
    lemma_mul_regroup(x20 * x11, x23, x32);
    lemma_mul_four_orders(x20, x11, x23, x32);
    lemma_mul_difference(x20, x12, x21 * x33, x23 * x31);
    lemma_mul_regroup(x20 * x12, x21, x33);
    lemma_mul_four_orders(x20, x12, x21, x33);
    lemma_mul_regroup(x20 * x12, x23, x31);
    lemma_mul_four_orders(x20, x12, x23, x31);
    lemma_mul_difference(x20, x13, x21 * x32, x22 * x31);
    lemma_mul_regroup(x20 * x13, x21, x32);
    lemma_mul_four_orders(x20, x13, x21, x32);
    lemma_mul_regroup(x20 * x13, x22, x31);
    lemma_mul_four_orders(x20, x13, x22, x31);
    lemma_mul_neg(x21, (x10 * (x22 * x33 - x23 * x32) - x12 * (x20 * x33 - x23 * x30) + x13 * (x20 * x32 - x22 * x30)));
    lemma_mul_three_terms(x21, x10 * (x22 * x33 - x23 * x32), x12 * (x20 * x33 - x23 * x30), x13 * (x20 * x32 - x22 * x30));
    lemma_mul_difference(x21, x10, x22 * x33, x23 * x32);
    lemma_mul_regroup(x21 * x10, x22, x33);
    lemma_mul_four_orders(x21, x10, x22, x33);
    lemma_mul_regroup(x21 * x10, x23, x32);
    lemma_mul_four_orders(x21, x10, x23, x32);
    lemma_mul_difference(x21, x12, x20 * x33, x23 * x30);
    lemma_mul_regroup(x21 * x12, x20, x33);
    lemma_mul_four_orders(x21, x12, x20, x33);
    lemma_mul_regroup(x21 * x12, x23, x30);
    lemma_mul_four_orders(x21, x12, x23, x30);
    lemma_mul_difference(x21, x13, x20 * x32, x22 * x30);
    lemma_mul_regroup(x21 * x13, x20, x32);
    lemma_mul_four_orders(x21, x13, x20, x32);
    lemma_mul_regroup(x21 * x13, x22, x30);
    lemma_mul_four_orders(x21, x13, x22, x30);
    lemma_mul_three_terms(x22, x10 * (x21 * x33 - x23 * x31), x11 * (x20 * x33 - x23 * x30), x13 * (x20 * x31 - x21 * x30));
    lemma_mul_difference(x22, x10, x21 * x33, x23 * x31);
    lemma_mul_regroup(x22 * x10, x21, x33);
    lemma_mul_four_orders(x22, x10, x21, x33);
    lemma_mul_regroup(x22 * x10, x23, x31);
    lemma_mul_four_orders(x22, x10, x23, x31);
    lemma_mul_difference(x22, x11, x20 * x33, x23 * x30);
    lemma_mul_regroup(x22 * x11, x20, x33);
    lemma_mul_four_orders(x22, x11, x20, x33);
    lemma_mul_regroup(x22 * x11, x23, x30);
    lemma_mul_four_orders(x22, x11, x23, x30);
    lemma_mul_difference(x22, x13, x20 * x31, x21 * x30);
    lemma_mul_regroup(x22 * x13, x20, x31);
    lemma_mul_four_orders(x22, x13, x20, x31);
    lemma_mul_regroup(x22 * x13, x21, x30);
    lemma_mul_four_orders(x22, x13, x21, x30);
    lemma_mul_neg(x23, (x10 * (x21 * x32 - x22 * x31) - x11 * (x20 * x32 - x22 * x30) + x12 * (x20 * x31 - x21 * x30)));
    lemma_mul_three_terms(x23, x10 * (x21 * x32 - x22 * x31), x11 * (x20 * x32 - x22 * x30), x12 * (x20 * x31 - x21 * x30));
    lemma_mul_difference(x23, x10, x21 * x32, x22 * x31);
    lemma_mul_regroup(x23 * x10, x21, x32);
    lemma_mul_four_orders(x23, x10, x21, x32);
    lemma_mul_regroup(x23 * x10, x22, x31);
    lemma_mul_four_orders(x23, x10, x22, x31);
    lemma_mul_difference(x23, x11, x20 * x32, x22 * x30);
    lemma_mul_regroup(x23 * x11, x20, x32);
    lemma_mul_four_orders(x23, x11, x20, x32);
    lemma_mul_regroup(x23 * x11, x22, x30);
    lemma_mul_four_orders(x23, x11, x22, x30);
    lemma_mul_difference(x23, x12, x20 * x31, x21 * x30);
    lemma_mul_regroup(x23 * x12, x20, x31);
    lemma_mul_four_orders(x23, x12, x20, x31);
    lemma_mul_regroup(x23 * x12, x21, x30);
    lemma_mul_four_orders(x23, x12, x21, x30);
}

proof fn lemma_laplace_21(x00: int, x01: int, x02: int, x03: int, x10: int, x11: int, x12: int, x13: int, x20: int, x21: int, x22: int, x23: int, x30: int, x31: int, x32: int, x33: int)
    ensures
        x20 * -(x01 * (x22 * x33 - x23 * x32) - x02 * (x21 * x33 - x23 * x31) + x03 * (x21 * x32 - x22 * x31)) + x21 * (x00 * (x22 * x33 - x23 * x32) - x02 * (x20 * x33 - x23 * x30) + x03 * (x20 * x32 - x22 * x30)) + x22 * -(x00 * (x21 * x33 - x23 * x31) - x01 * (x20 * x33 - x23 * x30) + x03 * (x20 * x31 - x21 * x30)) + x23 * (x00 * (x21 * x32 - x22 * x31) - x01 * (x20 * x32 - x22 * x30) + x02 * (x20 * x31 - x21 * x30)) == 0,
{
    lemma_mul_neg(x20, (x01 * (x22 * x33 - x23 * x32) - x02 * (x21 * x33 - x23 * x31) + x03 * (x21 * x32 - x22 * x31)));
    lemma_mul_three_terms(x20, x01 * (x22 * x33 - x23 * x32), x02 * (x21 * x33 - x23 * x31), x03 * (x21 * x32 - x22 * x31));
    lemma_mul_difference(x20, x01, x22 * x33, x23 * x32);
    lemma_mul_regroup(x20 * x01, x22, x33);
    lemma_mul_four_orders(x20, x01, x22, x33);
    lemma_mul_regroup(x20 * x01, x23, x32);
    lemma_mul_four_orders(x20, x01, x23, x32);
    lemma_mul_difference(x20, x02, x21 * x33, x23 * x31);
    lemma_mul_regroup(x20 * x02, x21, x33);
    lemma_mul_four_orders(x20, x02, x21, x33);
    lemma_mul_regroup(x20 * x02, x23, x31);
    lemma_mul_four_orders(x20, x02, x23, x31);
    lemma_mul_difference(x20, x03, x21 * x32, x22 * x31);
    lemma_mul_regroup(x20 * x03, x21, x32);
    lemma_mul_four_orders(x20, x03, x21, x32);
    lemma_mul_regroup(x20 * x03, x22, x31);
    lemma_mul_four_orders(x20, x03, x22, x31);
    lemma_mul_three_terms(x21, x00 * (x22 * x33 - x23 * x32), x02 * (x20 * x33 - x23 * x30), x03 * (x20 * x32 - x22 * x30));
    lemma_mul_difference(x21, x00, x22 * x33, x23 * x32);
    lemma_mul_regroup(x21 * x00, x22, x33);
    lemma_mul_four_orders(x21, x00, x22, x33);
    lemma_mul_regroup(x21 * x00, x23, x32);
    lemma_mul_four_orders(x21, x00, x23, x32);
    lemma_mul_difference(x21, x02, x20 * x33, x23 * x30);
    lemma_mul_regroup(x21 * x02, x20, x33);
    lemma_mul_four_orders(x21, x02, x20, x33);
    lemma_mul_regroup(x21 * x02, x23, x30);
    lemma_mul_four_orders(x21, x02, x23, x30);
    lemma_mul_difference(x21, x03, x20 * x32, x22 * x30);
    lemma_mul_regroup(x21 * x03, x20, x32);
    lemma_mul_four_orders(x21, x03, x20, x32);
    lemma_mul_regroup(x21 * x03, x22, x30);
    lemma_mul_four_orders(x21, x03, x22, x30);
    lemma_mul_neg(x22, (x00 * (x21 * x33 - x23 * x31) - x01 * (x20 * x33 - x23 * x30) + x03 * (x20 * x31 - x21 * x30)));
    lemma_mul_three_terms(x22, x00 * (x21 * x33 - x23 * x31), x01 * (x20 * x33 - x23 * x30), x03 * (x20 * x31 - x21 * x30));
    lemma_mul_difference(x22, x00, x21 * x33, x23 * x31);
    lemma_mul_regroup(x22 * x00, x21, x33);
    lemma_mul_four_orders(x22, x00, x21, x33);
    lemma_mul_regroup(x22 * x00, x23, x31);
    lemma_mul_four_orders(x22, x00, x23, x31);
    lemma_mul_difference(x22, x01, x20 * x33, x23 * x30);
    lemma_mul_regroup(x22 * x01, x20, x33);
    lemma_mul_four_orders(x22, x01, x20, x33);
    lemma_mul_regroup(x22 * x01, x23, x30);
    lemma_mul_four_orders(x22, x01, x23, x30);
    lemma_mul_difference(x22, x03, x20 * x31, x21 * x30);
    lemma_mul_regroup(x22 * x03, x20, x31);
    lemma_mul_four_orders(x22, x03, x20, x31);
    lemma_mul_regroup(x22 * x03, x21, x30);
    lemma_mul_four_orders(x22, x03, x21, x30);
    lemma_mul_three_terms(x23, x00 * (x21 * x32 - x22 * x31), x01 * (x20 * x32 - x22 * x30), x02 * (x20 * x31 - x21 * x30));
    lemma_mul_difference(x23, x00, x21 * x32, x22 * x31);
    lemma_mul_regroup(x23 * x00, x21, x32);
    lemma_mul_four_orders(x23, x00, x21, x32);
    lemma_mul_regroup(x23 * x00, x22, x31);
    lemma_mul_four_orders(x23, x00, x22, x31);
    lemma_mul_difference(x23, x01, x20 * x32, x22 * x30);
    lemma_mul_regroup(x23 * x01, x20, x32);
    lemma_mul_four_orders(x23, x01, x20, x32);
    lemma_mul_regroup(x23 * x01, x22, x30);
    lemma_mul_four_orders(x23, x01, x22, x30);
    lemma_mul_difference(x23, x02, x20 * x31, x21 * x30);
    lemma_mul_regroup(x23 * x02, x20, x31);
    lemma_mul_four_orders(x23, x02, x20, x31);
    lemma_mul_regroup(x23 * x02, x21, x30);
    lemma_mul_four_orders(x23, x02, x21, x30);
}

proof fn lemma_laplace_22(x00: int, x01: int, x02: int, x03: int, x10: int, x11: int, x12: int, x13: int, x20: int, x21: int, x22: int, x23: int, x30: int, x31: int, x32: int, x33: int)
    ensures
        x20 * (x01 * (x12 * x33 - x13 * x32) - x02 * (x11 * x33 - x13 * x31) + x03 * (x11 * x32 - x12 * x31)) + x21 * -(x00 * (x12 * x33 - x13 * x32) - x02 * (x10 * x33 - x13 * x30) + x03 * (x10 * x32 - x12 * x30)) + x22 * (x00 * (x11 * x33 - x13 * x31) - x01 * (x10 * x33 - x13 * x30) + x03 * (x10 * x31 - x11 * x30)) + x23 * -(x00 * (x11 * x32 - x12 * x31) - x01 * (x10 * x32 - x12 * x30) + x02 * (x10 * x31 - x11 * x30)) == x00 * (x11 * (x22 * x33 - x23 * x32) - x12 * (x21 * x33 - x23 * x31) + x13 * (x21 * x32 - x22 * x31)) + x01 * -(x10 * (x22 * x33 - x23 * x32) - x12 * (x20 * x33 - x23 * x30) + x13 * (x20 * x32 - x22 * x30)) + x02 * (x10 * (x21 * x33 - x23 * x31) - x11 * (x20 * x33 - x23 * x30) + x13 * (x20 * x31 - x21 * x30)) + x03 * -(x10 * (x21 * x32 - x22 * x31) - x11 * (x20 * x32 - x22 * x30) + x12 * (x20 * x31 - x21 * x30)),
{
    lemma_mul_three_terms(x20, x01 * (x12 * x33 - x13 * x32), x02 * (x11 * x33 - x13 * x31), x03 * (x11 * x32 - x12 * x31));
    lemma_mul_difference(x20, x01, x12 * x33, x13 * x32);
    lemma_mul_regroup(x20 * x01, x12, x33);
    lemma_mul_four_orders(x20, x01, x12, x33);
    lemma_mul_regroup(x20 * x01, x13, x32);
    lemma_mul_four_orders(x20, x01, x13, x32);
    lemma_mul_difference(x20, x02, x11 * x33, x13 * x31);
    lemma_mul_regroup(x20 * x02, x11, x33);
    lemma_mul_four_orders(x20, x02, x11, x33);
    lemma_mul_regroup(x20 * x02, x13, x31);
    lemma_mul_four_orders(x20, x02, x13, x31);
    lemma_mul_difference(x20, x03, x11 * x32, x12 * x31);
    lemma_mul_regroup(x20 * x03, x11, x32);
    lemma_mul_four_orders(x20, x03, x11, x32);
    lemma_mul_regroup(x20 * x03, x12, x31);
    lemma_mul_four_orders(x20, x03, x12, x31);
    lemma_mul_neg(x21, (x00 * (x12 * x33 - x13 * x32) - x02 * (x10 * x33 - x13 * x30) + x03 * (x10 * x32 - x12 * x30)));
    lemma_mul_three_terms(x21, x00 * (x12 * x33 - x13 * x32), x02 * (x10 * x33 - x13 * x30), x03 * (x10 * x32 - x12 * x30));
    lemma_mul_difference(x21, x00, x12 * x33, x13 * x32);
    lemma_mul_regroup(x21 * x00, x12, x33);
    lemma_mul_four_orders(x21, x00, x12, x33);
    lemma_mul_regroup(x21 * x00, x13, x32);
    lemma_mul_four_orders(x21, x00, x13, x32);
    lemma_mul_difference(x21, x02, x10 * x33, x13 * x30);
    lemma_mul_regroup(x21 * x02, x10, x33);
    lemma_mul_four_orders(x21, x02, x10, x33);
    lemma_mul_regroup(x21 * x02, x13, x30);
    lemma_mul_four_orders(x21, x02, x13, x30);
    lemma_mul_difference(x21, x03, x10 * x32, x12 * x30);
    lemma_mul_regroup(x21 * x03, x10, x32);
    lemma_mul_four_orders(x21, x03, x10, x32);
    lemma_mul_regroup(x21 * x03, x12, x30);
    lemma_mul_four_orders(x21, x03, x12, x30);
    lemma_mul_three_terms(x22, x00 * (x11 * x33 - x13 * x31), x01 * (x10 * x33 - x13 * x30), x03 * (x10 * x31 - x11 * x30));
    lemma_mul_difference(x22, x00, x11 * x33, x13 * x31);
    lemma_mul_regroup(x22 * x00, x11, x33);
    lemma_mul_four_orders(x22, x00, x11, x33);
    lemma_mul_regroup(x22 * x00, x13, x31);
    lemma_mul_four_orders(x22, x00, x13, x31);
    lemma_mul_difference(x22, x01, x10 * x33, x13 * x30);
    lemma_mul_regroup(x22 * x01, x10, x33);
    lemma_mul_four_orders(x22, x01, x10, x33);
    lemma_mul_regroup(x22 * x01, x13, x30);
    lemma_mul_four_orders(x22, x01, x13, x30);
    lemma_mul_difference(x22, x03, x10 * x31, x11 * x30);
    lemma_mul_regroup(x22 * x03, x10, x31);
    lemma_mul_four_orders(x22, x03, x10, x31);
    lemma_mul_regroup(x22 * x03, x11, x30);
    lemma_mul_four_orders(x22, x03, x11, x30);
    lemma_mul_neg(x23, (x00 * (x11 * x32 - x12 * x31) - x01 * (x10 * x32 - x12 * x30) + x02 * (x10 * x31 - x11 * x30)));
    lemma_mul_three_terms(x23, x00 * (x11 * x32 - x12 * x31), x01 * (x10 * x32 - x12 * x30), x02 * (x10 * x31 - x11 * x30));
    lemma_mul_difference(x23, x00, x11 * x32, x12 * x31);
    lemma_mul_regroup(x23 * x00, x11, x32);
    lemma_mul_four_orders(x23, x00, x11, x32);
    lemma_mul_regroup(x23 * x00, x12, x31);
    lemma_mul_four_orders(x23, x00, x12, x31);
    lemma_mul_difference(x23, x01, x10 * x32, x12 * x30);
    lemma_mul_regroup(x23 * x01, x10, x32);
    lemma_mul_four_orders(x23, x01, x10, x32);
    lemma_mul_regroup(x23 * x01, x12, x30);
    lemma_mul_four_orders(x23, x01, x12, x30);
    lemma_mul_difference(x23, x02, x10 * x31, x11 * x30);
    lemma_mul_regroup(x23 * x02, x10, x31);
    lemma_mul_four_orders(x23, x02, x10, x31);
    lemma_mul_regroup(x23 * x02, x11, x30);
    lemma_mul_four_orders(x23, x02, x11, x30);
    lemma_mul_three_terms(x00, x11 * (x22 * x33 - x23 * x32), x12 * (x21 * x33 - x23 * x31), x13 * (x21 * x32 - x22 * x31));
    lemma_mul_difference(x00, x11, x22 * x33, x23 * x32);
    lemma_mul_regroup(x00 * x11, x22, x33);
    lemma_mul_four_orders(x00, x11, x22, x33);
    lemma_mul_regroup(x00 * x11, x23, x32);
    lemma_mul_four_orders(x00, x11, x23, x32);
    lemma_mul_difference(x00, x12, x21 * x33, x23 * x31);
    lemma_mul_regroup(x00 * x12, x21, x33);
    lemma_mul_four_orders(x00, x12, x21, x33);
    lemma_mul_regroup(x00 * x12, x23, x31);
    lemma_mul_four_orders(x00, x12, x23, x31);
    lemma_mul_difference(x00, x13, x21 * x32, x22 * x31);
    lemma_mul_regroup(x00 * x13, x21, x32);
    lemma_mul_four_orders(x00, x13, x21, x32);
    lemma_mul_regroup(x00 * x13, x22, x31);
    lemma_mul_four_orders(x00, x13, x22, x31);
    lemma_mul_neg(x01, (x10 * (x22 * x33 - x23 * x32) - x12 * (x20 * x33 - x23 * x30) + x13 * (x20 * x32 - x22 * x30)));
    lemma_mul_three_terms(x01, x10 * (x22 * x33 - x23 * x32), x12 * (x20 * x33 - x23 * x30), x13 * (x20 * x32 - x22 * x30));
    lemma_mul_difference(x01, x10, x22 * x33, x23 * x32);
    lemma_mul_regroup(x01 * x10, x22, x33);
    lemma_mul_four_orders(x01, x10, x22, x33);
    lemma_mul_regroup(x01 * x10, x23, x32);
    lemma_mul_four_orders(x01, x10, x23, x32);
    lemma_mul_difference(x01, x12, x20 * x33, x23 * x30);
    lemma_mul_regroup(x01 * x12, x20, x33);
    lemma_mul_four_orders(x01, x12, x20, x33);
    lemma_mul_regroup(x01 * x12, x23, x30);
    lemma_mul_four_orders(x01, x12, x23, x30);
    lemma_mul_difference(x01, x13, x20 * x32, x22 * x30);
    lemma_mul_regroup(x01 * x13, x20, x32);
    lemma_mul_four_orders(x01, x13, x20, x32);
    lemma_mul_regroup(x01 * x13, x22, x30);
    lemma_mul_four_orders(x01, x13, x22, x30);
    lemma_mul_three_terms(x02, x10 * (x21 * x33 - x23 * x31), x11 * (x20 * x33 - x23 * x30), x13 * (x20 * x31 - x21 * x30));
    lemma_mul_difference(x02, x10, x21 * x33, x23 * x31);
    lemma_mul_regroup(x02 * x10, x21, x33);
    lemma_mul_four_orders(x02, x10, x21, x33);
    lemma_mul_regroup(x02 * x10, x23, x31);
    lemma_mul_four_orders(x02, x10, x23, x31);
    lemma_mul_difference(x02, x11, x20 * x33, x23 * x30);
    lemma_mul_regroup(x02 * x11, x20, x33);
    lemma_mul_four_orders(x02, x11, x20, x33);
    lemma_mul_regroup(x02 * x11, x23, x30);
    lemma_mul_four_orders(x02, x11, x23, x30);
    lemma_mul_difference(x02, x13, x20 * x31, x21 * x30);
    lemma_mul_regroup(x02 * x13, x20, x31);
    lemma_mul_four_orders(x02, x13, x20, x31);
    lemma_mul_regroup(x02 * x13, x21, x30);
    lemma_mul_four_orders(x02, x13, x21, x30);
    lemma_mul_neg(x03, (x10 * (x21 * x32 - x22 * x31) - x11 * (x20 * x32 - x22 * x30) + x12 * (x20 * x31 - x21 * x30)));
    lemma_mul_three_terms(x03, x10 * (x21 * x32 - x22 * x31), x11 * (x20 * x32 - x22 * x30), x12 * (x20 * x31 - x21 * x30));
    lemma_mul_difference(x03, x10, x21 * x32, x22 * x31);
    lemma_mul_regroup(x03 * x10, x21, x32);
    lemma_mul_four_orders(x03, x10, x21, x32);
    lemma_mul_regroup(x03 * x10, x22, x31);
    lemma_mul_four_orders(x03, x10, x22, x31);
    lemma_mul_difference(x03, x11, x20 * x32, x22 * x30);
    lemma_mul_regroup(x03 * x11, x20, x32);
    lemma_mul_four_orders(x03, x11, x20, x32);
    lemma_mul_regroup(x03 * x11, x22, x30);
    lemma_mul_four_orders(x03, x11, x22, x30);
    lemma_mul_difference(x03, x12, x20 * x31, x21 * x30);
    lemma_mul_regroup(x03 * x12, x20, x31);
    lemma_mul_four_orders(x03, x12, x20, x31);
    lemma_mul_regroup(x03 * x12, x21, x30);
    lemma_mul_four_orders(x03, x12, x21, x30);
}

proof fn lemma_laplace_23(x00: int, x01: int, x02: int, x03: int, x10: int, x11: int, x12: int, x13: int, x20: int, x21: int, x22: int, x23: int, x30: int, x31: int, x32: int, x33: int)
    ensures
        x20 * -(x01 * (x12 * x23 - x13 * x22) - x02 * (x11 * x23 - x13 * x21) + x03 * (x11 * x22 - x12 * x21)) + x21 * (x00 * (x12 * x23 - x13 * x22) - x02 * (x10 * x23 - x13 * x20) + x03 * (x10 * x22 - x12 * x20)) + x22 * -(x00 * (x11 * x23 - x13 * x21) - x01 * (x10 * x23 - x13 * x20) + x03 * (x10 * x21 - x11 * x20)) + x23 * (x00 * (x11 * x22 - x12 * x21) - x01 * (x10 * x22 - x12 * x20) + x02 * (x10 * x21 - x11 * x20)) == 0,
{
    lemma_mul_neg(x20, (x01 * (x12 * x23 - x13 * x22) - x02 * (x11 * x23 - x13 * x21) + x03 * (x11 * x22 - x12 * x21)));
    lemma_mul_three_terms(x20, x01 * (x12 * x23 - x13 * x22), x02 * (x11 * x23 - x13 * x21), x03 * (x11 * x22 - x12 * x21));
    lemma_mul_difference(x20, x01, x12 * x23, x13 * x22);
    lemma_mul_regroup(x20 * x01, x12, x23);
    lemma_mul_four_orders(x20, x01, x12, x23);
    lemma_mul_regroup(x20 * x01, x13, x22);
    lemma_mul_four_orders(x20, x01, x13, x22);
    lemma_mul_difference(x20, x02, x11 * x23, x13 * x21);
    lemma_mul_regroup(x20 * x02, x11, x23);
    lemma_mul_four_orders(x20, x02, x11, x23);
    lemma_mul_regroup(x20 * x02, x13, x21);
    lemma_mul_four_orders(x20, x02, x13, x21);
    lemma_mul_difference(x20, x03, x11 * x22, x12 * x21);
    lemma_mul_regroup(x20 * x03, x11, x22);
    lemma_mul_four_orders(x20, x03, x11, x22);
    lemma_mul_regroup(x20 * x03, x12, x21);
    lemma_mul_four_orders(x20, x03, x12, x21);
    lemma_mul_three_terms(x21, x00 * (x12 * x23 - x13 * x22), x02 * (x10 * x23 - x13 * x20), x03 * (x10 * x22 - x12 * x20));
    lemma_mul_difference(x21, x00, x12 * x23, x13 * x22);
    lemma_mul_regroup(x21 * x00, x12, x23);
    lemma_mul_four_orders(x21, x00, x12, x23);
    lemma_mul_regroup(x21 * x00, x13, x22);
    lemma_mul_four_orders(x21, x00, x13, x22);
    lemma_mul_difference(x21, x02, x10 * x23, x13 * x20);
    lemma_mul_regroup(x21 * x02, x10, x23);
    lemma_mul_four_orders(x21, x02, x10, x23);
    lemma_mul_regroup(x21 * x02, x13, x20);
    lemma_mul_four_orders(x21, x02, x13, x20);
    lemma_mul_difference(x21, x03, x10 * x22, x12 * x20);
    lemma_mul_regroup(x21 * x03, x10, x22);
    lemma_mul_four_orders(x21, x03, x10, x22);
    lemma_mul_regroup(x21 * x03, x12, x20);
    lemma_mul_four_orders(x21, x03, x12, x20);
    lemma_mul_neg(x22, (x00 * (x11 * x23 - x13 * x21) - x01 * (x10 * x23 - x13 * x20) + x03 * (x10 * x21 - x11 * x20)));
    lemma_mul_three_terms(x22, x00 * (x11 * x23 - x13 * x21), x01 * (x10 * x23 - x13 * x20), x03 * (x10 * x21 - x11 * x20));
    lemma_mul_difference(x22, x00, x11 * x23, x13 * x21);
    lemma_mul_regroup(x22 * x00, x11, x23);
    lemma_mul_four_orders(x22, x00, x11, x23);
    lemma_mul_regroup(x22 * x00, x13, x21);
    lemma_mul_four_orders(x22, x00, x13, x21);
    lemma_mul_difference(x22, x01, x10 * x23, x13 * x20);
    lemma_mul_regroup(x22 * x01, x10, x23);
    lemma_mul_four_orders(x22, x01, x10, x23);
    lemma_mul_regroup(x22 * x01, x13, x20);
    lemma_mul_four_orders(x22, x01, x13, x20);
    lemma_mul_difference(x22, x03, x10 * x21, x11 * x20);
    lemma_mul_regroup(x22 * x03, x10, x21);
    lemma_mul_four_orders(x22, x03, x10, x21);
    lemma_mul_regroup(x22 * x03, x11, x20);
    lemma_mul_four_orders(x22, x03, x11, x20);
    lemma_mul_three_terms(x23, x00 * (x11 * x22 - x12 * x21), x01 * (x10 * x22 - x12 * x20), x02 * (x10 * x21 - x11 * x20));
    lemma_mul_difference(x23, x00, x11 * x22, x12 * x21);
    lemma_mul_regroup(x23 * x00, x11, x22);
    lemma_mul_four_orders(x23, x00, x11, x22);
    lemma_mul_regroup(x23 * x00, x12, x21);
    lemma_mul_four_orders(x23, x00, x12, x21);
    lemma_mul_difference(x23, x01, x10 * x22, x12 * x20);
    lemma_mul_regroup(x23 * x01, x10, x22);
    lemma_mul_four_orders(x23, x01, x10, x22);
    lemma_mul_regroup(x23 * x01, x12, x20);
    lemma_mul_four_orders(x23, x01, x12, x20);
    lemma_mul_difference(x23, x02, x10 * x21, x11 * x20);
    lemma_mul_regroup(x23 * x02, x10, x21);
    lemma_mul_four_orders(x23, x02, x10, x21);
    lemma_mul_regroup(x23 * x02, x11, x20);
    lemma_mul_four_orders(x23, x02, x11, x20);
}

proof fn lemma_laplace_30(x00: int, x01: int, x02: int, x03: int, x10: int, x11: int, x12: int, x13: int, x20: int, x21: int, x22: int, x23: int, x30: int, x31: int, x32: int, x33: int)
    ensures
        x30 * (x11 * (x22 * x33 - x23 * x32) - x12 * (x21 * x33 - x23 * x31) + x13 * (x21 * x32 - x22 * x31)) + x31 * -(x10 * (x22 * x33 - x23 * x32) - x12 * (x20 * x33 - x23 * x30) + x13 * (x20 * x32 - x22 * x30)) + x32 * (x10 * (x21 * x33 - x23 * x31) - x11 * (x20 * x33 - x23 * x30) + x13 * (x20 * x31 - x21 * x30)) + x33 * -(x10 * (x21 * x32 - x22 * x31) - x11 * (x20 * x32 - x22 * x30) + x12 * (x20 * x31 - x21 * x30)) == 0,
{
    lemma_mul_three_terms(x30, x11 * (x22 * x33 - x23 * x32), x12 * (x21 * x33 - x23 * x31), x13 * (x21 * x32 - x22 * x31));
    lemma_mul_difference(x30, x11, x22 * x33, x23 * x32);
    lemma_mul_regroup(x30 * x11, x22, x33);
    lemma_mul_four_orders(x30, x11, x22, x33);
    lemma_mul_regroup(x30 * x11, x23, x32);
    lemma_mul_four_orders(x30, x11, x23, x32);
    lemma_mul_difference(x30, x12, x21 * x33, x23 * x31);
    lemma_mul_regroup(x30 * x12, x21, x33);
    lemma_mul_four_orders(x30, x12, x21, x33);
    lemma_mul_regroup(x30 * x12, x23, x31);
    lemma_mul_four_orders(x30, x12, x23, x31);
    lemma_mul_difference(x30, x13, x21 * x32, x22 * x31);
    lemma_mul_regroup(x30 * x13, x21, x32);
    lemma_mul_four_orders(x30, x13, x21, x32);
    lemma_mul_regroup(x30 * x13, x22, x31);
    lemma_mul_four_orders(x30, x13, x22, x31);
    lemma_mul_neg(x31, (x10 * (x22 * x33 - x23 * x32) - x12 * (x20 * x33 - x23 * x30) + x13 * (x20 * x32 - x22 * x30)));
    lemma_mul_three_terms(x31, x10 * (x22 * x33 - x23 * x32), x12 * (x20 * x33 - x23 * x30), x13 * (x20 * x32 - x22 * x30));
    lemma_mul_difference(x31, x10, x22 * x33, x23 * x32);
    lemma_mul_regroup(x31 * x10, x22, x33);
    lemma_mul_four_orders(x31, x10, x22, x33);
    lemma_mul_regroup(x31 * x10, x23, x32);
    lemma_mul_four_orders(x31, x10, x23, x32);
    lemma_mul_difference(x31, x12, x20 * x33, x23 * x30);
    lemma_mul_regroup(x31 * x12, x20, x33);
    lemma_mul_four_orders(x31, x12, x20, x33);
    lemma_mul_regroup(x31 * x12, x23, x30);
    lemma_mul_four_orders(x31, x12, x23, x30);
    lemma_mul_difference(x31, x13, x20 * x32, x22 * x30);
    lemma_mul_regroup(x31 * x13, x20, x32);
    lemma_mul_four_orders(x31, x13, x20, x32);
    lemma_mul_regroup(x31 * x13, x22, x30);
    lemma_mul_four_orders(x31, x13, x22, x30);
    lemma_mul_three_terms(x32, x10 * (x21 * x33 - x23 * x31), x11 * (x20 * x33 - x23 * x30), x13 * (x20 * x31 - x21 * x30));
    lemma_mul_difference(x32, x10, x21 * x33, x23 * x31);
    lemma_mul_regroup(x32 * x10, x21, x33);
    lemma_mul_four_orders(x32, x10, x21, x33);
    lemma_mul_regroup(x32 * x10, x23, x31);
    lemma_mul_four_orders(x32, x10, x23, x31);
    lemma_mul_difference(x32, x11, x20 * x33, x23 * x30);
    lemma_mul_regroup(x32 * x11, x20, x33);
    lemma_mul_four_orders(x32, x11, x20, x33);
    lemma_mul_regroup(x32 * x11, x23, x30);
    lemma_mul_four_orders(x32, x11, x23, x30);
    lemma_mul_difference(x32, x13, x20 * x31, x21 * x30);
    lemma_mul_regroup(x32 * x13, x20, x31);
    lemma_mul_four_orders(x32, x13, x20, x31);
    lemma_mul_regroup(x32 * x13, x21, x30);
    lemma_mul_four_orders(x32, x13, x21, x30);
    lemma_mul_neg(x33, (x10 * (x21 * x32 - x22 * x31) - x11 * (x20 * x32 - x22 * x30) + x12 * (x20 * x31 - x21 * x30)));
    lemma_mul_three_terms(x33, x10 * (x21 * x32 - x22 * x31), x11 * (x20 * x32 - x22 * x30), x12 * (x20 * x31 - x21 * x30));
    lemma_mul_difference(x33, x10, x21 * x32, x22 * x31);
    lemma_mul_regroup(x33 * x10, x21, x32);
    lemma_mul_four_orders(x33, x10, x21, x32);
    lemma_mul_regroup(x33 * x10, x22, x31);
    lemma_mul_four_orders(x33, x10, x22, x31);
    lemma_mul_difference(x33, x11, x20 * x32, x22 * x30);
    lemma_mul_regroup(x33 * x11, x20, x32);
    lemma_mul_four_orders(x33, x11, x20, x32);
    lemma_mul_regroup(x33 * x11, x22, x30);
    lemma_mul_four_orders(x33, x11, x22, x30);
    lemma_mul_difference(x33, x12, x20 * x31, x21 * x30);
    lemma_mul_regroup(x33 * x12, x20, x31);
    lemma_mul_four_orders(x33, x12, x20, x31);
    lemma_mul_regroup(x33 * x12, x21, x30);
    lemma_mul_four_orders(x33, x12, x21, x30);
}

proof fn lemma_laplace_31(x00: int, x01: int, x02: int, x03: int, x10: int, x11: int, x12: int, x13: int, x20: int, x21: int, x22: int, x23: int, x30: int, x31: int, x32: int, x33: int)
    ensures
        x30 * -(x01 * (x22 * x33 - x23 * x32) - x02 * (x21 * x33 - x23 * x31) + x03 * (x21 * x32 - x22 * x31)) + x31 * (x00 * (x22 * x33 - x23 * x32) - x02 * (x20 * x33 - x23 * x30) + x03 * (x20 * x32 - x22 * x30)) + x32 * -(x00 * (x21 * x33 - x23 * x31) - x01 * (x20 * x33 - x23 * x30) + x03 * (x20 * x31 - x21 * x30)) + x33 * (x00 * (x21 * x32 - x22 * x31) - x01 * (x20 * x32 - x22 * x30) + x02 * (x20 * x31 - x21 * x30)) == 0,
{
    lemma_mul_neg(x30, (x01 * (x22 * x33 - x23 * x32) - x02 * (x21 * x33 - x23 * x31) + x03 * (x21 * x32 - x22 * x31)));
    lemma_mul_three_terms(x30, x01 * (x22 * x33 - x23 * x32), x02 * (x21 * x33 - x23 * x31), x03 * (x21 * x32 - x22 * x31));
    lemma_mul_difference(x30, x01, x22 * x33, x23 * x32);
    lemma_mul_regroup(x30 * x01, x22, x33);
    lemma_mul_four_orders(x30, x01, x22, x33);
    lemma_mul_regroup(x30 * x01, x23, x32);
    lemma_mul_four_orders(x30, x01, x23, x32);
    lemma_mul_difference(x30, x02, x21 * x33, x23 * x31);
    lemma_mul_regroup(x30 * x02, x21, x33);
    lemma_mul_four_orders(x30, x02, x21, x33);
    lemma_mul_regroup(x30 * x02, x23, x31);
    lemma_mul_four_orders(x30, x02, x23, x31);
    lemma_mul_difference(x30, x03, x21 * x32, x22 * x31);
    lemma_mul_regroup(x30 * x03, x21, x32);
    lemma_mul_four_orders(x30, x03, x21, x32);
    lemma_mul_regroup(x30 * x03, x22, x31);
    lemma_mul_four_orders(x30, x03, x22, x31);
    lemma_mul_three_terms(x31, x00 * (x22 * x33 - x23 * x32), x02 * (x20 * x33 - x23 * x30), x03 * (x20 * x32 - x22 * x30));
    lemma_mul_difference(x31, x00, x22 * x33, x23 * x32);
    lemma_mul_regroup(x31 * x00, x22, x33);
    lemma_mul_four_orders(x31, x00, x22, x33);
    lemma_mul_regroup(x31 * x00, x23, x32);
    lemma_mul_four_orders(x31, x00, x23, x32);
    lemma_mul_difference(x31, x02, x20 * x33, x23 * x30);
    lemma_mul_regroup(x31 * x02, x20, x33);
    lemma_mul_four_orders(x31, x02, x20, x33);
    lemma_mul_regroup(x31 * x02, x23, x30);
    lemma_mul_four_orders(x31, x02, x23, x30);
    lemma_mul_difference(x31, x03, x20 * x32, x22 * x30);
    lemma_mul_regroup(x31 * x03, x20, x32);
    lemma_mul_four_orders(x31, x03, x20, x32);
    lemma_mul_regroup(x31 * x03, x22, x30);
    lemma_mul_four_orders(x31, x03, x22, x30);
    lemma_mul_neg(x32, (x00 * (x21 * x33 - x23 * x31) - x01 * (x20 * x33 - x23 * x30) + x03 * (x20 * x31 - x21 * x30)));
    lemma_mul_three_terms(x32, x00 * (x21 * x33 - x23 * x31), x01 * (x20 * x33 - x23 * x30), x03 * (x20 * x31 - x21 * x30));
    lemma_mul_difference(x32, x00, x21 * x33, x23 * x31);
    lemma_mul_regroup(x32 * x00, x21, x33);
    lemma_mul_four_orders(x32, x00, x21, x33);
    lemma_mul_regroup(x32 * x00, x23, x31);
    lemma_mul_four_orders(x32, x00, x23, x31);
    lemma_mul_difference(x32, x01, x20 * x33, x23 * x30);
    lemma_mul_regroup(x32 * x01, x20, x33);
    lemma_mul_four_orders(x32, x01, x20, x33);
    lemma_mul_regroup(x32 * x01, x23, x30);
    lemma_mul_four_orders(x32, x01, x23, x30);
    lemma_mul_difference(x32, x03, x20 * x31, x21 * x30);
    lemma_mul_regroup(x32 * x03, x20, x31);
    lemma_mul_four_orders(x32, x03, x20, x31);
    lemma_mul_regroup(x32 * x03, x21, x30);
    lemma_mul_four_orders(x32, x03, x21, x30);
    lemma_mul_three_terms(x33, x00 * (x21 * x32 - x22 * x31), x01 * (x20 * x32 - x22 * x30), x02 * (x20 * x31 - x21 * x30));
    lemma_mul_difference(x33, x00, x21 * x32, x22 * x31);
    lemma_mul_regroup(x33 * x00, x21, x32);
    lemma_mul_four_orders(x33, x00, x21, x32);
    lemma_mul_regroup(x33 * x00, x22, x31);
    lemma_mul_four_orders(x33, x00, x22, x31);
    lemma_mul_difference(x33, x01, x20 * x32, x22 * x30);
    lemma_mul_regroup(x33 * x01, x20, x32);
    lemma_mul_four_orders(x33, x01, x20, x32);
    lemma_mul_regroup(x33 * x01, x22, x30);
    lemma_mul_four_orders(x33, x01, x22, x30);
    lemma_mul_difference(x33, x02, x20 * x31, x21 * x30);
    lemma_mul_regroup(x33 * x02, x20, x31);
    lemma_mul_four_orders(x33, x02, x20, x31);
    lemma_mul_regroup(x33 * x02, x21, x30);
    lemma_mul_four_orders(x33, x02, x21, x30);
}

proof fn lemma_laplace_32(x00: int, x01: int, x02: int, x03: int, x10: int, x11: int, x12: int, x13: int, x20: int, x21: int, x22: int, x23: int, x30: int, x31: int, x32: int, x33: int)
    ensures
        x30 * (x01 * (x12 * x33 - x13 * x32) - x02 * (x11 * x33 - x13 * x31) + x03 * (x11 * x32 - x12 * x31)) + x31 * -(x00 * (x12 * x33 - x13 * x32) - x02 * (x10 * x33 - x13 * x30) + x03 * (x10 * x32 - x12 * x30)) + x32 * (x00 * (x11 * x33 - x13 * x31) - x01 * (x10 * x33 - x13 * x30) + x03 * (x10 * x31 - x11 * x30)) + x33 * -(x00 * (x11 * x32 - x12 * x31) - x01 * (x10 * x32 - x12 * x30) + x02 * (x10 * x31 - x11 * x30)) == 0,
{
    lemma_mul_three_terms(x30, x01 * (x12 * x33 - x13 * x32), x02 * (x11 * x33 - x13 * x31), x03 * (x11 * x32 - x12 * x31));
    lemma_mul_difference(x30, x01, x12 * x33, x13 * x32);
    lemma_mul_regroup(x30 * x01, x12, x33);
    lemma_mul_four_orders(x30, x01, x12, x33);
    lemma_mul_regroup(x30 * x01, x13, x32);
    lemma_mul_four_orders(x30, x01, x13, x32);
    lemma_mul_difference(x30, x02, x11 * x33, x13 * x31);
    lemma_mul_regroup(x30 * x02, x11, x33);
    lemma_mul_four_orders(x30, x02, x11, x33);
    lemma_mul_regroup(x30 * x02, x13, x31);
    lemma_mul_four_orders(x30, x02, x13, x31);
    lemma_mul_difference(x30, x03, x11 * x32, x12 * x31);
    lemma_mul_regroup(x30 * x03, x11, x32);
    lemma_mul_four_orders(x30, x03, x11, x32);
    lemma_mul_regroup(x30 * x03, x12, x31);
    lemma_mul_four_orders(x30, x03, x12, x31);
    lemma_mul_neg(x31, (x00 * (x12 * x33 - x13 * x32) - x02 * (x10 * x33 - x13 * x30) + x03 * (x10 * x32 - x12 * x30)));
    lemma_mul_three_terms(x31, x00 * (x12 * x33 - x13 * x32), x02 * (x10 * x33 - x13 * x30), x03 * (x10 * x32 - x12 * x30));
    lemma_mul_difference(x31, x00, x12 * x33, x13 * x32);
    lemma_mul_regroup(x31 * x00, x12, x33);
    lemma_mul_four_orders(x31, x00, x12, x33);
    lemma_mul_regroup(x31 * x00, x13, x32);
    lemma_mul_four_orders(x31, x00, x13, x32);
    lemma_mul_difference(x31, x02, x10 * x33, x13 * x30);
    lemma_mul_regroup(x31 * x02, x10, x33);
    lemma_mul_four_orders(x31, x02, x10, x33);
    lemma_mul_regroup(x31 * x02, x13, x30);
    lemma_mul_four_orders(x31, x02, x13, x30);
    lemma_mul_difference(x31, x03, x10 * x32, x12 * x30);
    lemma_mul_regroup(x31 * x03, x10, x32);
    lemma_mul_four_orders(x31, x03, x10, x32);
    lemma_mul_regroup(x31 * x03, x12, x30);
    lemma_mul_four_orders(x31, x03, x12, x30);
    lemma_mul_three_terms(x32, x00 * (x11 * x33 - x13 * x31), x01 * (x10 * x33 - x13 * x30), x03 * (x10 * x31 - x11 * x30));
    lemma_mul_difference(x32, x00, x11 * x33, x13 * x31);
    lemma_mul_regroup(x32 * x00, x11, x33);
    lemma_mul_four_orders(x32, x00, x11, x33);
    lemma_mul_regroup(x32 * x00, x13, x31);
    lemma_mul_four_orders(x32, x00, x13, x31);
    lemma_mul_difference(x32, x01, x10 * x33, x13 * x30);
    lemma_mul_regroup(x32 * x01, x10, x33);
    lemma_mul_four_orders(x32, x01, x10, x33);
    lemma_mul_regroup(x32 * x01, x13, x30);
    lemma_mul_four_orders(x32, x01, x13, x30);
    lemma_mul_difference(x32, x03, x10 * x31, x11 * x30);
    lemma_mul_regroup(x32 * x03, x10, x31);
    lemma_mul_four_orders(x32, x03, x10, x31);
    lemma_mul_regroup(x32 * x03, x11, x30);
    lemma_mul_four_orders(x32, x03, x11, x30);
    lemma_mul_neg(x33, (x00 * (x11 * x32 - x12 * x31) - x01 * (x10 * x32 - x12 * x30) + x02 * (x10 * x31 - x11 * x30)));
    lemma_mul_three_terms(x33, x00 * (x11 * x32 - x12 * x31), x01 * (x10 * x32 - x12 * x30), x02 * (x10 * x31 - x11 * x30));
    lemma_mul_difference(x33, x00, x11 * x32, x12 * x31);
    lemma_mul_regroup(x33 * x00, x11, x32);
    lemma_mul_four_orders(x33, x00, x11, x32);
    lemma_mul_regroup(x33 * x00, x12, x31);
    lemma_mul_four_orders(x33, x00, x12, x31);
    lemma_mul_difference(x33, x01, x10 * x32, x12 * x30);
    lemma_mul_regroup(x33 * x01, x10, x32);
    lemma_mul_four_orders(x33, x01, x10, x32);
    lemma_mul_regroup(x33 * x01, x12, x30);
    lemma_mul_four_orders(x33, x01, x12, x30);
    lemma_mul_difference(x33, x02, x10 * x31, x11 * x30);
    lemma_mul_regroup(x33 * x02, x10, x31);
    lemma_mul_four_orders(x33, x02, x10, x31);
    lemma_mul_regroup(x33 * x02, x11, x30);
    lemma_mul_four_orders(x33, x02, x11, x30);
}

proof fn lemma_laplace_33(x00: int, x01: int, x02: int, x03: int, x10: int, x11: int, x12: int, x13: int, x20: int, x21: int, x22: int, x23: int, x30: int, x31: int, x32: int, x33: int)
    ensures
        x30 * -(x01 * (x12 * x23 - x13 * x22) - x02 * (x11 * x23 - x13 * x21) + x03 * (x11 * x22 - x12 * x21)) + x31 * (x00 * (x12 * x23 - x13 * x22) - x02 * (x10 * x23 - x13 * x20) + x03 * (x10 * x22 - x12 * x20)) + x32 * -(x00 * (x11 * x23 - x13 * x21) - x01 * (x10 * x23 - x13 * x20) + x03 * (x10 * x21 - x11 * x20)) + x33 * (x00 * (x11 * x22 - x12 * x21) - x01 * (x10 * x22 - x12 * x20) + x02 * (x10 * x21 - x11 * x20)) == x00 * (x11 * (x22 * x33 - x23 * x32) - x12 * (x21 * x33 - x23 * x31) + x13 * (x21 * x32 - x22 * x31)) + x01 * -(x10 * (x22 * x33 - x23 * x32) - x12 * (x20 * x33 - x23 * x30) + x13 * (x20 * x32 - x22 * x30)) + x02 * (x10 * (x21 * x33 - x23 * x31) - x11 * (x20 * x33 - x23 * x30) + x13 * (x20 * x31 - x21 * x30)) + x03 * -(x10 * (x21 * x32 - x22 * x31) - x11 * (x20 * x32 - x22 * x30) + x12 * (x20 * x31 - x21 * x30)),
{
    lemma_mul_neg(x30, (x01 * (x12 * x23 - x13 * x22) - x02 * (x11 * x23 - x13 * x21) + x03 * (x11 * x22 - x12 * x21)));
    lemma_mul_three_terms(x30, x01 * (x12 * x23 - x13 * x22), x02 * (x11 * x23 - x13 * x21), x03 * (x11 * x22 - x12 * x21));
    lemma_mul_difference(x30, x01, x12 * x23, x13 * x22);
    lemma_mul_regroup(x30 * x01, x12, x23);
    lemma_mul_four_orders(x30, x01, x12, x23);
    lemma_mul_regroup(x30 * x01, x13, x22);
    lemma_mul_four_orders(x30, x01, x13, x22);
    lemma_mul_difference(x30, x02, x11 * x23, x13 * x21);
    lemma_mul_regroup(x30 * x02, x11, x23);
    lemma_mul_four_orders(x30, x02, x11, x23);
    lemma_mul_regroup(x30 * x02, x13, x21);
    lemma_mul_four_orders(x30, x02, x13, x21);
    lemma_mul_difference(x30, x03, x11 * x22, x12 * x21);
    lemma_mul_regroup(x30 * x03, x11, x22);
    lemma_mul_four_orders(x30, x03, x11, x22);
    lemma_mul_regroup(x30 * x03, x12, x21);
    lemma_mul_four_orders(x30, x03, x12, x21);
    lemma_mul_three_terms(x31, x00 * (x12 * x23 - x13 * x22), x02 * (x10 * x23 - x13 * x20), x03 * (x10 * x22 - x12 * x20));
    lemma_mul_difference(x31, x00, x12 * x23, x13 * x22);
    lemma_mul_regroup(x31 * x00, x12, x23);
    lemma_mul_four_orders(x31, x00, x12, x23);
    lemma_mul_regroup(x31 * x00, x13, x22);
    lemma_mul_four_orders(x31, x00, x13, x22);
    lemma_mul_difference(x31, x02, x10 * x23, x13 * x20);
    lemma_mul_regroup(x31 * x02, x10, x23);
    lemma_mul_four_orders(x31, x02, x10, x23);
    lemma_mul_regroup(x31 * x02, x13, x20);
    lemma_mul_four_orders(x31, x02, x13, x20);
    lemma_mul_difference(x31, x03, x10 * x22, x12 * x20);
    lemma_mul_regroup(x31 * x03, x10, x22);
    lemma_mul_four_orders(x31, x03, x10, x22);
    lemma_mul_regroup(x31 * x03, x12, x20);
    lemma_mul_four_orders(x31, x03, x12, x20);
    lemma_mul_neg(x32, (x00 * (x11 * x23 - x13 * x21) - x01 * (x10 * x23 - x13 * x20) + x03 * (x10 * x21 - x11 * x20)));
    lemma_mul_three_terms(x32, x00 * (x11 * x23 - x13 * x21), x01 * (x10 * x23 - x13 * x20), x03 * (x10 * x21 - x11 * x20));
    lemma_mul_difference(x32, x00, x11 * x23, x13 * x21);
    lemma_mul_regroup(x32 * x00, x11, x23);
    lemma_mul_four_orders(x32, x00, x11, x23);
    lemma_mul_regroup(x32 * x00, x13, x21);
    lemma_mul_four_orders(x32, x00, x13, x21);
    lemma_mul_difference(x32, x01, x10 * x23, x13 * x20);
    lemma_mul_regroup(x32 * x01, x10, x23);
    lemma_mul_four_orders(x32, x01, x10, x23);
    lemma_mul_regroup(x32 * x01, x13, x20);
    lemma_mul_four_orders(x32, x01, x13, x20);
    lemma_mul_difference(x32, x03, x10 * x21, x11 * x20);
    lemma_mul_regroup(x32 * x03, x10, x21);
    lemma_mul_four_orders(x32, x03, x10, x21);
    lemma_mul_regroup(x32 * x03, x11, x20);
    lemma_mul_four_orders(x32, x03, x11, x20);
    lemma_mul_three_terms(x33, x00 * (x11 * x22 - x12 * x21), x01 * (x10 * x22 - x12 * x20), x02 * (x10 * x21 - x11 * x20));
    lemma_mul_difference(x33, x00, x11 * x22, x12 * x21);
    lemma_mul_regroup(x33 * x00, x11, x22);
    lemma_mul_four_orders(x33, x00, x11, x22);
    lemma_mul_regroup(x33 * x00, x12, x21);
    lemma_mul_four_orders(x33, x00, x12, x21);
    lemma_mul_difference(x33, x01, x10 * x22, x12 * x20);
    lemma_mul_regroup(x33 * x01, x10, x22);
    lemma_mul_four_orders(x33, x01, x10, x22);
    lemma_mul_regroup(x33 * x01, x12, x20);
    lemma_mul_four_orders(x33, x01, x12, x20);
    lemma_mul_difference(x33, x02, x10 * x21, x11 * x20);
    lemma_mul_regroup(x33 * x02, x10, x21);
    lemma_mul_four_orders(x33, x02, x10, x21);
    lemma_mul_regroup(x33 * x02, x11, x20);
    lemma_mul_four_orders(x33, x02, x11, x20);
    lemma_mul_three_terms(x00, x11 * (x22 * x33 - x23 * x32), x12 * (x21 * x33 - x23 * x31), x13 * (x21 * x32 - x22 * x31));
    lemma_mul_difference(x00, x11, x22 * x33, x23 * x32);
    lemma_mul_regroup(x00 * x11, x22, x33);
    lemma_mul_four_orders(x00, x11, x22, x33);
    lemma_mul_regroup(x00 * x11, x23, x32);
    lemma_mul_four_orders(x00, x11, x23, x32);
    lemma_mul_difference(x00, x12, x21 * x33, x23 * x31);
    lemma_mul_regroup(x00 * x12, x21, x33);
    lemma_mul_four_orders(x00, x12, x21, x33);
    lemma_mul_regroup(x00 * x12, x23, x31);
    lemma_mul_four_orders(x00, x12, x23, x31);
    lemma_mul_difference(x00, x13, x21 * x32, x22 * x31);
    lemma_mul_regroup(x00 * x13, x21, x32);
    lemma_mul_four_orders(x00, x13, x21, x32);
    lemma_mul_regroup(x00 * x13, x22, x31);
    lemma_mul_four_orders(x00, x13, x22, x31);
    lemma_mul_neg(x01, (x10 * (x22 * x33 - x23 * x32) - x12 * (x20 * x33 - x23 * x30) + x13 * (x20 * x32 - x22 * x30)));
    lemma_mul_three_terms(x01, x10 * (x22 * x33 - x23 * x32), x12 * (x20 * x33 - x23 * x30), x13 * (x20 * x32 - x22 * x30));
    lemma_mul_difference(x01, x10, x22 * x33, x23 * x32);
    lemma_mul_regroup(x01 * x10, x22, x33);
    lemma_mul_four_orders(x01, x10, x22, x33);
    lemma_mul_regroup(x01 * x10, x23, x32);
    lemma_mul_four_orders(x01, x10, x23, x32);
    lemma_mul_difference(x01, x12, x20 * x33, x23 * x30);
    lemma_mul_regroup(x01 * x12, x20, x33);
    lemma_mul_four_orders(x01, x12, x20, x33);
    lemma_mul_regroup(x01 * x12, x23, x30);
    lemma_mul_four_orders(x01, x12, x23, x30);
    lemma_mul_difference(x01, x13, x20 * x32, x22 * x30);
    lemma_mul_regroup(x01 * x13, x20, x32);
    lemma_mul_four_orders(x01, x13, x20, x32);
    lemma_mul_regroup(x01 * x13, x22, x30);
    lemma_mul_four_orders(x01, x13, x22, x30);
    lemma_mul_three_terms(x02, x10 * (x21 * x33 - x23 * x31), x11 * (x20 * x33 - x23 * x30), x13 * (x20 * x31 - x21 * x30));
    lemma_mul_difference(x02, x10, x21 * x33, x23 * x31);
    lemma_mul_regroup(x02 * x10, x21, x33);
    lemma_mul_four_orders(x02, x10, x21, x33);
    lemma_mul_regroup(x02 * x10, x23, x31);
    lemma_mul_four_orders(x02, x10, x23, x31);
    lemma_mul_difference(x02, x11, x20 * x33, x23 * x30);
    lemma_mul_regroup(x02 * x11, x20, x33);
    lemma_mul_four_orders(x02, x11, x20, x33);
    lemma_mul_regroup(x02 * x11, x23, x30);
    lemma_mul_four_orders(x02, x11, x23, x30);
    lemma_mul_difference(x02, x13, x20 * x31, x21 * x30);
    lemma_mul_regroup(x02 * x13, x20, x31);
    lemma_mul_four_orders(x02, x13, x20, x31);
    lemma_mul_regroup(x02 * x13, x21, x30);
    lemma_mul_four_orders(x02, x13, x21, x30);
    lemma_mul_neg(x03, (x10 * (x21 * x32 - x22 * x31) - x11 * (x20 * x32 - x22 * x30) + x12 * (x20 * x31 - x21 * x30)));
    lemma_mul_three_terms(x03, x10 * (x21 * x32 - x22 * x31), x11 * (x20 * x32 - x22 * x30), x12 * (x20 * x31 - x21 * x30));
    lemma_mul_difference(x03, x10, x21 * x32, x22 * x31);
    lemma_mul_regroup(x03 * x10, x21, x32);
    lemma_mul_four_orders(x03, x10, x21, x32);
    lemma_mul_regroup(x03 * x10, x22, x31);
    lemma_mul_four_orders(x03, x10, x22, x31);
    lemma_mul_difference(x03, x11, x20 * x32, x22 * x30);
    lemma_mul_regroup(x03 * x11, x20, x32);
    lemma_mul_four_orders(x03, x11, x20, x32);
    lemma_mul_regroup(x03 * x11, x22, x30);
    lemma_mul_four_orders(x03, x11, x22, x30);
    lemma_mul_difference(x03, x12, x20 * x31, x21 * x30);
    lemma_mul_regroup(x03 * x12, x20, x31);
    lemma_mul_four_orders(x03, x12, x20, x31);
    lemma_mul_regroup(x03 * x12, x21, x30);
    lemma_mul_four_orders(x03, x12, x21, x30);
}

/// Row `r` of a 4 x 4 matrix times the cofactors of row `c`, as polynomials in its
/// entries: the determinant when `r == c`, zero otherwise.
pub(crate) proof fn lemma_laplace_4x4_poly(x00: int, x01: int, x02: int, x03: int, x10: int, x11: int, x12: int, x13: int, x20: int, x21: int, x22: int, x23: int, x30: int, x31: int, x32: int, x33: int)
    ensures
        x00 * (x11 * (x22 * x33 - x23 * x32) - x12 * (x21 * x33 - x23 * x31) + x13 * (x21 * x32 - x22 * x31)) + x01 * -(x10 * (x22 * x33 - x23 * x32) - x12 * (x20 * x33 - x23 * x30) + x13 * (x20 * x32 - x22 * x30)) + x02 * (x10 * (x21 * x33 - x23 * x31) - x11 * (x20 * x33 - x23 * x30) + x13 * (x20 * x31 - x21 * x30)) + x03 * -(x10 * (x21 * x32 - x22 * x31) - x11 * (x20 * x32 - x22 * x30) + x12 * (x20 * x31 - x21 * x30)) == x00 * (x11 * (x22 * x33 - x23 * x32) - x12 * (x21 * x33 - x23 * x31) + x13 * (x21 * x32 - x22 * x31)) + x01 * -(x10 * (x22 * x33 - x23 * x32) - x12 * (x20 * x33 - x23 * x30) + x13 * (x20 * x32 - x22 * x30)) + x02 * (x10 * (x21 * x33 - x23 * x31) - x11 * (x20 * x33 - x23 * x30) + x13 * (x20 * x31 - x21 * x30)) + x03 * -(x10 * (x21 * x32 - x22 * x31) - x11 * (x20 * x32 - x22 * x30) + x12 * (x20 * x31 - x21 * x30)),
        x00 * -(x01 * (x22 * x33 - x23 * x32) - x02 * (x21 * x33 - x23 * x31) + x03 * (x21 * x32 - x22 * x31)) + x01 * (x00 * (x22 * x33 - x23 * x32) - x02 * (x20 * x33 - x23 * x30) + x03 * (x20 * x32 - x22 * x30)) + x02 * -(x00 * (x21 * x33 - x23 * x31) - x01 * (x20 * x33 - x23 * x30) + x03 * (x20 * x31 - x21 * x30)) + x03 * (x00 * (x21 * x32 - x22 * x31) - x01 * (x20 * x32 - x22 * x30) + x02 * (x20 * x31 - x21 * x30)) == 0,
        x00 * (x01 * (x12 * x33 - x13 * x32) - x02 * (x11 * x33 - x13 * x31) + x03 * (x11 * x32 - x12 * x31)) + x01 * -(x00 * (x12 * x33 - x13 * x32) - x02 * (x10 * x33 - x13 * x30) + x03 * (x10 * x32 - x12 * x30)) + x02 * (x00 * (x11 * x33 - x13 * x31) - x01 * (x10 * x33 - x13 * x30) + x03 * (x10 * x31 - x11 * x30)) + x03 * -(x00 * (x11 * x32 - x12 * x31) - x01 * (x10 * x32 - x12 * x30) + x02 * (x10 * x31 - x11 * x30)) == 0,
        x00 * -(x01 * (x12 * x23 - x13 * x22) - x02 * (x11 * x23 - x13 * x21) + x03 * (x11 * x22 - x12 * x21)) + x01 * (x00 * (x12 * x23 - x13 * x22) - x02 * (x10 * x23 - x13 * x20) + x03 * (x10 * x22 - x12 * x20)) + x02 * -(x00 * (x11 * x23 - x13 * x21) - x01 * (x10 * x23 - x13 * x20) + x03 * (x10 * x21 - x11 * x20)) + x03 * (x00 * (x11 * x22 - x12 * x21) - x01 * (x10 * x22 - x12 * x20) + x02 * (x10 * x21 - x11 * x20)) == 0,
        x10 * (x11 * (x22 * x33 - x23 * x32) - x12 * (x21 * x33 - x23 * x31) + x13 * (x21 * x32 - x22 * x31)) + x11 * -(x10 * (x22 * x33 - x23 * x32) - x12 * (x20 * x33 - x23 * x30) + x13 * (x20 * x32 - x22 * x30)) + x12 * (x10 * (x21 * x33 - x23 * x31) - x11 * (x20 * x33 - x23 * x30) + x13 * (x20 * x31 - x21 * x30)) + x13 * -(x10 * (x21 * x32 - x22 * x31) - x11 * (x20 * x32 - x22 * x30) + x12 * (x20 * x31 - x21 * x30)) == 0,
        x10 * -(x01 * (x22 * x33 - x23 * x32) - x02 * (x21 * x33 - x23 * x31) + x03 * (x21 * x32 - x22 * x31)) + x11 * (x00 * (x22 * x33 - x23 * x32) - x02 * (x20 * x33 - x23 * x30) + x03 * (x20 * x32 - x22 * x30)) + x12 * -(x00 * (x21 * x33 - x23 * x31) - x01 * (x20 * x33 - x23 * x30) + x03 * (x20 * x31 - x21 * x30)) + x13 * (x00 * (x21 * x32 - x22 * x31) - x01 * (x20 * x32 - x22 * x30) + x02 * (x20 * x31 - x21 * x30)) == x00 * (x11 * (x22 * x33 - x23 * x32) - x12 * (x21 * x33 - x23 * x31) + x13 * (x21 * x32 - x22 * x31)) + x01 * -(x10 * (x22 * x33 - x23 * x32) - x12 * (x20 * x33 - x23 * x30) + x13 * (x20 * x32 - x22 * x30)) + x02 * (x10 * (x21 * x33 - x23 * x31) - x11 * (x20 * x33 - x23 * x30) + x13 * (x20 * x31 - x21 * x30)) + x03 * -(x10 * (x21 * x32 - x22 * x31) - x11 * (x20 * x32 - x22 * x30) + x12 * (x20 * x31 - x21 * x30)),
        x10 * (x01 * (x12 * x33 - x13 * x32) - x02 * (x11 * x33 - x13 * x31) + x03 * (x11 * x32 - x12 * x31)) + x11 * -(x00 * (x12 * x33 - x13 * x32) - x02 * (x10 * x33 - x13 * x30) + x03 * (x10 * x32 - x12 * x30)) + x12 * (x00 * (x11 * x33 - x13 * x31) - x01 * (x10 * x33 - x13 * x30) + x03 * (x10 * x31 - x11 * x30)) + x13 * -(x00 * (x11 * x32 - x12 * x31) - x01 * (x10 * x32 - x12 * x30) + x02 * (x10 * x31 - x11 * x30)) == 0,
        x10 * -(x01 * (x12 * x23 - x13 * x22) - x02 * (x11 * x23 - x13 * x21) + x03 * (x11 * x22 - x12 * x21)) + x11 * (x00 * (x12 * x23 - x13 * x22) - x02 * (x10 * x23 - x13 * x20) + x03 * (x10 * x22 - x12 * x20)) + x12 * -(x00 * (x11 * x23 - x13 * x21) - x01 * (x10 * x23 - x13 * x20) + x03 * (x10 * x21 - x11 * x20)) + x13 * (x00 * (x11 * x22 - x12 * x21) - x01 * (x10 * x22 - x12 * x20) + x02 * (x10 * x21 - x11 * x20)) == 0,
        x20 * (x11 * (x22 * x33 - x23 * x32) - x12 * (x21 * x33 - x23 * x31) + x13 * (x21 * x32 - x22 * x31)) + x21 * -(x10 * (x22 * x33 - x23 * x32) - x12 * (x20 * x33 - x23 * x30) + x13 * (x20 * x32 - x22 * x30)) + x22 * (x10 * (x21 * x33 - x23 * x31) - x11 * (x20 * x33 - x23 * x30) + x13 * (x20 * x31 - x21 * x30)) + x23 * -(x10 * (x21 * x32 - x22 * x31) - x11 * (x20 * x32 - x22 * x30) + x12 * (x20 * x31 - x21 * x30)) == 0,
        x20 * -(x01 * (x22 * x33 - x23 * x32) - x02 * (x21 * x33 - x23 * x31) + x03 * (x21 * x32 - x22 * x31)) + x21 * (x00 * (x22 * x33 - x23 * x32) - x02 * (x20 * x33 - x23 * x30) + x03 * (x20 * x32 - x22 * x30)) + x22 * -(x00 * (x21 * x33 - x23 * x31) - x01 * (x20 * x33 - x23 * x30) + x03 * (x20 * x31 - x21 * x30)) + x23 * (x00 * (x21 * x32 - x22 * x31) - x01 * (x20 * x32 - x22 * x30) + x02 * (x20 * x31 - x21 * x30)) == 0,
        x20 * (x01 * (x12 * x33 - x13 * x32) - x02 * (x11 * x33 - x13 * x31) + x03 * (x11 * x32 - x12 * x31)) + x21 * -(x00 * (x12 * x33 - x13 * x32) - x02 * (x10 * x33 - x13 * x30) + x03 * (x10 * x32 - x12 * x30)) + x22 * (x00 * (x11 * x33 - x13 * x31) - x01 * (x10 * x33 - x13 * x30) + x03 * (x10 * x31 - x11 * x30)) + x23 * -(x00 * (x11 * x32 - x12 * x31) - x01 * (x10 * x32 - x12 * x30) + x02 * (x10 * x31 - x11 * x30)) == x00 * (x11 * (x22 * x33 - x23 * x32) - x12 * (x21 * x33 - x23 * x31) + x13 * (x21 * x32 - x22 * x31)) + x01 * -(x10 * (x22 * x33 - x23 * x32) - x12 * (x20 * x33 - x23 * x30) + x13 * (x20 * x32 - x22 * x30)) + x02 * (x10 * (x21 * x33 - x23 * x31) - x11 * (x20 * x33 - x23 * x30) + x13 * (x20 * x31 - x21 * x30)) + x03 * -(x10 * (x21 * x32 - x22 * x31) - x11 * (x20 * x32 - x22 * x30) + x12 * (x20 * x31 - x21 * x30)),
        x20 * -(x01 * (x12 * x23 - x13 * x22) - x02 * (x11 * x23 - x13 * x21) + x03 * (x11 * x22 - x12 * x21)) + x21 * (x00 * (x12 * x23 - x13 * x22) - x02 * (x10 * x23 - x13 * x20) + x03 * (x10 * x22 - x12 * x20)) + x22 * -(x00 * (x11 * x23 - x13 * x21) - x01 * (x10 * x23 - x13 * x20) + x03 * (x10 * x21 - x11 * x20)) + x23 * (x00 * (x11 * x22 - x12 * x21) - x01 * (x10 * x22 - x12 * x20) + x02 * (x10 * x21 - x11 * x20)) == 0,
        x30 * (x11 * (x22 * x33 - x23 * x32) - x12 * (x21 * x33 - x23 * x31) + x13 * (x21 * x32 - x22 * x31)) + x31 * -(x10 * (x22 * x33 - x23 * x32) - x12 * (x20 * x33 - x23 * x30) + x13 * (x20 * x32 - x22 * x30)) + x32 * (x10 * (x21 * x33 - x23 * x31) - x11 * (x20 * x33 - x23 * x30) + x13 * (x20 * x31 - x21 * x30)) + x33 * -(x10 * (x21 * x32 - x22 * x31) - x11 * (x20 * x32 - x22 * x30) + x12 * (x20 * x31 - x21 * x30)) == 0,
        x30 * -(x01 * (x22 * x33 - x23 * x32) - x02 * (x21 * x33 - x23 * x31) + x03 * (x21 * x32 - x22 * x31)) + x31 * (x00 * (x22 * x33 - x23 * x32) - x02 * (x20 * x33 - x23 * x30) + x03 * (x20 * x32 - x22 * x30)) + x32 * -(x00 * (x21 * x33 - x23 * x31) - x01 * (x20 * x33 - x23 * x30) + x03 * (x20 * x31 - x21 * x30)) + x33 * (x00 * (x21 * x32 - x22 * x31) - x01 * (x20 * x32 - x22 * x30) + x02 * (x20 * x31 - x21 * x30)) == 0,
        x30 * (x01 * (x12 * x33 - x13 * x32) - x02 * (x11 * x33 - x13 * x31) + x03 * (x11 * x32 - x12 * x31)) + x31 * -(x00 * (x12 * x33 - x13 * x32) - x02 * (x10 * x33 - x13 * x30) + x03 * (x10 * x32 - x12 * x30)) + x32 * (x00 * (x11 * x33 - x13 * x31) - x01 * (x10 * x33 - x13 * x30) + x03 * (x10 * x31 - x11 * x30)) + x33 * -(x00 * (x11 * x32 - x12 * x31) - x01 * (x10 * x32 - x12 * x30) + x02 * (x10 * x31 - x11 * x30)) == 0,
        x30 * -(x01 * (x12 * x23 - x13 * x22) - x02 * (x11 * x23 - x13 * x21) + x03 * (x11 * x22 - x12 * x21)) + x31 * (x00 * (x12 * x23 - x13 * x22) - x02 * (x10 * x23 - x13 * x20) + x03 * (x10 * x22 - x12 * x20)) + x32 * -(x00 * (x11 * x23 - x13 * x21) - x01 * (x10 * x23 - x13 * x20) + x03 * (x10 * x21 - x11 * x20)) + x33 * (x00 * (x11 * x22 - x12 * x21) - x01 * (x10 * x22 - x12 * x20) + x02 * (x10 * x21 - x11 * x20)) == x00 * (x11 * (x22 * x33 - x23 * x32) - x12 * (x21 * x33 - x23 * x31) + x13 * (x21 * x32 - x22 * x31)) + x01 * -(x10 * (x22 * x33 - x23 * x32) - x12 * (x20 * x33 - x23 * x30) + x13 * (x20 * x32 - x22 * x30)) + x02 * (x10 * (x21 * x33 - x23 * x31) - x11 * (x20 * x33 - x23 * x30) + x13 * (x20 * x31 - x21 * x30)) + x03 * -(x10 * (x21 * x32 - x22 * x31) - x11 * (x20 * x32 - x22 * x30) + x12 * (x20 * x31 - x21 * x30)),
{
    lemma_laplace_00(x00, x01, x02, x03, x10, x11, x12, x13, x20, x21, x22, x23, x30, x31, x32, x33);
    lemma_laplace_01(x00, x01, x02, x03, x10, x11, x12, x13, x20, x21, x22, x23, x30, x31, x32, x33);
    lemma_laplace_02(x00, x01, x02, x03, x10, x11, x12, x13, x20, x21, x22, x23, x30, x31, x32, x33);
    lemma_laplace_03(x00, x01, x02, x03, x10, x11, x12, x13, x20, x21, x22, x23, x30, x31, x32, x33);
    lemma_laplace_10(x00, x01, x02, x03, x10, x11, x12, x13, x20, x21, x22, x23, x30, x31, x32, x33);
    lemma_laplace_11(x00, x01, x02, x03, x10, x11, x12, x13, x20, x21, x22, x23, x30, x31, x32, x33);
    lemma_laplace_12(x00, x01, x02, x03, x10, x11, x12, x13, x20, x21, x22, x23, x30, x31, x32, x33);
    lemma_laplace_13(x00, x01, x02, x03, x10, x11, x12, x13, x20, x21, x22, x23, x30, x31, x32, x33);
    lemma_laplace_20(x00, x01, x02, x03, x10, x11, x12, x13, x20, x21, x22, x23, x30, x31, x32, x33);
    lemma_laplace_21(x00, x01, x02, x03, x10, x11, x12, x13, x20, x21, x22, x23, x30, x31, x32, x33);
    lemma_laplace_22(x00, x01, x02, x03, x10, x11, x12, x13, x20, x21, x22, x23, x30, x31, x32, x33);
    lemma_laplace_23(x00, x01, x02, x03, x10, x11, x12, x13, x20, x21, x22, x23, x30, x31, x32, x33);
    lemma_laplace_30(x00, x01, x02, x03, x10, x11, x12, x13, x20, x21, x22, x23, x30, x31, x32, x33);
    lemma_laplace_31(x00, x01, x02, x03, x10, x11, x12, x13, x20, x21, x22, x23, x30, x31, x32, x33);
    lemma_laplace_32(x00, x01, x02, x03, x10, x11, x12, x13, x20, x21, x22, x23, x30, x31, x32, x33);
    lemma_laplace_33(x00, x01, x02, x03, x10, x11, x12, x13, x20, x21, x22, x23, x30, x31, x32, x33);
}


} // verus!
