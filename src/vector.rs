use vstd::prelude::*;

use crate::error::MathError;
use crate::scalar::{fits_i64, lemma_product_bounds};

verus! {

/// A homogeneous vector: a direction when `w == 0`, a point when `w == 1`.
/// Every operation returns a new value.
#[derive(Debug, Clone, Copy, PartialEq, Eq, Structural)]
pub struct Vector4 {
    pub x: i64,
    pub y: i64,
    pub z: i64,
    pub w: i64,
}

/// The component of `v` at `index` (`x`, `y`, `z`, `w` for 0 to 3).
pub open spec fn component(v: Vector4, index: int) -> int {
    if index == 0 {
        v.x as int
    } else if index == 1 {
        v.y as int
    } else if index == 2 {
        v.z as int
    } else {
        v.w as int
    }
}

/// Sum of the component-wise products, `w` included.
pub open spec fn dot_of(a: Vector4, b: Vector4) -> int {
    a.x * b.x + a.y * b.y + a.z * b.z + a.w * b.w
}

pub open spec fn cross_x(a: Vector4, b: Vector4) -> int {
    a.y * b.z - a.z * b.y
}

pub open spec fn cross_y(a: Vector4, b: Vector4) -> int {
    a.z * b.x - a.x * b.z
}

pub open spec fn cross_z(a: Vector4, b: Vector4) -> int {
    a.x * b.y - a.y * b.x
}

/// The cross product is anti-commutative: swapping the operands negates each
/// component, and the `w` of both results is zero.
pub proof fn lemma_cross_anticommutative(a: Vector4, b: Vector4)
    ensures
        cross_x(a, b) == -cross_x(b, a),
        cross_y(a, b) == -cross_y(b, a),
        cross_z(a, b) == -cross_z(b, a),
{
    assert(a.y * b.z == b.z * a.y && a.z * b.y == b.y * a.z) by (nonlinear_arith);
    assert(a.z * b.x == b.x * a.z && a.x * b.z == b.z * a.x) by (nonlinear_arith);
    assert(a.x * b.y == b.y * a.x && a.y * b.x == b.x * a.y) by (nonlinear_arith);
}

/// The dot product is commutative.
pub proof fn lemma_dot_commutative(a: Vector4, b: Vector4)
    ensures
        dot_of(a, b) == dot_of(b, a),
{
    assert(dot_of(a, b) == dot_of(b, a)) by (nonlinear_arith);
}

/// Sum of four `i64` products, computed in `i128`; it is exact whenever the
/// whole sum fits in an `i64`.
pub(crate) fn sum_of_products(a0: i64, b0: i64, a1: i64, b1: i64, a2: i64, b2: i64, a3: i64, b3: i64) -> (r: i64)
    requires
        fits_i64(a0 * b0 + a1 * b1 + a2 * b2 + a3 * b3),
    ensures
        r == a0 * b0 + a1 * b1 + a2 * b2 + a3 * b3,
{
    proof {
        lemma_product_bounds(a0 as int, b0 as int);
        lemma_product_bounds(a1 as int, b1 as int);
        lemma_product_bounds(a2 as int, b2 as int);
        lemma_product_bounds(a3 as int, b3 as int);
    }
    let t0 = (a0 as i128) * (b0 as i128);
    let t1 = (a1 as i128) * (b1 as i128);
    let t2 = (a2 as i128) * (b2 as i128);
    let t3 = (a3 as i128) * (b3 as i128);
    let s = t0 + t1;
    let s = s + t2;
    let s = s + t3;
    s as i64
}

/// Difference of two `i64` products, exact whenever it fits in an `i64`.
pub(crate) fn difference_of_products(a0: i64, b0: i64, a1: i64, b1: i64) -> (r: i64)
    requires
        fits_i64(a0 * b0 - a1 * b1),
    ensures
        r == a0 * b0 - a1 * b1,
{
    proof {
        lemma_product_bounds(a0 as int, b0 as int);
        lemma_product_bounds(a1 as int, b1 as int);
    }
    let d = (a0 as i128) * (b0 as i128) - (a1 as i128) * (b1 as i128);
    d as i64
}

impl Vector4 {
    pub fn new(x: i64, y: i64, z: i64, w: i64) -> (r: Self)
        ensures
            r.x == x,
            r.y == y,
            r.z == z,
            r.w == w,
    {
        Vector4 { x, y, z, w }
    }

    /// Dot product over all four components.
    pub fn dot(a: Self, b: Self) -> (r: i64)
        requires
            fits_i64(dot_of(a, b)),
        ensures
            r == dot_of(a, b),
    {
        sum_of_products(a.x, b.x, a.y, b.y, a.z, b.z, a.w, b.w)
    }

    /// Cross product of the `x, y, z` parts; the result is a direction (`w == 0`)
    /// whatever the `w` of the operands.
    pub fn cross(a: Self, b: Self) -> (r: Self)
        requires
            fits_i64(cross_x(a, b)),
            fits_i64(cross_y(a, b)),
            fits_i64(cross_z(a, b)),
        ensures
            r.x == cross_x(a, b),
            r.y == cross_y(a, b),
            r.z == cross_z(a, b),
            r.w == 0,
    {
        Self::new(
            difference_of_products(a.y, b.z, a.z, b.y),
            difference_of_products(a.z, b.x, a.x, b.z),
            difference_of_products(a.x, b.y, a.y, b.x),
            0,
        )
    }

    /// The component at `index`: `x`, `y`, `z`, `w` for 0 to 3.
    pub fn get(&self, index: usize) -> (r: Result<i64, MathError>)
        ensures
            index < 4 ==> r == Ok::<i64, MathError>(component(*self, index as int) as i64),
            index >= 4 ==> r == Err::<i64, MathError>(MathError::IndexOutOfRange),
    {
        match index {
            0 => Ok(self.x),
            1 => Ok(self.y),
            2 => Ok(self.z),
            3 => Ok(self.w),
            _ => Err(MathError::IndexOutOfRange),
        }
    }

    /// Replaces the component at `index`; any other index leaves the vector as it was.
    pub fn set(&mut self, index: usize, value: i64) -> (r: Result<(), MathError>)
        ensures
            index < 4 ==> r is Ok,
            index >= 4 ==> r == Err::<(), MathError>(MathError::IndexOutOfRange),
            index >= 4 ==> *final(self) == *old(self),
            forall|i: int|
                0 <= i < 4 ==> component(*final(self), i) == if i == index {
                    value as int
                } else {
                    component(*old(self), i)
                },
    {
        match index {
            0 => {
                self.x = value;
                Ok(())
            },
            1 => {
                self.y = value;
                Ok(())
            },
            2 => {
                self.z = value;
                Ok(())
            },
            3 => {
                self.w = value;
                Ok(())
            },
            _ => Err(MathError::IndexOutOfRange),
        }
    }

    /// Component-wise negation.
    pub fn neg(v: Self) -> (r: Self)
        requires
            v.x > i64::MIN,
            v.y > i64::MIN,
            v.z > i64::MIN,
            v.w > i64::MIN,
        ensures
            r.x == -v.x,
            r.y == -v.y,
            r.z == -v.z,
            r.w == -v.w,
    {
        Self::new(-v.x, -v.y, -v.z, -v.w)
    }

    /// Component-wise sum.
    pub fn add(a: Self, b: Self) -> (r: Self)
        requires
            fits_i64(a.x + b.x),
            fits_i64(a.y + b.y),
            fits_i64(a.z + b.z),
            fits_i64(a.w + b.w),
        ensures
            r.x == a.x + b.x,
            r.y == a.y + b.y,
            r.z == a.z + b.z,
            r.w == a.w + b.w,
    {
        Self::new(a.x + b.x, a.y + b.y, a.z + b.z, a.w + b.w)
    }

    /// Component-wise difference.
    pub fn sub(a: Self, b: Self) -> (r: Self)
        requires
            fits_i64(a.x - b.x),
            fits_i64(a.y - b.y),
            fits_i64(a.z - b.z),
            fits_i64(a.w - b.w),
        ensures
            r.x == a.x - b.x,
            r.y == a.y - b.y,
            r.z == a.z - b.z,
            r.w == a.w - b.w,
    {
        Self::new(a.x - b.x, a.y - b.y, a.z - b.z, a.w - b.w)
    }

    /// Every component multiplied by `scalar`.
    pub fn scale(v: Self, scalar: i64) -> (r: Self)
        requires
            fits_i64(v.x * scalar),
            fits_i64(v.y * scalar),
            fits_i64(v.z * scalar),
            fits_i64(v.w * scalar),
        ensures
            r.x == v.x * scalar,
            r.y == v.y * scalar,
            r.z == v.z * scalar,
            r.w == v.w * scalar,
    {
        Self::new(v.x * scalar, v.y * scalar, v.z * scalar, v.w * scalar)
    }

    /// Component-wise (Hadamard) product.
    pub fn mul(a: Self, b: Self) -> (r: Self)
        requires
            fits_i64(a.x * b.x),
            fits_i64(a.y * b.y),
            fits_i64(a.z * b.z),
            fits_i64(a.w * b.w),
        ensures
            r.x == a.x * b.x,
            r.y == a.y * b.y,
            r.z == a.z * b.z,
            r.w == a.w * b.w,
    {
        Self::new(a.x * b.x, a.y * b.y, a.z * b.z, a.w * b.w)
    }
}

} // verus!
