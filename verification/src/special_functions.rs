//! Spherical Bessel functions of the first kind, of order zero to two.
//!
//! Each is a closed form in `sin`, `cos` and powers of the argument. Near
//! zero the closed forms cancel badly, so there the leading term of the
//! series takes over. The functions are written against the numeric
//! capability set: on a jet they carry the derivatives along.

use vstd::prelude::*;
use crate::scalar::{apply, minus, num, over, times, Scalar, Unary};

verus! {

/// `j0(x)`: `1 - x^2/6` near zero, `sin(x)/x` elsewhere.
pub open spec fn sph_j0_spec<S: Scalar>(x: S) -> S {
    if x.near_zero_spec() {
        minus(num(1), over(times(x, x), num(6)))
    } else {
        over(apply(Unary::Sin, x), x)
    }
}

/// `j1(x)`: `x/3` near zero, `(sin(x) - x cos(x)) / x^2` elsewhere.
pub open spec fn sph_j1_spec<S: Scalar>(x: S) -> S {
    if x.near_zero_spec() {
        over(x, num(3))
    } else {
        over(minus(apply(Unary::Sin, x), times(x, apply(Unary::Cos, x))), times(x, x))
    }
}

/// `j2(x)`: `x^2/15` near zero, `(3 (sin(x) - x cos(x)) - x^2 sin(x)) / x^3`
/// elsewhere.
pub open spec fn sph_j2_spec<S: Scalar>(x: S) -> S {
    if x.near_zero_spec() {
        over(times(x, x), num(15))
    } else {
        let s = apply(Unary::Sin, x);
        let c = apply(Unary::Cos, x);
        let xx = times(x, x);
        over(minus(times(minus(s, times(x, c)), num(3)), times(xx, s)), times(xx, x))
    }
}

/// The spherical Bessel function of the first kind of order zero.
pub fn sph_j0<S: Scalar>(x: S) -> (r: S)
    ensures
        r == sph_j0_spec(x),
{
    if x.near_zero() {
        S::one().sub(x.mul(x).div(S::from_i32(6)))
    } else {
        x.sin().div(x)
    }
}

/// The spherical Bessel function of the first kind of order one.
pub fn sph_j1<S: Scalar>(x: S) -> (r: S)
    ensures
        r == sph_j1_spec(x),
{
    if x.near_zero() {
        x.div(S::from_i32(3))
    } else {
        let (s, c) = x.sin_cos();
        s.sub(x.mul(c)).div(x.mul(x))
    }
}

/// The spherical Bessel function of the first kind of order two.
pub fn sph_j2<S: Scalar>(x: S) -> (r: S)
    ensures
        r == sph_j2_spec(x),
{
    if x.near_zero() {
        x.mul(x).div(S::from_i32(15))
    } else {
        let (s, c) = x.sin_cos();
        let xx = x.mul(x);
        s.sub(x.mul(c)).mul(S::from_i32(3)).sub(xx.mul(s)).div(xx.mul(x))
    }
}

} // verus!
