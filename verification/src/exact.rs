//! What the differentiation rules compute where the coefficient arithmetic
//! is exact.
//!
//! The rules of a jet are stated over whatever arithmetic the coefficient
//! type has, rounding included, and no rounding arithmetic is exact. This
//! module says what the rules approximate. It reads them in the integers:
//! under every interpretation of the coefficients that takes sums to sums
//! and products to products, a third-order jet is a function of one variable
//! with its first three derivatives at a point, and a hyper-dual number is a
//! function of two variables with its first and mixed derivatives.
//!
//! Read so, the product of jets is the product of the functions, which is
//! commutative and associative, has the constant one as its unit and
//! distributes over the sum; the chain rule is the composition of the
//! functions; a function evaluated on the seeded variable yields its own
//! derivatives; integer powers are repeated products; the reciprocal of a
//! jet times the jet is one; and the derivative tuples of the tangents and
//! arctangents solve the equations that define these functions.
//!
//! The proofs use the laws of a commutative ring only.

use vstd::prelude::*;
use crate::hyperdual::HyperDual;
use crate::jet::Jet;
use crate::rules::{derivatives_spec, power_below_spec, powi_derivatives_spec, Derivatives};
use crate::scalar::{apply, minus, negate, num, plus, times, Binary, Scalar, Unary};
use crate::seeding::{first_scalar_seed, second_scalar_seed};
use crate::third_order::ThirdOrderJet;

verus! {

/// A value and three derivatives, in the integers.
pub struct Taylor {
    pub d0: int,
    pub d1: int,
    pub d2: int,
    pub d3: int,
}

/// Whether `value` reads the coefficient arithmetic exactly: sums as sums,
/// differences as differences, products as products, and each integer
/// constant as that integer.
pub open spec fn exact<F: Scalar>(value: spec_fn(F) -> int) -> bool {
    &&& forall|a: F, b: F| value(#[trigger] plus(a, b)) == value(a) + value(b)
    &&& forall|a: F, b: F| value(#[trigger] minus(a, b)) == value(a) - value(b)
    &&& forall|a: F, b: F| value(#[trigger] times(a, b)) == value(a) * value(b)
    &&& forall|a: F| value(#[trigger] negate(a)) == -value(a)
    &&& forall|n: int| i32::MIN <= n <= i32::MAX ==> value(#[trigger] num::<F>(n)) == n
}

/// Whether `value` reads the integer powers of the coefficient `x` exactly,
/// for the exponents that the power rule uses around `n`: the power zero as
/// one, and the power `n - 2` as the power `n - 3` times `x`.
pub open spec fn exact_powers<F: Scalar>(value: spec_fn(F) -> int, x: F, n: i32) -> bool {
    &&& value(x.powi_spec(0)) == 1
    &&& 3 <= n < i32::MAX ==> value(x.powi_spec((n - 2) as i32)) == value(
        x.powi_spec((n - 3) as i32),
    ) * value(x)
}

/// The jet as read by `value`.
pub open spec fn read<F: Scalar>(value: spec_fn(F) -> int, x: ThirdOrderJet<F>) -> Taylor {
    Taylor { d0: value(x.v0), d1: value(x.v1), d2: value(x.v2), d3: value(x.v3) }
}

/// The derivative tuple as read by `value`.
pub open spec fn read_tuple<F: Scalar>(value: spec_fn(F) -> int, d: Derivatives<F>) -> Taylor {
    Taylor { d0: value(d.f0), d1: value(d.f1), d2: value(d.f2), d3: value(d.f3) }
}

/// The constant function `c`.
pub open spec fn taylor_constant(c: int) -> Taylor {
    Taylor { d0: c, d1: 0, d2: 0, d3: 0 }
}

/// The variable itself at the point `x`: the identity function.
pub open spec fn taylor_variable(x: int) -> Taylor {
    Taylor { d0: x, d1: 1, d2: 0, d3: 0 }
}

/// The sum of two functions, with its derivatives.
pub open spec fn taylor_sum(a: Taylor, b: Taylor) -> Taylor {
    Taylor { d0: a.d0 + b.d0, d1: a.d1 + b.d1, d2: a.d2 + b.d2, d3: a.d3 + b.d3 }
}

/// The difference of two functions, with its derivatives.
pub open spec fn taylor_difference(a: Taylor, b: Taylor) -> Taylor {
    Taylor { d0: a.d0 - b.d0, d1: a.d1 - b.d1, d2: a.d2 - b.d2, d3: a.d3 - b.d3 }
}

/// The product of two functions, with its derivatives by the rule of
/// Leibniz.
pub open spec fn taylor_product(a: Taylor, b: Taylor) -> Taylor {
    Taylor {
        d0: a.d0 * b.d0,
        d1: a.d0 * b.d1 + a.d1 * b.d0,
        d2: a.d0 * b.d2 + 2 * a.d1 * b.d1 + a.d2 * b.d0,
        d3: a.d0 * b.d3 + 3 * a.d1 * b.d2 + 3 * a.d2 * b.d1 + a.d3 * b.d0,
    }
}

/// The composition `g after f`, where `f` holds the value and derivatives of
/// the inner function at a point and `g` those of the outer function at the
/// inner function's value there.
pub open spec fn taylor_compose(f: Taylor, g: Taylor) -> Taylor {
    Taylor {
        d0: g.d0,
        d1: g.d1 * f.d1,
        d2: g.d2 * f.d1 * f.d1 + g.d1 * f.d2,
        d3: g.d3 * f.d1 * f.d1 * f.d1 + 3 * g.d2 * f.d1 * f.d2 + g.d1 * f.d3,
    }
}

/// The square function at the point `x`.
pub open spec fn taylor_square(x: int) -> Taylor {
    Taylor { d0: x * x, d1: 2 * x, d2: 2, d3: 0 }
}

/// The cube function at the point `x`.
pub open spec fn taylor_cube(x: int) -> Taylor {
    Taylor { d0: x * x * x, d1: 3 * (x * x), d2: 6 * x, d3: 6 }
}

/// The `n`-th power function at the point `x`, where `p` stands for `x` to
/// the power `n - 3`: the value `p x^3` and the derivatives `n p x^2`,
/// `n (n-1) p x` and `n (n-1) (n-2) p`.
pub open spec fn taylor_power(x: int, n: int, p: int) -> Taylor {
    Taylor {
        d0: p * x * x * x,
        d1: p * x * x * n,
        d2: p * x * (n * (n - 1)),
        d3: p * (n * (n - 1) * (n - 2)),
    }
}

/// The reciprocal function at a point whose reciprocal is `r`: the value
/// `r` and the derivatives `-r^2`, `2 r^3` and `-6 r^4`.
pub open spec fn taylor_recip(r: int) -> Taylor {
    let q1 = (-r) * r;
    let q2 = q1 * r * (-2);
    let q3 = q2 * r * (-3);
    Taylor { d0: r, d1: q1, d2: q2, d3: q3 }
}

/// The tangent at a point where its value is `t`.
pub open spec fn taylor_tan(t: int) -> Taylor {
    let tt = t * t;
    let sec2 = 1 + tt;
    Taylor { d0: t, d1: sec2, d2: t * sec2 * 2, d3: (sec2 + tt * 2) * sec2 * 2 }
}

/// The hyperbolic tangent at a point where its value is `t`.
pub open spec fn taylor_tanh(t: int) -> Taylor {
    let tt = t * t;
    let s = 1 - tt;
    Taylor { d0: t, d1: s, d2: (-t) * s * 2, d3: (tt * 2 - s) * s * 2 }
}

/// The arctangent at the point `x`, where `a` is its value and `r` the
/// reciprocal of `1 + x^2`.
pub open spec fn taylor_atan(a: int, x: int, r: int) -> Taylor {
    Taylor { d0: a, d1: r, d2: (-x) * r * r * 2, d3: (x * x * 6 - 2) * r * r * r }
}

/// The area hyperbolic tangent at the point `x`, where `a` is its value and
/// `r` the reciprocal of `1 - x^2`.
pub open spec fn taylor_atanh(a: int, x: int, r: int) -> Taylor {
    Taylor { d0: a, d1: r, d2: x * r * r * 2, d3: (x * x * 6 + 2) * r * r * r }
}

/// A value, two first derivatives and their mixed second derivative, in the
/// integers.
pub struct Mixed {
    pub d: int,
    pub d1: int,
    pub d2: int,
    pub d12: int,
}

/// The hyper-dual number as read by `value`.
pub open spec fn read_mixed<F: Scalar>(value: spec_fn(F) -> int, x: HyperDual<F>) -> Mixed {
    Mixed { d: value(x.re), d1: value(x.eps1), d2: value(x.eps2), d12: value(x.eps1eps2) }
}

/// The product of two functions of two variables, with its derivatives.
pub open spec fn mixed_product(a: Mixed, b: Mixed) -> Mixed {
    Mixed {
        d: a.d * b.d,
        d1: a.d * b.d1 + a.d1 * b.d,
        d2: a.d * b.d2 + a.d2 * b.d,
        d12: a.d * b.d12 + a.d1 * b.d2 + a.d2 * b.d1 + a.d12 * b.d,
    }
}

/// The composition of a function of one variable after a function of two
/// variables, with its derivatives.
pub open spec fn mixed_compose(f: Mixed, g: Taylor) -> Mixed {
    Mixed {
        d: g.d0,
        d1: g.d1 * f.d1,
        d2: g.d1 * f.d2,
        d12: g.d1 * f.d12 + g.d2 * f.d1 * f.d2,
    }
}

/// Products with zero and with one.
proof fn lemma_zero_one(x: int)
    ensures
        0 * x == 0,
        x * 0 == 0,
        1 * x == x,
        x * 1 == x,
{
}

/// A constant factor moves to the front of a product, and a product of
/// three factors may be taken from either end.
proof fn lemma_factor(k: int, x: int, y: int, z: int)
    ensures
        (k * x) * y == k * (x * y),
        x * (k * y) == k * (x * y),
        x * (y * z) == (x * y) * z,
{
    assert((k * x) * y == k * (x * y)) by (nonlinear_arith);
    assert(x * (k * y) == k * (x * y)) by (nonlinear_arith);
    assert(x * (y * z) == (x * y) * z) by (nonlinear_arith);
}

/// A sum times a factor, multiplied out.
proof fn lemma_sum_times(k: int, p: int, q: int, r: int, s: int, z: int)
    ensures
        (k * (p + q + r + s)) * z == k * (p * z) + k * (q * z) + k * (r * z) + k * (s * z),
{
    assert((k * (p + q + r + s)) * z == k * (p * z) + k * (q * z) + k * (r * z) + k * (s * z))
        by (nonlinear_arith);
}

/// A factor times a sum, multiplied out.
proof fn lemma_times_sum(k: int, x: int, p: int, q: int, r: int, s: int)
    ensures
        (k * x) * (p + q + r + s) == k * (x * p) + k * (x * q) + k * (x * r) + k * (x * s),
{
    assert((k * x) * (p + q + r + s) == k * (x * p) + k * (x * q) + k * (x * r) + k * (x * s))
        by (nonlinear_arith);
}

/// Products of a few factors with one of them moved to the front.
proof fn lemma_front(k: int, a: int, u: int, v: int, w: int)
    ensures
        (a * k) * u == k * (a * u),
        ((a * k) * u) * v == k * ((a * u) * v),
        (((a * k) * u) * v) * w == k * (((a * u) * v) * w),
{
    assert((a * k) * u == k * (a * u)) by (nonlinear_arith);
    assert(((a * k) * u) * v == k * ((a * u) * v)) by (nonlinear_arith);
    assert((((a * k) * u) * v) * w == k * (((a * u) * v) * w)) by (nonlinear_arith);
}

/// Products of a few factors with the last one moved next to the first.
proof fn lemma_last(a: int, x: int, u: int, v: int, w: int)
    ensures
        (a * u) * x == (a * x) * u,
        ((a * u) * v) * x == ((a * x) * u) * v,
        (((a * u) * v) * w) * x == (((a * x) * u) * v) * w,
{
    assert((a * u) * x == (a * x) * u) by (nonlinear_arith);
    assert(((a * u) * v) * x == ((a * x) * u) * v) by (nonlinear_arith);
    assert((((a * u) * v) * w) * x == (((a * x) * u) * v) * w) by (nonlinear_arith);
}

/// Sums and constant factors in a product with one more factor.
proof fn lemma_linear(j: int, k: int, s: int, t: int, u: int, x: int)
    ensures
        (s + t + u) * x == s * x + t * x + u * x,
        (j * (s + t)) * x == j * (s * x) + j * (t * x),
        (j * s) * x == j * (s * x),
        (j * (k * s)) == (j * k) * s,
        (j + k) * s == j * s + k * s,
        (k * s) * x == k * (s * x),
{
    assert((s + t + u) * x == s * x + t * x + u * x) by (nonlinear_arith);
    assert((j * (s + t)) * x == j * (s * x) + j * (t * x)) by (nonlinear_arith);
    assert((j * s) * x == j * (s * x)) by (nonlinear_arith);
    assert((j * (k * s)) == (j * k) * s) by (nonlinear_arith);
    assert((j + k) * s == j * s + k * s) by (nonlinear_arith);
    assert((k * s) * x == k * (s * x)) by (nonlinear_arith);
}

/// A product with two constant factors, both moved to the front.
proof fn lemma_scaled(j: int, b: int, k: int, v: int, w: int)
    ensures
        (j * ((b * k) * v)) * w == (j * k) * ((b * v) * w),
{
    assert((j * ((b * k) * v)) * w == (j * k) * ((b * v) * w)) by (nonlinear_arith);
}

/// The falling products of `n + 1` in terms of those of `n`.
proof fn lemma_falling(n: int)
    ensures
        (n + 1) * n == 2 * n + n * (n - 1),
        (n + 1) * n * (n - 1) == 3 * (n * (n - 1)) + n * (n - 1) * (n - 2),
{
    assert((n + 1) * n == 2 * n + n * (n - 1)) by (nonlinear_arith);
    assert((n + 1) * n * (n - 1) == 3 * (n * (n - 1)) + n * (n - 1) * (n - 2))
        by (nonlinear_arith);
}

/// Products of two and three factors in another order.
proof fn lemma_reorder(t: int, q: int)
    ensures
        q * t == t * q,
        t * q * 2 == 2 * (t * q),
        (-t) * q * 2 == -(2 * (t * q)),
        t * (t * q * 2) == 2 * ((t * t) * q),
        (t * q * 2) * t == 2 * ((t * t) * q),
        t * ((-t) * q * 2) == -(2 * ((t * t) * q)),
        ((-t) * q * 2) * t == -(2 * ((t * t) * q)),
        (2 * q) * q == 2 * (q * q),
        (q + t * t * 2) * q * 2 == 2 * (q * q) + 4 * ((t * t) * q),
        (t * t * 2 - q) * q * 2 == 4 * ((t * t) * q) - 2 * (q * q),
{
    assert(q * t == t * q) by (nonlinear_arith);
    assert(t * q * 2 == 2 * (t * q)) by (nonlinear_arith);
    assert((-t) * q * 2 == -(2 * (t * q))) by (nonlinear_arith);
    assert(t * (t * q * 2) == 2 * ((t * t) * q)) by (nonlinear_arith);
    assert((t * q * 2) * t == 2 * ((t * t) * q)) by (nonlinear_arith);
    assert(t * ((-t) * q * 2) == -(2 * ((t * t) * q))) by (nonlinear_arith);
    assert(((-t) * q * 2) * t == -(2 * ((t * t) * q))) by (nonlinear_arith);
    assert((2 * q) * q == 2 * (q * q)) by (nonlinear_arith);
    assert((q + t * t * 2) * q * 2 == 2 * (q * q) + 4 * ((t * t) * q)) by (nonlinear_arith);
    assert((t * t * 2 - q) * q * 2 == 4 * ((t * t) * q) - 2 * (q * q)) by (nonlinear_arith);
}

/// The monomials of the reciprocal rule, with the factor `r x` set apart.
proof fn lemma_recip_monomials(r: int, x: int, v1: int, v2: int, v3: int)
    ensures
        (((-r) * r) * v1) * x == -((r * x) * (r * v1)),
        (((-r) * r) * v2) * x == -((r * x) * (r * v2)),
        (((-r) * r) * v3) * x == -((r * x) * (r * v3)),
        (2 * (((-r) * r) * v1)) * v1 == -2 * (((r * r) * v1) * v1),
        (3 * (((-r) * r) * v1)) * v2 == -3 * (((r * r) * v1) * v2),
        (((-r) * r) * v2) * v1 == -(((r * r) * v1) * v2),
        (((((-r) * r) * r * (-2)) * v1) * v1) * x == 2 * ((r * x) * (((r * r) * v1) * v1)),
        (((((-r) * r) * r * (-2)) * v1) * v1) * v1 == 2 * ((((r * r) * r) * v1) * v1 * v1),
        (((3 * (((-r) * r) * r * (-2))) * v1) * v2) * x == 6 * ((r * x) * (((r * r) * v1) * v2)),
        ((((((-r) * r) * r * (-2)) * r * (-3)) * v1) * v1) * v1 * x == -6 * ((r * x) * ((((r * r)
            * r) * v1) * v1 * v1)),
{
    assert((((-r) * r) * v1) * x == -((r * x) * (r * v1))) by (nonlinear_arith);
    assert((((-r) * r) * v2) * x == -((r * x) * (r * v2))) by (nonlinear_arith);
    assert((((-r) * r) * v3) * x == -((r * x) * (r * v3))) by (nonlinear_arith);
    assert((2 * (((-r) * r) * v1)) * v1 == -2 * (((r * r) * v1) * v1)) by (nonlinear_arith);
    assert((3 * (((-r) * r) * v1)) * v2 == -3 * (((r * r) * v1) * v2)) by (nonlinear_arith);
    assert((((-r) * r) * v2) * v1 == -(((r * r) * v1) * v2)) by (nonlinear_arith);
    assert((((((-r) * r) * r * (-2)) * v1) * v1) * x == 2 * ((r * x) * (((r * r) * v1) * v1)))
        by (nonlinear_arith);
    assert((((((-r) * r) * r * (-2)) * v1) * v1) * v1 == 2 * ((((r * r) * r) * v1) * v1 * v1))
        by (nonlinear_arith);
    assert((((3 * (((-r) * r) * r * (-2))) * v1) * v2) * x == 6 * ((r * x) * (((r * r) * v1)
        * v2))) by (nonlinear_arith);
    assert(((((((-r) * r) * r * (-2)) * r * (-3)) * v1) * v1) * v1 * x == -6 * ((r * x) * ((((r
        * r) * r) * v1) * v1 * v1))) by (nonlinear_arith);
}

/// The monomials of the derivatives of a reciprocal of `u = 1 + x^2` or
/// `u = 1 - x^2`, where `r u` is one.
proof fn lemma_arctangent_monomials(x: int, r: int, u: int)
    requires
        r * u == 1,
    ensures
        ((-r) * r) * (2 * x) == (-x) * r * r * 2,
        ((-r) * r) * ((-2) * x) == x * r * r * 2,
        ((((-r) * r) * r * (-2)) * (2 * x)) * (2 * x) == 8 * ((x * x) * (r * r * r)),
        ((((-r) * r) * r * (-2)) * ((-2) * x)) * ((-2) * x) == 8 * ((x * x) * (r * r * r)),
        ((-r) * r) * 2 == -(2 * (r * r)),
        ((-r) * r) * (-2) == 2 * (r * r),
        (x * x * 6 - 2) * r * r * r == 6 * ((x * x) * (r * r * r)) - 2 * (r * r * r),
        (x * x * 6 + 2) * r * r * r == 6 * ((x * x) * (r * r * r)) + 2 * (r * r * r),
        r * r == (r * r * r) * u,
        (r * r * r) * (1 + x * x) == r * r * r + (x * x) * (r * r * r),
        (r * r * r) * (1 - x * x) == r * r * r - (x * x) * (r * r * r),
{
    assert(((-r) * r) * (2 * x) == (-x) * r * r * 2) by (nonlinear_arith);
    assert(((-r) * r) * ((-2) * x) == x * r * r * 2) by (nonlinear_arith);
    assert(((((-r) * r) * r * (-2)) * (2 * x)) * (2 * x) == 8 * ((x * x) * (r * r * r)))
        by (nonlinear_arith);
    assert(((((-r) * r) * r * (-2)) * ((-2) * x)) * ((-2) * x) == 8 * ((x * x) * (r * r * r)))
        by (nonlinear_arith);
    assert(((-r) * r) * 2 == -(2 * (r * r))) by (nonlinear_arith);
    assert(((-r) * r) * (-2) == 2 * (r * r)) by (nonlinear_arith);
    assert((x * x * 6 - 2) * r * r * r == 6 * ((x * x) * (r * r * r)) - 2 * (r * r * r))
        by (nonlinear_arith);
    assert((x * x * 6 + 2) * r * r * r == 6 * ((x * x) * (r * r * r)) + 2 * (r * r * r))
        by (nonlinear_arith);
    assert((r * r * r) * u == (r * r) * (r * u)) by (nonlinear_arith);
    lemma_zero_one(r * r);
    assert((r * r * r) * (1 + x * x) == r * r * r + (x * x) * (r * r * r)) by (nonlinear_arith);
    assert((r * r * r) * (1 - x * x) == r * r * r - (x * x) * (r * r * r)) by (nonlinear_arith);
}

/// Read exactly, the jet of a constant is the constant function.
pub proof fn lemma_read_constant<F: Scalar>(value: spec_fn(F) -> int, c: F)
    requires
        exact(value),
    ensures
        read(value, ThirdOrderJet::from_re_spec(c)) == taylor_constant(value(c)),
{
    assert(value(num::<F>(0)) == 0);
}

/// Read exactly, the sum of jets is the sum of the functions.
pub proof fn lemma_read_sum<F: Scalar>(
    value: spec_fn(F) -> int,
    a: ThirdOrderJet<F>,
    b: ThirdOrderJet<F>,
)
    requires
        exact(value),
    ensures
        read(value, a.sum_spec(b)) == taylor_sum(read(value, a), read(value, b)),
{
}

/// Read exactly, the difference of jets is the difference of the functions.
pub proof fn lemma_read_difference<F: Scalar>(
    value: spec_fn(F) -> int,
    a: ThirdOrderJet<F>,
    b: ThirdOrderJet<F>,
)
    requires
        exact(value),
    ensures
        read(value, a.difference_spec(b)) == taylor_difference(read(value, a), read(value, b)),
{
}

/// Read exactly, the product of jets is the product of the functions.
pub proof fn lemma_read_product<F: Scalar>(
    value: spec_fn(F) -> int,
    a: ThirdOrderJet<F>,
    b: ThirdOrderJet<F>,
)
    requires
        exact(value),
    ensures
        read(value, a.product_spec(b)) == taylor_product(read(value, a), read(value, b)),
{
    assert(value(num::<F>(2)) == 2);
    assert(value(num::<F>(3)) == 3);
}

/// Read exactly, the chain rule is the composition of the functions.
pub proof fn lemma_read_chain<F: Scalar>(
    value: spec_fn(F) -> int,
    x: ThirdOrderJet<F>,
    d: Derivatives<F>,
)
    requires
        exact(value),
    ensures
        read(value, x.chain_spec(d)) == taylor_compose(read(value, x), read_tuple(value, d)),
{
    assert(value(num::<F>(3)) == 3);
}

/// Read exactly, a function evaluated on the seeded variable yields its own
/// value and derivatives: the jet of `f` at the variable itself reads as the
/// derivative tuple of `f`.
pub proof fn lemma_read_seeded<F: Scalar>(value: spec_fn(F) -> int, x: F, d: Derivatives<F>)
    requires
        exact(value),
    ensures
        read(
            value,
            (ThirdOrderJet { v0: x, v1: num::<F>(1), v2: num::<F>(0), v3: num::<F>(0) }).chain_spec(
                d,
            ),
        ) == read_tuple(value, d),
{
    let seed = ThirdOrderJet { v0: x, v1: num::<F>(1), v2: num::<F>(0), v3: num::<F>(0) };
    lemma_read_chain(value, seed, d);
    assert(value(num::<F>(1)) == 1);
    assert(value(num::<F>(0)) == 0);
    lemma_compose_variable(read_tuple(value, d), value(x));
}

/// Read exactly, the derivative tuple of the `n`-th power is that of the
/// power function.
pub proof fn lemma_read_powi_tuple<F: Scalar>(value: spec_fn(F) -> int, x: F, n: i32)
    requires
        exact(value),
    ensures
        read_tuple(value, powi_derivatives_spec(x, n)) == taylor_power(
            value(x),
            n as int,
            value(power_below_spec(x, n)),
        ),
{
    assert(value(num::<F>(n as int)) == n);
    assert(value(num::<F>(1)) == 1);
}

/// Read exactly, the derivative tuple of the reciprocal is that of the
/// reciprocal function.
pub proof fn lemma_read_recip_tuple<F: Scalar>(value: spec_fn(F) -> int, x: F)
    requires
        exact(value),
    ensures
        read_tuple(value, derivatives_spec(Unary::Recip, x))
            == taylor_recip(value(apply(Unary::Recip, x))),
{
    assert(value(num::<F>(-2)) == -2);
    assert(value(num::<F>(-3)) == -3);
}

/// Read exactly, the derivative tuples of the tangent and of the hyperbolic
/// tangent are those of these functions.
pub proof fn lemma_read_tangent_tuples<F: Scalar>(value: spec_fn(F) -> int, x: F)
    requires
        exact(value),
    ensures
        read_tuple(value, derivatives_spec(Unary::Tan, x))
            == taylor_tan(value(apply(Unary::Tan, x))),
        read_tuple(value, derivatives_spec(Unary::Tanh, x))
            == taylor_tanh(value(apply(Unary::Tanh, x))),
{
    assert(value(num::<F>(1)) == 1);
    assert(value(num::<F>(2)) == 2);
}

/// Read exactly, the derivative tuples of the arctangent and of the area
/// hyperbolic tangent are those of these functions.
pub proof fn lemma_read_arctangent_tuples<F: Scalar>(value: spec_fn(F) -> int, x: F)
    requires
        exact(value),
    ensures
        read_tuple(value, derivatives_spec(Unary::Atan, x))
            == taylor_atan(
            value(apply(Unary::Atan, x)),
            value(x),
            value(
                apply(
                    Unary::Recip,
                    plus(num::<F>(1), times(x, x)),
                ),
            ),
        ),
        read_tuple(value, derivatives_spec(Unary::Atanh, x))
            == taylor_atanh(
            value(apply(Unary::Atanh, x)),
            value(x),
            value(
                apply(
                    Unary::Recip,
                    minus(num::<F>(1), times(x, x)),
                ),
            ),
        ),
{
    assert(value(num::<F>(1)) == 1);
    assert(value(num::<F>(2)) == 2);
    assert(value(num::<F>(6)) == 6);
}

/// Read exactly, the product of hyper-dual numbers is the product of the
/// functions.
pub proof fn lemma_read_mixed_product<F: Scalar>(
    value: spec_fn(F) -> int,
    a: HyperDual<F>,
    b: HyperDual<F>,
)
    requires
        exact(value),
    ensures
        read_mixed(value, a.product_spec(b)) == mixed_product(
            read_mixed(value, a),
            read_mixed(value, b),
        ),
{
}

/// Read exactly, the chain rule of hyper-dual numbers is the composition of
/// the functions.
pub proof fn lemma_read_mixed_chain<F: Scalar>(
    value: spec_fn(F) -> int,
    x: HyperDual<F>,
    d: Derivatives<F>,
)
    requires
        exact(value),
    ensures
        read_mixed(value, x.chain_spec(d)) == mixed_compose(
            read_mixed(value, x),
            read_tuple(value, d),
        ),
{
}

/// Read exactly, the product of the two seeded variables has the mixed
/// second derivative one, and each first derivative is the other variable.
pub proof fn lemma_read_mixed_seeds<F: Scalar>(value: spec_fn(F) -> int, x: F, y: F)
    requires
        exact(value),
    ensures
        read_mixed(
            value,
            first_scalar_seed(x).product_spec(
                second_scalar_seed(y),
            ),
        ) == (Mixed { d: value(x) * value(y), d1: value(y), d2: value(x), d12: 1 }),
{
    let a = first_scalar_seed(x);
    let b = second_scalar_seed(y);
    lemma_read_mixed_product(value, a, b);
    assert(value(num::<F>(1)) == 1);
    assert(value(num::<F>(0)) == 0);
    lemma_zero_one(value(x));
    lemma_zero_one(value(y));
    lemma_zero_one(1);
    lemma_zero_one(0);
}

/// The product of functions is commutative.
pub proof fn lemma_product_commutes(a: Taylor, b: Taylor)
    ensures
        taylor_product(a, b) == taylor_product(b, a),
{
    assert(taylor_product(a, b).d0 == taylor_product(b, a).d0) by (nonlinear_arith);
    assert(taylor_product(a, b).d1 == taylor_product(b, a).d1) by (nonlinear_arith);
    assert(taylor_product(a, b).d2 == taylor_product(b, a).d2) by (nonlinear_arith);
    assert(taylor_product(a, b).d3 == taylor_product(b, a).d3) by (nonlinear_arith);
}

/// The product of functions is associative.
pub proof fn lemma_product_associates(a: Taylor, b: Taylor, c: Taylor)
    ensures
        taylor_product(taylor_product(a, b), c) == taylor_product(a, taylor_product(b, c)),
{
    let ab = taylor_product(a, b);
    let bc = taylor_product(b, c);
    let l = taylor_product(ab, c);
    let r = taylor_product(a, bc);
    // every product of three factors, taken from either end
    lemma_factor(1, a.d0, b.d0, c.d0);
    lemma_factor(1, a.d0, b.d0, c.d1);
    lemma_factor(1, a.d0, b.d0, c.d2);
    lemma_factor(1, a.d0, b.d0, c.d3);
    lemma_factor(1, a.d0, b.d1, c.d0);
    lemma_factor(1, a.d0, b.d1, c.d1);
    lemma_factor(1, a.d0, b.d1, c.d2);
    lemma_factor(1, a.d0, b.d2, c.d0);
    lemma_factor(1, a.d0, b.d2, c.d1);
    lemma_factor(1, a.d0, b.d3, c.d0);
    lemma_factor(1, a.d1, b.d0, c.d0);
    lemma_factor(1, a.d1, b.d0, c.d1);
    lemma_factor(1, a.d1, b.d0, c.d2);
    lemma_factor(1, a.d1, b.d1, c.d0);
    lemma_factor(1, a.d1, b.d1, c.d1);
    lemma_factor(1, a.d1, b.d2, c.d0);
    lemma_factor(1, a.d2, b.d0, c.d0);
    lemma_factor(1, a.d2, b.d0, c.d1);
    lemma_factor(1, a.d2, b.d1, c.d0);
    lemma_factor(1, a.d3, b.d0, c.d0);
    // constant factors inside the coefficients of `ab` and `bc`
    lemma_factor(2, a.d1, b.d1, 0);
    lemma_factor(3, a.d1, b.d2, 0);
    lemma_factor(3, a.d2, b.d1, 0);
    lemma_factor(2, b.d1, c.d1, 0);
    lemma_factor(3, b.d1, c.d2, 0);
    lemma_factor(3, b.d2, c.d1, 0);
    // constant factors that meet the third factor
    lemma_factor(2, a.d1 * b.d1, c.d0, 0);
    lemma_factor(2, a.d1 * b.d1, c.d1, 0);
    lemma_factor(3, a.d1 * b.d2, c.d0, 0);
    lemma_factor(3, a.d2 * b.d1, c.d0, 0);
    lemma_factor(2, a.d0, b.d1 * c.d1, 0);
    lemma_factor(2, a.d1, b.d1 * c.d1, 0);
    lemma_factor(3, a.d0, b.d1 * c.d2, 0);
    lemma_factor(3, a.d0, b.d2 * c.d1, 0);
    // the sums, multiplied out
    lemma_sum_times(1, a.d0 * b.d1, a.d1 * b.d0, 0, 0, c.d0);
    lemma_times_sum(1, a.d0, b.d0 * c.d1, b.d1 * c.d0, 0, 0);
    assert(l.d1 == r.d1);
    lemma_sum_times(2, a.d0 * b.d1, a.d1 * b.d0, 0, 0, c.d1);
    lemma_sum_times(1, a.d0 * b.d2, 2 * (a.d1 * b.d1), a.d2 * b.d0, 0, c.d0);
    lemma_times_sum(1, a.d0, b.d0 * c.d2, 2 * (b.d1 * c.d1), b.d2 * c.d0, 0);
    lemma_times_sum(2, a.d1, b.d0 * c.d1, b.d1 * c.d0, 0, 0);
    assert(l.d2 == r.d2);
    lemma_sum_times(3, a.d0 * b.d1, a.d1 * b.d0, 0, 0, c.d2);
    lemma_sum_times(3, a.d0 * b.d2, 2 * (a.d1 * b.d1), a.d2 * b.d0, 0, c.d1);
    lemma_sum_times(
        1,
        a.d0 * b.d3,
        3 * (a.d1 * b.d2),
        3 * (a.d2 * b.d1),
        a.d3 * b.d0,
        c.d0,
    );
    lemma_times_sum(
        1,
        a.d0,
        b.d0 * c.d3,
        3 * (b.d1 * c.d2),
        3 * (b.d2 * c.d1),
        b.d3 * c.d0,
    );
    lemma_times_sum(3, a.d1, b.d0 * c.d2, 2 * (b.d1 * c.d1), b.d2 * c.d0, 0);
    lemma_times_sum(3, a.d2, b.d0 * c.d1, b.d1 * c.d0, 0, 0);
    assert(l.d3 == r.d3);
}

/// The constant one is the unit of the product.
pub proof fn lemma_product_unit(a: Taylor)
    ensures
        taylor_product(a, taylor_constant(1)) == a,
        taylor_product(taylor_constant(1), a) == a,
{
    lemma_zero_one(a.d0);
    lemma_zero_one(a.d1);
    lemma_zero_one(a.d2);
    lemma_zero_one(a.d3);
}

/// The product distributes over the sum.
pub proof fn lemma_product_distributes(a: Taylor, b: Taylor, c: Taylor)
    ensures
        taylor_product(a, taylor_sum(b, c)) == taylor_sum(
            taylor_product(a, b),
            taylor_product(a, c),
        ),
{
    lemma_times_sum(1, a.d0, b.d0, c.d0, 0, 0);
    lemma_times_sum(1, a.d0, b.d1, c.d1, 0, 0);
    lemma_times_sum(1, a.d0, b.d2, c.d2, 0, 0);
    lemma_times_sum(1, a.d0, b.d3, c.d3, 0, 0);
    lemma_times_sum(1, a.d1, b.d0, c.d0, 0, 0);
    lemma_times_sum(2, a.d1, b.d1, c.d1, 0, 0);
    lemma_times_sum(3, a.d1, b.d2, c.d2, 0, 0);
    lemma_times_sum(1, a.d2, b.d0, c.d0, 0, 0);
    lemma_times_sum(3, a.d2, b.d1, c.d1, 0, 0);
    lemma_times_sum(1, a.d3, b.d0, c.d0, 0, 0);
    lemma_factor(2, a.d1, b.d1, 0);
    lemma_factor(2, a.d1, c.d1, 0);
    lemma_factor(3, a.d1, b.d2, 0);
    lemma_factor(3, a.d1, c.d2, 0);
    lemma_factor(3, a.d2, b.d1, 0);
    lemma_factor(3, a.d2, c.d1, 0);
}

/// The product of functions of two variables is commutative.
pub proof fn lemma_mixed_product_commutes(a: Mixed, b: Mixed)
    ensures
        mixed_product(a, b) == mixed_product(b, a),
{
    lemma_last(a.d, b.d, 1, 0, 0);
    lemma_last(a.d, b.d1, 1, 0, 0);
    lemma_last(a.d, b.d2, 1, 0, 0);
    lemma_last(a.d, b.d12, 1, 0, 0);
    lemma_last(a.d1, b.d, 1, 0, 0);
    lemma_last(a.d1, b.d2, 1, 0, 0);
    lemma_last(a.d2, b.d, 1, 0, 0);
    lemma_last(a.d2, b.d1, 1, 0, 0);
    lemma_last(a.d12, b.d, 1, 0, 0);
    lemma_zero_one(a.d);
    lemma_zero_one(a.d1);
    lemma_zero_one(a.d2);
    lemma_zero_one(a.d12);
    lemma_zero_one(b.d);
    lemma_zero_one(b.d1);
    lemma_zero_one(b.d2);
    lemma_zero_one(b.d12);
}

/// The product of functions of two variables is associative.
pub proof fn lemma_mixed_product_associates(a: Mixed, b: Mixed, c: Mixed)
    ensures
        mixed_product(mixed_product(a, b), c) == mixed_product(a, mixed_product(b, c)),
{
    lemma_factor(1, a.d, b.d, c.d);
    lemma_factor(1, a.d, b.d, c.d1);
    lemma_factor(1, a.d, b.d, c.d2);
    lemma_factor(1, a.d, b.d, c.d12);
    lemma_factor(1, a.d, b.d1, c.d);
    lemma_factor(1, a.d, b.d1, c.d2);
    lemma_factor(1, a.d, b.d2, c.d);
    lemma_factor(1, a.d, b.d2, c.d1);
    lemma_factor(1, a.d, b.d12, c.d);
    lemma_factor(1, a.d1, b.d, c.d);
    lemma_factor(1, a.d1, b.d, c.d2);
    lemma_factor(1, a.d1, b.d2, c.d);
    lemma_factor(1, a.d2, b.d, c.d);
    lemma_factor(1, a.d2, b.d, c.d1);
    lemma_factor(1, a.d2, b.d1, c.d);
    lemma_factor(1, a.d12, b.d, c.d);
    lemma_sum_times(1, a.d * b.d1, a.d1 * b.d, 0, 0, c.d);
    lemma_sum_times(1, a.d * b.d1, a.d1 * b.d, 0, 0, c.d2);
    lemma_sum_times(1, a.d * b.d2, a.d2 * b.d, 0, 0, c.d);
    lemma_sum_times(1, a.d * b.d2, a.d2 * b.d, 0, 0, c.d1);
    lemma_sum_times(1, a.d * b.d12, a.d1 * b.d2, a.d2 * b.d1, a.d12 * b.d, c.d);
    lemma_times_sum(1, a.d, b.d * c.d1, b.d1 * c.d, 0, 0);
    lemma_times_sum(1, a.d, b.d * c.d2, b.d2 * c.d, 0, 0);
    lemma_times_sum(1, a.d1, b.d * c.d2, b.d2 * c.d, 0, 0);
    lemma_times_sum(1, a.d2, b.d * c.d1, b.d1 * c.d, 0, 0);
    lemma_times_sum(1, a.d, b.d * c.d12, b.d1 * c.d2, b.d2 * c.d1, b.d12 * c.d);
}

/// Composing with the variable changes nothing: a function evaluated on the
/// seeded variable yields its own value and derivatives, and the identity
/// function applied to a function yields that function.
pub proof fn lemma_compose_variable(f: Taylor, x: int)
    ensures
        taylor_compose(taylor_variable(x), f) == f,
        taylor_compose(f, taylor_variable(f.d0)) == f,
{
    lemma_zero_one(f.d1);
    lemma_zero_one(f.d2);
    lemma_zero_one(f.d3);
}

/// The chain rule with the square function is the product with itself.
pub proof fn lemma_compose_square(f: Taylor)
    ensures
        taylor_compose(f, taylor_square(f.d0)) == taylor_product(f, f),
{
    lemma_factor(2, f.d0, f.d1, 0);
    lemma_factor(2, f.d0, f.d2, 0);
    lemma_factor(2, f.d0, f.d3, 0);
    lemma_factor(2, f.d1, f.d1, 0);
    lemma_factor(6, f.d1, f.d2, 0);
    lemma_factor(3, f.d1, f.d2, 0);
    lemma_factor(3, f.d2, f.d1, 0);
    lemma_factor(1, f.d0, f.d1, 0);
    assert(f.d1 * f.d0 == f.d0 * f.d1) by (nonlinear_arith);
    assert(f.d2 * f.d0 == f.d0 * f.d2) by (nonlinear_arith);
    assert(f.d3 * f.d0 == f.d0 * f.d3) by (nonlinear_arith);
    assert(f.d2 * f.d1 == f.d1 * f.d2) by (nonlinear_arith);
    assert(0 * f.d1 * f.d1 * f.d1 == 0);
}

/// The chain rule with the cube function is the product taken twice.
pub proof fn lemma_compose_cube(f: Taylor)
    ensures
        taylor_compose(f, taylor_cube(f.d0)) == taylor_product(taylor_product(f, f), f),
{
    let x = f.d0;
    let (v1, v2, v3) = (f.d1, f.d2, f.d3);
    let a1 = (x * x) * v1;
    let a2 = (x * x) * v2;
    let a3 = (x * v1) * v1;
    let a4 = (x * x) * v3;
    let a5 = (x * v1) * v2;
    let a6 = (v1 * v1) * v1;
    let s = taylor_product(f, f);
    let t = taylor_product(s, f);
    let l = taylor_compose(f, taylor_cube(x));
    // the square
    lemma_last(v1, x, 1, 0, 0);
    lemma_last(v2, x, 1, 0, 0);
    lemma_last(v3, x, 1, 0, 0);
    lemma_last(v2, v1, 1, 0, 0);
    lemma_zero_one(v1);
    lemma_zero_one(v2);
    lemma_zero_one(v3);
    lemma_zero_one(x);
    assert(v1 * x == x * v1);
    assert(v2 * x == x * v2);
    assert(v3 * x == x * v3);
    assert(v2 * v1 == v1 * v2);
    lemma_factor(2, v1, v1, 0);
    lemma_factor(3, v1, v2, 0);
    lemma_factor(3, v2, v1, 0);
    assert(s.d1 == 2 * (x * v1));
    assert(s.d2 == 2 * (x * v2) + 2 * (v1 * v1));
    assert(s.d3 == 2 * (x * v3) + 6 * (v1 * v2));
    assert(l.d0 == t.d0);
    // first derivative
    lemma_linear(3, 0, x * x, 0, 0, v1);
    lemma_linear(2, 0, x * v1, 0, 0, x);
    lemma_last(x, x, v1, v2, 0);
    assert(l.d1 == 3 * a1);
    assert(s.d1 * x == 2 * a1);
    assert(l.d1 == t.d1);
    // second derivative
    lemma_linear(6, 0, x, 0, 0, v1);
    lemma_linear(6, 0, x * v1, 0, 0, v1);
    lemma_linear(3, 0, x * x, 0, 0, v2);
    assert(l.d2 == 6 * a3 + 3 * a2);
    lemma_linear(4, 0, x * v1, 0, 0, v1);
    assert((2 * s.d1) * v1 == 4 * a3);
    lemma_linear(2, 0, x * v2, v1 * v1, 0, x);
    lemma_last(x, x, v2, 0, 0);
    lemma_last(v1, x, v1, 0, 0);
    lemma_last(x, v1, 1, 0, 0);
    assert((v1 * v1) * x == (v1 * x) * v1);
    assert(s.d2 * x == 2 * a2 + 2 * a3);
    assert(l.d2 == t.d2);
    // third derivative
    lemma_linear(6, 0, v1, 0, 0, v1);
    lemma_linear(6, 0, v1 * v1, 0, 0, v1);
    lemma_linear(18, 0, x, 0, 0, v1);
    lemma_linear(18, 0, x * v1, 0, 0, v2);
    lemma_linear(3, 0, x * x, 0, 0, v3);
    assert(l.d3 == 6 * a6 + 18 * a5 + 3 * a4);
    lemma_linear(6, 0, x * v1, 0, 0, v2);
    assert((3 * s.d1) * v2 == 6 * a5);
    lemma_linear(6, 0, x * v2, v1 * v1, 0, v1);
    lemma_last(x, v1, v2, 0, 0);
    assert((3 * s.d2) * v1 == 6 * a5 + 6 * a6);
    lemma_linear(2, 0, x * v3, 3 * (v1 * v2), 0, x);
    lemma_linear(3, 0, v1 * v2, 0, 0, x);
    lemma_last(x, x, v3, 0, 0);
    lemma_last(v1, x, v2, 0, 0);
    assert((v1 * v2) * x == (v1 * x) * v2);
    assert(s.d3 * x == 2 * a4 + 6 * a5);
    assert(l.d3 == t.d3);
}

/// The power rule is repeated multiplication: the chain rule with the power
/// `n + 1` is the chain rule with the power `n`, times the function.
pub proof fn lemma_compose_power(f: Taylor, n: int, p: int)
    ensures
        taylor_compose(f, taylor_power(f.d0, n + 1, p * f.d0)) == taylor_product(
            taylor_compose(f, taylor_power(f.d0, n, p)),
            f,
        ),
{
    let x = f.d0;
    let (v1, v2, v3) = (f.d1, f.d2, f.d3);
    let a = p * x;
    let b = a * x;
    let c = b * x;
    let k1 = n * (n - 1);
    let k2 = n * (n - 1) * (n - 2);
    let j1 = (n + 1) * n;
    let j2 = (n + 1) * n * (n - 1);
    let m1 = c * v1;
    let m2 = c * v2;
    let m3 = (b * v1) * v1;
    let m4 = c * v3;
    let m5 = (b * v1) * v2;
    let m6 = ((a * v1) * v1) * v1;
    let g = taylor_power(x, n + 1, a);
    let h = taylor_power(x, n, p);
    let l = taylor_compose(f, g);
    let cc = taylor_compose(f, h);
    let r = taylor_product(cc, f);
    lemma_falling(n);
    assert(l.d0 == r.d0);
    // first derivative
    lemma_front(n + 1, c, v1, 0, 0);
    lemma_front(n, b, v1, 0, 0);
    lemma_last(b, x, v1, 0, 0);
    lemma_linear(n, 1, m1, 0, 0, x);
    lemma_linear(1, n, b * v1, 0, 0, x);
    assert(l.d1 == (n + 1) * m1);
    assert(cc.d1 * x == n * m1);
    assert(l.d1 == r.d1);
    // second derivative
    lemma_front(j1, b, v1, v1, 0);
    lemma_front(n + 1, c, v2, 0, 0);
    assert(l.d2 == j1 * m3 + (n + 1) * m2);
    lemma_front(k1, a, v1, v1, 0);
    lemma_last(a, x, v1, v1, 0);
    lemma_front(n, b, v2, 0, 0);
    lemma_last(b, x, v2, 0, 0);
    lemma_linear(1, k1, (a * k1 * v1) * v1, b * n * v2, 0, x);
    lemma_linear(1, k1, (a * v1) * v1, 0, 0, x);
    lemma_linear(1, n, b * v2, 0, 0, x);
    assert(cc.d2 * x == k1 * m3 + n * m2);
    lemma_scaled(2, b, n, v1, v1);
    assert((2 * cc.d1) * v1 == (2 * n) * m3);
    lemma_linear(2 * n, k1, m3, 0, 0, 0);
    lemma_linear(n, 1, m2, 0, 0, 0);
    assert(l.d2 == r.d2);
    // third derivative
    lemma_front(j2, a, v1, v1, v1);
    lemma_front(j1, b, v1, v2, 0);
    lemma_linear(3, j1, b * j1, 0, 0, v1);
    lemma_linear(3, j1, (b * v1) * v2, 0, 0, v2);
    lemma_linear(3, 0, (b * j1) * v1, 0, 0, v2);
    lemma_front(n + 1, c, v3, 0, 0);
    assert(l.d3 == j2 * m6 + (3 * j1) * m5 + (n + 1) * m4);
    lemma_scaled(3, b, n, v1, v2);
    assert((3 * cc.d1) * v2 == (3 * n) * m5);
    lemma_last(b, v1, v2, 0, 0);
    lemma_linear(3, k1, (a * k1 * v1) * v1, b * n * v2, 0, v1);
    lemma_linear(3, k1, m6, 0, 0, v1);
    lemma_linear(1, k1, (a * v1) * v1, 0, 0, v1);
    lemma_linear(3, n, m5, 0, 0, v1);
    lemma_linear(1, n, b * v2, 0, 0, v1);
    assert((3 * cc.d2) * v1 == (3 * k1) * m6 + (3 * n) * m5);
    lemma_front(k2, p, v1, v1, v1);
    lemma_last(p, x, v1, v1, v1);
    lemma_front(k1, a, v1, v2, 0);
    lemma_last(a, x, v1, v2, 0);
    lemma_front(n, b, v3, 0, 0);
    lemma_last(b, x, v3, 0, 0);
    lemma_linear(3, k1, a * k1, 0, 0, v1);
    lemma_linear(3, 0, (a * k1) * v1, 0, 0, v2);
    lemma_linear(1, 1, ((p * k2 * v1) * v1) * v1, (3 * (a * k1) * v1) * v2, b * n * v3, x);
    lemma_linear(1, k2, ((p * v1) * v1) * v1, 0, 0, x);
    lemma_linear(3, k1, (a * v1) * v2, 0, 0, x);
    lemma_linear(3, 0, k1 * ((a * v1) * v2), 0, 0, x);
    lemma_linear(1, n, b * v3, 0, 0, x);
    lemma_linear(3, k1, m5, 0, 0, 0);
    assert(cc.d3 * x == k2 * m6 + (3 * k1) * m5 + n * m4);
    lemma_linear(3 * k1, k2, m6, 0, 0, 0);
    lemma_linear(6 * n, 3 * k1, m5, 0, 0, 0);
    lemma_linear(3 * n, 3 * n, m5, 0, 0, 0);
    lemma_linear(n, 1, m4, 0, 0, 0);
    assert(l.d3 == r.d3);
}

/// The reciprocal rule gives the reciprocal: the chain rule with the
/// reciprocal function, times the function itself, is the constant one.
pub proof fn lemma_compose_recip(f: Taylor, r: int)
    requires
        r * f.d0 == 1,
    ensures
        taylor_product(taylor_compose(f, taylor_recip(r)), f) == taylor_constant(1),
{
    let x = f.d0;
    let (v1, v2, v3) = (f.d1, f.d2, f.d3);
    let g = taylor_recip(r);
    let c = taylor_compose(f, g);
    let p = taylor_product(c, f);
    let e1 = r * v1;
    let e2 = r * v2;
    let e3 = r * v3;
    let e4 = ((r * r) * v1) * v1;
    let e5 = ((r * r) * v1) * v2;
    let e6 = (((r * r) * r) * v1) * v1 * v1;
    lemma_recip_monomials(r, x, v1, v2, v3);
    lemma_zero_one(e1);
    lemma_zero_one(e2);
    lemma_zero_one(e3);
    lemma_zero_one(e4);
    lemma_zero_one(e5);
    lemma_zero_one(e6);
    assert(p.d0 == 1);
    assert(c.d1 * x == -e1);
    assert(p.d1 == 0);
    lemma_linear(1, 1, (g.d2 * v1) * v1, g.d1 * v2, 0, x);
    assert(c.d2 * x == 2 * e4 - e2);
    assert((2 * c.d1) * v1 == -2 * e4);
    assert(p.d2 == 0);
    lemma_linear(3, 1, (g.d2 * v1) * v1, g.d1 * v2, 0, v1);
    assert((3 * c.d2) * v1 == 6 * e6 - 3 * e5);
    assert((3 * c.d1) * v2 == -3 * e5);
    lemma_linear(1, 1, ((g.d3 * v1) * v1) * v1, ((3 * g.d2) * v1) * v2, g.d1 * v3, x);
    assert(c.d3 * x == -6 * e6 + 6 * e5 - e3);
    assert(p.d3 == 0);
}

/// For functions of two variables, the chain rule with the square function
/// is the product with itself.
pub proof fn lemma_mixed_compose_square(f: Mixed)
    ensures
        mixed_compose(f, taylor_square(f.d)) == mixed_product(f, f),
{
    lemma_factor(2, f.d, f.d1, 0);
    lemma_factor(2, f.d, f.d2, 0);
    lemma_factor(2, f.d, f.d12, 0);
    lemma_factor(2, f.d1, f.d2, 0);
    lemma_last(f.d1, f.d, 1, 0, 0);
    lemma_last(f.d2, f.d, 1, 0, 0);
    lemma_last(f.d12, f.d, 1, 0, 0);
    lemma_last(f.d2, f.d1, 1, 0, 0);
    lemma_zero_one(f.d);
    lemma_zero_one(f.d1);
    lemma_zero_one(f.d2);
    lemma_zero_one(f.d12);
}

/// The tuple of the tangent solves the equation of the tangent: its
/// derivative is one plus its square.
pub proof fn lemma_tangent_equation(t: int)
    ensures
        ({
            let f = taylor_tan(t);
            let g = taylor_sum(taylor_constant(1), taylor_product(f, f));
            f.d1 == g.d0 && f.d2 == g.d1 && f.d3 == g.d2
        }),
{
    lemma_reorder(t, 1 + t * t);
}

/// The tuple of the hyperbolic tangent solves the equation of the hyperbolic
/// tangent: its derivative is one minus its square.
pub proof fn lemma_hyperbolic_tangent_equation(t: int)
    ensures
        ({
            let f = taylor_tanh(t);
            let g = taylor_difference(taylor_constant(1), taylor_product(f, f));
            f.d1 == g.d0 && f.d2 == g.d1 && f.d3 == g.d2
        }),
{
    lemma_reorder(t, 1 - t * t);
}

/// The tuple of the arctangent solves the equation of the arctangent: its
/// derivative is the reciprocal of `1 + x^2`.
pub proof fn lemma_arctangent_equation(a: int, x: int, r: int)
    requires
        r * (1 + x * x) == 1,
    ensures
        ({
            let f = taylor_atan(a, x, r);
            let u = Taylor { d0: 1 + x * x, d1: 2 * x, d2: 2, d3: 0 };
            let g = taylor_compose(u, taylor_recip(r));
            f.d1 == g.d0 && f.d2 == g.d1 && f.d3 == g.d2
        }),
{
    lemma_arctangent_monomials(x, r, 1 + x * x);
}

/// The tuple of the area hyperbolic tangent solves its equation: the
/// derivative is the reciprocal of `1 - x^2`.
pub proof fn lemma_hyperbolic_arctangent_equation(a: int, x: int, r: int)
    requires
        r * (1 - x * x) == 1,
    ensures
        ({
            let f = taylor_atanh(a, x, r);
            let u = Taylor { d0: 1 - x * x, d1: (-2) * x, d2: -2, d3: 0 };
            let g = taylor_compose(u, taylor_recip(r));
            f.d1 == g.d0 && f.d2 == g.d1 && f.d3 == g.d2
        }),
{
    lemma_arctangent_monomials(x, r, 1 - x * x);
}

/// Read exactly, the third power of a jet is the jet times itself, twice.
pub proof fn lemma_read_cube<F: Scalar>(value: spec_fn(F) -> int, x: ThirdOrderJet<F>)
    requires
        exact(value),
        exact_powers(value, x.v0, 3),
    ensures
        read(value, x.powi_spec(3)) == read(value, x.product_spec(x).product_spec(x)),
{
    let f = read(value, x);
    lemma_read_powi_tuple(value, x.v0, 3);
    lemma_read_chain(value, x, powi_derivatives_spec(x.v0, 3));
    lemma_read_product(value, x, x);
    lemma_read_product(value, x.product_spec(x), x);
    lemma_compose_cube(f);
    lemma_zero_one(f.d0);
    lemma_zero_one(f.d0 * f.d0);
    lemma_factor(3, f.d0 * f.d0, 1, 0);
    assert((f.d0 * f.d0) * 3 == 3 * (f.d0 * f.d0)) by (nonlinear_arith);
    assert(taylor_power(f.d0, 3, 1).d0 == taylor_cube(f.d0).d0);
    assert(taylor_power(f.d0, 3, 1).d1 == taylor_cube(f.d0).d1);
    assert(f.d0 * 6 == 6 * f.d0) by (nonlinear_arith);
    assert(taylor_power(f.d0, 3, 1).d2 == taylor_cube(f.d0).d2);
    assert(taylor_power(f.d0, 3, 1).d3 == taylor_cube(f.d0).d3);
    assert(taylor_power(f.d0, 3, 1) == taylor_cube(f.d0));
}

/// Read exactly, each higher power of a jet is the power below it times the
/// jet: integer powers are repeated multiplication.
pub proof fn lemma_read_next_power<F: Scalar>(
    value: spec_fn(F) -> int,
    x: ThirdOrderJet<F>,
    n: i32,
)
    requires
        exact(value),
        exact_powers(value, x.v0, n),
        3 <= n < i32::MAX,
    ensures
        read(value, x.powi_spec((n + 1) as i32)) == taylor_product(
            read(value, x.powi_spec(n)),
            read(value, x),
        ),
{
    let f = read(value, x);
    let m = (n + 1) as i32;
    let p = value(power_below_spec(x.v0, n));
    lemma_read_powi_tuple(value, x.v0, n);
    lemma_read_powi_tuple(value, x.v0, m);
    lemma_read_chain(value, x, powi_derivatives_spec(x.v0, n));
    lemma_read_chain(value, x, powi_derivatives_spec(x.v0, m));
    lemma_compose_power(f, n as int, p);
}

/// Read exactly, the reciprocal of a jet times the jet is the constant one,
/// wherever the reciprocal of the value part times the value part is one.
pub proof fn lemma_read_recip<F: Scalar>(value: spec_fn(F) -> int, x: ThirdOrderJet<F>)
    requires
        exact(value),
        value(apply(Unary::Recip, x.v0)) * value(x.v0) == 1,
    ensures
        read(value, x.unary_spec(Unary::Recip).product_spec(x)) == taylor_constant(
            1,
        ),
{
    let d = derivatives_spec(Unary::Recip, x.v0);
    lemma_read_recip_tuple(value, x.v0);
    lemma_read_chain(value, x, d);
    lemma_read_product(value, x.chain_spec(d), x);
    lemma_compose_recip(
        read(value, x),
        value(apply(Unary::Recip, x.v0)),
    );
}

/// Read exactly, a quotient of jets times the divisor is the dividend,
/// wherever the reciprocal of the divisor's value part times that value part
/// is one.
pub proof fn lemma_read_quotient<F: Scalar>(
    value: spec_fn(F) -> int,
    a: ThirdOrderJet<F>,
    b: ThirdOrderJet<F>,
)
    requires
        exact(value),
        value(apply(Unary::Recip, b.v0)) * value(b.v0) == 1,
    ensures
        read(value, a.binary_spec(Binary::Div, b).product_spec(b)) == read(
            value,
            a,
        ),
{
    let rb = b.unary_spec(Unary::Recip);
    lemma_read_product(value, a, rb);
    lemma_read_product(value, a.product_spec(rb), b);
    lemma_read_product(value, rb, b);
    lemma_read_recip(value, b);
    lemma_product_associates(read(value, a), read(value, rb), read(value, b));
    lemma_product_unit(read(value, a));
}

} // verus!
