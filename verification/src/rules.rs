//! The derivative tuples of the elementary functions.
//!
//! For a function `f` and a point `x`, the tuple holds `f(x)`, `f'(x)`,
//! `f''(x)` and `f'''(x)`, each computed in closed form in the coefficient
//! arithmetic. A jet feeds such a tuple to its chain rule.

use vstd::prelude::*;
use crate::scalar::{apply, minus, negate, num, over, plus, ratio, times, Binary, Scalar, Unary};

verus! {

/// The value and the first three derivatives of a function at one point.
#[derive(Clone, Copy, Debug, PartialEq)]
pub struct Derivatives<F> {
    pub f0: F,
    pub f1: F,
    pub f2: F,
    pub f3: F,
}

/// The tuple of a function whose derivatives of order two and three follow
/// the pattern of the reciprocal: `f2 = -f1 / x` and `f3 = -2 f2 / x`, with
/// `rec` standing for `1 / x`.
pub open spec fn log_like_spec<F: Scalar>(f0: F, f1: F, rec: F) -> Derivatives<F> {
    let f2 = times(negate(f1), rec);
    Derivatives { f0, f1, f2, f3: times(times(f2, rec), num(-2)) }
}

/// The tuple of an inverse trigonometric or hyperbolic function whose first
/// derivative is `f1` and whose higher derivatives are `x * f1 * rec` (with
/// the sign given by `x`) and `poly * f1 * rec^2`.
pub open spec fn inverse_like_spec<F: Scalar>(f0: F, f1: F, x: F, poly: F, rec: F) -> Derivatives<
    F,
> {
    Derivatives {
        f0,
        f1,
        f2: times(times(x, f1), rec),
        f3: times(times(times(poly, f1), rec), rec),
    }
}

/// `f(x)`, `f'(x)`, `f''(x)` and `f'''(x)` for the elementary function `f`.
pub open spec fn derivatives_spec<F: Scalar>(f: Unary, x: F) -> Derivatives<F> {
    let one = num::<F>(1);
    let two = num::<F>(2);
    let xx = times(x, x);
    match f {
        Unary::Neg => Derivatives { f0: negate(x), f1: num(-1), f2: num(0), f3: num(0) },
        Unary::Recip => {
            let rec = apply(Unary::Recip, x);
            let f1 = times(negate(rec), rec);
            let f2 = times(times(f1, rec), num(-2));
            Derivatives { f0: rec, f1, f2, f3: times(times(f2, rec), num(-3)) }
        },
        Unary::Sqrt => {
            let rec = apply(Unary::Recip, x);
            let half = ratio::<F>(1, 2);
            let f0 = apply(Unary::Sqrt, x);
            let f1 = times(times(f0, rec), half);
            let f2 = times(times(negate(f1), rec), half);
            Derivatives { f0, f1, f2, f3: times(times(f2, rec), ratio(-3, 2)) }
        },
        Unary::Cbrt => {
            let rec = apply(Unary::Recip, x);
            let third = ratio::<F>(1, 3);
            let f0 = apply(Unary::Cbrt, x);
            let f1 = times(times(f0, rec), third);
            let f2 = times(times(f1, rec), minus(third, one));
            Derivatives { f0, f1, f2, f3: times(times(f2, rec), minus(minus(third, one), one)) }
        },
        Unary::Exp => {
            let e = apply(Unary::Exp, x);
            Derivatives { f0: e, f1: e, f2: e, f3: e }
        },
        Unary::Exp2 => {
            let ln2 = apply(Unary::Ln, two);
            let f0 = apply(Unary::Exp2, x);
            let f1 = times(f0, ln2);
            let f2 = times(f1, ln2);
            Derivatives { f0, f1, f2, f3: times(f2, ln2) }
        },
        Unary::Expm1 => {
            let e = apply(Unary::Exp, x);
            Derivatives { f0: apply(Unary::Expm1, x), f1: e, f2: e, f3: e }
        },
        Unary::Ln => {
            let rec = apply(Unary::Recip, x);
            log_like_spec(apply(Unary::Ln, x), rec, rec)
        },
        Unary::Log2 => {
            let rec = apply(Unary::Recip, x);
            log_like_spec(apply(Unary::Log2, x), over(rec, apply(Unary::Ln, two)), rec)
        },
        Unary::Log10 => {
            let rec = apply(Unary::Recip, x);
            log_like_spec(apply(Unary::Log10, x), over(rec, apply(Unary::Ln, num::<F>(10))), rec)
        },
        Unary::Ln1p => {
            let rec = apply(Unary::Recip, plus(x, one));
            log_like_spec(apply(Unary::Ln1p, x), rec, rec)
        },
        Unary::Sin => {
            let s = apply(Unary::Sin, x);
            let c = apply(Unary::Cos, x);
            Derivatives { f0: s, f1: c, f2: negate(s), f3: negate(c) }
        },
        Unary::Cos => {
            let s = apply(Unary::Sin, x);
            let c = apply(Unary::Cos, x);
            Derivatives { f0: c, f1: negate(s), f2: negate(c), f3: s }
        },
        Unary::Tan => {
            let t = apply(Unary::Tan, x);
            let tt = times(t, t);
            let sec2 = plus(one, tt);
            Derivatives {
                f0: t,
                f1: sec2,
                f2: times(times(t, sec2), two),
                f3: times(times(plus(sec2, times(tt, two)), sec2), two),
            }
        },
        Unary::Asin => {
            let rec = apply(Unary::Recip, minus(one, xx));
            let f1 = apply(Unary::Sqrt, rec);
            inverse_like_spec(apply(Unary::Asin, x), f1, x, plus(times(xx, two), one), rec)
        },
        Unary::Acos => {
            let rec = apply(Unary::Recip, minus(one, xx));
            let f1 = negate(apply(Unary::Sqrt, rec));
            inverse_like_spec(apply(Unary::Acos, x), f1, x, plus(times(xx, two), one), rec)
        },
        Unary::Atan => {
            let rec = apply(Unary::Recip, plus(one, xx));
            Derivatives {
                f0: apply(Unary::Atan, x),
                f1: rec,
                f2: times(times(times(negate(x), rec), rec), two),
                f3: times(times(times(minus(times(xx, num(6)), two), rec), rec), rec),
            }
        },
        Unary::Sinh => {
            let s = apply(Unary::Sinh, x);
            let c = apply(Unary::Cosh, x);
            Derivatives { f0: s, f1: c, f2: s, f3: c }
        },
        Unary::Cosh => {
            let s = apply(Unary::Sinh, x);
            let c = apply(Unary::Cosh, x);
            Derivatives { f0: c, f1: s, f2: c, f3: s }
        },
        Unary::Tanh => {
            let t = apply(Unary::Tanh, x);
            let tt = times(t, t);
            let s = minus(one, tt);
            Derivatives {
                f0: t,
                f1: s,
                f2: times(times(negate(t), s), two),
                f3: times(times(minus(times(tt, two), s), s), two),
            }
        },
        Unary::Asinh => {
            let rec = apply(Unary::Recip, plus(one, xx));
            let f1 = apply(Unary::Sqrt, rec);
            inverse_like_spec(
                apply(Unary::Asinh, x),
                f1,
                negate(x),
                minus(times(xx, two), one),
                rec,
            )
        },
        Unary::Acosh => {
            let rec = apply(Unary::Recip, minus(xx, one));
            let f1 = apply(Unary::Sqrt, rec);
            inverse_like_spec(
                apply(Unary::Acosh, x),
                f1,
                negate(x),
                plus(times(xx, two), one),
                rec,
            )
        },
        Unary::Atanh => {
            let rec = apply(Unary::Recip, minus(one, xx));
            Derivatives {
                f0: apply(Unary::Atanh, x),
                f1: rec,
                f2: times(times(times(x, rec), rec), two),
                f3: times(times(times(plus(times(xx, num(6)), two), rec), rec), rec),
            }
        },
    }
}

fn log_like<F: Scalar>(f0: F, f1: F, rec: F) -> (d: Derivatives<F>)
    ensures
        d == log_like_spec(f0, f1, rec),
{
    let f2 = f1.neg().mul(rec);
    Derivatives { f0, f1, f2, f3: f2.mul(rec).mul(F::from_i32(-2)) }
}

fn inverse_like<F: Scalar>(f0: F, f1: F, x: F, poly: F, rec: F) -> (d: Derivatives<F>)
    ensures
        d == inverse_like_spec(f0, f1, x, poly, rec),
{
    Derivatives { f0, f1, f2: x.mul(f1).mul(rec), f3: poly.mul(f1).mul(rec).mul(rec) }
}

/// Computes `f(x)`, `f'(x)`, `f''(x)` and `f'''(x)`.
pub fn derivatives<F: Scalar>(f: Unary, x: F) -> (d: Derivatives<F>)
    ensures
        d == derivatives_spec(f, x),
{
    let one = F::one();
    let two = F::from_i32(2);
    match f {
        Unary::Neg => Derivatives {
            f0: x.neg(),
            f1: F::from_i32(-1),
            f2: F::zero(),
            f3: F::zero(),
        },
        Unary::Recip => {
            let rec = x.recip();
            let f1 = rec.neg().mul(rec);
            let f2 = f1.mul(rec).mul(F::from_i32(-2));
            Derivatives { f0: rec, f1, f2, f3: f2.mul(rec).mul(F::from_i32(-3)) }
        },
        Unary::Sqrt => {
            let rec = x.recip();
            let half = F::from_ratio(1, 2);
            let f0 = x.sqrt();
            let f1 = f0.mul(rec).mul(half);
            let f2 = f1.neg().mul(rec).mul(half);
            Derivatives { f0, f1, f2, f3: f2.mul(rec).mul(F::from_ratio(-3, 2)) }
        },
        Unary::Cbrt => {
            let rec = x.recip();
            let third = F::from_ratio(1, 3);
            let f0 = x.cbrt();
            let f1 = f0.mul(rec).mul(third);
            let f2 = f1.mul(rec).mul(third.sub(one));
            Derivatives { f0, f1, f2, f3: f2.mul(rec).mul(third.sub(one).sub(one)) }
        },
        Unary::Exp => {
            let e = x.exp();
            Derivatives { f0: e, f1: e, f2: e, f3: e }
        },
        Unary::Exp2 => {
            let ln2 = two.ln();
            let f0 = x.exp2();
            let f1 = f0.mul(ln2);
            let f2 = f1.mul(ln2);
            Derivatives { f0, f1, f2, f3: f2.mul(ln2) }
        },
        Unary::Expm1 => {
            let e = x.exp();
            Derivatives { f0: x.expm1(), f1: e, f2: e, f3: e }
        },
        Unary::Ln => {
            let rec = x.recip();
            log_like(x.ln(), rec, rec)
        },
        Unary::Log2 => {
            let rec = x.recip();
            log_like(x.log2(), rec.div(two.ln()), rec)
        },
        Unary::Log10 => {
            let rec = x.recip();
            log_like(x.log10(), rec.div(F::from_i32(10).ln()), rec)
        },
        Unary::Ln1p => {
            let rec = x.add(one).recip();
            log_like(x.ln_1p(), rec, rec)
        },
        Unary::Sin => {
            let (s, c) = x.sin_cos();
            Derivatives { f0: s, f1: c, f2: s.neg(), f3: c.neg() }
        },
        Unary::Cos => {
            let (s, c) = x.sin_cos();
            Derivatives { f0: c, f1: s.neg(), f2: c.neg(), f3: s }
        },
        Unary::Tan => {
            let t = x.tan();
            let tt = t.mul(t);
            let sec2 = one.add(tt);
            Derivatives {
                f0: t,
                f1: sec2,
                f2: t.mul(sec2).mul(two),
                f3: sec2.add(tt.mul(two)).mul(sec2).mul(two),
            }
        },
        Unary::Asin => {
            let xx = x.mul(x);
            let rec = one.sub(xx).recip();
            inverse_like(x.asin(), rec.sqrt(), x, xx.mul(two).add(one), rec)
        },
        Unary::Acos => {
            let xx = x.mul(x);
            let rec = one.sub(xx).recip();
            inverse_like(x.acos(), rec.sqrt().neg(), x, xx.mul(two).add(one), rec)
        },
        Unary::Atan => {
            let xx = x.mul(x);
            let rec = one.add(xx).recip();
            Derivatives {
                f0: x.atan(),
                f1: rec,
                f2: x.neg().mul(rec).mul(rec).mul(two),
                f3: xx.mul(F::from_i32(6)).sub(two).mul(rec).mul(rec).mul(rec),
            }
        },
        Unary::Sinh => {
            let s = x.sinh();
            let c = x.cosh();
            Derivatives { f0: s, f1: c, f2: s, f3: c }
        },
        Unary::Cosh => {
            let s = x.sinh();
            let c = x.cosh();
            Derivatives { f0: c, f1: s, f2: c, f3: s }
        },
        Unary::Tanh => {
            let t = x.tanh();
            let tt = t.mul(t);
            let s = one.sub(tt);
            Derivatives {
                f0: t,
                f1: s,
                f2: t.neg().mul(s).mul(two),
                f3: tt.mul(two).sub(s).mul(s).mul(two),
            }
        },
        Unary::Asinh => {
            let xx = x.mul(x);
            let rec = one.add(xx).recip();
            inverse_like(x.asinh(), rec.sqrt(), x.neg(), xx.mul(two).sub(one), rec)
        },
        Unary::Acosh => {
            let xx = x.mul(x);
            let rec = xx.sub(one).recip();
            inverse_like(x.acosh(), rec.sqrt(), x.neg(), xx.mul(two).add(one), rec)
        },
        Unary::Atanh => {
            let xx = x.mul(x);
            let rec = one.sub(xx).recip();
            Derivatives {
                f0: x.atanh(),
                f1: rec,
                f2: x.mul(rec).mul(rec).mul(two),
                f3: xx.mul(F::from_i32(6)).add(two).mul(rec).mul(rec).mul(rec),
            }
        },
    }
}

/// `x` to the power `n - 3`: the common factor of the derivatives of `x^n`.
/// Where `n - 3` is not an `i32`, it is the product of `x^n` and `x^-3`.
pub open spec fn power_below_spec<F: Scalar>(x: F, n: i32) -> F {
    if n >= i32::MIN + 3 {
        x.powi_spec((n - 3) as i32)
    } else {
        times(x.powi_spec(n), x.powi_spec((-3) as i32))
    }
}

/// The tuple of `x^n`: with `p = x^(n-3)`, the four entries are `p x x x`,
/// `p x x n`, `p x (n (n-1))` and `p (n (n-1) (n-2))`, each product taken
/// from the left. The integer factors are formed in the coefficient
/// arithmetic, so that none of them overflows.
pub open spec fn powi_derivatives_spec<F: Scalar>(x: F, n: i32) -> Derivatives<F> {
    let p = power_below_spec(x, n);
    let n0 = num::<F>(n as int);
    let n1 = minus(n0, num(1));
    let n2 = minus(n1, num(1));
    Derivatives {
        f0: times(times(times(p, x), x), x),
        f1: times(times(times(p, x), x), n0),
        f2: times(times(p, x), times(n0, n1)),
        f3: times(p, times(times(n0, n1), n2)),
    }
}

/// Computes the tuple of `x^n`.
pub fn powi_derivatives<F: Scalar>(x: F, n: i32) -> (d: Derivatives<F>)
    ensures
        d == powi_derivatives_spec(x, n),
{
    let p = if n >= i32::MIN + 3 {
        x.powi(n - 3)
    } else {
        x.powi(n).mul(x.powi(-3))
    };
    let one = F::one();
    let n0 = F::from_i32(n);
    let n1 = n0.sub(one);
    let n2 = n1.sub(one);
    Derivatives {
        f0: p.mul(x).mul(x).mul(x),
        f1: p.mul(x).mul(x).mul(n0),
        f2: p.mul(x).mul(n0.mul(n1)),
        f3: p.mul(n0.mul(n1).mul(n2)),
    }
}

/// The tuple of the logarithm of `x` to the base `base`.
pub open spec fn log_base_derivatives_spec<F: Scalar>(x: F, base: F) -> Derivatives<F> {
    let rec = apply(Unary::Recip, x);
    log_like_spec(x.binary_spec(Binary::Log, base), over(rec, apply(Unary::Ln, base)), rec)
}

/// Computes the tuple of the logarithm of `x` to the base `base`.
pub fn log_base_derivatives<F: Scalar>(x: F, base: F) -> (d: Derivatives<F>)
    ensures
        d == log_base_derivatives_spec(x, base),
{
    let rec = x.recip();
    log_like(x.binary(Binary::Log, base), rec.div(base.ln()), rec)
}


/// The tuples of functions that are each other's derivatives agree: the
/// derivatives of the sine are the cosine and its derivatives, those of the
/// hyperbolic sine and cosine are each other's, the exponential is its own
/// derivative, and the derivatives of the logarithm are the reciprocal and
/// its derivatives.
pub proof fn lemma_tuples_of_derivatives<F: Scalar>(x: F)
    ensures
        derivatives_spec(Unary::Sin, x).f1 == derivatives_spec(Unary::Cos, x).f0,
        derivatives_spec(Unary::Sin, x).f2 == derivatives_spec(Unary::Cos, x).f1,
        derivatives_spec(Unary::Sin, x).f3 == derivatives_spec(Unary::Cos, x).f2,
        derivatives_spec(Unary::Cos, x).f1 == negate(derivatives_spec(Unary::Sin, x).f0),
        derivatives_spec(Unary::Cos, x).f2 == negate(derivatives_spec(Unary::Sin, x).f1),
        derivatives_spec(Unary::Sinh, x).f1 == derivatives_spec(Unary::Cosh, x).f0,
        derivatives_spec(Unary::Sinh, x).f2 == derivatives_spec(Unary::Cosh, x).f1,
        derivatives_spec(Unary::Sinh, x).f3 == derivatives_spec(Unary::Cosh, x).f2,
        derivatives_spec(Unary::Cosh, x).f1 == derivatives_spec(Unary::Sinh, x).f0,
        derivatives_spec(Unary::Cosh, x).f2 == derivatives_spec(Unary::Sinh, x).f1,
        derivatives_spec(Unary::Cosh, x).f3 == derivatives_spec(Unary::Sinh, x).f2,
        derivatives_spec(Unary::Exp, x).f1 == derivatives_spec(Unary::Exp, x).f0,
        derivatives_spec(Unary::Exp, x).f2 == derivatives_spec(Unary::Exp, x).f1,
        derivatives_spec(Unary::Exp, x).f3 == derivatives_spec(Unary::Exp, x).f2,
        derivatives_spec(Unary::Expm1, x).f1 == derivatives_spec(Unary::Exp, x).f0,
        derivatives_spec(Unary::Expm1, x).f2 == derivatives_spec(Unary::Exp, x).f1,
        derivatives_spec(Unary::Expm1, x).f3 == derivatives_spec(Unary::Exp, x).f2,
        derivatives_spec(Unary::Ln, x).f1 == derivatives_spec(Unary::Recip, x).f0,
        derivatives_spec(Unary::Ln, x).f2 == derivatives_spec(Unary::Recip, x).f1,
        derivatives_spec(Unary::Ln, x).f3 == derivatives_spec(Unary::Recip, x).f2,
        derivatives_spec(Unary::Ln1p, x).f1 == derivatives_spec(Unary::Recip, plus(x, num(1))).f0,
        derivatives_spec(Unary::Ln1p, x).f2 == derivatives_spec(Unary::Recip, plus(x, num(1))).f1,
        derivatives_spec(Unary::Ln1p, x).f3 == derivatives_spec(Unary::Recip, plus(x, num(1))).f2,
{
}

/// The value of every tuple is the function itself.
pub proof fn lemma_tuple_value<F: Scalar>(f: Unary, x: F)
    ensures
        derivatives_spec(f, x).f0 == apply(f, x),
{
}

} // verus!
