//! What the jet types have in common, and the arithmetic that follows from it.
//!
//! A jet type states its own differentiation rules once: how two jets add,
//! how they multiply (the product rule), and how a function's derivative tuple
//! passes through it (the chain rule). From these, every operation of the
//! numeric capability set is defined here for all jet types alike, which also
//! makes each jet a coefficient that another jet can be built on.

use vstd::prelude::*;
use crate::rules::{
    derivatives, derivatives_spec, powi_derivatives, powi_derivatives_spec, Derivatives,
};
use crate::scalar::{apply, minus, negate, plus, times, Binary, Scalar, Unary};

verus! {

/// A truncated Taylor expansion over the coefficient type `Coeff`.
pub trait Jet: Copy {
    /// The type of the value part and of each derivative coefficient.
    type Coeff: Scalar;

    /// The value part.
    spec fn re_spec(self) -> Self::Coeff;

    /// The jet of a constant: value `re`, every derivative coefficient zero.
    spec fn from_re_spec(re: Self::Coeff) -> Self;

    /// The jet with the value part replaced by `re`.
    spec fn with_re_spec(self, re: Self::Coeff) -> Self;

    /// Every coefficient negated.
    spec fn negation_spec(self) -> Self;

    /// Coefficients added one by one.
    spec fn sum_spec(self, rhs: Self) -> Self;

    /// Coefficients subtracted one by one.
    spec fn difference_spec(self, rhs: Self) -> Self;

    /// The product rule, truncated at the order of the jet.
    spec fn product_spec(self, rhs: Self) -> Self;

    /// Every coefficient multiplied by `factor`.
    spec fn scale_spec(self, factor: Self::Coeff) -> Self;

    /// The chain rule: the jet of `f(self)`, given the derivative tuple of `f`
    /// at the value part of `self`.
    spec fn chain_spec(self, d: Derivatives<Self::Coeff>) -> Self;

    /// The canonical text.
    spec fn text_spec(self) -> Seq<char>;

    /// The value part of a constant is the constant.
    proof fn lemma_from_re(re: Self::Coeff)
        ensures
            Self::from_re_spec(re).re_spec() == re,
    ;

    /// Replacing the value part yields that value part.
    proof fn lemma_with_re(x: Self, re: Self::Coeff)
        ensures
            x.with_re_spec(re).re_spec() == re,
    ;

    /// The value part of a sum is the sum of the value parts.
    proof fn lemma_sum_re(x: Self, y: Self)
        ensures
            x.sum_spec(y).re_spec() == plus(x.re_spec(), y.re_spec()),
    ;

    /// The value part of a difference is the difference of the value parts.
    proof fn lemma_difference_re(x: Self, y: Self)
        ensures
            x.difference_spec(y).re_spec() == minus(x.re_spec(), y.re_spec()),
    ;

    /// The value part of a scaled jet is the scaled value part.
    proof fn lemma_scale_re(x: Self, factor: Self::Coeff)
        ensures
            x.scale_spec(factor).re_spec() == times(x.re_spec(), factor),
    ;

    /// The value part of `-x` is the negated value part of `x`.
    proof fn lemma_negation_re(x: Self)
        ensures
            x.negation_spec().re_spec() == negate(x.re_spec()),
    ;

    /// The value part of `f(x)` is `f` at the value part of `x`.
    proof fn lemma_chain_re(x: Self, d: Derivatives<Self::Coeff>)
        ensures
            x.chain_spec(d).re_spec() == d.f0,
    ;

    /// The value part of a product is the product of the value parts.
    proof fn lemma_product_re(x: Self, y: Self)
        ensures
            x.product_spec(y).re_spec() == times(x.re_spec(), y.re_spec()),
    ;

    fn re(self) -> (r: Self::Coeff)
        ensures
            r == self.re_spec(),
    ;

    fn from_re(re: Self::Coeff) -> (r: Self)
        ensures
            r == Self::from_re_spec(re),
    ;

    fn with_re(self, re: Self::Coeff) -> (r: Self)
        ensures
            r == self.with_re_spec(re),
    ;

    fn negation(self) -> (r: Self)
        ensures
            r == self.negation_spec(),
    ;

    fn sum(self, rhs: Self) -> (r: Self)
        ensures
            r == self.sum_spec(rhs),
    ;

    fn difference(self, rhs: Self) -> (r: Self)
        ensures
            r == self.difference_spec(rhs),
    ;

    fn product(self, rhs: Self) -> (r: Self)
        ensures
            r == self.product_spec(rhs),
    ;

    fn scale(self, factor: Self::Coeff) -> (r: Self)
        ensures
            r == self.scale_spec(factor),
    ;

    fn chain(self, d: Derivatives<Self::Coeff>) -> (r: Self)
        ensures
            r == self.chain_spec(d),
    ;

    fn text(&self) -> (s: String)
        ensures
            s@ == self.text_spec(),
    ;
}

/// `f(x)` for a jet `x`: negation acts on every coefficient; any other
/// function goes through the chain rule with its derivative tuple at the
/// value part of `x`.
pub open spec fn jet_unary<J: Jet>(x: J, f: Unary) -> J {
    if f == Unary::Neg {
        x.negation_spec()
    } else {
        x.chain_spec(derivatives_spec(f, x.re_spec()))
    }
}

/// `x op y` for jets: sums and differences act on every coefficient, the
/// product follows the product rule, the quotient is `x * (1/y)`, the power
/// is `exp(ln(x) * y)`, and the logarithm of `x` to the base `y` is
/// `ln(x) * (1/ln(y))`.
pub open spec fn jet_binary<J: Jet>(x: J, op: Binary, y: J) -> J {
    match op {
        Binary::Add => x.sum_spec(y),
        Binary::Sub => x.difference_spec(y),
        Binary::Mul => x.product_spec(y),
        Binary::Div => x.product_spec(jet_unary(y, Unary::Recip)),
        Binary::Pow => jet_unary(jet_unary(x, Unary::Ln).product_spec(y), Unary::Exp),
        Binary::Log => jet_unary(x, Unary::Ln).product_spec(
            jet_unary(jet_unary(y, Unary::Ln), Unary::Recip),
        ),
    }
}

/// `x^n` for a jet `x`: the constant one for `n = 0`, `x` itself for `n = 1`,
/// `x * x` for `n = 2`, and the chain rule with the tuple of the power
/// function otherwise.
pub open spec fn jet_powi<J: Jet>(x: J, n: i32) -> J {
    if n == 0 {
        J::from_re_spec(J::Coeff::from_ratio_spec(1, 1))
    } else if n == 1 {
        x
    } else if n == 2 {
        x.product_spec(x)
    } else {
        x.chain_spec(powi_derivatives_spec(x.re_spec(), n))
    }
}

impl<J: Jet> Scalar for J {
    open spec fn from_ratio_spec(n: i32, d: i32) -> Self {
        J::from_re_spec(J::Coeff::from_ratio_spec(n, d))
    }

    open spec fn unary_spec(self, f: Unary) -> Self {
        jet_unary(self, f)
    }

    open spec fn binary_spec(self, op: Binary, rhs: Self) -> Self {
        jet_binary(self, op, rhs)
    }

    open spec fn powi_spec(self, n: i32) -> Self {
        jet_powi(self, n)
    }

    open spec fn mul_add_spec(self, a: Self, b: Self) -> Self {
        self.product_spec(a).sum_spec(b)
    }

    open spec fn near_zero_spec(self) -> bool {
        self.re_spec().near_zero_spec()
    }

    open spec fn render_spec(self) -> String {
        choose|s: String| s@ == self.text_spec()
    }

    fn from_ratio(n: i32, d: i32) -> (r: Self) {
        J::from_re(J::Coeff::from_ratio(n, d))
    }

    fn unary(self, f: Unary) -> (r: Self) {
        match f {
            Unary::Neg => self.negation(),
            _ => self.chain(derivatives(f, self.re())),
        }
    }

    fn binary(self, op: Binary, rhs: Self) -> (r: Self) {
        match op {
            Binary::Add => self.sum(rhs),
            Binary::Sub => self.difference(rhs),
            Binary::Mul => self.product(rhs),
            Binary::Div => {
                let rec = rhs.chain(derivatives(Unary::Recip, rhs.re()));
                self.product(rec)
            },
            Binary::Pow => {
                let ln = self.chain(derivatives(Unary::Ln, self.re()));
                let p = ln.product(rhs);
                p.chain(derivatives(Unary::Exp, p.re()))
            },
            Binary::Log => {
                let ln = self.chain(derivatives(Unary::Ln, self.re()));
                let ln_base = rhs.chain(derivatives(Unary::Ln, rhs.re()));
                ln.product(ln_base.chain(derivatives(Unary::Recip, ln_base.re())))
            },
        }
    }

    fn powi(self, n: i32) -> (r: Self) {
        if n == 0 {
            J::from_re(J::Coeff::one())
        } else if n == 1 {
            self
        } else if n == 2 {
            self.product(self)
        } else {
            self.chain(powi_derivatives(self.re(), n))
        }
    }

    fn mul_add(self, a: Self, b: Self) -> (r: Self) {
        self.product(a).sum(b)
    }

    fn sin_cos(self) -> (r: (Self, Self)) {
        let (s, c) = self.re().sin_cos();
        let ns = s.neg();
        let nc = c.neg();
        (
            self.chain(Derivatives { f0: s, f1: c, f2: ns, f3: nc }),
            self.chain(Derivatives { f0: c, f1: ns, f2: nc, f3: s }),
        )
    }

    fn near_zero(self) -> (b: bool) {
        self.re().near_zero()
    }

    fn render(&self) -> (s: String) {
        self.text()
    }
}

/// The value part of `f(x)` is `f` at the value part of `x`, for every jet
/// type and every elementary function.
pub proof fn lemma_unary_re<J: Jet>(x: J, f: Unary)
    ensures
        x.unary_spec(f).re_spec() == apply(f, x.re_spec()),
{
    J::lemma_negation_re(x);
    J::lemma_chain_re(x, derivatives_spec(f, x.re_spec()));
}

} // verus!
