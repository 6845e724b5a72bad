//! Dual numbers: a value and one first derivative.

use vstd::prelude::*;
use vstd::string::*;
use crate::jet::Jet;
use crate::rules::Derivatives;
use crate::scalar::{minus, negate, num, plus, times, Scalar};

verus! {

/// A dual number `re + eps ε`, where `eps` is the coefficient of the
/// first-order infinitesimal. Arithmetic truncates at order one.
#[derive(Clone, Copy, Debug, PartialEq)]
pub struct Dual<F: Scalar> {
    /// The value.
    pub re: F,
    /// The first derivative.
    pub eps: F,
}

impl<F: Scalar> Dual<F> {
    /// The dual number with the given parts.
    pub fn new(re: F, eps: F) -> (r: Self)
        ensures
            r == (Dual { re, eps }),
    {
        Dual { re, eps }
    }

    /// The first derivative.
    pub fn eps(&self) -> (r: F)
        ensures
            r == self.eps,
    {
        self.eps
    }

    /// The variable itself: value `self.re`, first derivative one.
    pub fn derive(self) -> (r: Self)
        ensures
            r == (Dual { re: self.re, eps: num::<F>(1) }),
    {
        Dual { re: self.re, eps: F::one() }
    }
}

impl<F: Scalar> Jet for Dual<F> {
    type Coeff = F;

    open spec fn re_spec(self) -> F {
        self.re
    }

    open spec fn from_re_spec(re: F) -> Self {
        Dual { re, eps: num(0) }
    }

    open spec fn with_re_spec(self, re: F) -> Self {
        Dual { re, eps: self.eps }
    }

    open spec fn negation_spec(self) -> Self {
        Dual { re: negate(self.re), eps: negate(self.eps) }
    }

    open spec fn sum_spec(self, rhs: Self) -> Self {
        Dual { re: plus(self.re, rhs.re), eps: plus(self.eps, rhs.eps) }
    }

    open spec fn difference_spec(self, rhs: Self) -> Self {
        Dual { re: minus(self.re, rhs.re), eps: minus(self.eps, rhs.eps) }
    }

    open spec fn product_spec(self, rhs: Self) -> Self {
        Dual {
            re: times(self.re, rhs.re),
            eps: plus(times(self.re, rhs.eps), times(self.eps, rhs.re)),
        }
    }

    open spec fn scale_spec(self, factor: F) -> Self {
        Dual { re: times(self.re, factor), eps: times(self.eps, factor) }
    }

    open spec fn chain_spec(self, d: Derivatives<F>) -> Self {
        Dual { re: d.f0, eps: times(d.f1, self.eps) }
    }

    open spec fn text_spec(self) -> Seq<char> {
        self.re.render_spec()@ + " + "@ + self.eps.render_spec()@ + "ε"@
    }

    proof fn lemma_from_re(re: F) {
    }

    proof fn lemma_with_re(x: Self, re: F) {
    }

    proof fn lemma_sum_re(x: Self, y: Self) {
    }

    proof fn lemma_difference_re(x: Self, y: Self) {
    }

    proof fn lemma_scale_re(x: Self, factor: F) {
    }

    proof fn lemma_negation_re(x: Self) {
    }

    proof fn lemma_chain_re(x: Self, d: Derivatives<F>) {
    }

    proof fn lemma_product_re(x: Self, y: Self) {
    }

    fn re(self) -> (r: F) {
        self.re
    }

    fn from_re(re: F) -> (r: Self) {
        Dual { re, eps: F::zero() }
    }

    fn with_re(self, re: F) -> (r: Self) {
        Dual { re, eps: self.eps }
    }

    fn negation(self) -> (r: Self) {
        Dual { re: self.re.neg(), eps: self.eps.neg() }
    }

    fn sum(self, rhs: Self) -> (r: Self) {
        Dual { re: self.re.add(rhs.re), eps: self.eps.add(rhs.eps) }
    }

    fn difference(self, rhs: Self) -> (r: Self) {
        Dual { re: self.re.sub(rhs.re), eps: self.eps.sub(rhs.eps) }
    }

    fn product(self, rhs: Self) -> (r: Self) {
        Dual {
            re: self.re.mul(rhs.re),
            eps: self.re.mul(rhs.eps).add(self.eps.mul(rhs.re)),
        }
    }

    fn scale(self, factor: F) -> (r: Self) {
        Dual { re: self.re.mul(factor), eps: self.eps.mul(factor) }
    }

    fn chain(self, d: Derivatives<F>) -> (r: Self) {
        Dual { re: d.f0, eps: d.f1.mul(self.eps) }
    }

    fn text(&self) -> (s: String) {
        let mut s = self.re.render();
        s.append(" + ");
        s.append(self.eps.render().as_str());
        s.append("ε");
        s
    }
}

} // verus!
