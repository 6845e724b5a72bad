//! Vector dual numbers: a value and its gradient in `N` directions.

use vstd::prelude::*;
use vstd::string::*;
use crate::jet::Jet;
use crate::rules::Derivatives;
use crate::scalar::{minus, negate, plus, times, Binary, Scalar, Unary};
use crate::static_mat::StaticVec;

verus! {

/// A dual number with `N` independent infinitesimals: `eps[i]` is the
/// derivative in direction `i`. Arithmetic truncates at order one.
#[derive(Clone, Copy, Debug, PartialEq)]
pub struct DualVec<F: Scalar, const N: usize> {
    /// The value.
    pub re: F,
    /// The gradient.
    pub eps: StaticVec<F, N>,
}

impl<F: Scalar, const N: usize> DualVec<F, N> {
    /// The vector dual number with the given parts.
    pub fn new(re: F, eps: StaticVec<F, N>) -> (r: Self)
        ensures
            r == (DualVec { re, eps }),
    {
        DualVec { re, eps }
    }

    /// The gradient.
    pub fn eps(&self) -> (r: StaticVec<F, N>)
        ensures
            r == self.eps,
    {
        self.eps
    }
}

impl<F: Scalar, const N: usize> Jet for DualVec<F, N> {
    type Coeff = F;

    open spec fn re_spec(self) -> F {
        self.re
    }

    open spec fn from_re_spec(re: F) -> Self {
        DualVec { re, eps: StaticVec::zeros_spec() }
    }

    open spec fn with_re_spec(self, re: F) -> Self {
        DualVec { re, eps: self.eps }
    }

    open spec fn negation_spec(self) -> Self {
        DualVec { re: negate(self.re), eps: self.eps.unary_spec(Unary::Neg) }
    }

    open spec fn sum_spec(self, rhs: Self) -> Self {
        DualVec { re: plus(self.re, rhs.re), eps: self.eps.binary_spec(Binary::Add, rhs.eps) }
    }

    open spec fn difference_spec(self, rhs: Self) -> Self {
        DualVec { re: minus(self.re, rhs.re), eps: self.eps.binary_spec(Binary::Sub, rhs.eps) }
    }

    open spec fn product_spec(self, rhs: Self) -> Self {
        DualVec {
            re: times(self.re, rhs.re),
            eps: StaticVec::build(
                |i: int| plus(times(self.re, rhs.eps[i]), times(self.eps[i], rhs.re)),
            ),
        }
    }

    open spec fn scale_spec(self, factor: F) -> Self {
        DualVec { re: times(self.re, factor), eps: self.eps.scale_spec(factor) }
    }

    open spec fn chain_spec(self, d: Derivatives<F>) -> Self {
        DualVec { re: d.f0, eps: StaticVec::build(|i: int| times(d.f1, self.eps[i])) }
    }

    open spec fn text_spec(self) -> Seq<char> {
        self.re.render_spec()@ + " + "@ + self.eps.text_spec() + "ε"@
    }

    proof fn lemma_from_re(re: F) {
    }

    proof fn lemma_with_re(x: Self, re: F) {
    }

    proof fn lemma_sum_re(x: Self, y: Self) {
    }

    proof fn lemma_difference_re(x: Self, y: Self) {
    }

    proof fn lemma_scale_re(x: Self, factor: F) {
    }

    proof fn lemma_negation_re(x: Self) {
    }

    proof fn lemma_chain_re(x: Self, d: Derivatives<F>) {
    }

    proof fn lemma_product_re(x: Self, y: Self) {
    }

    fn re(self) -> (r: F) {
        self.re
    }

    fn from_re(re: F) -> (r: Self) {
        DualVec { re, eps: StaticVec::zeros() }
    }

    fn with_re(self, re: F) -> (r: Self) {
        DualVec { re, eps: self.eps }
    }

    fn negation(self) -> (r: Self) {
        DualVec { re: self.re.neg(), eps: self.eps.unary(Unary::Neg) }
    }

    fn sum(self, rhs: Self) -> (r: Self) {
        DualVec { re: self.re.add(rhs.re), eps: self.eps.binary(Binary::Add, &rhs.eps) }
    }

    fn difference(self, rhs: Self) -> (r: Self) {
        DualVec { re: self.re.sub(rhs.re), eps: self.eps.binary(Binary::Sub, &rhs.eps) }
    }

    fn product(self, rhs: Self) -> (r: Self) {
        let g = |i: usize| -> (y: F)
            requires
                i < N,
            ensures
                y == plus(
                    times(self.re, rhs.eps[i as int]),
                    times(self.eps[i as int], rhs.re),
                ),
        {
            self.re.mul(rhs.eps.get(i)).add(self.eps.get(i).mul(rhs.re))
        };
        DualVec {
            re: self.re.mul(rhs.re),
            eps: StaticVec::tabulate(
                self.re,
                g,
                Ghost(|i: int| plus(times(self.re, rhs.eps[i]), times(self.eps[i], rhs.re))),
            ),
        }
    }

    fn scale(self, factor: F) -> (r: Self) {
        DualVec { re: self.re.mul(factor), eps: self.eps.scale(factor) }
    }

    fn chain(self, d: Derivatives<F>) -> (r: Self) {
        let g = |i: usize| -> (y: F)
            requires
                i < N,
            ensures
                y == times(d.f1, self.eps[i as int]),
        {
            d.f1.mul(self.eps.get(i))
        };
        DualVec {
            re: d.f0,
            eps: StaticVec::tabulate(self.re, g, Ghost(|i: int| times(d.f1, self.eps[i]))),
        }
    }

    fn text(&self) -> (s: String) {
        let mut s = self.re.render();
        s.append(" + ");
        s.append(self.eps.text().as_str());
        s.append("ε");
        s
    }
}

} // verus!
