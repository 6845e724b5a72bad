//! Hyper-dual numbers: a value, two first derivatives and their mixed second
//! derivative.

use vstd::prelude::*;
use vstd::string::*;
use crate::jet::Jet;
use crate::rules::Derivatives;
use crate::scalar::{minus, negate, num, plus, times, Scalar};

verus! {

/// A hyper-dual number `re + eps1 ε1 + eps2 ε2 + eps1eps2 ε1ε2`. The two
/// infinitesimals are independent first-order directions; `eps1eps2` is the
/// mixed second partial derivative. Arithmetic truncates at order two and
/// keeps the cross term only.
#[derive(Clone, Copy, Debug, PartialEq)]
pub struct HyperDual<F: Scalar> {
    /// The value.
    pub re: F,
    /// The derivative in the first direction.
    pub eps1: F,
    /// The derivative in the second direction.
    pub eps2: F,
    /// The mixed second derivative.
    pub eps1eps2: F,
}

impl<F: Scalar> HyperDual<F> {
    /// The hyper-dual number with the given parts.
    pub fn new(re: F, eps1: F, eps2: F, eps1eps2: F) -> (r: Self)
        ensures
            r == (HyperDual { re, eps1, eps2, eps1eps2 }),
    {
        HyperDual { re, eps1, eps2, eps1eps2 }
    }

    /// The derivative in the first direction.
    pub fn eps1(&self) -> (r: F)
        ensures
            r == self.eps1,
    {
        self.eps1
    }

    /// The derivative in the second direction.
    pub fn eps2(&self) -> (r: F)
        ensures
            r == self.eps2,
    {
        self.eps2
    }

    /// The mixed second derivative.
    pub fn eps1eps2(&self) -> (r: F)
        ensures
            r == self.eps1eps2,
    {
        self.eps1eps2
    }

    /// The same number as a variable of the first direction: `eps1` is one,
    /// the other parts stay.
    pub fn derive1(self) -> (r: Self)
        ensures
            r == (HyperDual { eps1: num::<F>(1), ..self }),
    {
        HyperDual { re: self.re, eps1: F::one(), eps2: self.eps2, eps1eps2: self.eps1eps2 }
    }

    /// The same number as a variable of the second direction: `eps2` is one,
    /// the other parts stay.
    pub fn derive2(self) -> (r: Self)
        ensures
            r == (HyperDual { eps2: num::<F>(1), ..self }),
    {
        HyperDual { re: self.re, eps1: self.eps1, eps2: F::one(), eps1eps2: self.eps1eps2 }
    }
}

impl<F: Scalar> Jet for HyperDual<F> {
    type Coeff = F;

    open spec fn re_spec(self) -> F {
        self.re
    }

    open spec fn from_re_spec(re: F) -> Self {
        HyperDual { re, eps1: num(0), eps2: num(0), eps1eps2: num(0) }
    }

    open spec fn with_re_spec(self, re: F) -> Self {
        HyperDual { re, ..self }
    }

    open spec fn negation_spec(self) -> Self {
        HyperDual {
            re: negate(self.re),
            eps1: negate(self.eps1),
            eps2: negate(self.eps2),
            eps1eps2: negate(self.eps1eps2),
        }
    }

    open spec fn sum_spec(self, rhs: Self) -> Self {
        HyperDual {
            re: plus(self.re, rhs.re),
            eps1: plus(self.eps1, rhs.eps1),
            eps2: plus(self.eps2, rhs.eps2),
            eps1eps2: plus(self.eps1eps2, rhs.eps1eps2),
        }
    }

    open spec fn difference_spec(self, rhs: Self) -> Self {
        HyperDual {
            re: minus(self.re, rhs.re),
            eps1: minus(self.eps1, rhs.eps1),
            eps2: minus(self.eps2, rhs.eps2),
            eps1eps2: minus(self.eps1eps2, rhs.eps1eps2),
        }
    }

    open spec fn product_spec(self, rhs: Self) -> Self {
        HyperDual {
            re: times(self.re, rhs.re),
            eps1: plus(times(self.re, rhs.eps1), times(self.eps1, rhs.re)),
            eps2: plus(times(self.re, rhs.eps2), times(self.eps2, rhs.re)),
            eps1eps2: plus(
                plus(
                    plus(times(self.re, rhs.eps1eps2), times(self.eps1, rhs.eps2)),
                    times(self.eps2, rhs.eps1),
                ),
                times(self.eps1eps2, rhs.re),
            ),
        }
    }

    open spec fn scale_spec(self, factor: F) -> Self {
        HyperDual {
            re: times(self.re, factor),
            eps1: times(self.eps1, factor),
            eps2: times(self.eps2, factor),
            eps1eps2: times(self.eps1eps2, factor),
        }
    }

    open spec fn chain_spec(self, d: Derivatives<F>) -> Self {
        HyperDual {
            re: d.f0,
            eps1: times(d.f1, self.eps1),
            eps2: times(d.f1, self.eps2),
            eps1eps2: plus(
                times(d.f1, self.eps1eps2),
                times(times(d.f2, self.eps1), self.eps2),
            ),
        }
    }

    open spec fn text_spec(self) -> Seq<char> {
        self.re.render_spec()@ + " + "@ + self.eps1.render_spec()@ + "ε1 + "@
            + self.eps2.render_spec()@ + "ε2 + "@ + self.eps1eps2.render_spec()@ + "ε1ε2"@
    }

    proof fn lemma_from_re(re: F) {
    }

    proof fn lemma_with_re(x: Self, re: F) {
    }

    proof fn lemma_sum_re(x: Self, y: Self) {
    }

    proof fn lemma_difference_re(x: Self, y: Self) {
    }

    proof fn lemma_scale_re(x: Self, factor: F) {
    }

    proof fn lemma_negation_re(x: Self) {
    }

    proof fn lemma_chain_re(x: Self, d: Derivatives<F>) {
    }

    proof fn lemma_product_re(x: Self, y: Self) {
    }

    fn re(self) -> (r: F) {
        self.re
    }

    fn from_re(re: F) -> (r: Self) {
        let zero = F::zero();
        HyperDual { re, eps1: zero, eps2: zero, eps1eps2: zero }
    }

    fn with_re(self, re: F) -> (r: Self) {
        HyperDual { re, eps1: self.eps1, eps2: self.eps2, eps1eps2: self.eps1eps2 }
    }

    fn negation(self) -> (r: Self) {
        HyperDual {
            re: self.re.neg(),
            eps1: self.eps1.neg(),
            eps2: self.eps2.neg(),
            eps1eps2: self.eps1eps2.neg(),
        }
    }

    fn sum(self, rhs: Self) -> (r: Self) {
        HyperDual {
            re: self.re.add(rhs.re),
            eps1: self.eps1.add(rhs.eps1),
            eps2: self.eps2.add(rhs.eps2),
            eps1eps2: self.eps1eps2.add(rhs.eps1eps2),
        }
    }

    fn difference(self, rhs: Self) -> (r: Self) {
        HyperDual {
            re: self.re.sub(rhs.re),
            eps1: self.eps1.sub(rhs.eps1),
            eps2: self.eps2.sub(rhs.eps2),
            eps1eps2: self.eps1eps2.sub(rhs.eps1eps2),
        }
    }

    fn product(self, rhs: Self) -> (r: Self) {
        HyperDual {
            re: self.re.mul(rhs.re),
            eps1: self.re.mul(rhs.eps1).add(self.eps1.mul(rhs.re)),
            eps2: self.re.mul(rhs.eps2).add(self.eps2.mul(rhs.re)),
            eps1eps2: self.re.mul(rhs.eps1eps2).add(self.eps1.mul(rhs.eps2)).add(
                self.eps2.mul(rhs.eps1),
            ).add(self.eps1eps2.mul(rhs.re)),
        }
    }

    fn scale(self, factor: F) -> (r: Self) {
        HyperDual {
            re: self.re.mul(factor),
            eps1: self.eps1.mul(factor),
            eps2: self.eps2.mul(factor),
            eps1eps2: self.eps1eps2.mul(factor),
        }
    }

    fn chain(self, d: Derivatives<F>) -> (r: Self) {
        HyperDual {
            re: d.f0,
            eps1: d.f1.mul(self.eps1),
            eps2: d.f1.mul(self.eps2),
            eps1eps2: d.f1.mul(self.eps1eps2).add(d.f2.mul(self.eps1).mul(self.eps2)),
        }
    }

    fn text(&self) -> (s: String) {
        let mut s = self.re.render();
        s.append(" + ");
        s.append(self.eps1.render().as_str());
        s.append("ε1 + ");
        s.append(self.eps2.render().as_str());
        s.append("ε2 + ");
        s.append(self.eps1eps2.render().as_str());
        s.append("ε1ε2");
        s
    }
}

} // verus!
