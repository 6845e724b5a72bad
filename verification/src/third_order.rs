//! Third-order jets of one variable: a value and its first three derivatives.

use vstd::prelude::*;
use vstd::string::*;
use crate::jet::Jet;
use crate::rules::Derivatives;
use crate::scalar::{minus, negate, num, plus, times, Scalar};

verus! {

/// The Taylor coefficients of a function of one variable through third order:
/// `v0` is the value, `v1`, `v2` and `v3` are the first, second and third
/// derivative.
#[derive(Clone, Copy, Debug, PartialEq)]
pub struct ThirdOrderJet<F: Scalar> {
    /// The value.
    pub v0: F,
    /// The first derivative.
    pub v1: F,
    /// The second derivative.
    pub v2: F,
    /// The third derivative.
    pub v3: F,
}

impl<F: Scalar> ThirdOrderJet<F> {
    /// The jet with the given parts.
    pub fn new(v0: F, v1: F, v2: F, v3: F) -> (r: Self)
        ensures
            r == (ThirdOrderJet { v0, v1, v2, v3 }),
    {
        ThirdOrderJet { v0, v1, v2, v3 }
    }

    /// The first derivative.
    pub fn v1(&self) -> (r: F)
        ensures
            r == self.v1,
    {
        self.v1
    }

    /// The second derivative.
    pub fn v2(&self) -> (r: F)
        ensures
            r == self.v2,
    {
        self.v2
    }

    /// The third derivative.
    pub fn v3(&self) -> (r: F)
        ensures
            r == self.v3,
    {
        self.v3
    }

    /// The variable itself: value `self.v0`, first derivative one, higher
    /// derivatives zero.
    pub fn derive(self) -> (r: Self)
        ensures
            r == (ThirdOrderJet { v0: self.v0, v1: num::<F>(1), v2: num::<F>(0), v3: num::<F>(0) }),
    {
        let zero = F::zero();
        ThirdOrderJet { v0: self.v0, v1: F::one(), v2: zero, v3: zero }
    }
}

impl<F: Scalar> Jet for ThirdOrderJet<F> {
    type Coeff = F;

    open spec fn re_spec(self) -> F {
        self.v0
    }

    open spec fn from_re_spec(re: F) -> Self {
        ThirdOrderJet { v0: re, v1: num(0), v2: num(0), v3: num(0) }
    }

    open spec fn with_re_spec(self, re: F) -> Self {
        ThirdOrderJet { v0: re, ..self }
    }

    open spec fn negation_spec(self) -> Self {
        ThirdOrderJet {
            v0: negate(self.v0),
            v1: negate(self.v1),
            v2: negate(self.v2),
            v3: negate(self.v3),
        }
    }

    open spec fn sum_spec(self, rhs: Self) -> Self {
        ThirdOrderJet {
            v0: plus(self.v0, rhs.v0),
            v1: plus(self.v1, rhs.v1),
            v2: plus(self.v2, rhs.v2),
            v3: plus(self.v3, rhs.v3),
        }
    }

    open spec fn difference_spec(self, rhs: Self) -> Self {
        ThirdOrderJet {
            v0: minus(self.v0, rhs.v0),
            v1: minus(self.v1, rhs.v1),
            v2: minus(self.v2, rhs.v2),
            v3: minus(self.v3, rhs.v3),
        }
    }

    /// The Leibniz rule through third order.
    open spec fn product_spec(self, rhs: Self) -> Self {
        let two = num::<F>(2);
        let three = num::<F>(3);
        ThirdOrderJet {
            v0: times(self.v0, rhs.v0),
            v1: plus(times(self.v0, rhs.v1), times(self.v1, rhs.v0)),
            v2: plus(
                plus(times(self.v0, rhs.v2), times(times(two, self.v1), rhs.v1)),
                times(self.v2, rhs.v0),
            ),
            v3: plus(
                plus(
                    plus(times(self.v0, rhs.v3), times(times(three, self.v1), rhs.v2)),
                    times(times(three, self.v2), rhs.v1),
                ),
                times(self.v3, rhs.v0),
            ),
        }
    }

    open spec fn scale_spec(self, factor: F) -> Self {
        ThirdOrderJet {
            v0: times(self.v0, factor),
            v1: times(self.v1, factor),
            v2: times(self.v2, factor),
            v3: times(self.v3, factor),
        }
    }

    open spec fn chain_spec(self, d: Derivatives<F>) -> Self {
        let three = num::<F>(3);
        ThirdOrderJet {
            v0: d.f0,
            v1: times(d.f1, self.v1),
            v2: plus(times(times(d.f2, self.v1), self.v1), times(d.f1, self.v2)),
            v3: plus(
                plus(
                    times(times(times(d.f3, self.v1), self.v1), self.v1),
                    times(times(times(three, d.f2), self.v1), self.v2),
                ),
                times(d.f1, self.v3),
            ),
        }
    }

    open spec fn text_spec(self) -> Seq<char> {
        self.v0.render_spec()@ + " + "@ + self.v1.render_spec()@ + "v1 + "@ + self.v2.render_spec()@
            + "v2 + "@ + self.v3.render_spec()@ + "v3"@
    }

    proof fn lemma_from_re(re: F) {
    }

    proof fn lemma_with_re(x: Self, re: F) {
    }

    proof fn lemma_sum_re(x: Self, y: Self) {
    }

    proof fn lemma_difference_re(x: Self, y: Self) {
    }

    proof fn lemma_scale_re(x: Self, factor: F) {
    }

    proof fn lemma_negation_re(x: Self) {
    }

    proof fn lemma_chain_re(x: Self, d: Derivatives<F>) {
    }

    proof fn lemma_product_re(x: Self, y: Self) {
    }

    fn re(self) -> (r: F) {
        self.v0
    }

    fn from_re(re: F) -> (r: Self) {
        let zero = F::zero();
        ThirdOrderJet { v0: re, v1: zero, v2: zero, v3: zero }
    }

    fn with_re(self, re: F) -> (r: Self) {
        ThirdOrderJet { v0: re, v1: self.v1, v2: self.v2, v3: self.v3 }
    }

    fn negation(self) -> (r: Self) {
        ThirdOrderJet {
            v0: self.v0.neg(),
            v1: self.v1.neg(),
            v2: self.v2.neg(),
            v3: self.v3.neg(),
        }
    }

    fn sum(self, rhs: Self) -> (r: Self) {
        ThirdOrderJet {
            v0: self.v0.add(rhs.v0),
            v1: self.v1.add(rhs.v1),
            v2: self.v2.add(rhs.v2),
            v3: self.v3.add(rhs.v3),
        }
    }

    fn difference(self, rhs: Self) -> (r: Self) {
        ThirdOrderJet {
            v0: self.v0.sub(rhs.v0),
            v1: self.v1.sub(rhs.v1),
            v2: self.v2.sub(rhs.v2),
            v3: self.v3.sub(rhs.v3),
        }
    }

    fn product(self, rhs: Self) -> (r: Self) {
        let two = F::from_i32(2);
        let three = F::from_i32(3);
        ThirdOrderJet {
            v0: self.v0.mul(rhs.v0),
            v1: self.v0.mul(rhs.v1).add(self.v1.mul(rhs.v0)),
            v2: self.v0.mul(rhs.v2).add(two.mul(self.v1).mul(rhs.v1)).add(self.v2.mul(rhs.v0)),
            v3: self.v0.mul(rhs.v3).add(three.mul(self.v1).mul(rhs.v2)).add(
                three.mul(self.v2).mul(rhs.v1),
            ).add(self.v3.mul(rhs.v0)),
        }
    }

    fn scale(self, factor: F) -> (r: Self) {
        ThirdOrderJet {
            v0: self.v0.mul(factor),
            v1: self.v1.mul(factor),
            v2: self.v2.mul(factor),
            v3: self.v3.mul(factor),
        }
    }

    fn chain(self, d: Derivatives<F>) -> (r: Self) {
        let three = F::from_i32(3);
        ThirdOrderJet {
            v0: d.f0,
            v1: d.f1.mul(self.v1),
            v2: d.f2.mul(self.v1).mul(self.v1).add(d.f1.mul(self.v2)),
            v3: d.f3.mul(self.v1).mul(self.v1).mul(self.v1).add(
                three.mul(d.f2).mul(self.v1).mul(self.v2),
            ).add(d.f1.mul(self.v3)),
        }
    }

    fn text(&self) -> (s: String) {
        let mut s = self.v0.render();
        s.append(" + ");
        s.append(self.v1.render().as_str());
        s.append("v1 + ");
        s.append(self.v2.render().as_str());
        s.append("v2 + ");
        s.append(self.v3.render().as_str());
        s.append("v3");
        s
    }
}

} // verus!
