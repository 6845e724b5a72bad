//! Vector hyper-dual numbers: a value, the gradients with respect to two
//! groups of directions, and the block of mixed second derivatives between
//! the groups.

use vstd::prelude::*;
use vstd::string::*;
use crate::jet::Jet;
use crate::rules::Derivatives;
use crate::scalar::{minus, negate, plus, times, Binary, Scalar, Unary};
use crate::static_mat::{StaticMat, StaticVec};

verus! {

/// A hyper-dual number over `M` directions of a first group and `N`
/// directions of a second group. `eps1eps2` holds in row `i` and column `j`
/// the mixed second derivative between direction `i` of the first group and
/// direction `j` of the second.
#[derive(Clone, Copy, Debug, PartialEq)]
pub struct HyperDualVec<F: Scalar, const M: usize, const N: usize> {
    /// The value.
    pub re: F,
    /// The gradient with respect to the first group.
    pub eps1: StaticVec<F, M>,
    /// The gradient with respect to the second group.
    pub eps2: StaticVec<F, N>,
    /// The mixed second derivatives.
    pub eps1eps2: StaticMat<F, M, N>,
}

impl<F: Scalar, const M: usize, const N: usize> HyperDualVec<F, M, N> {
    /// The vector hyper-dual number with the given parts.
    pub fn new(
        re: F,
        eps1: StaticVec<F, M>,
        eps2: StaticVec<F, N>,
        eps1eps2: StaticMat<F, M, N>,
    ) -> (r: Self)
        ensures
            r == (HyperDualVec { re, eps1, eps2, eps1eps2 }),
    {
        HyperDualVec { re, eps1, eps2, eps1eps2 }
    }

    /// The gradient with respect to the first group.
    pub fn eps1(&self) -> (r: StaticVec<F, M>)
        ensures
            r == self.eps1,
    {
        self.eps1
    }

    /// The gradient with respect to the second group.
    pub fn eps2(&self) -> (r: StaticVec<F, N>)
        ensures
            r == self.eps2,
    {
        self.eps2
    }

    /// The mixed second derivatives.
    pub fn eps1eps2(&self) -> (r: StaticMat<F, M, N>)
        ensures
            r == self.eps1eps2,
    {
        self.eps1eps2
    }

    /// Entry `(i, j)` of the mixed block of a product.
    pub open spec fn product_mixed(self, rhs: Self, i: int, j: int) -> F {
        plus(
            plus(
                plus(
                    times(self.re, rhs.eps1eps2.at(i, j)),
                    times(self.eps1[i], rhs.eps2[j]),
                ),
                times(self.eps2[j], rhs.eps1[i]),
            ),
            times(self.eps1eps2.at(i, j), rhs.re),
        )
    }

    /// Entry `(i, j)` of the mixed block of `f(self)`.
    pub open spec fn chain_mixed(self, d: Derivatives<F>, i: int, j: int) -> F {
        plus(times(d.f1, self.eps1eps2.at(i, j)), times(times(d.f2, self.eps1[i]), self.eps2[j]))
    }
}

impl<F: Scalar, const M: usize, const N: usize> Jet for HyperDualVec<F, M, N> {
    type Coeff = F;

    open spec fn re_spec(self) -> F {
        self.re
    }

    open spec fn from_re_spec(re: F) -> Self {
        HyperDualVec {
            re,
            eps1: StaticVec::zeros_spec(),
            eps2: StaticVec::zeros_spec(),
            eps1eps2: StaticMat::zeros_spec(),
        }
    }

    open spec fn with_re_spec(self, re: F) -> Self {
        HyperDualVec { re, ..self }
    }

    open spec fn negation_spec(self) -> Self {
        HyperDualVec {
            re: negate(self.re),
            eps1: self.eps1.unary_spec(Unary::Neg),
            eps2: self.eps2.unary_spec(Unary::Neg),
            eps1eps2: self.eps1eps2.unary_spec(Unary::Neg),
        }
    }

    open spec fn sum_spec(self, rhs: Self) -> Self {
        HyperDualVec {
            re: plus(self.re, rhs.re),
            eps1: self.eps1.binary_spec(Binary::Add, rhs.eps1),
            eps2: self.eps2.binary_spec(Binary::Add, rhs.eps2),
            eps1eps2: self.eps1eps2.binary_spec(Binary::Add, rhs.eps1eps2),
        }
    }

    open spec fn difference_spec(self, rhs: Self) -> Self {
        HyperDualVec {
            re: minus(self.re, rhs.re),
            eps1: self.eps1.binary_spec(Binary::Sub, rhs.eps1),
            eps2: self.eps2.binary_spec(Binary::Sub, rhs.eps2),
            eps1eps2: self.eps1eps2.binary_spec(Binary::Sub, rhs.eps1eps2),
        }
    }

    open spec fn product_spec(self, rhs: Self) -> Self {
        HyperDualVec {
            re: times(self.re, rhs.re),
            eps1: StaticVec::build(
                |i: int| plus(times(self.re, rhs.eps1[i]), times(self.eps1[i], rhs.re)),
            ),
            eps2: StaticVec::build(
                |j: int| plus(times(self.re, rhs.eps2[j]), times(self.eps2[j], rhs.re)),
            ),
            eps1eps2: StaticMat::build(|i: int, j: int| self.product_mixed(rhs, i, j)),
        }
    }

    open spec fn scale_spec(self, factor: F) -> Self {
        HyperDualVec {
            re: times(self.re, factor),
            eps1: self.eps1.scale_spec(factor),
            eps2: self.eps2.scale_spec(factor),
            eps1eps2: self.eps1eps2.scale_spec(factor),
        }
    }

    open spec fn chain_spec(self, d: Derivatives<F>) -> Self {
        HyperDualVec {
            re: d.f0,
            eps1: StaticVec::build(|i: int| times(d.f1, self.eps1[i])),
            eps2: StaticVec::build(|j: int| times(d.f1, self.eps2[j])),
            eps1eps2: StaticMat::build(|i: int, j: int| self.chain_mixed(d, i, j)),
        }
    }

    open spec fn text_spec(self) -> Seq<char> {
        self.re.render_spec()@ + " + "@ + self.eps1.text_spec() + "ε1 + "@ + self.eps2.text_spec()
            + "ε2 + "@ + self.eps1eps2.text_spec() + "ε1ε2"@
    }

    proof fn lemma_from_re(re: F) {
    }

    proof fn lemma_with_re(x: Self, re: F) {
    }

    proof fn lemma_sum_re(x: Self, y: Self) {
    }

    proof fn lemma_difference_re(x: Self, y: Self) {
    }

    proof fn lemma_scale_re(x: Self, factor: F) {
    }

    proof fn lemma_negation_re(x: Self) {
    }

    proof fn lemma_chain_re(x: Self, d: Derivatives<F>) {
    }

    proof fn lemma_product_re(x: Self, y: Self) {
    }

    fn re(self) -> (r: F) {
        self.re
    }

    fn from_re(re: F) -> (r: Self) {
        HyperDualVec {
            re,
            eps1: StaticVec::zeros(),
            eps2: StaticVec::zeros(),
            eps1eps2: StaticMat::zeros(),
        }
    }

    fn with_re(self, re: F) -> (r: Self) {
        HyperDualVec { re, eps1: self.eps1, eps2: self.eps2, eps1eps2: self.eps1eps2 }
    }

    fn negation(self) -> (r: Self) {
        HyperDualVec {
            re: self.re.neg(),
            eps1: self.eps1.unary(Unary::Neg),
            eps2: self.eps2.unary(Unary::Neg),
            eps1eps2: self.eps1eps2.unary(Unary::Neg),
        }
    }

    fn sum(self, rhs: Self) -> (r: Self) {
        HyperDualVec {
            re: self.re.add(rhs.re),
            eps1: self.eps1.binary(Binary::Add, &rhs.eps1),
            eps2: self.eps2.binary(Binary::Add, &rhs.eps2),
            eps1eps2: self.eps1eps2.binary(Binary::Add, &rhs.eps1eps2),
        }
    }

    fn difference(self, rhs: Self) -> (r: Self) {
        HyperDualVec {
            re: self.re.sub(rhs.re),
            eps1: self.eps1.binary(Binary::Sub, &rhs.eps1),
            eps2: self.eps2.binary(Binary::Sub, &rhs.eps2),
            eps1eps2: self.eps1eps2.binary(Binary::Sub, &rhs.eps1eps2),
        }
    }

    fn product(self, rhs: Self) -> (r: Self) {
        let g1 = |i: usize| -> (y: F)
            requires
                i < M,
            ensures
                y == plus(times(self.re, rhs.eps1[i as int]), times(self.eps1[i as int], rhs.re)),
        {
            self.re.mul(rhs.eps1.get(i)).add(self.eps1.get(i).mul(rhs.re))
        };
        let g2 = |j: usize| -> (y: F)
            requires
                j < N,
            ensures
                y == plus(times(self.re, rhs.eps2[j as int]), times(self.eps2[j as int], rhs.re)),
        {
            self.re.mul(rhs.eps2.get(j)).add(self.eps2.get(j).mul(rhs.re))
        };
        let g12 = |i: usize, j: usize| -> (y: F)
            requires
                i < M,
                j < N,
            ensures
                y == self.product_mixed(rhs, i as int, j as int),
        {
            self.re.mul(rhs.eps1eps2.get(i, j)).add(self.eps1.get(i).mul(rhs.eps2.get(j))).add(
                self.eps2.get(j).mul(rhs.eps1.get(i)),
            ).add(self.eps1eps2.get(i, j).mul(rhs.re))
        };
        HyperDualVec {
            re: self.re.mul(rhs.re),
            eps1: StaticVec::tabulate(
                self.re,
                g1,
                Ghost(|i: int| plus(times(self.re, rhs.eps1[i]), times(self.eps1[i], rhs.re))),
            ),
            eps2: StaticVec::tabulate(
                self.re,
                g2,
                Ghost(|j: int| plus(times(self.re, rhs.eps2[j]), times(self.eps2[j], rhs.re))),
            ),
            eps1eps2: StaticMat::tabulate(
                self.re,
                g12,
                Ghost(|i: int, j: int| self.product_mixed(rhs, i, j)),
            ),
        }
    }

    fn scale(self, factor: F) -> (r: Self) {
        HyperDualVec {
            re: self.re.mul(factor),
            eps1: self.eps1.scale(factor),
            eps2: self.eps2.scale(factor),
            eps1eps2: self.eps1eps2.scale(factor),
        }
    }

    fn chain(self, d: Derivatives<F>) -> (r: Self) {
        let g1 = |i: usize| -> (y: F)
            requires
                i < M,
            ensures
                y == times(d.f1, self.eps1[i as int]),
        {
            d.f1.mul(self.eps1.get(i))
        };
        let g2 = |j: usize| -> (y: F)
            requires
                j < N,
            ensures
                y == times(d.f1, self.eps2[j as int]),
        {
            d.f1.mul(self.eps2.get(j))
        };
        let g12 = |i: usize, j: usize| -> (y: F)
            requires
                i < M,
                j < N,
            ensures
                y == self.chain_mixed(d, i as int, j as int),
        {
            d.f1.mul(self.eps1eps2.get(i, j)).add(d.f2.mul(self.eps1.get(i)).mul(self.eps2.get(j)))
        };
        HyperDualVec {
            re: d.f0,
            eps1: StaticVec::tabulate(self.re, g1, Ghost(|i: int| times(d.f1, self.eps1[i]))),
            eps2: StaticVec::tabulate(self.re, g2, Ghost(|j: int| times(d.f1, self.eps2[j]))),
            eps1eps2: StaticMat::tabulate(
                self.re,
                g12,
                Ghost(|i: int, j: int| self.chain_mixed(d, i, j)),
            ),
        }
    }

    fn text(&self) -> (s: String) {
        let mut s = self.re.render();
        s.append(" + ");
        s.append(self.eps1.text().as_str());
        s.append("ε1 + ");
        s.append(self.eps2.text().as_str());
        s.append("ε2 + ");
        s.append(self.eps1eps2.text().as_str());
        s.append("ε1ε2");
        s
    }
}

} // verus!
