//! Laws that relate the operations of the library to one another.

use vstd::prelude::*;
use crate::dual::Dual;
use crate::dual_vec::DualVec;
use crate::hyperdual::HyperDual;
use crate::hyperdual_vec::HyperDualVec;
use crate::jet::{jet_unary, lemma_unary_re, Jet};
use crate::rules::{derivatives_spec, powi_derivatives_spec, Derivatives};
use crate::scalar::{apply, minus, num, plus, times, Binary, Scalar, Unary};
use crate::second_order::SecondOrderJet;
use crate::seeding::gradient_seed;
use crate::static_mat::{StaticMat, StaticVec};
use crate::third_order::ThirdOrderJet;

verus! {

/// A dual number made from a real has that real as its value and a zero
/// derivative.
pub proof fn lemma_dual_from_re<F: Scalar>(x: F)
    ensures
        Dual::<F>::from_re_spec(x).re_spec() == x,
        Dual::<F>::from_re_spec(x).eps == num::<F>(0),
{
}

/// A hyper-dual number made from a real has that real as its value and zero
/// derivative coefficients.
pub proof fn lemma_hyperdual_from_re<F: Scalar>(x: F)
    ensures
        HyperDual::<F>::from_re_spec(x).re_spec() == x,
        HyperDual::<F>::from_re_spec(x).eps1 == num::<F>(0),
        HyperDual::<F>::from_re_spec(x).eps2 == num::<F>(0),
        HyperDual::<F>::from_re_spec(x).eps1eps2 == num::<F>(0),
{
}

/// A second-order jet made from a real has that real as its value and zero
/// derivatives.
pub proof fn lemma_second_order_from_re<F: Scalar>(x: F)
    ensures
        SecondOrderJet::<F>::from_re_spec(x).re_spec() == x,
        SecondOrderJet::<F>::from_re_spec(x).v1 == num::<F>(0),
        SecondOrderJet::<F>::from_re_spec(x).v2 == num::<F>(0),
{
}

/// A third-order jet made from a real has that real as its value and zero
/// derivatives.
pub proof fn lemma_third_order_from_re<F: Scalar>(x: F)
    ensures
        ThirdOrderJet::<F>::from_re_spec(x).re_spec() == x,
        ThirdOrderJet::<F>::from_re_spec(x).v1 == num::<F>(0),
        ThirdOrderJet::<F>::from_re_spec(x).v2 == num::<F>(0),
        ThirdOrderJet::<F>::from_re_spec(x).v3 == num::<F>(0),
{
}

/// A vector dual number made from a real has that real as its value and a
/// zero gradient.
pub proof fn lemma_dual_vec_from_re<F: Scalar, const N: usize>(x: F)
    ensures
        DualVec::<F, N>::from_re_spec(x).re_spec() == x,
        forall|i: int| 0 <= i < N ==> DualVec::<F, N>::from_re_spec(x).eps[i] == num::<F>(0),
{
    broadcast use StaticVec::lemma_build_index;

}

/// A vector hyper-dual number made from a real has that real as its value,
/// zero gradients and a zero mixed block.
pub proof fn lemma_hyperdual_vec_from_re<F: Scalar, const M: usize, const N: usize>(x: F)
    ensures
        HyperDualVec::<F, M, N>::from_re_spec(x).re_spec() == x,
        forall|i: int|
            0 <= i < M ==> HyperDualVec::<F, M, N>::from_re_spec(x).eps1[i] == num::<F>(0),
        forall|j: int|
            0 <= j < N ==> HyperDualVec::<F, M, N>::from_re_spec(x).eps2[j] == num::<F>(0),
        forall|i: int, j: int|
            0 <= i < M && 0 <= j < N ==> HyperDualVec::<F, M, N>::from_re_spec(x).eps1eps2.at(i, j)
                == num::<F>(0),
{
    broadcast use StaticVec::lemma_build_index, StaticMat::lemma_build_at;

}

/// The gradients of the seeded variables are the rows of the identity
/// matrix: variable `i` has derivative one in direction `i` and zero in every
/// other direction.
pub proof fn lemma_seeded_gradients_are_identity_rows<F: Scalar, const N: usize>(
    re: F,
    i: int,
    k: int,
)
    requires
        0 <= k < N,
    ensures
        gradient_seed::<F, N>(re, i).re == re,
        gradient_seed::<F, N>(re, i).eps[k] == (if k == i {
            num::<F>(1)
        } else {
            num::<F>(0)
        }),
{
    broadcast use StaticVec::lemma_build_index;

}

/// The value part of `x op y` is `op` on the value parts, for sums,
/// differences and products; the value part of a quotient is the value part
/// of `x` times the reciprocal of that of `y`.
pub proof fn lemma_binary_re<J: Jet>(x: J, op: Binary, y: J)
    ensures
        op == Binary::Add ==> x.binary_spec(op, y).re_spec() == plus(x.re_spec(), y.re_spec()),
        op == Binary::Sub ==> x.binary_spec(op, y).re_spec() == minus(x.re_spec(), y.re_spec()),
        op == Binary::Mul ==> x.binary_spec(op, y).re_spec() == times(x.re_spec(), y.re_spec()),
        op == Binary::Div ==> x.binary_spec(op, y).re_spec() == times(
            x.re_spec(),
            apply(Unary::Recip, y.re_spec()),
        ),
{
    J::lemma_sum_re(x, y);
    J::lemma_difference_re(x, y);
    J::lemma_product_re(x, y);
    let rec = jet_unary(y, Unary::Recip);
    lemma_unary_re(y, Unary::Recip);
    J::lemma_product_re(x, rec);
}

/// For jets the fused multiply-add is the product followed by the sum: every
/// coefficient of `x.mul_add(a, b)` is that of `x * a + b`.
pub proof fn lemma_mul_add<J: Jet>(x: J, a: J, b: J)
    ensures
        x.mul_add_spec(a, b) == plus(times(x, a), b),
{
}

/// A family of maps from one jet type to another that respect every
/// differentiation rule: whatever is computed in the first type and then
/// mapped is what the same computation yields in the second type on the
/// mapped operands. `At` selects the map of the family; `valid` says which
/// selections there are.
pub trait Morphism<K: Jet<Coeff = <Self as Jet>::Coeff>>: Jet {
    /// What selects a map: nothing, a direction, or a pair of directions.
    type At;

    /// Whether `at` selects a map.
    spec fn valid(at: Self::At) -> bool;

    /// The image of a jet under the map selected by `at`.
    spec fn image(self, at: Self::At) -> K;

    /// The map keeps the value part and commutes with each rule.
    proof fn lemma_rules(
        at: Self::At,
        a: Self,
        b: Self,
        c: Self::Coeff,
        d: Derivatives<Self::Coeff>,
    )
        requires
            Self::valid(at),
        ensures
            a.image(at).re_spec() == a.re_spec(),
            Self::from_re_spec(c).image(at) == K::from_re_spec(c),
            a.with_re_spec(c).image(at) == a.image(at).with_re_spec(c),
            a.negation_spec().image(at) == a.image(at).negation_spec(),
            a.sum_spec(b).image(at) == a.image(at).sum_spec(b.image(at)),
            a.difference_spec(b).image(at) == a.image(at).difference_spec(b.image(at)),
            a.product_spec(b).image(at) == a.image(at).product_spec(b.image(at)),
            a.scale_spec(c).image(at) == a.image(at).scale_spec(c),
            a.chain_spec(d).image(at) == a.image(at).chain_spec(d),
    ;
}

/// Every elementary function commutes with a morphism.
pub proof fn lemma_morphism_unary<K: Jet<Coeff = <J as Jet>::Coeff>, J: Morphism<K>>(
    at: J::At,
    a: J,
    f: Unary,
)
    requires
        J::valid(at),
    ensures
        a.unary_spec(f).image(at) == a.image(at).unary_spec(f),
{
    J::lemma_rules(at, a, a, a.re_spec(), derivatives_spec(f, a.re_spec()));
}

/// Every operation of two arguments commutes with a morphism.
pub proof fn lemma_morphism_binary<K: Jet<Coeff = <J as Jet>::Coeff>, J: Morphism<K>>(
    at: J::At,
    a: J,
    op: Binary,
    b: J,
)
    requires
        J::valid(at),
    ensures
        a.binary_spec(op, b).image(at) == a.image(at).binary_spec(op, b.image(at)),
{
    let d = derivatives_spec(Unary::Ln, a.re_spec());
    J::lemma_rules(at, a, b, a.re_spec(), d);
    match op {
        Binary::Add | Binary::Sub | Binary::Mul => {},
        Binary::Div => {
            lemma_morphism_unary::<K, J>(at, b, Unary::Recip);
            J::lemma_rules(at, a, b.unary_spec(Unary::Recip), a.re_spec(), d);
        },
        Binary::Pow => {
            let ln = a.unary_spec(Unary::Ln);
            lemma_morphism_unary::<K, J>(at, a, Unary::Ln);
            J::lemma_rules(at, ln, b, a.re_spec(), d);
            lemma_morphism_unary::<K, J>(at, ln.product_spec(b), Unary::Exp);
        },
        Binary::Log => {
            let ln = a.unary_spec(Unary::Ln);
            let ln_base = b.unary_spec(Unary::Ln);
            lemma_morphism_unary::<K, J>(at, a, Unary::Ln);
            lemma_morphism_unary::<K, J>(at, b, Unary::Ln);
            lemma_morphism_unary::<K, J>(at, ln_base, Unary::Recip);
            J::lemma_rules(at, ln, ln_base.unary_spec(Unary::Recip), a.re_spec(), d);
        },
    }
}

/// Integer powers commute with a morphism.
pub proof fn lemma_morphism_powi<K: Jet<Coeff = <J as Jet>::Coeff>, J: Morphism<K>>(
    at: J::At,
    a: J,
    n: i32,
)
    requires
        J::valid(at),
    ensures
        a.powi_spec(n).image(at) == a.image(at).powi_spec(n),
{
    J::lemma_rules(
        at,
        a,
        a,
        num::<J::Coeff>(1),
        powi_derivatives_spec(a.re_spec(), n),
    );
}

/// The fused multiply-add commutes with a morphism.
pub proof fn lemma_morphism_mul_add<K: Jet<Coeff = <J as Jet>::Coeff>, J: Morphism<K>>(
    at: J::At,
    x: J,
    a: J,
    b: J,
)
    requires
        J::valid(at),
    ensures
        x.mul_add_spec(a, b).image(at) == x.image(at).mul_add_spec(a.image(at), b.image(at)),
{
    let d = derivatives_spec(Unary::Ln, x.re_spec());
    J::lemma_rules(at, x, a, x.re_spec(), d);
    J::lemma_rules(at, x.product_spec(a), b, x.re_spec(), d);
}

/// A dual number is the vector dual number with one direction.
impl<F: Scalar> Morphism<DualVec<F, 1>> for Dual<F> {
    type At = ();

    open spec fn valid(at: ()) -> bool {
        true
    }

    open spec fn image(self, at: ()) -> DualVec<F, 1> {
        DualVec { re: self.re, eps: StaticVec::build(|i: int| self.eps) }
    }

    proof fn lemma_rules(at: (), a: Self, b: Self, c: F, d: Derivatives<F>) {
        broadcast use StaticVec::lemma_build_index;

        let m = |x: Self| Morphism::<DualVec<F, 1>>::image(x, ());
        assert forall|x: DualVec<F, 1>, y: DualVec<F, 1>|
            x.re == y.re && x.eps[0] == y.eps[0] implies x == y by {
            x.eps.lemma_ext(y.eps);
        }
        assert(m(Self::from_re_spec(c)).eps[0] == DualVec::<F, 1>::from_re_spec(c).eps[0]);
        assert(m(a.with_re_spec(c)).eps[0] == m(a).with_re_spec(c).eps[0]);
        assert(m(a.negation_spec()).eps[0] == m(a).negation_spec().eps[0]);
        assert(m(a.sum_spec(b)).eps[0] == m(a).sum_spec(m(b)).eps[0]);
        assert(m(a.difference_spec(b)).eps[0] == m(a).difference_spec(m(b)).eps[0]);
        assert(m(a.product_spec(b)).eps[0] == m(a).product_spec(m(b)).eps[0]);
        assert(m(a.scale_spec(c)).eps[0] == m(a).scale_spec(c).eps[0]);
        assert(m(a.chain_spec(d)).eps[0] == m(a).chain_spec(d).eps[0]);
    }
}

proof fn lemma_one_by_one<F: Scalar>(x: HyperDualVec<F, 1, 1>, y: HyperDualVec<F, 1, 1>)
    requires
        x.re == y.re,
        x.eps1[0] == y.eps1[0],
        x.eps2[0] == y.eps2[0],
        x.eps1eps2.at(0, 0) == y.eps1eps2.at(0, 0),
    ensures
        x == y,
{
    x.eps1.lemma_ext(y.eps1);
    x.eps2.lemma_ext(y.eps2);
    x.eps1eps2.lemma_ext(y.eps1eps2);
}

/// A hyper-dual number is the vector hyper-dual number with one direction in
/// each group.
impl<F: Scalar> Morphism<HyperDualVec<F, 1, 1>> for HyperDual<F> {
    type At = ();

    open spec fn valid(at: ()) -> bool {
        true
    }

    open spec fn image(self, at: ()) -> HyperDualVec<F, 1, 1> {
        HyperDualVec {
            re: self.re,
            eps1: StaticVec::build(|i: int| self.eps1),
            eps2: StaticVec::build(|j: int| self.eps2),
            eps1eps2: StaticMat::build(|i: int, j: int| self.eps1eps2),
        }
    }

    proof fn lemma_rules(at: (), a: Self, b: Self, c: F, d: Derivatives<F>) {
        broadcast use StaticVec::lemma_build_index, StaticMat::lemma_build_at;

        let m = |x: Self| Morphism::<HyperDualVec<F, 1, 1>>::image(x, ());
        lemma_one_by_one(m(Self::from_re_spec(c)), HyperDualVec::<F, 1, 1>::from_re_spec(c));
        lemma_one_by_one(m(a.with_re_spec(c)), m(a).with_re_spec(c));
        lemma_one_by_one(m(a.negation_spec()), m(a).negation_spec());
        lemma_one_by_one(m(a.sum_spec(b)), m(a).sum_spec(m(b)));
        lemma_one_by_one(m(a.difference_spec(b)), m(a).difference_spec(m(b)));
        lemma_one_by_one(m(a.product_spec(b)), m(a).product_spec(m(b)));
        lemma_one_by_one(m(a.scale_spec(c)), m(a).scale_spec(c));
        lemma_one_by_one(m(a.chain_spec(d)), m(a).chain_spec(d));
    }
}

/// Each direction of a vector dual number is a dual number of its own: the
/// value with the derivative in direction `at`.
impl<F: Scalar, const N: usize> Morphism<Dual<F>> for DualVec<F, N> {
    type At = int;

    open spec fn valid(at: int) -> bool {
        0 <= at < N
    }

    open spec fn image(self, at: int) -> Dual<F> {
        Dual { re: self.re, eps: self.eps[at] }
    }

    proof fn lemma_rules(at: int, a: Self, b: Self, c: F, d: Derivatives<F>) {
        broadcast use StaticVec::lemma_build_index;

    }
}

/// Each pair of a direction of the first group and a direction of the second
/// group of a vector hyper-dual number is a hyper-dual number of its own.
impl<F: Scalar, const M: usize, const N: usize> Morphism<HyperDual<F>> for HyperDualVec<F, M, N> {
    type At = (int, int);

    open spec fn valid(at: (int, int)) -> bool {
        0 <= at.0 < M && 0 <= at.1 < N
    }

    open spec fn image(self, at: (int, int)) -> HyperDual<F> {
        HyperDual {
            re: self.re,
            eps1: self.eps1[at.0],
            eps2: self.eps2[at.1],
            eps1eps2: self.eps1eps2.at(at.0, at.1),
        }
    }

    proof fn lemma_rules(at: (int, int), a: Self, b: Self, c: F, d: Derivatives<F>) {
        broadcast use StaticVec::lemma_build_index, StaticMat::lemma_build_at;

    }
}

/// Dropping the third derivative of a third-order jet leaves the second-order
/// jet of the same computation.
impl<F: Scalar> Morphism<SecondOrderJet<F>> for ThirdOrderJet<F> {
    type At = ();

    open spec fn valid(at: ()) -> bool {
        true
    }

    open spec fn image(self, at: ()) -> SecondOrderJet<F> {
        SecondOrderJet { v0: self.v0, v1: self.v1, v2: self.v2 }
    }

    proof fn lemma_rules(at: (), a: Self, b: Self, c: F, d: Derivatives<F>) {
    }
}

/// Dropping the second derivative of a second-order jet leaves the dual
/// number of the same computation.
impl<F: Scalar> Morphism<Dual<F>> for SecondOrderJet<F> {
    type At = ();

    open spec fn valid(at: ()) -> bool {
        true
    }

    open spec fn image(self, at: ()) -> Dual<F> {
        Dual { re: self.v0, eps: self.v1 }
    }

    proof fn lemma_rules(at: (), a: Self, b: Self, c: F, d: Derivatives<F>) {
    }
}

/// Each direction of a hyper-dual number is a dual number of its own: `at`
/// is 1 for the first direction and 2 for the second.
impl<F: Scalar> Morphism<Dual<F>> for HyperDual<F> {
    type At = int;

    open spec fn valid(at: int) -> bool {
        at == 1 || at == 2
    }

    open spec fn image(self, at: int) -> Dual<F> {
        Dual {
            re: self.re,
            eps: if at == 1 {
                self.eps1
            } else {
                self.eps2
            },
        }
    }

    proof fn lemma_rules(at: int, a: Self, b: Self, c: F, d: Derivatives<F>) {
    }
}

} // verus!
