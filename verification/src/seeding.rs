//! The seeding factory: jets that stand for the independent variables.
//!
//! A seeded jet carries the value of a variable and a unit derivative in the
//! direction that belongs to it. Evaluating a function on seeded jets yields
//! the function's derivatives with respect to those variables.

use vstd::prelude::*;
use crate::dual::Dual;
use crate::dual_vec::DualVec;
use crate::error::{Error, Shape};
use crate::hyperdual::HyperDual;
use crate::hyperdual_vec::HyperDualVec;
use crate::scalar::{num, Scalar};
use crate::static_mat::{StaticMat, StaticVec};
use crate::third_order::ThirdOrderJet;

verus! {

/// The smallest array length that can be seeded.
pub const MIN_ARITY: usize = 2;

/// The largest array length for which `derive1` seeds gradients.
pub const MAX_GRADIENT_ARITY: usize = 10;

/// The largest array length for which `derive2` seeds a group.
pub const MAX_MIXED_ARITY: usize = 5;

/// A seeding input: a single number or an array of `N` coordinates.
#[derive(Clone, Copy, Debug, PartialEq)]
pub enum Input<F, const N: usize> {
    Scalar(F),
    Array([F; N]),
}

impl<F, const N: usize> Input<F, N> {
    /// The shape of the input.
    pub open spec fn shape_spec(self) -> Shape {
        match self {
            Input::Scalar(_) => Shape::Scalar,
            Input::Array(_) => Shape::Array(N),
        }
    }

    /// The shape of the input.
    pub fn shape(&self) -> (s: Shape)
        ensures
            s == self.shape_spec(),
    {
        match self {
            Input::Scalar(_) => Shape::Scalar,
            Input::Array(_) => Shape::Array(N),
        }
    }
}

/// Whether `derive1` seeds arrays of length `n`.
pub open spec fn gradient_arity(n: usize) -> bool {
    MIN_ARITY <= n <= MAX_GRADIENT_ARITY
}

/// Whether `derive2` seeds arrays of length `n`.
pub open spec fn mixed_arity(n: usize) -> bool {
    MIN_ARITY <= n <= MAX_MIXED_ARITY
}

/// The standard basis vector `i`: one at position `i`, zero elsewhere.
pub open spec fn unit_vector_spec<F: Scalar, const N: usize>(i: int) -> StaticVec<F, N> {
    StaticVec::build(
        |k: int|
            if k == i {
                num::<F>(1)
            } else {
                num::<F>(0)
            },
    )
}

/// The standard basis vector `i`.
pub fn unit_vector<F: Scalar, const N: usize>(i: usize) -> (r: StaticVec<F, N>)
    ensures
        r == unit_vector_spec::<F, N>(i as int),
{
    let zero = F::zero();
    let one = F::one();
    let g = |k: usize| -> (y: F)
        ensures
            y == (if k == i {
                num::<F>(1)
            } else {
                num::<F>(0)
            }),
    {
        if k == i {
            one
        } else {
            zero
        }
    };
    let ghost at: int = i as int;
    let r = StaticVec::tabulate(
        zero,
        g,
        Ghost(
            |k: int|
                if k == at {
                    num::<F>(1)
                } else {
                    num::<F>(0)
                },
        ),
    );
    proof {
        broadcast use StaticVec::lemma_build_index;

        r.lemma_ext(unit_vector_spec::<F, N>(at));
    }
    r
}

/// Variable `i` of `N`: its value, and the basis vector `i` as gradient.
pub open spec fn gradient_seed<F: Scalar, const N: usize>(re: F, i: int) -> DualVec<F, N> {
    DualVec { re, eps: unit_vector_spec::<F, N>(i) }
}

/// Variable `i` of the first group: its value, the basis vector `i` as first
/// gradient, zeros elsewhere.
pub open spec fn first_seed<F: Scalar, const M: usize, const N: usize>(
    re: F,
    i: int,
) -> HyperDualVec<F, M, N> {
    HyperDualVec {
        re,
        eps1: unit_vector_spec::<F, M>(i),
        eps2: StaticVec::zeros_spec(),
        eps1eps2: StaticMat::zeros_spec(),
    }
}

/// Variable `j` of the second group: its value, the basis vector `j` as
/// second gradient, zeros elsewhere.
pub open spec fn second_seed<F: Scalar, const M: usize, const N: usize>(
    re: F,
    j: int,
) -> HyperDualVec<F, M, N> {
    HyperDualVec {
        re,
        eps1: StaticVec::zeros_spec(),
        eps2: unit_vector_spec::<F, N>(j),
        eps1eps2: StaticMat::zeros_spec(),
    }
}

/// One seeded jet per coordinate of `x`: jet `i` has the value `x[i]` and the
/// basis vector `i` as gradient, so that the gradients are the rows of the
/// identity matrix.
pub fn seed_gradient<F: Scalar, const N: usize>(x: [F; N]) -> (r: StaticVec<DualVec<F, N>, N>)
    ensures
        r == StaticVec::<DualVec<F, N>, N>::build(|i: int| gradient_seed::<F, N>(x@[i], i)),
{
    let g = |i: usize| -> (y: DualVec<F, N>)
        requires
            i < N,
        ensures
            y == gradient_seed::<F, N>(x@[i as int], i as int),
    {
        DualVec { re: x[i], eps: unit_vector(i) }
    };
    let fill = DualVec { re: F::zero(), eps: StaticVec::zeros() };
    StaticVec::tabulate(fill, g, Ghost(|i: int| gradient_seed::<F, N>(x@[i], i)))
}

/// One jet per coordinate of `x`, seeded as variables of the first group.
pub fn seed_first<F: Scalar, const M: usize, const N: usize>(x: [F; M]) -> (r: StaticVec<
    HyperDualVec<F, M, N>,
    M,
>)
    ensures
        r == StaticVec::<HyperDualVec<F, M, N>, M>::build(
            |i: int| first_seed::<F, M, N>(x@[i], i),
        ),
{
    let g = |i: usize| -> (y: HyperDualVec<F, M, N>)
        requires
            i < M,
        ensures
            y == first_seed::<F, M, N>(x@[i as int], i as int),
    {
        HyperDualVec {
            re: x[i],
            eps1: unit_vector(i),
            eps2: StaticVec::zeros(),
            eps1eps2: StaticMat::zeros(),
        }
    };
    let fill = HyperDualVec {
        re: F::zero(),
        eps1: StaticVec::zeros(),
        eps2: StaticVec::zeros(),
        eps1eps2: StaticMat::zeros(),
    };
    StaticVec::tabulate(fill, g, Ghost(|i: int| first_seed::<F, M, N>(x@[i], i)))
}

/// One jet per coordinate of `x`, seeded as variables of the second group.
pub fn seed_second<F: Scalar, const M: usize, const N: usize>(x: [F; N]) -> (r: StaticVec<
    HyperDualVec<F, M, N>,
    N,
>)
    ensures
        r == StaticVec::<HyperDualVec<F, M, N>, N>::build(
            |j: int| second_seed::<F, M, N>(x@[j], j),
        ),
{
    let g = |j: usize| -> (y: HyperDualVec<F, M, N>)
        requires
            j < N,
        ensures
            y == second_seed::<F, M, N>(x@[j as int], j as int),
    {
        HyperDualVec {
            re: x[j],
            eps1: StaticVec::zeros(),
            eps2: unit_vector(j),
            eps1eps2: StaticMat::zeros(),
        }
    };
    let fill = HyperDualVec {
        re: F::zero(),
        eps1: StaticVec::zeros(),
        eps2: StaticVec::zeros(),
        eps1eps2: StaticMat::zeros(),
    };
    StaticVec::tabulate(fill, g, Ghost(|j: int| second_seed::<F, M, N>(x@[j], j)))
}

/// What `derive1` returns.
#[derive(Clone, Copy, Debug, PartialEq)]
pub enum Seeded1<F: Scalar, const N: usize> {
    /// For a single number: the dual number with derivative one.
    Scalar(Dual<F>),
    /// For an array: one vector dual number per coordinate.
    Vector(StaticVec<DualVec<F, N>, N>),
}

/// What `derive1` returns for each input: a single number becomes the dual
/// number with derivative one; an array of `N` numbers, for `N` from 2 to 10,
/// becomes `N` vector dual numbers whose gradients are the basis vectors; an
/// array of any other length is an unsupported shape.
pub open spec fn derive1_spec<F: Scalar, const N: usize>(x: Input<F, N>) -> Result<
    Seeded1<F, N>,
    Error,
> {
    match x {
        Input::Scalar(v) => Ok(Seeded1::Scalar(Dual { re: v, eps: num::<F>(1) })),
        Input::Array(a) => if gradient_arity(N) {
            Ok(
                Seeded1::Vector(
                    StaticVec::<DualVec<F, N>, N>::build(
                        |i: int| gradient_seed::<F, N>(a@[i], i),
                    ),
                ),
            )
        } else {
            Err(Error::UnsupportedShape { first: Shape::Array(N), second: None })
        },
    }
}

/// Seeds first derivatives: a dual number for a single number, a gradient
/// per coordinate for an array of 2 to 10 numbers.
pub fn derive1<F: Scalar, const N: usize>(x: Input<F, N>) -> (r: Result<Seeded1<F, N>, Error>)
    ensures
        r == derive1_spec(x),
{
    match x {
        Input::Scalar(v) => Ok(Seeded1::Scalar(Dual { re: v, eps: F::one() })),
        Input::Array(a) => {
            if MIN_ARITY <= N && N <= MAX_GRADIENT_ARITY {
                Ok(Seeded1::Vector(seed_gradient(a)))
            } else {
                Err(Error::UnsupportedShape { first: Shape::Array(N), second: None })
            }
        },
    }
}

/// What `derive2` returns.
#[derive(Clone, Copy, Debug, PartialEq)]
pub enum Seeded2<F: Scalar, const M: usize, const N: usize> {
    /// One single number.
    Scalar(HyperDual<F>),
    /// One array.
    Vector(StaticVec<HyperDualVec<F, M, M>, M>),
    /// Two single numbers.
    ScalarScalar(HyperDual<F>, HyperDual<F>),
    /// A single number and an array.
    ScalarVector(HyperDualVec<F, 1, N>, StaticVec<HyperDualVec<F, 1, N>, N>),
    /// An array and a single number.
    VectorScalar(StaticVec<HyperDualVec<F, M, 1>, M>, HyperDualVec<F, M, 1>),
    /// Two arrays.
    VectorVector(StaticVec<HyperDualVec<F, M, N>, M>, StaticVec<HyperDualVec<F, M, N>, N>),
}

/// The hyper-dual number of a variable of the first direction.
pub open spec fn first_scalar_seed<F: Scalar>(re: F) -> HyperDual<F> {
    HyperDual { re, eps1: num::<F>(1), eps2: num::<F>(0), eps1eps2: num::<F>(0) }
}

/// The hyper-dual number of a variable of the second direction.
pub open spec fn second_scalar_seed<F: Scalar>(re: F) -> HyperDual<F> {
    HyperDual { re, eps1: num::<F>(0), eps2: num::<F>(1), eps1eps2: num::<F>(0) }
}

/// The shapes that `derive2` seeds: a single number or an array of 2 to 5
/// numbers, alone or with a second input of either kind.
pub open spec fn derive2_supported<F, const M: usize, const N: usize>(
    x1: Input<F, M>,
    x2: Option<Input<F, N>>,
) -> bool {
    &&& x1 is Array ==> mixed_arity(M)
    &&& x2 matches Some(second) ==> (second is Array ==> mixed_arity(N))
}

/// What `derive2` returns for each supported input. A single input is seeded
/// in the first direction (or group), with the second left at zero. Of two
/// inputs the first is seeded in the first direction (or group) and the
/// second in the second, each with a one or with the basis vectors according
/// to its own shape. The mixed block is zero throughout.
pub open spec fn derive2_seeded<F: Scalar, const M: usize, const N: usize>(
    x1: Input<F, M>,
    x2: Option<Input<F, N>>,
) -> Seeded2<F, M, N> {
    match (x1, x2) {
        (Input::Scalar(v), None) => Seeded2::Scalar(first_scalar_seed(v)),
        (Input::Array(a), None) => Seeded2::Vector(
            StaticVec::<HyperDualVec<F, M, M>, M>::build(
                |i: int| first_seed::<F, M, M>(a@[i], i),
            ),
        ),
        (Input::Scalar(v1), Some(Input::Scalar(v2))) => Seeded2::ScalarScalar(
            first_scalar_seed(v1),
            second_scalar_seed(v2),
        ),
        (Input::Scalar(v1), Some(Input::Array(a2))) => Seeded2::ScalarVector(
            first_seed::<F, 1, N>(v1, 0),
            StaticVec::<HyperDualVec<F, 1, N>, N>::build(
                |j: int| second_seed::<F, 1, N>(a2@[j], j),
            ),
        ),
        (Input::Array(a1), Some(Input::Scalar(v2))) => Seeded2::VectorScalar(
            StaticVec::<HyperDualVec<F, M, 1>, M>::build(
                |i: int| first_seed::<F, M, 1>(a1@[i], i),
            ),
            second_seed::<F, M, 1>(v2, 0),
        ),
        (Input::Array(a1), Some(Input::Array(a2))) => Seeded2::VectorVector(
            StaticVec::<HyperDualVec<F, M, N>, M>::build(
                |i: int| first_seed::<F, M, N>(a1@[i], i),
            ),
            StaticVec::<HyperDualVec<F, M, N>, N>::build(
                |j: int| second_seed::<F, M, N>(a2@[j], j),
            ),
        ),
    }
}

/// The error that names the shapes of the inputs.
pub open spec fn unsupported<F, const M: usize, const N: usize>(
    x1: Input<F, M>,
    x2: Option<Input<F, N>>,
) -> Error {
    Error::UnsupportedShape {
        first: x1.shape_spec(),
        second: match x2 {
            Some(second) => Some(second.shape_spec()),
            None => None,
        },
    }
}

/// Seeds second derivatives. With one input, the input is seeded in the first
/// direction or group. With two inputs, the first is seeded in the first and
/// the second in the second direction or group, which yields the whole block
/// of mixed second derivatives between the two in one evaluation. An array
/// must have 2 to 5 coordinates; any other length is an unsupported shape,
/// reported with the shapes of both inputs.
pub fn derive2<F: Scalar, const M: usize, const N: usize>(
    x1: Input<F, M>,
    x2: Option<Input<F, N>>,
) -> (r: Result<Seeded2<F, M, N>, Error>)
    ensures
        derive2_supported(x1, x2) ==> r == Ok::<Seeded2<F, M, N>, Error>(derive2_seeded(x1, x2)),
        !derive2_supported(x1, x2) ==> r == Err::<Seeded2<F, M, N>, Error>(unsupported(x1, x2)),
{
    let first_ok = MIN_ARITY <= M && M <= MAX_MIXED_ARITY;
    let second_ok = MIN_ARITY <= N && N <= MAX_MIXED_ARITY;
    let zero = F::zero();
    let one = F::one();
    match (x1, x2) {
        (Input::Scalar(v), None) => Ok(
            Seeded2::Scalar(HyperDual { re: v, eps1: one, eps2: zero, eps1eps2: zero }),
        ),
        (Input::Array(a), None) => {
            if first_ok {
                Ok(Seeded2::Vector(seed_first(a)))
            } else {
                Err(Error::UnsupportedShape { first: Shape::Array(M), second: None })
            }
        },
        (Input::Scalar(v1), Some(Input::Scalar(v2))) => Ok(
            Seeded2::ScalarScalar(
                HyperDual { re: v1, eps1: one, eps2: zero, eps1eps2: zero },
                HyperDual { re: v2, eps1: zero, eps2: one, eps1eps2: zero },
            ),
        ),
        (Input::Scalar(v1), Some(Input::Array(a2))) => {
            if second_ok {
                let first = HyperDualVec {
                    re: v1,
                    eps1: unit_vector(0),
                    eps2: StaticVec::zeros(),
                    eps1eps2: StaticMat::zeros(),
                };
                Ok(Seeded2::ScalarVector(first, seed_second(a2)))
            } else {
                Err(
                    Error::UnsupportedShape {
                        first: Shape::Scalar,
                        second: Some(Shape::Array(N)),
                    },
                )
            }
        },
        (Input::Array(a1), Some(Input::Scalar(v2))) => {
            if first_ok {
                let second = HyperDualVec {
                    re: v2,
                    eps1: StaticVec::zeros(),
                    eps2: unit_vector(0),
                    eps1eps2: StaticMat::zeros(),
                };
                Ok(Seeded2::VectorScalar(seed_first(a1), second))
            } else {
                Err(
                    Error::UnsupportedShape {
                        first: Shape::Array(M),
                        second: Some(Shape::Scalar),
                    },
                )
            }
        },
        (Input::Array(a1), Some(Input::Array(a2))) => {
            if first_ok && second_ok {
                Ok(Seeded2::VectorVector(seed_first(a1), seed_second(a2)))
            } else {
                Err(
                    Error::UnsupportedShape {
                        first: Shape::Array(M),
                        second: Some(Shape::Array(N)),
                    },
                )
            }
        },
    }
}

/// What `derive3` returns for each input: a single number becomes the
/// third-order jet of the variable itself (first derivative one, higher
/// derivatives zero); an array is an unsupported shape.
pub open spec fn derive3_spec<F: Scalar, const N: usize>(x: Input<F, N>) -> Result<
    ThirdOrderJet<F>,
    Error,
> {
    match x {
        Input::Scalar(v) => Ok(
            ThirdOrderJet { v0: v, v1: num::<F>(1), v2: num::<F>(0), v3: num::<F>(0) },
        ),
        Input::Array(_) => Err(Error::UnsupportedShape { first: Shape::Array(N), second: None }),
    }
}

/// Seeds the derivatives of one variable through third order.
pub fn derive3<F: Scalar, const N: usize>(x: Input<F, N>) -> (r: Result<ThirdOrderJet<F>, Error>)
    ensures
        r == derive3_spec(x),
{
    match x {
        Input::Scalar(v) => {
            let zero = F::zero();
            Ok(ThirdOrderJet { v0: v, v1: F::one(), v2: zero, v3: zero })
        },
        Input::Array(_) => Err(Error::UnsupportedShape { first: Shape::Array(N), second: None }),
    }
}

} // verus!
