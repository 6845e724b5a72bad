//! The numeric capability set shared by plain reals and every jet.
//!
//! The differentiation rules of this crate are written once, against
//! [`Scalar`]. A plain real number type implements the trait outside this
//! crate (on top of the machine's floating point arithmetic); every jet
//! implements it here, so a jet can in turn be the coefficient of another jet.

use vstd::prelude::*;

verus! {

/// The elementary functions of one argument.
#[derive(Clone, Copy, PartialEq, Eq, Debug)]
pub enum Unary {
    Neg,
    Recip,
    Sqrt,
    Cbrt,
    Exp,
    Exp2,
    Expm1,
    Ln,
    Log2,
    Log10,
    Ln1p,
    Sin,
    Cos,
    Tan,
    Asin,
    Acos,
    Atan,
    Sinh,
    Cosh,
    Tanh,
    Asinh,
    Acosh,
    Atanh,
}

/// The operations of two arguments. `Pow` raises the left operand to the
/// right one; `Log` takes the logarithm of the left operand to the base given
/// by the right one.
#[derive(Clone, Copy, PartialEq, Eq, Debug)]
pub enum Binary {
    Add,
    Sub,
    Mul,
    Div,
    Pow,
    Log,
}

/// A number that can be the coefficient of a jet: a plain real, or a jet.
///
/// Every operation is a function of its operands: the same operands give the
/// same result. The `*_spec` functions name the results and the executable
/// methods return exactly those values. That is all an implementation
/// promises. For a jet the `*_spec` functions are defined by the
/// differentiation rules. For a plain real they stand for whatever the
/// underlying arithmetic computes, so nothing else is assumed of them: no
/// associativity, no distributivity, and no special behaviour of zero (a
/// non-finite coefficient contaminates what it touches).
///
/// A type outside this crate implements the trait by giving each `*_spec`
/// function the body of the method it names.
pub trait Scalar: Copy {
    spec fn from_ratio_spec(n: i32, d: i32) -> Self;

    spec fn unary_spec(self, f: Unary) -> Self;

    spec fn binary_spec(self, op: Binary, rhs: Self) -> Self;

    spec fn powi_spec(self, n: i32) -> Self;

    spec fn mul_add_spec(self, a: Self, b: Self) -> Self;

    spec fn near_zero_spec(self) -> bool;

    spec fn render_spec(self) -> String;

    /// The constant `n / d`.
    fn from_ratio(n: i32, d: i32) -> (r: Self)
        ensures
            r == Self::from_ratio_spec(n, d),
    ;

    /// Applies the elementary function `f`.
    fn unary(self, f: Unary) -> (r: Self)
        ensures
            r == self.unary_spec(f),
    ;

    /// Applies the operation `op` to `self` and `rhs`, in that order.
    fn binary(self, op: Binary, rhs: Self) -> (r: Self)
        ensures
            r == self.binary_spec(op, rhs),
    ;

    /// `self` raised to the integer power `n`.
    fn powi(self, n: i32) -> (r: Self)
        ensures
            r == self.powi_spec(n),
    ;

    /// Fused multiply-add: `self * a + b`.
    fn mul_add(self, a: Self, b: Self) -> (r: Self)
        ensures
            r == self.mul_add_spec(a, b),
    ;

    /// Sine and cosine from one evaluation: the pair of `sin` and `cos`.
    fn sin_cos(self) -> (r: (Self, Self))
        ensures
            r.0 == self.unary_spec(Unary::Sin),
            r.1 == self.unary_spec(Unary::Cos),
    ;

    /// Whether the value part lies so close to zero that a quotient by it
    /// would cancel badly (its magnitude is below the machine epsilon).
    fn near_zero(self) -> (b: bool)
        ensures
            b == self.near_zero_spec(),
    ;

    /// The canonical text of the number.
    fn render(&self) -> (s: String)
        ensures
            s@ == self.render_spec()@,
    ;

    /// The constant that stands for the integer `n`.
    fn from_i32(n: i32) -> (r: Self)
        ensures
            r == Self::from_ratio_spec(n, 1),
    {
        Self::from_ratio(n, 1)
    }

    fn zero() -> (r: Self)
        ensures
            r == Self::from_ratio_spec(0, 1),
    {
        Self::from_ratio(0, 1)
    }

    fn one() -> (r: Self)
        ensures
            r == Self::from_ratio_spec(1, 1),
    {
        Self::from_ratio(1, 1)
    }

    fn add(self, rhs: Self) -> (r: Self)
        ensures
            r == self.binary_spec(Binary::Add, rhs),
    {
        self.binary(Binary::Add, rhs)
    }

    fn sub(self, rhs: Self) -> (r: Self)
        ensures
            r == self.binary_spec(Binary::Sub, rhs),
    {
        self.binary(Binary::Sub, rhs)
    }

    fn mul(self, rhs: Self) -> (r: Self)
        ensures
            r == self.binary_spec(Binary::Mul, rhs),
    {
        self.binary(Binary::Mul, rhs)
    }

    /// `self / rhs`; for jets this is `self * rhs.recip()`.
    fn div(self, rhs: Self) -> (r: Self)
        ensures
            r == self.binary_spec(Binary::Div, rhs),
    {
        self.binary(Binary::Div, rhs)
    }

    /// `self` raised to the power `exponent`, both carrying derivatives.
    fn powd(self, exponent: Self) -> (r: Self)
        ensures
            r == self.binary_spec(Binary::Pow, exponent),
    {
        self.binary(Binary::Pow, exponent)
    }

    fn neg(self) -> (r: Self)
        ensures
            r == self.unary_spec(Unary::Neg),
    {
        self.unary(Unary::Neg)
    }

    fn recip(self) -> (r: Self)
        ensures
            r == self.unary_spec(Unary::Recip),
    {
        self.unary(Unary::Recip)
    }

    fn sqrt(self) -> (r: Self)
        ensures
            r == self.unary_spec(Unary::Sqrt),
    {
        self.unary(Unary::Sqrt)
    }

    fn cbrt(self) -> (r: Self)
        ensures
            r == self.unary_spec(Unary::Cbrt),
    {
        self.unary(Unary::Cbrt)
    }

    fn exp(self) -> (r: Self)
        ensures
            r == self.unary_spec(Unary::Exp),
    {
        self.unary(Unary::Exp)
    }

    fn exp2(self) -> (r: Self)
        ensures
            r == self.unary_spec(Unary::Exp2),
    {
        self.unary(Unary::Exp2)
    }

    fn expm1(self) -> (r: Self)
        ensures
            r == self.unary_spec(Unary::Expm1),
    {
        self.unary(Unary::Expm1)
    }

    fn ln(self) -> (r: Self)
        ensures
            r == self.unary_spec(Unary::Ln),
    {
        self.unary(Unary::Ln)
    }

    fn log2(self) -> (r: Self)
        ensures
            r == self.unary_spec(Unary::Log2),
    {
        self.unary(Unary::Log2)
    }

    fn log10(self) -> (r: Self)
        ensures
            r == self.unary_spec(Unary::Log10),
    {
        self.unary(Unary::Log10)
    }

    fn ln_1p(self) -> (r: Self)
        ensures
            r == self.unary_spec(Unary::Ln1p),
    {
        self.unary(Unary::Ln1p)
    }

    fn sin(self) -> (r: Self)
        ensures
            r == self.unary_spec(Unary::Sin),
    {
        self.unary(Unary::Sin)
    }

    fn cos(self) -> (r: Self)
        ensures
            r == self.unary_spec(Unary::Cos),
    {
        self.unary(Unary::Cos)
    }

    fn tan(self) -> (r: Self)
        ensures
            r == self.unary_spec(Unary::Tan),
    {
        self.unary(Unary::Tan)
    }

    fn asin(self) -> (r: Self)
        ensures
            r == self.unary_spec(Unary::Asin),
    {
        self.unary(Unary::Asin)
    }

    fn acos(self) -> (r: Self)
        ensures
            r == self.unary_spec(Unary::Acos),
    {
        self.unary(Unary::Acos)
    }

    fn atan(self) -> (r: Self)
        ensures
            r == self.unary_spec(Unary::Atan),
    {
        self.unary(Unary::Atan)
    }

    fn sinh(self) -> (r: Self)
        ensures
            r == self.unary_spec(Unary::Sinh),
    {
        self.unary(Unary::Sinh)
    }

    fn cosh(self) -> (r: Self)
        ensures
            r == self.unary_spec(Unary::Cosh),
    {
        self.unary(Unary::Cosh)
    }

    fn tanh(self) -> (r: Self)
        ensures
            r == self.unary_spec(Unary::Tanh),
    {
        self.unary(Unary::Tanh)
    }

    fn asinh(self) -> (r: Self)
        ensures
            r == self.unary_spec(Unary::Asinh),
    {
        self.unary(Unary::Asinh)
    }

    fn acosh(self) -> (r: Self)
        ensures
            r == self.unary_spec(Unary::Acosh),
    {
        self.unary(Unary::Acosh)
    }

    fn atanh(self) -> (r: Self)
        ensures
            r == self.unary_spec(Unary::Atanh),
    {
        self.unary(Unary::Atanh)
    }
}

/// The constant that stands for the integer `n`.
pub open spec fn num<F: Scalar>(n: int) -> F {
    F::from_ratio_spec(n as i32, 1)
}

/// The constant `n / d`.
pub open spec fn ratio<F: Scalar>(n: int, d: int) -> F {
    F::from_ratio_spec(n as i32, d as i32)
}

/// `a + b`.
pub open spec fn plus<F: Scalar>(a: F, b: F) -> F {
    a.binary_spec(Binary::Add, b)
}

/// `a - b`.
pub open spec fn minus<F: Scalar>(a: F, b: F) -> F {
    a.binary_spec(Binary::Sub, b)
}

/// `a * b`.
pub open spec fn times<F: Scalar>(a: F, b: F) -> F {
    a.binary_spec(Binary::Mul, b)
}

/// `a / b`.
pub open spec fn over<F: Scalar>(a: F, b: F) -> F {
    a.binary_spec(Binary::Div, b)
}

/// `-a`.
pub open spec fn negate<F: Scalar>(a: F) -> F {
    a.unary_spec(Unary::Neg)
}

/// `f(a)`.
pub open spec fn apply<F: Scalar>(f: Unary, a: F) -> F {
    a.unary_spec(f)
}

} // verus!
