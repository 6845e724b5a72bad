//! Operators between a jet and an operand that is either a plain scalar or a
//! jet of the same type.

use vstd::prelude::*;
use crate::error::Error;
use crate::jet::{jet_binary, jet_powi, jet_unary, Jet};
use crate::rules::{log_base_derivatives, log_base_derivatives_spec};
use crate::scalar::{apply, minus, plus, Binary, Scalar, Unary};

verus! {

/// The four arithmetic operators.
#[derive(Clone, Copy, PartialEq, Eq, Debug)]
pub enum Arith {
    Add,
    Sub,
    Mul,
    Div,
}

/// What may stand on the other side of an operator: a plain scalar (a value
/// of the coefficient type) or a jet of the same type.
#[derive(Clone, Copy, Debug, PartialEq)]
pub enum Operand<J: Jet> {
    Scalar(J::Coeff),
    SameJet(J),
}

/// What a jet may be raised to.
#[derive(Clone, Copy, Debug, PartialEq)]
pub enum Exponent<J: Jet> {
    /// An integer: the closed-form power rule.
    Int(i32),
    /// A plain scalar.
    Real(J::Coeff),
    /// A jet of the same type, carrying derivatives of its own.
    Jet(J),
}

/// `x op s` for a jet `x` and a plain scalar `s`: a sum or difference changes
/// the value part only; a product multiplies every coefficient by `s`; a
/// quotient multiplies every coefficient by `1/s`.
pub open spec fn with_scalar_spec<J: Jet>(x: J, op: Arith, s: J::Coeff) -> J {
    match op {
        Arith::Add => x.with_re_spec(plus(x.re_spec(), s)),
        Arith::Sub => x.with_re_spec(minus(x.re_spec(), s)),
        Arith::Mul => x.scale_spec(s),
        Arith::Div => x.scale_spec(apply(Unary::Recip, s)),
    }
}

/// `s op x` for a plain scalar `s` and a jet `x`: `x + s`, `-x + s`, `x * s`
/// and `(1/x) * s`.
pub open spec fn scalar_with_spec<J: Jet>(s: J::Coeff, op: Arith, x: J) -> J {
    match op {
        Arith::Add => with_scalar_spec(x, Arith::Add, s),
        Arith::Sub => with_scalar_spec(x.negation_spec(), Arith::Add, s),
        Arith::Mul => x.scale_spec(s),
        Arith::Div => jet_unary(x, Unary::Recip).scale_spec(s),
    }
}

/// The operation of the capability set that an arithmetic operator stands
/// for.
pub open spec fn binary_of(op: Arith) -> Binary {
    match op {
        Arith::Add => Binary::Add,
        Arith::Sub => Binary::Sub,
        Arith::Mul => Binary::Mul,
        Arith::Div => Binary::Div,
    }
}

/// `x op rhs`, for either kind of operand.
pub open spec fn arith_spec<J: Jet>(x: J, op: Arith, rhs: Operand<J>) -> J {
    match rhs {
        Operand::Scalar(s) => with_scalar_spec(x, op, s),
        Operand::SameJet(y) => jet_binary(x, binary_of(op), y),
    }
}

/// `x^n` for a plain scalar `n`: `exp(ln(x) * n)`.
pub open spec fn powf_spec<J: Jet>(x: J, n: J::Coeff) -> J {
    jet_unary(jet_unary(x, Unary::Ln).scale_spec(n), Unary::Exp)
}

/// The logarithm of `x` to the plain base `base`: the chain rule with the
/// derivative tuple of that logarithm.
pub open spec fn log_base_spec<J: Jet>(x: J, base: J::Coeff) -> J {
    x.chain_spec(log_base_derivatives_spec(x.re_spec(), base))
}

/// `x` raised to `e`, for each kind of exponent.
pub open spec fn pow_spec<J: Jet>(x: J, e: Exponent<J>) -> J {
    match e {
        Exponent::Int(n) => jet_powi(x, n),
        Exponent::Real(n) => powf_spec(x, n),
        Exponent::Jet(y) => jet_binary(x, Binary::Pow, y),
    }
}

/// `x op s` for a jet `x` and a plain scalar `s`.
pub fn with_scalar<J: Jet>(x: J, op: Arith, s: J::Coeff) -> (r: J)
    ensures
        r == with_scalar_spec(x, op, s),
{
    match op {
        Arith::Add => x.with_re(x.re().add(s)),
        Arith::Sub => x.with_re(x.re().sub(s)),
        Arith::Mul => x.scale(s),
        Arith::Div => x.scale(s.recip()),
    }
}

/// `s op x` for a plain scalar `s` and a jet `x`.
pub fn scalar_with<J: Jet>(s: J::Coeff, op: Arith, x: J) -> (r: J)
    ensures
        r == scalar_with_spec(s, op, x),
{
    match op {
        Arith::Add => with_scalar(x, Arith::Add, s),
        Arith::Sub => with_scalar(x.negation(), Arith::Add, s),
        Arith::Mul => x.scale(s),
        Arith::Div => x.unary(Unary::Recip).scale(s),
    }
}

/// `x op rhs`, where `rhs` is a plain scalar or a jet of the same type.
pub fn arith<J: Jet>(x: J, op: Arith, rhs: Operand<J>) -> (r: J)
    ensures
        r == arith_spec(x, op, rhs),
{
    match rhs {
        Operand::Scalar(s) => with_scalar(x, op, s),
        Operand::SameJet(y) => match op {
            Arith::Add => x.add(y),
            Arith::Sub => x.sub(y),
            Arith::Mul => x.mul(y),
            Arith::Div => x.div(y),
        },
    }
}

/// `x op rhs` where the operand may not have been recognized: `None` stands
/// for an operand that is neither a plain scalar nor a jet of the same type,
/// and is reported as an invalid operand.
pub fn checked_arith<J: Jet>(x: J, op: Arith, rhs: Option<Operand<J>>) -> (r: Result<J, Error>)
    ensures
        match rhs {
            Some(operand) => r == Ok::<J, Error>(arith_spec(x, op, operand)),
            None => r == Err::<J, Error>(Error::InvalidOperand),
        },
{
    match rhs {
        Some(operand) => Ok(arith(x, op, operand)),
        None => Err(Error::InvalidOperand),
    }
}

/// `x^n` for a plain scalar `n`.
pub fn powf<J: Jet>(x: J, n: J::Coeff) -> (r: J)
    ensures
        r == powf_spec(x, n),
{
    x.unary(Unary::Ln).scale(n).unary(Unary::Exp)
}

/// The logarithm of `x` to the plain base `base`.
pub fn log_base<J: Jet>(x: J, base: J::Coeff) -> (r: J)
    ensures
        r == log_base_spec(x, base),
{
    x.chain(log_base_derivatives(x.re(), base))
}

/// `x` raised to `e`.
pub fn pow<J: Jet>(x: J, e: Exponent<J>) -> (r: J)
    ensures
        r == pow_spec(x, e),
{
    match e {
        Exponent::Int(n) => x.powi(n),
        Exponent::Real(n) => powf(x, n),
        Exponent::Jet(y) => x.powd(y),
    }
}

/// `x` raised to an exponent that may not have been recognized: `None` is
/// reported as an invalid operand.
pub fn checked_pow<J: Jet>(x: J, e: Option<Exponent<J>>) -> (r: Result<J, Error>)
    ensures
        match e {
            Some(exponent) => r == Ok::<J, Error>(pow_spec(x, exponent)),
            None => r == Err::<J, Error>(Error::InvalidOperand),
        },
{
    match e {
        Some(exponent) => Ok(pow(x, exponent)),
        None => Err(Error::InvalidOperand),
    }
}

} // verus!
