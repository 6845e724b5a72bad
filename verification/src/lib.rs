//! Forward-mode automatic differentiation with generalized dual numbers.
//!
//! A jet carries the value of a function together with a truncated set of its
//! derivatives. Arithmetic and the elementary functions are defined on jets so
//! that evaluating an expression on seeded jets yields, in one pass, the
//! value of the expression and its derivatives.
//!
//! The library is generic in the coefficient arithmetic:
//!
//! - [`scalar`] states what a coefficient can do. A plain real number type
//!   provides it from outside; every jet provides it too, so jets nest.
//! - [`rules`] holds the value and the first three derivatives of each
//!   elementary function.
//! - [`jet`] states what a jet type has to provide (its sums, its product
//!   rule, its chain rule) and derives every operation from that.
//! - [`dual`], [`hyperdual`], [`second_order`] and [`third_order`] are the
//!   scalar jets; [`dual_vec`] and [`hyperdual_vec`] are the jets with
//!   gradients and mixed blocks, held in the containers of [`static_mat`].
//! - [`seeding`] builds the jets that stand for the independent variables.
//! - [`ops`] are the operators with an operand that is a plain scalar or a
//!   jet, [`special_functions`] the spherical Bessel functions, [`error`] the
//!   errors.
//! - [`laws`] relates the jet types to one another, and [`exact`] says what
//!   the rules compute where the coefficient arithmetic is exact.

pub mod dual;
pub mod dual_vec;
pub mod error;
pub mod exact;
pub mod hyperdual;
pub mod hyperdual_vec;
pub mod jet;
pub mod laws;
pub mod ops;
pub mod rules;
pub mod scalar;
pub mod second_order;
pub mod seeding;
pub mod special_functions;
pub mod static_mat;
pub mod third_order;
