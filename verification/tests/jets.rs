use dualnum::dual::Dual;
use dualnum::dual_vec::DualVec;
use dualnum::error::{Error, Shape};
use dualnum::hyperdual::HyperDual;
use dualnum::hyperdual_vec::HyperDualVec;
use dualnum::jet::Jet;
use dualnum::ops::{
    arith, checked_arith, checked_pow, log_base, pow, powf, scalar_with, with_scalar, Arith,
    Exponent, Operand,
};
use dualnum::scalar::{Binary, Scalar, Unary};
use dualnum::rules::{derivatives, powi_derivatives, Derivatives};
use dualnum::second_order::SecondOrderJet;
use dualnum::seeding::{derive1, derive2, derive3, unit_vector, Input, Seeded1, Seeded2};
use dualnum::special_functions::{sph_j0, sph_j1, sph_j2};
use dualnum::static_mat::{StaticMat, StaticVec};
use dualnum::third_order::ThirdOrderJet;
use num_dual::DualNum;

/// A 64-bit float as a coefficient.
#[derive(Clone, Copy, Debug, PartialEq)]
struct Real(f64);

fn unary_f64(x: f64, f: Unary) -> f64 {
    match f {
        Unary::Neg => -x,
        Unary::Recip => x.recip(),
        Unary::Sqrt => x.sqrt(),
        Unary::Cbrt => x.cbrt(),
        Unary::Exp => x.exp(),
        Unary::Exp2 => x.exp2(),
        Unary::Expm1 => x.exp_m1(),
        Unary::Ln => x.ln(),
        Unary::Log2 => x.log2(),
        Unary::Log10 => x.log10(),
        Unary::Ln1p => x.ln_1p(),
        Unary::Sin => x.sin(),
        Unary::Cos => x.cos(),
        Unary::Tan => x.tan(),
        Unary::Asin => x.asin(),
        Unary::Acos => x.acos(),
        Unary::Atan => x.atan(),
        Unary::Sinh => x.sinh(),
        Unary::Cosh => x.cosh(),
        Unary::Tanh => x.tanh(),
        Unary::Asinh => x.asinh(),
        Unary::Acosh => x.acosh(),
        Unary::Atanh => x.atanh(),
    }
}

fn binary_f64(x: f64, op: Binary, y: f64) -> f64 {
    match op {
        Binary::Add => x + y,
        Binary::Sub => x - y,
        Binary::Mul => x * y,
        Binary::Div => x / y,
        Binary::Pow => x.powf(y),
        Binary::Log => x.log(y),
    }
}

impl Scalar for Real {
    fn from_ratio_spec(n: i32, d: i32) -> Self {
        Self::from_ratio(n, d)
    }
    fn unary_spec(self, f: Unary) -> Self {
        self.unary(f)
    }
    fn binary_spec(self, op: Binary, rhs: Self) -> Self {
        self.binary(op, rhs)
    }
    fn powi_spec(self, n: i32) -> Self {
        self.powi(n)
    }
    fn mul_add_spec(self, a: Self, b: Self) -> Self {
        self.mul_add(a, b)
    }
    fn near_zero_spec(self) -> bool {
        self.near_zero()
    }
    fn render_spec(self) -> String {
        self.render()
    }
    fn from_ratio(n: i32, d: i32) -> Self {
        Real(n as f64 / d as f64)
    }
    fn unary(self, f: Unary) -> Self {
        Real(unary_f64(self.0, f))
    }
    fn binary(self, op: Binary, rhs: Self) -> Self {
        Real(binary_f64(self.0, op, rhs.0))
    }
    fn powi(self, n: i32) -> Self {
        Real(self.0.powi(n))
    }
    fn mul_add(self, a: Self, b: Self) -> Self {
        Real(self.0.mul_add(a.0, b.0))
    }
    fn sin_cos(self) -> (Self, Self) {
        let (s, c) = self.0.sin_cos();
        (Real(s), Real(c))
    }
    fn near_zero(self) -> bool {
        self.0.abs() < f64::EPSILON
    }
    fn render(&self) -> String {
        format!("{}", self.0)
    }
}

const ALL_UNARY: [Unary; 23] = [
    Unary::Neg,
    Unary::Recip,
    Unary::Sqrt,
    Unary::Cbrt,
    Unary::Exp,
    Unary::Exp2,
    Unary::Expm1,
    Unary::Ln,
    Unary::Log2,
    Unary::Log10,
    Unary::Ln1p,
    Unary::Sin,
    Unary::Cos,
    Unary::Tan,
    Unary::Asin,
    Unary::Acos,
    Unary::Atan,
    Unary::Sinh,
    Unary::Cosh,
    Unary::Tanh,
    Unary::Asinh,
    Unary::Acosh,
    Unary::Atanh,
];

fn dual(re: f64, eps: f64) -> Dual<Real> {
    Dual::new(Real(re), Real(eps))
}

fn hyper(re: f64, eps1: f64, eps2: f64, eps1eps2: f64) -> HyperDual<Real> {
    HyperDual::new(Real(re), Real(eps1), Real(eps2), Real(eps1eps2))
}

fn third(v0: f64, v1: f64, v2: f64, v3: f64) -> ThirdOrderJet<Real> {
    ThirdOrderJet::new(Real(v0), Real(v1), Real(v2), Real(v3))
}

fn close(a: f64, b: f64) -> bool {
    (a - b).abs() <= 1e-12 * (1.0 + a.abs().max(b.abs()))
}

#[test]
fn from_re_has_value_and_zero_derivatives() {
    for x in [0.0, -1.5, 3.25, 1e300, f64::MIN_POSITIVE] {
        let d = Dual::<Real>::from_re(Real(x));
        assert_eq!(d.re(), Real(x));
        assert_eq!(d.eps(), Real(0.0));
        let h = HyperDual::<Real>::from_re(Real(x));
        assert_eq!(h.re(), Real(x));
        assert_eq!((h.eps1(), h.eps2(), h.eps1eps2()), (Real(0.0), Real(0.0), Real(0.0)));
        let t = ThirdOrderJet::<Real>::from_re(Real(x));
        assert_eq!(t.re(), Real(x));
        assert_eq!((t.v1(), t.v2(), t.v3()), (Real(0.0), Real(0.0), Real(0.0)));
        let v = DualVec::<Real, 3>::from_re(Real(x));
        assert_eq!(v.re(), Real(x));
        assert_eq!(*v.eps().raw_array(), [Real(0.0); 3]);
        let w = HyperDualVec::<Real, 2, 3>::from_re(Real(x));
        assert_eq!(w.re(), Real(x));
        assert_eq!(*w.eps1().raw_array(), [Real(0.0); 2]);
        assert_eq!(*w.eps2().raw_array(), [Real(0.0); 3]);
        assert_eq!(*w.eps1eps2().raw_data(), [[Real(0.0); 3]; 2]);
    }
}

#[test]
fn dual_cube_at_two() {
    let y = dual(2.0, 1.0).powi(3);
    assert_eq!(y.re, Real(8.0));
    assert_eq!(y.eps, Real(12.0));
}

#[test]
fn hyperdual_x_squared_times_y() {
    let x = hyper(1.0, 1.0, 0.0, 0.0);
    let y = hyper(2.0, 0.0, 1.0, 0.0);
    let f = x.powi(2).mul(y);
    assert_eq!(f.re, Real(2.0));
    assert_eq!(f.eps1, Real(4.0));
    assert_eq!(f.eps2, Real(1.0));
    assert_eq!(f.eps1eps2, Real(2.0));
    let ox = num_dual::HyperDual64::new_scalar(1.0, 1.0, 0.0, 0.0);
    let oy = num_dual::HyperDual64::new_scalar(2.0, 0.0, 1.0, 0.0);
    let of = ox.powi(2) * oy;
    assert_eq!(f.re.0, of.re);
    assert_eq!(f.eps1.0, of.eps1[0]);
    assert_eq!(f.eps2.0, of.eps2[0]);
    assert_eq!(f.eps1eps2.0, of.eps1eps2[(0, 0)]);
}

#[test]
fn third_order_cube_at_two() {
    let x = derive3::<Real, 0>(Input::Scalar(Real(2.0))).unwrap();
    assert_eq!(x, third(2.0, 1.0, 0.0, 0.0));
    let y = x.powi(3);
    assert_eq!(y, third(8.0, 12.0, 12.0, 6.0));
}

#[test]
fn derive1_array_seeds_identity_rows() {
    let seeded = derive1(Input::Array([Real(0.5), Real(-2.0), Real(7.0)])).unwrap();
    let x = match seeded {
        Seeded1::Vector(x) => x,
        Seeded1::Scalar(_) => panic!("an array was seeded as a scalar"),
    };
    let values = [0.5, -2.0, 7.0];
    for i in 0..3 {
        assert_eq!(x.get(i).re, Real(values[i]));
        for k in 0..3 {
            let expected = if i == k { 1.0 } else { 0.0 };
            assert_eq!(x.get(i).eps.get(k), Real(expected));
        }
    }
    let two = DualVec::<Real, 3>::from_re(Real(2.0));
    let g = x.get(0).add(two.mul(x.get(1)));
    assert_eq!(g.re, Real(-3.5));
    assert_eq!(*g.eps.raw_array(), [Real(1.0), Real(2.0), Real(0.0)]);
}

#[test]
fn derive1_scalar_seeds_unit_derivative() {
    let seeded = derive1::<Real, 0>(Input::Scalar(Real(3.0))).unwrap();
    assert_eq!(seeded, Seeded1::Scalar(dual(3.0, 1.0)));
}

#[test]
fn derive1_rejects_eleven_coordinates() {
    let r = derive1(Input::Array([Real(1.0); 11]));
    assert_eq!(r, Err(Error::UnsupportedShape { first: Shape::Array(11), second: None }));
}

#[test]
fn derive1_arity_bounds() {
    assert!(derive1(Input::Array([Real(1.0); 2])).is_ok());
    assert!(derive1(Input::Array([Real(1.0); 10])).is_ok());
    assert_eq!(
        derive1(Input::Array([Real(1.0); 1])),
        Err(Error::UnsupportedShape { first: Shape::Array(1), second: None })
    );
    assert_eq!(
        derive1(Input::<Real, 0>::Array([])),
        Err(Error::UnsupportedShape { first: Shape::Array(0), second: None })
    );
}

#[test]
fn sin_cos_agrees_with_sin_and_cos() {
    let d = dual(0.7, 1.3);
    assert_eq!(d.sin_cos(), (d.sin(), d.cos()));
    let h = hyper(0.7, 1.3, -0.4, 2.5);
    assert_eq!(h.sin_cos(), (h.sin(), h.cos()));
    let t = third(0.7, 1.3, -0.4, 2.5);
    assert_eq!(t.sin_cos(), (t.sin(), t.cos()));
    let v = DualVec::new(Real(0.7), StaticVec::new_vec([Real(1.3), Real(-0.4), Real(2.5)]));
    assert_eq!(v.sin_cos(), (v.sin(), v.cos()));
    let w = HyperDualVec::new(
        Real(0.7),
        StaticVec::new_vec([Real(1.3), Real(-0.4)]),
        StaticVec::new_vec([Real(2.5), Real(0.1), Real(-3.0)]),
        StaticMat::new([[Real(0.2), Real(0.3), Real(0.4)], [Real(-0.5), Real(0.6), Real(0.7)]]),
    );
    assert_eq!(w.sin_cos(), (w.sin(), w.cos()));
    let n = Dual::new(d, dual(-0.2, 0.9));
    assert_eq!(n.sin_cos(), (n.sin(), n.cos()));
}

#[test]
fn mul_add_is_product_plus_sum() {
    let a = dual(1.5, 0.25);
    let b = dual(-2.0, 3.0);
    let c = dual(0.75, -1.0);
    assert_eq!(a.mul_add(b, c), a.mul(b).add(c));
    assert_eq!(a.mul_add(b, c), dual(-2.25, 3.0));
    let x = Real(0.1);
    let fused = x.mul_add(Real(10.0), Real(-1.0));
    let plain = x.mul(Real(10.0)).add(Real(-1.0));
    assert!((fused.0 - plain.0).abs() <= f64::EPSILON);
    assert_eq!(fused, Real(0.1f64.mul_add(10.0, -1.0)));
}

#[test]
fn dual_agrees_with_num_dual_on_elementary_functions() {
    for &(re, eps) in &[(0.37, 1.0), (0.81, -2.5), (0.05, 0.3)] {
        let x = dual(re, eps);
        let o = num_dual::Dual64::new_scalar(re, eps);
        let pairs = [
            (x.recip(), o.recip()),
            (x.sqrt(), o.sqrt()),
            (x.cbrt(), o.cbrt()),
            (x.exp(), o.exp()),
            (x.exp2(), o.exp2()),
            (x.expm1(), o.exp_m1()),
            (x.ln(), o.ln()),
            (x.log2(), o.log2()),
            (x.log10(), o.log10()),
            (x.ln_1p(), o.ln_1p()),
            (x.sin(), o.sin()),
            (x.cos(), o.cos()),
            (x.asin(), o.asin()),
            (x.acos(), o.acos()),
            (x.atan(), o.atan()),
            (x.sinh(), o.sinh()),
            (x.cosh(), o.cosh()),
            (x.asinh(), o.asinh()),
            (x.atanh(), o.atanh()),
            (x.neg(), -o),
            (x.powi(5), o.powi(5)),
            (x.powi(2), o.powi(2)),
            (x.powi(1), o.powi(1)),
            (x.powi(0), o.powi(0)),
            (x.mul(x), o * o),
            (x.add(x.exp()), o + o.exp()),
            (x.sub(x.exp()), o - o.exp()),
            (x.mul(x.exp()), o * o.exp()),
            (x.powd(x.cos()), o.powd(&o.cos())),
            (log_base(x, Real(3.0)), o.log(3.0)),
        ];
        for (i, (mine, theirs)) in pairs.iter().enumerate() {
            assert_eq!(mine.re.0, theirs.re, "value of entry {} at {}", i, re);
            assert_eq!(mine.eps.0, theirs.eps[0], "derivative of entry {} at {}", i, re);
        }
        let near = [
            (x.tan(), o.tan()),
            (x.tanh(), o.tanh()),
            (x.powi(-3), o.powi(-3)),
            (x.div(x.exp()), o / o.exp()),
            (powf(x, Real(2.5)), o.powf(2.5)),
            (x.mul(x).add(Dual::from_re(Real(1.0))).acosh(), (o * o + 1.0).acosh()),
        ];
        for (i, (mine, theirs)) in near.iter().enumerate() {
            assert!(close(mine.re.0, theirs.re), "value of entry {} at {}", i, re);
            assert!(close(mine.eps.0, theirs.eps[0]), "derivative of entry {} at {}", i, re);
        }
    }
}

#[test]
fn third_order_agrees_with_num_dual_on_elementary_functions() {
    for &(v0, v1, v2, v3) in &[(0.37, 1.0, 0.0, 0.0), (0.81, -2.5, 0.5, 1.25)] {
        let x = third(v0, v1, v2, v3);
        let o = num_dual::Dual3_64::new(v0, v1, v2, v3);
        let pairs = [
            (x.recip(), o.recip()),
            (x.sqrt(), o.sqrt()),
            (x.cbrt(), o.cbrt()),
            (x.exp(), o.exp()),
            (x.exp2(), o.exp2()),
            (x.expm1(), o.exp_m1()),
            (x.ln(), o.ln()),
            (x.log2(), o.log2()),
            (x.log10(), o.log10()),
            (x.ln_1p(), o.ln_1p()),
            (x.sin(), o.sin()),
            (x.cos(), o.cos()),
            (x.asin(), o.asin()),
            (x.acos(), o.acos()),
            (x.atan(), o.atan()),
            (x.sinh(), o.sinh()),
            (x.cosh(), o.cosh()),
            (x.asinh(), o.asinh()),
            (x.atanh(), o.atanh()),
            (x.powi(5), o.powi(5)),
            (x.powi(-3), o.powi(-3)),
            (x.tan(), o.tan()),
            (x.tanh(), o.tanh()),
            (x.mul(x.exp()), o * o.exp()),
            (x.div(x.exp()), o / o.exp()),
            (x.powd(x.cos()), o.powd(&o.cos())),
            (powf(x, Real(2.5)), o.powf(2.5)),
            (sph_j0(x), o.sph_j0()),
            (sph_j1(x), o.sph_j1()),
            (sph_j2(x), o.sph_j2()),
        ];
        for (i, (mine, theirs)) in pairs.iter().enumerate() {
            assert!(close(mine.v0.0, theirs.re), "v0 of entry {} at {}", i, v0);
            assert!(close(mine.v1.0, theirs.v1), "v1 of entry {} at {}", i, v0);
            assert!(close(mine.v2.0, theirs.v2), "v2 of entry {} at {}", i, v0);
            assert!(close(mine.v3.0, theirs.v3), "v3 of entry {} at {}", i, v0);
        }
    }
}

#[test]
fn every_function_keeps_the_value_part() {
    for f in ALL_UNARY {
        let x = hyper(0.4, 1.0, 2.0, 3.0);
        assert_eq!(x.unary(f).re.0.to_bits(), Real(0.4).unary(f).0.to_bits(), "{:?}", f);
    }
}

fn real_vec<const N: usize>(x: [f64; N]) -> StaticVec<Real, N> {
    StaticVec::new_vec(x.map(Real))
}

fn real_mat<const M: usize, const N: usize>(x: [[f64; N]; M]) -> StaticMat<Real, M, N> {
    StaticMat::new(x.map(|row| row.map(Real)))
}

fn tuple(f0: f64, f1: f64, f2: f64, f3: f64) -> Derivatives<Real> {
    Derivatives { f0: Real(f0), f1: Real(f1), f2: Real(f2), f3: Real(f3) }
}

fn close_tuple(a: Derivatives<Real>, b: Derivatives<Real>) -> bool {
    close(a.f0.0, b.f0.0) && close(a.f1.0, b.f1.0) && close(a.f2.0, b.f2.0) && close(a.f3.0, b.f3.0)
}

#[test]
fn derivative_tuples_at_exact_points() {
    assert_eq!(derivatives(Unary::Recip, Real(2.0)), tuple(0.5, -0.25, 0.25, -0.375));
    assert_eq!(derivatives(Unary::Sqrt, Real(4.0)), tuple(2.0, 0.25, -0.03125, 0.01171875));
    assert_eq!(derivatives(Unary::Exp, Real(0.0)), tuple(1.0, 1.0, 1.0, 1.0));
    assert_eq!(derivatives(Unary::Expm1, Real(0.0)), tuple(0.0, 1.0, 1.0, 1.0));
    assert_eq!(derivatives(Unary::Ln, Real(1.0)), tuple(0.0, 1.0, -1.0, 2.0));
    assert_eq!(derivatives(Unary::Ln, Real(2.0)), tuple(2.0f64.ln(), 0.5, -0.25, 0.25));
    assert_eq!(derivatives(Unary::Ln1p, Real(0.0)), tuple(0.0, 1.0, -1.0, 2.0));
    assert_eq!(derivatives(Unary::Sin, Real(0.0)), tuple(0.0, 1.0, 0.0, -1.0));
    assert_eq!(derivatives(Unary::Cos, Real(0.0)), tuple(1.0, 0.0, -1.0, 0.0));
    assert_eq!(derivatives(Unary::Tan, Real(0.0)), tuple(0.0, 1.0, 0.0, 2.0));
    assert_eq!(derivatives(Unary::Asin, Real(0.0)), tuple(0.0, 1.0, 0.0, 1.0));
    assert_eq!(
        derivatives(Unary::Acos, Real(0.0)),
        tuple(std::f64::consts::FRAC_PI_2, -1.0, 0.0, -1.0)
    );
    assert_eq!(derivatives(Unary::Atan, Real(0.0)), tuple(0.0, 1.0, 0.0, -2.0));
    assert_eq!(derivatives(Unary::Atan, Real(1.0)), tuple(1.0f64.atan(), 0.5, -0.5, 0.5));
    assert_eq!(derivatives(Unary::Sinh, Real(0.0)), tuple(0.0, 1.0, 0.0, 1.0));
    assert_eq!(derivatives(Unary::Cosh, Real(0.0)), tuple(1.0, 0.0, 1.0, 0.0));
    assert_eq!(derivatives(Unary::Tanh, Real(0.0)), tuple(0.0, 1.0, 0.0, -2.0));
    assert_eq!(derivatives(Unary::Asinh, Real(0.0)), tuple(0.0, 1.0, 0.0, -1.0));
    assert_eq!(derivatives(Unary::Atanh, Real(0.0)), tuple(0.0, 1.0, 0.0, 2.0));
    assert_eq!(derivatives(Unary::Neg, Real(3.0)), tuple(-3.0, -1.0, 0.0, 0.0));
    let ln2 = 2.0f64.ln();
    let ln10 = 10.0f64.ln();
    assert_eq!(
        derivatives(Unary::Exp2, Real(0.0)),
        tuple(1.0, ln2, ln2 * ln2, ln2 * ln2 * ln2)
    );
    assert_eq!(
        derivatives(Unary::Log2, Real(1.0)),
        tuple(0.0, 1.0 / ln2, -(1.0 / ln2), -(1.0 / ln2) * -2.0)
    );
    assert_eq!(
        derivatives(Unary::Log10, Real(1.0)),
        tuple(0.0, 1.0 / ln10, -(1.0 / ln10), -(1.0 / ln10) * -2.0)
    );
    assert!(close_tuple(
        derivatives(Unary::Cbrt, Real(8.0)),
        tuple(2.0, 1.0 / 12.0, -1.0 / 144.0, 5.0 / 3456.0)
    ));
    let r3 = 3.0f64.sqrt();
    assert!(close_tuple(
        derivatives(Unary::Acosh, Real(2.0)),
        tuple(2.0f64.acosh(), 1.0 / r3, -2.0 / (3.0 * r3), 9.0 / (9.0 * r3))
    ));
    assert!(close_tuple(
        derivatives(Unary::Tan, Real(0.5)),
        {
            let t = 0.5f64.tan();
            let sec2 = 1.0 + t * t;
            tuple(t, sec2, 2.0 * t * sec2, 2.0 * sec2 * (sec2 + 2.0 * t * t))
        }
    ));
    assert!(close_tuple(
        derivatives(Unary::Tanh, Real(0.5)),
        {
            let t = 0.5f64.tanh();
            let s = 1.0 - t * t;
            tuple(t, s, -2.0 * t * s, -2.0 * s * s + 4.0 * t * t * s)
        }
    ));
}

#[test]
fn power_tuples() {
    assert_eq!(powi_derivatives(Real(2.0), 3), tuple(8.0, 12.0, 12.0, 6.0));
    assert_eq!(powi_derivatives(Real(2.0), 5), tuple(32.0, 80.0, 160.0, 240.0));
    assert_eq!(powi_derivatives(Real(2.0), -1), tuple(0.5, -0.25, 0.25, -0.375));
    assert_eq!(powi_derivatives(Real(0.0), 3), tuple(0.0, 0.0, 0.0, 6.0));
    assert_eq!(powi_derivatives(Real(1.0), i32::MIN).f0, Real(1.0));
    assert_eq!(powi_derivatives(Real(1.0), i32::MIN).f1, Real(i32::MIN as f64));
    assert_eq!(powi_derivatives(Real(1.0), i32::MAX).f1, Real(i32::MAX as f64));
}

#[test]
fn integer_powers_at_zero() {
    let x = third(0.0, 1.0, 0.0, 0.0);
    assert_eq!(x.powi(0), third(1.0, 0.0, 0.0, 0.0));
    assert_eq!(x.powi(1), x);
    assert_eq!(x.powi(2), third(0.0, 0.0, 2.0, 0.0));
    assert_eq!(x.powi(3), third(0.0, 0.0, 0.0, 6.0));
    assert_eq!(x.powi(4), third(0.0, 0.0, 0.0, 0.0));
}

#[test]
fn constants_from_ratios() {
    assert_eq!(Real::from_ratio(1, 2), Real(0.5));
    assert_eq!(Real::from_ratio(-3, 2), Real(-1.5));
    assert_eq!(Real::from_i32(7), Real(7.0));
    assert_eq!(Real::zero(), Real(0.0));
    assert_eq!(Real::one(), Real(1.0));
    assert_eq!(Dual::<Real>::from_ratio(1, 4), dual(0.25, 0.0));
    assert_eq!(Dual::<Real>::one(), dual(1.0, 0.0));
    assert_eq!(HyperDual::<Real>::from_i32(-2), hyper(-2.0, 0.0, 0.0, 0.0));
}

#[test]
fn hyperdual_agrees_with_num_dual() {
    let x = hyper(0.37, 1.0, -0.5, 0.25);
    let y = hyper(1.9, 0.0, 1.0, 2.0);
    let ox = num_dual::HyperDual64::new_scalar(0.37, 1.0, -0.5, 0.25);
    let oy = num_dual::HyperDual64::new_scalar(1.9, 0.0, 1.0, 2.0);
    let pairs = [
        (x.mul(y), ox * oy),
        (x.add(y), ox + oy),
        (x.sub(y), ox - oy),
        (x.neg(), -ox),
        (x.recip(), ox.recip()),
        (x.sqrt(), ox.sqrt()),
        (x.cbrt(), ox.cbrt()),
        (x.exp(), ox.exp()),
        (x.exp2(), ox.exp2()),
        (x.expm1(), ox.exp_m1()),
        (x.ln(), ox.ln()),
        (x.log2(), ox.log2()),
        (x.log10(), ox.log10()),
        (x.ln_1p(), ox.ln_1p()),
        (x.sin(), ox.sin()),
        (x.cos(), ox.cos()),
        (x.asin(), ox.asin()),
        (x.acos(), ox.acos()),
        (x.atan(), ox.atan()),
        (x.sinh(), ox.sinh()),
        (x.cosh(), ox.cosh()),
        (x.asinh(), ox.asinh()),
        (y.acosh(), oy.acosh()),
        (x.atanh(), ox.atanh()),
        (x.powi(4), ox.powi(4)),
        (x.mul_add(y, x), ox.mul_add(oy, ox)),
    ];
    for (i, (mine, theirs)) in pairs.iter().enumerate() {
        assert_eq!(mine.re.0, theirs.re, "value of entry {}", i);
        assert_eq!(mine.eps1.0, theirs.eps1[0], "eps1 of entry {}", i);
        assert_eq!(mine.eps2.0, theirs.eps2[0], "eps2 of entry {}", i);
        assert_eq!(mine.eps1eps2.0, theirs.eps1eps2[(0, 0)], "eps1eps2 of entry {}", i);
    }
    let near = [
        (x.div(y), ox / oy),
        (x.tan(), ox.tan()),
        (x.tanh(), ox.tanh()),
        (x.powi(-2), ox.powi(-2)),
        (x.powd(y), ox.powd(&oy)),
        (powf(x, Real(1.7)), ox.powf(1.7)),
        (sph_j0(y), oy.sph_j0()),
        (sph_j1(y), oy.sph_j1()),
        (sph_j2(y), oy.sph_j2()),
    ];
    for (i, (mine, theirs)) in near.iter().enumerate() {
        assert!(close(mine.re.0, theirs.re), "value of entry {}", i);
        assert!(close(mine.eps1.0, theirs.eps1[0]), "eps1 of entry {}", i);
        assert!(close(mine.eps2.0, theirs.eps2[0]), "eps2 of entry {}", i);
        assert!(close(mine.eps1eps2.0, theirs.eps1eps2[(0, 0)]), "eps1eps2 of entry {}", i);
    }
}

#[test]
fn second_order_agrees_with_num_dual() {
    let x = SecondOrderJet::new(Real(0.37), Real(1.0), Real(0.0));
    let ox = num_dual::Dual2_64::new_scalar(0.37, 1.0, 0.0);
    assert_eq!(SecondOrderJet::from_re(Real(0.37)).derive(), x);
    let pairs = [
        (x.exp().mul(x.sin()), ox.exp() * ox.sin()),
        (x.recip(), ox.recip()),
        (x.sqrt(), ox.sqrt()),
        (x.powi(3), ox.powi(3)),
        (x.atan(), ox.atan()),
        (x.ln().add(x), ox.ln() + ox),
    ];
    for (i, (mine, theirs)) in pairs.iter().enumerate() {
        assert!(close(mine.v0.0, theirs.re), "v0 of entry {}", i);
        assert!(close(mine.v1.0, theirs.v1[0]), "v1 of entry {}", i);
        assert!(close(mine.v2.0, theirs.v2[(0, 0)]), "v2 of entry {}", i);
    }
    let cube = SecondOrderJet::new(Real(2.0), Real(1.0), Real(0.0)).powi(3);
    assert_eq!(cube, SecondOrderJet::new(Real(8.0), Real(12.0), Real(12.0)));
    assert_eq!((cube.re(), cube.v1(), cube.v2()), (Real(8.0), Real(12.0), Real(12.0)));
}

#[test]
fn third_order_product_is_the_leibniz_rule() {
    let a = third(2.0, 3.0, 5.0, 7.0);
    let b = third(11.0, 13.0, 17.0, 19.0);
    let p = a.mul(b);
    assert_eq!(p.v0, Real(22.0));
    assert_eq!(p.v1, Real(2.0 * 13.0 + 3.0 * 11.0));
    assert_eq!(p.v2, Real(2.0 * 17.0 + 2.0 * 3.0 * 13.0 + 5.0 * 11.0));
    assert_eq!(p.v3, Real(2.0 * 19.0 + 3.0 * 3.0 * 17.0 + 3.0 * 5.0 * 13.0 + 7.0 * 11.0));
    let oa = num_dual::Dual3_64::new(2.0, 3.0, 5.0, 7.0);
    let ob = num_dual::Dual3_64::new(11.0, 13.0, 17.0, 19.0);
    let op = oa * ob;
    assert_eq!((p.v0.0, p.v1.0, p.v2.0, p.v3.0), (op.re, op.v1, op.v2, op.v3));
}

#[test]
fn third_order_chain_rule() {
    let x = third(0.5, 2.0, 3.0, 4.0);
    let d = tuple(10.0, 20.0, 30.0, 40.0);
    let y = x.chain(d);
    assert_eq!(y.v0, Real(10.0));
    assert_eq!(y.v1, Real(20.0 * 2.0));
    assert_eq!(y.v2, Real(30.0 * 2.0 * 2.0 + 20.0 * 3.0));
    assert_eq!(y.v3, Real(40.0 * 8.0 + 3.0 * 30.0 * 2.0 * 3.0 + 20.0 * 4.0));
    let h = hyper(0.5, 2.0, 3.0, 4.0).chain(d);
    assert_eq!(h, hyper(10.0, 40.0, 60.0, 20.0 * 4.0 + 30.0 * 2.0 * 3.0));
    let e = dual(0.5, 2.0).chain(d);
    assert_eq!(e, dual(10.0, 40.0));
}

#[test]
fn division_is_multiplication_by_the_reciprocal() {
    let a = hyper(1.5, 0.25, -1.0, 2.0);
    let b = hyper(-2.0, 3.0, 0.5, 1.0);
    assert_eq!(a.div(b), a.mul(b.recip()));
    assert_eq!(a.binary(Binary::Div, b), a.mul(b.recip()));
    let q = dual(1.0, 0.0).div(dual(2.0, 1.0));
    assert_eq!(q, dual(0.5, -0.25));
}

#[test]
fn powers_and_logarithms_of_jets() {
    let x = dual(2.0, 1.0);
    let n = dual(3.0, 0.0);
    let p = x.powd(n);
    assert_eq!(p, x.ln().mul(n).exp());
    assert!(close(p.re.0, 8.0));
    assert!(close(p.eps.0, 12.0));
    let q = powf(x, Real(3.0));
    assert_eq!(q, x.ln().scale(Real(3.0)).exp());
    assert!(close(q.re.0, 8.0));
    assert!(close(q.eps.0, 12.0));
    let l = dual(8.0, 1.0).binary(Binary::Log, dual(2.0, 0.0));
    assert!(close(l.re.0, 3.0));
    assert!(close(l.eps.0, 1.0 / (8.0 * 2.0f64.ln())));
    let lb = log_base(dual(8.0, 1.0), Real(2.0));
    assert_eq!(lb.re, Real(8.0f64.log(2.0)));
    assert_eq!(lb.eps, Real(0.125 / 2.0f64.ln()));
    assert_eq!(Real(8.0).powd(Real(2.0)), Real(64.0));
    assert_eq!(Real(8.0).binary(Binary::Log, Real(2.0)), Real(8.0f64.log(2.0)));
}

#[test]
fn operators_with_a_plain_scalar() {
    let x = hyper(1.5, 0.25, -1.0, 2.0);
    let ox = num_dual::HyperDual64::new_scalar(1.5, 0.25, -1.0, 2.0);
    let s = Real(4.0);
    let same = |mine: HyperDual<Real>, theirs: num_dual::HyperDual64| {
        assert_eq!(mine.re.0, theirs.re);
        assert_eq!(mine.eps1.0, theirs.eps1[0]);
        assert_eq!(mine.eps2.0, theirs.eps2[0]);
        assert_eq!(mine.eps1eps2.0, theirs.eps1eps2[(0, 0)]);
    };
    same(with_scalar(x, Arith::Add, s), ox + 4.0);
    same(with_scalar(x, Arith::Sub, s), ox - 4.0);
    same(with_scalar(x, Arith::Mul, s), ox * 4.0);
    same(with_scalar(x, Arith::Div, s), ox / 4.0);
    same(scalar_with(s, Arith::Add, x), ox + 4.0);
    same(scalar_with(s, Arith::Sub, x), -ox + 4.0);
    same(scalar_with(s, Arith::Mul, x), ox * 4.0);
    same(scalar_with(s, Arith::Div, x), ox.recip() * 4.0);
    assert_eq!(with_scalar(x, Arith::Add, s), hyper(5.5, 0.25, -1.0, 2.0));
    assert_eq!(with_scalar(x, Arith::Sub, s), hyper(-2.5, 0.25, -1.0, 2.0));
    assert_eq!(with_scalar(x, Arith::Mul, s), hyper(6.0, 1.0, -4.0, 8.0));
    assert_eq!(with_scalar(x, Arith::Div, s), hyper(0.375, 0.0625, -0.25, 0.5));
    assert_eq!(scalar_with(s, Arith::Sub, x), hyper(2.5, -0.25, 1.0, -2.0));
}

#[test]
fn operators_dispatch_on_the_operand() {
    let x = dual(1.5, 0.25);
    let y = dual(-2.0, 3.0);
    for op in [Arith::Add, Arith::Sub, Arith::Mul, Arith::Div] {
        assert_eq!(arith(x, op, Operand::Scalar(Real(4.0))), with_scalar(x, op, Real(4.0)));
        assert_eq!(
            checked_arith(x, op, Some(Operand::SameJet(y))),
            Ok(arith(x, op, Operand::SameJet(y)))
        );
        assert_eq!(checked_arith(x, op, None), Err(Error::InvalidOperand));
    }
    assert_eq!(arith(x, Arith::Add, Operand::SameJet(y)), x.add(y));
    assert_eq!(arith(x, Arith::Sub, Operand::SameJet(y)), x.sub(y));
    assert_eq!(arith(x, Arith::Mul, Operand::SameJet(y)), x.mul(y));
    assert_eq!(arith(x, Arith::Div, Operand::SameJet(y)), x.div(y));
    assert_eq!(arith(x, Arith::Mul, Operand::SameJet(y)), dual(-3.0, 4.0));
}

#[test]
fn powers_dispatch_on_the_exponent() {
    let x = dual(2.0, 1.0);
    assert_eq!(pow(x, Exponent::Int(3)), dual(8.0, 12.0));
    assert_eq!(pow(x, Exponent::Real(Real(1.5))), powf(x, Real(1.5)));
    assert_eq!(pow(x, Exponent::Jet(dual(1.5, 2.0))), x.powd(dual(1.5, 2.0)));
    assert_eq!(checked_pow(x, Some(Exponent::Int(3))), Ok(dual(8.0, 12.0)));
    assert_eq!(checked_pow(x, None), Err(Error::InvalidOperand));
}

#[test]
fn error_messages_name_the_shapes() {
    let e = Error::UnsupportedShape { first: Shape::Array(11), second: None };
    assert_eq!(e.message(), "unsupported input: an array of length 11");
    let e = Error::UnsupportedShape { first: Shape::Scalar, second: Some(Shape::Array(6)) };
    assert_eq!(e.message(), "unsupported input: a scalar and an array of length 6");
    let e = Error::UnsupportedShape { first: Shape::Array(0), second: Some(Shape::Array(1205)) };
    assert_eq!(
        e.message(),
        "unsupported input: an array of length 0 and an array of length 1205"
    );
    assert_eq!(
        Error::InvalidOperand.message(),
        "invalid operand: neither a scalar nor a jet of the same type"
    );
    assert_eq!(Shape::Scalar.text(), "a scalar");
    assert_eq!(dualnum::error::decimal(0), "0");
    assert_eq!(dualnum::error::decimal(9), "9");
    assert_eq!(dualnum::error::decimal(10), "10");
    assert_eq!(dualnum::error::decimal(usize::MAX), usize::MAX.to_string());
}

#[test]
fn shapes_of_inputs() {
    assert_eq!(Input::<Real, 4>::Scalar(Real(1.0)).shape(), Shape::Scalar);
    assert_eq!(Input::Array([Real(1.0); 4]).shape(), Shape::Array(4));
}

#[test]
fn unit_vectors() {
    assert_eq!(unit_vector::<Real, 3>(1), real_vec([0.0, 1.0, 0.0]));
    assert_eq!(unit_vector::<Real, 3>(3), real_vec([0.0, 0.0, 0.0]));
    assert_eq!(unit_vector::<Real, 1>(0), real_vec([1.0]));
}

#[test]
fn derive2_of_one_scalar() {
    let r = derive2::<Real, 0, 0>(Input::Scalar(Real(3.0)), None);
    assert_eq!(r, Ok(Seeded2::Scalar(hyper(3.0, 1.0, 0.0, 0.0))));
}

#[test]
fn derive2_of_one_array() {
    let r = derive2::<Real, 2, 0>(Input::Array([Real(3.0), Real(4.0)]), None).unwrap();
    let zero = real_vec([0.0, 0.0]);
    let block = real_mat([[0.0, 0.0], [0.0, 0.0]]);
    let expected = StaticVec::new_vec([
        HyperDualVec::new(Real(3.0), real_vec([1.0, 0.0]), zero, block),
        HyperDualVec::new(Real(4.0), real_vec([0.0, 1.0]), zero, block),
    ]);
    assert_eq!(r, Seeded2::Vector(expected));
}

#[test]
fn derive2_of_two_scalars() {
    let r = derive2::<Real, 0, 0>(Input::Scalar(Real(3.0)), Some(Input::Scalar(Real(4.0))));
    let (x, y) = match r {
        Ok(Seeded2::ScalarScalar(x, y)) => (x, y),
        other => panic!("unexpected {:?}", other),
    };
    assert_eq!(x, hyper(3.0, 1.0, 0.0, 0.0));
    assert_eq!(y, hyper(4.0, 0.0, 1.0, 0.0));
    let f = x.powi(2).mul(y).sub(y.powi(3));
    assert_eq!(f.re, Real(-28.0));
    assert_eq!((f.eps1, f.eps2), (Real(24.0), Real(-39.0)));
    assert_eq!(f.eps1eps2, Real(6.0));
}

#[test]
fn derive2_of_scalar_and_array() {
    let r = derive2::<Real, 0, 2>(
        Input::Scalar(Real(2.0)),
        Some(Input::Array([Real(2.0), Real(3.0)])),
    );
    let (x, v) = match r {
        Ok(Seeded2::ScalarVector(x, v)) => (x, v),
        other => panic!("unexpected {:?}", other),
    };
    let none = real_mat([[0.0, 0.0]]);
    assert_eq!(x, HyperDualVec::new(Real(2.0), real_vec([1.0]), real_vec([0.0, 0.0]), none));
    assert_eq!(
        v.get(0),
        HyperDualVec::new(Real(2.0), real_vec([0.0]), real_vec([1.0, 0.0]), none)
    );
    assert_eq!(
        v.get(1),
        HyperDualVec::new(Real(3.0), real_vec([0.0]), real_vec([0.0, 1.0]), none)
    );
    let n = x.powi(2).mul(v.get(0).powi(2)).add(v.get(1).powi(2)).sqrt();
    assert_eq!(n.re, Real(5.0));
    assert!(close(n.eps1.get(0).0, 1.6));
    assert!(close(n.eps2.get(0).0, 1.6));
    assert!(close(n.eps2.get(1).0, 0.6));
    assert!(close(n.eps1eps2.get(0, 0).0, 1.088));
    assert!(close(n.eps1eps2.get(0, 1).0, -0.192));
}

#[test]
fn derive2_of_array_and_scalar() {
    let r = derive2::<Real, 2, 0>(
        Input::Array([Real(2.0), Real(3.0)]),
        Some(Input::Scalar(Real(5.0))),
    );
    let (v, y) = match r {
        Ok(Seeded2::VectorScalar(v, y)) => (v, y),
        other => panic!("unexpected {:?}", other),
    };
    let none = real_mat([[0.0], [0.0]]);
    assert_eq!(
        v.get(0),
        HyperDualVec::new(Real(2.0), real_vec([1.0, 0.0]), real_vec([0.0]), none)
    );
    assert_eq!(
        v.get(1),
        HyperDualVec::new(Real(3.0), real_vec([0.0, 1.0]), real_vec([0.0]), none)
    );
    assert_eq!(y, HyperDualVec::new(Real(5.0), real_vec([0.0, 0.0]), real_vec([1.0]), none));
    let f = v.get(0).mul(v.get(1)).mul(y);
    assert_eq!(f.re, Real(30.0));
    assert_eq!(f.eps1, real_vec([15.0, 10.0]));
    assert_eq!(f.eps2, real_vec([6.0]));
    assert_eq!(f.eps1eps2, real_mat([[3.0], [2.0]]));
}

#[test]
fn derive2_of_two_arrays() {
    let r = derive2(
        Input::Array([Real(2.0), Real(3.0)]),
        Some(Input::Array([Real(5.0), Real(7.0), Real(11.0)])),
    );
    let (u, v) = match r {
        Ok(Seeded2::VectorVector(u, v)) => (u, v),
        other => panic!("unexpected {:?}", other),
    };
    for i in 0..2 {
        assert_eq!(u.get(i).eps1, unit_vector::<Real, 2>(i));
        assert_eq!(u.get(i).eps2, real_vec([0.0; 3]));
        assert_eq!(u.get(i).eps1eps2, real_mat([[0.0; 3]; 2]));
    }
    for j in 0..3 {
        assert_eq!(v.get(j).eps1, real_vec([0.0; 2]));
        assert_eq!(v.get(j).eps2, unit_vector::<Real, 3>(j));
        assert_eq!(v.get(j).eps1eps2, real_mat([[0.0; 3]; 2]));
    }
    let f = u.get(0).mul(v.get(1)).add(u.get(1).mul(v.get(2)).mul(v.get(2)));
    assert_eq!(f.re, Real(2.0 * 7.0 + 3.0 * 121.0));
    assert_eq!(f.eps1, real_vec([7.0, 121.0]));
    assert_eq!(f.eps2, real_vec([0.0, 2.0, 66.0]));
    assert_eq!(f.eps1eps2, real_mat([[0.0, 1.0, 0.0], [0.0, 0.0, 22.0]]));
}

#[test]
fn derive2_rejects_unsupported_arities() {
    assert_eq!(
        derive2::<Real, 6, 0>(Input::Array([Real(1.0); 6]), None),
        Err(Error::UnsupportedShape { first: Shape::Array(6), second: None })
    );
    assert_eq!(
        derive2::<Real, 1, 0>(Input::Array([Real(1.0); 1]), Some(Input::Scalar(Real(1.0)))),
        Err(Error::UnsupportedShape { first: Shape::Array(1), second: Some(Shape::Scalar) })
    );
    assert_eq!(
        derive2::<Real, 0, 6>(Input::Scalar(Real(1.0)), Some(Input::Array([Real(1.0); 6]))),
        Err(Error::UnsupportedShape { first: Shape::Scalar, second: Some(Shape::Array(6)) })
    );
    assert_eq!(
        derive2(Input::Array([Real(1.0); 3]), Some(Input::Array([Real(1.0); 6]))),
        Err(Error::UnsupportedShape {
            first: Shape::Array(3),
            second: Some(Shape::Array(6)),
        })
    );
    assert_eq!(
        derive2(Input::Array([Real(1.0); 7]), Some(Input::Array([Real(1.0); 2]))),
        Err(Error::UnsupportedShape {
            first: Shape::Array(7),
            second: Some(Shape::Array(2)),
        })
    );
    assert!(derive2(Input::Array([Real(1.0); 5]), Some(Input::Array([Real(1.0); 5]))).is_ok());
    assert!(derive2::<Real, 6, 0>(Input::Scalar(Real(1.0)), None).is_ok());
}

#[test]
fn derive3_rejects_arrays() {
    assert_eq!(
        derive3(Input::Array([Real(1.0); 3])),
        Err(Error::UnsupportedShape { first: Shape::Array(3), second: None })
    );
}

#[test]
fn derive3_of_nested_dual() {
    let x = derive3::<Dual<Real>, 0>(Input::Scalar(dual(2.0, 1.0))).unwrap();
    assert_eq!(x.v0, dual(2.0, 1.0));
    assert_eq!(x.v1, dual(1.0, 0.0));
    assert_eq!(x.v2, dual(0.0, 0.0));
    let y = x.powi(3);
    assert_eq!(y.v0, dual(8.0, 12.0));
    assert_eq!(y.v1, dual(12.0, 12.0));
    assert_eq!(y.v2, dual(12.0, 6.0));
    assert_eq!(y.v3, dual(6.0, 0.0));
}

#[test]
fn text_of_scalar_jets() {
    assert_eq!(dual(3.0, 0.0).text(), "3 + 0ε");
    assert_eq!(dual(-1.5, 2.25).render(), "-1.5 + 2.25ε");
    assert_eq!(hyper(3.0, 0.0, 0.0, 0.0).text(), "3 + 0ε1 + 0ε2 + 0ε1ε2");
    assert_eq!(hyper(1.0, 2.0, -3.0, 0.5).render(), "1 + 2ε1 + -3ε2 + 0.5ε1ε2");
    assert_eq!(third(8.0, 12.0, 12.0, 6.0).text(), "8 + 12v1 + 12v2 + 6v3");
    assert_eq!(
        third(8.0, 12.0, 12.0, 6.0).text(),
        num_dual::Dual3_64::new(8.0, 12.0, 12.0, 6.0).to_string()
    );
    assert_eq!(SecondOrderJet::new(Real(8.0), Real(12.0), Real(12.0)).text(), "8 + 12v1 + 12v2");
    assert_eq!(dual(f64::NAN, f64::INFINITY).text(), "NaN + infε");
}

#[test]
fn text_of_nested_jets() {
    let n = Dual::new(dual(1.0, 2.0), dual(3.0, 4.0));
    assert_eq!(n.text(), "1 + 2ε + 3 + 4εε");
    let h = HyperDual::new(dual(1.0, 2.0), dual(3.0, 4.0), dual(5.0, 6.0), dual(7.0, 8.0));
    assert_eq!(h.text(), "1 + 2ε + 3 + 4εε1 + 5 + 6εε2 + 7 + 8εε1ε2");
}

#[test]
fn text_of_containers() {
    assert_eq!(real_vec([1.0, 2.5, -3.0]).text(), "[1, 2.5, -3]");
    assert_eq!(real_vec([7.0]).text(), "[7]");
    assert_eq!(real_vec([]).text(), "[]");
    assert_eq!(real_mat([[1.0, 2.0], [3.0, 4.0]]).text(), "[[1, 2], [3, 4]]");
    assert_eq!(real_mat([[1.0, 2.0]]).text(), "[1, 2]");
    assert_eq!(real_mat([[1.0], [2.0], [3.0]]).text(), "[[1], [2], [3]]");
    assert_eq!(real_mat::<0, 2>([]).text(), "");
    assert_eq!(real_mat::<2, 0>([[], []]).text(), "[[], []]");
    assert_eq!(
        real_mat([[1.0, 2.0], [3.0, 4.0]]).text(),
        num_dual::StaticMat::new([[1.0, 2.0], [3.0, 4.0]]).to_string()
    );
    assert_eq!(
        real_vec([1.0, 2.5, -3.0]).text(),
        num_dual::StaticVec::new_vec([1.0, 2.5, -3.0]).to_string()
    );
}

#[test]
fn text_of_vector_jets() {
    let v = DualVec::new(Real(1.0), real_vec([1.0, 2.0, 0.0]));
    assert_eq!(v.text(), "1 + [1, 2, 0]ε");
    let o = num_dual::DualVec64::<3>::new(1.0, num_dual::StaticVec::new_vec([1.0, 2.0, 0.0]));
    assert_eq!(v.text(), o.to_string());
    let w = HyperDualVec::new(
        Real(0.5),
        real_vec([1.0, 0.0]),
        real_vec([0.0, 1.0, 2.0]),
        real_mat([[1.0, 2.0, 3.0], [4.0, 5.0, 6.0]]),
    );
    assert_eq!(w.text(), "0.5 + [1, 0]ε1 + [0, 1, 2]ε2 + [[1, 2, 3], [4, 5, 6]]ε1ε2");
    let ow = num_dual::HyperDualVec64::<2, 3>::new(
        0.5,
        num_dual::StaticVec::new_vec([1.0, 0.0]),
        num_dual::StaticVec::new_vec([0.0, 1.0, 2.0]),
        num_dual::StaticMat::new([[1.0, 2.0, 3.0], [4.0, 5.0, 6.0]]),
    );
    assert_eq!(w.render(), ow.to_string());
    let one = HyperDualVec::new(Real(3.0), real_vec([0.0]), real_vec([0.0]), real_mat([[0.0]]));
    assert_eq!(one.text(), "3 + [0]ε1 + [0]ε2 + [0]ε1ε2");
    assert_eq!(one.text(), num_dual::HyperDual64::from_re(3.0).to_string());
}

#[test]
fn containers_hold_and_map() {
    let v = StaticVec::new_vec([1.5, 2.5, 3.5]);
    assert_eq!(*v.raw_array(), [1.5, 2.5, 3.5]);
    assert_eq!(v.get(0), 1.5);
    assert_eq!(v.get(2), 3.5);
    let lifted: StaticVec<DualVec<Real, 3>, 3> = v.map(|x: f64| DualVec::from_re(Real(x)));
    for i in 0..3 {
        assert_eq!(lifted.get(i).re, Real(v.get(i)));
        assert_eq!(lifted.get(i).eps, real_vec([0.0; 3]));
    }
    let doubled = real_vec([1.0, 2.0]).map(|x: Real| Real(2.0 * x.0));
    assert_eq!(doubled, real_vec([2.0, 4.0]));
    let m = StaticMat::new([[1.0, 2.0, 3.0], [4.0, 5.0, 6.0]]);
    assert_eq!(*m.raw_data(), [[1.0, 2.0, 3.0], [4.0, 5.0, 6.0]]);
    assert_eq!(m.get(0, 0), 1.0);
    assert_eq!(m.get(1, 2), 6.0);
    assert_eq!(m.row(1), StaticVec::new_vec([4.0, 5.0, 6.0]));
    let squared = m.map(|x: f64| Real(x * x));
    assert_eq!(squared, real_mat([[1.0, 4.0, 9.0], [16.0, 25.0, 36.0]]));
    let empty: StaticVec<Real, 0> = StaticVec::new_vec([0.0f64; 0]).map(|x: f64| Real(x));
    assert_eq!(empty, real_vec([]));
}

#[test]
fn containers_act_on_each_element() {
    let a = real_vec([1.0, -2.0, 4.0]);
    let b = real_vec([0.5, 0.25, 2.0]);
    assert_eq!(StaticVec::<Real, 3>::zeros(), real_vec([0.0; 3]));
    assert_eq!(a.unary(Unary::Neg), real_vec([-1.0, 2.0, -4.0]));
    assert_eq!(a.unary(Unary::Recip), real_vec([1.0, -0.5, 0.25]));
    assert_eq!(a.binary(Binary::Add, &b), real_vec([1.5, -1.75, 6.0]));
    assert_eq!(a.binary(Binary::Sub, &b), real_vec([0.5, -2.25, 2.0]));
    assert_eq!(a.binary(Binary::Mul, &b), real_vec([0.5, -0.5, 8.0]));
    assert_eq!(a.binary(Binary::Div, &b), real_vec([2.0, -8.0, 2.0]));
    assert_eq!(a.scale(Real(3.0)), real_vec([3.0, -6.0, 12.0]));
    let m = real_mat([[1.0, -2.0], [4.0, 8.0]]);
    let n = real_mat([[0.5, 0.25], [2.0, -1.0]]);
    assert_eq!(StaticMat::<Real, 2, 2>::zeros(), real_mat([[0.0; 2]; 2]));
    assert_eq!(m.unary(Unary::Neg), real_mat([[-1.0, 2.0], [-4.0, -8.0]]));
    assert_eq!(m.binary(Binary::Add, &n), real_mat([[1.5, -1.75], [6.0, 7.0]]));
    assert_eq!(m.binary(Binary::Mul, &n), real_mat([[0.5, -0.5], [8.0, -8.0]]));
    assert_eq!(m.scale(Real(-2.0)), real_mat([[-2.0, 4.0], [-8.0, -16.0]]));
}

fn same_dual_vec<const N: usize>(mine: DualVec<Real, N>, theirs: num_dual::DualVec64<N>) {
    assert_eq!(mine.re.0, theirs.re);
    for i in 0..N {
        assert_eq!(mine.eps.get(i).0, theirs.eps[i], "direction {}", i);
    }
}

#[test]
fn dual_vec_agrees_with_num_dual() {
    let x = DualVec::new(Real(0.37), real_vec([1.0, -0.5, 0.25]));
    let y = DualVec::new(Real(1.9), real_vec([0.0, 1.0, 2.0]));
    let ox = num_dual::DualVec64::<3>::new(0.37, num_dual::StaticVec::new_vec([1.0, -0.5, 0.25]));
    let oy = num_dual::DualVec64::<3>::new(1.9, num_dual::StaticVec::new_vec([0.0, 1.0, 2.0]));
    same_dual_vec(x.add(y), ox + oy);
    same_dual_vec(x.sub(y), ox - oy);
    same_dual_vec(x.mul(y), ox * oy);
    same_dual_vec(x.neg(), -ox);
    same_dual_vec(x.recip(), ox.recip());
    same_dual_vec(x.sqrt(), ox.sqrt());
    same_dual_vec(x.exp(), ox.exp());
    same_dual_vec(x.ln(), ox.ln());
    same_dual_vec(x.sin(), ox.sin());
    same_dual_vec(x.cos(), ox.cos());
    same_dual_vec(x.atan(), ox.atan());
    same_dual_vec(x.powi(3), ox.powi(3));
    same_dual_vec(x.powd(y), ox.powd(&oy));
    same_dual_vec(x.mul_add(y, x), ox.mul_add(oy, ox));
    same_dual_vec(with_scalar(x, Arith::Mul, Real(3.0)), ox * 3.0);
    same_dual_vec(with_scalar(x, Arith::Add, Real(3.0)), ox + 3.0);
    same_dual_vec(scalar_with(Real(3.0), Arith::Sub, x), -ox + 3.0);
    assert_eq!(x.mul(y).eps, real_vec([1.9, 0.37 - 0.5 * 1.9, 0.37 * 2.0 + 0.25 * 1.9]));
}

#[test]
fn hyperdual_vec_agrees_with_num_dual() {
    let x = HyperDualVec::new(
        Real(0.37),
        real_vec([1.0, -0.5]),
        real_vec([0.25, 2.0, -1.0]),
        real_mat([[0.1, 0.2, 0.3], [0.4, 0.5, 0.6]]),
    );
    let y = HyperDualVec::new(
        Real(1.9),
        real_vec([0.0, 1.0]),
        real_vec([2.0, 0.5, 3.0]),
        real_mat([[1.0, 0.0, -1.0], [2.0, -2.0, 0.5]]),
    );
    let ox = num_dual::HyperDualVec64::<2, 3>::new(
        0.37,
        num_dual::StaticVec::new_vec([1.0, -0.5]),
        num_dual::StaticVec::new_vec([0.25, 2.0, -1.0]),
        num_dual::StaticMat::new([[0.1, 0.2, 0.3], [0.4, 0.5, 0.6]]),
    );
    let oy = num_dual::HyperDualVec64::<2, 3>::new(
        1.9,
        num_dual::StaticVec::new_vec([0.0, 1.0]),
        num_dual::StaticVec::new_vec([2.0, 0.5, 3.0]),
        num_dual::StaticMat::new([[1.0, 0.0, -1.0], [2.0, -2.0, 0.5]]),
    );
    let pairs = [
        (x.add(y), ox + oy),
        (x.sub(y), ox - oy),
        (x.mul(y), ox * oy),
        (x.neg(), -ox),
        (x.recip(), ox.recip()),
        (x.exp(), ox.exp()),
        (x.sin(), ox.sin()),
        (x.ln(), ox.ln()),
        (x.sqrt(), ox.sqrt()),
        (x.powi(3), ox.powi(3)),
        (x.div(y), ox / oy),
        (x.tan(), ox.tan()),
        (with_scalar(x, Arith::Div, Real(3.0)), ox / 3.0),
    ];
    for (n, (mine, theirs)) in pairs.iter().enumerate() {
        assert!(close(mine.re.0, theirs.re), "value of entry {}", n);
        for i in 0..2 {
            assert!(close(mine.eps1.get(i).0, theirs.eps1[i]), "eps1 of entry {}", n);
            for j in 0..3 {
                assert!(
                    close(mine.eps1eps2.get(i, j).0, theirs.eps1eps2[(i, j)]),
                    "block of entry {}",
                    n
                );
            }
        }
        for j in 0..3 {
            assert!(close(mine.eps2.get(j).0, theirs.eps2[j]), "eps2 of entry {}", n);
        }
    }
    let p = x.mul(y);
    assert_eq!(
        p.eps1eps2.get(1, 2),
        Real(0.37 * 0.5 + -0.5 * 3.0 + -1.0 * 1.0 + 0.6 * 1.9)
    );
    assert_eq!(p.eps1.get(1), Real(0.37 * 1.0 + -0.5 * 1.9));
    assert_eq!(p.eps2.get(0), Real(0.37 * 2.0 + 0.25 * 1.9));
}

#[test]
fn scalar_jets_are_vector_jets_with_one_direction() {
    let a = dual(0.37, 1.5);
    let b = dual(1.9, -0.5);
    let wide = |d: Dual<Real>| DualVec::new(d.re, StaticVec::new_vec([d.eps]));
    for f in ALL_UNARY {
        let x = if f == Unary::Acosh { b } else { a };
        assert_eq!(wide(x.unary(f)), wide(x).unary(f), "{:?}", f);
    }
    for op in [Binary::Add, Binary::Sub, Binary::Mul, Binary::Div, Binary::Pow, Binary::Log] {
        assert_eq!(wide(a.binary(op, b)), wide(a).binary(op, wide(b)), "{:?}", op);
    }
    for n in [-3, 0, 1, 2, 3, 7] {
        assert_eq!(wide(a.powi(n)), wide(a).powi(n));
    }
    let h = hyper(0.37, 1.5, -0.5, 0.25);
    let k = hyper(1.9, 0.5, 2.0, -1.0);
    let wide2 = |h: HyperDual<Real>| {
        HyperDualVec::new(
            h.re,
            StaticVec::new_vec([h.eps1]),
            StaticVec::new_vec([h.eps2]),
            StaticMat::new([[h.eps1eps2]]),
        )
    };
    for f in ALL_UNARY {
        let x = if f == Unary::Acosh { k } else { h };
        assert_eq!(wide2(x.unary(f)), wide2(x).unary(f), "{:?}", f);
    }
    for op in [Binary::Add, Binary::Sub, Binary::Mul, Binary::Div, Binary::Pow, Binary::Log] {
        assert_eq!(wide2(h.binary(op, k)), wide2(h).binary(op, wide2(k)), "{:?}", op);
    }
    for n in [-3, 0, 1, 2, 3, 7] {
        assert_eq!(wide2(h.powi(n)), wide2(h).powi(n));
    }
}

#[test]
fn nested_dual_gives_second_derivatives() {
    let x = Dual::new(dual(2.0, 1.0), dual(1.0, 0.0));
    let f = x.powi(3);
    assert_eq!(f.re, dual(8.0, 12.0));
    assert_eq!(f.eps, dual(12.0, 12.0));
    let g = x.mul(x).mul(x);
    assert_eq!(g, f);
    let s = x.sin();
    assert_eq!(s.re.re, Real(2.0f64.sin()));
    assert_eq!(s.eps.re, Real(2.0f64.cos()));
    assert_eq!(s.re.eps, Real(2.0f64.cos()));
    assert_eq!(s.eps.eps, Real(-(2.0f64.sin())));
    assert_eq!(x.near_zero(), false);
    assert_eq!(Dual::new(dual(0.0, 1.0), dual(1.0, 0.0)).near_zero(), true);
}

#[test]
fn spherical_bessel_near_zero() {
    assert_eq!(sph_j0(Real(0.0)), Real(1.0));
    assert_eq!(sph_j1(Real(0.0)), Real(0.0));
    assert_eq!(sph_j2(Real(0.0)), Real(0.0));
    let tiny = 1e-17;
    assert_eq!(sph_j0(Real(tiny)), Real(1.0 - tiny * tiny / 6.0));
    assert_eq!(sph_j1(Real(tiny)), Real(tiny / 3.0));
    assert_eq!(sph_j2(Real(tiny)), Real(tiny * tiny / 15.0));
    assert_eq!(sph_j1(Real(-tiny)), Real(-tiny / 3.0));
    let x = third(0.0, 1.0, 0.0, 0.0);
    let j0 = sph_j0(x);
    assert_eq!(j0.v0, Real(1.0));
    assert_eq!(j0.v1, Real(0.0));
    assert!(close(j0.v2.0, -1.0 / 3.0));
    let j1 = sph_j1(x);
    assert_eq!(j1.v0, Real(0.0));
    assert!(close(j1.v1.0, 1.0 / 3.0));
    let j2 = sph_j2(x);
    assert_eq!(j2.v0, Real(0.0));
    assert_eq!(j2.v1, Real(0.0));
    assert!(close(j2.v2.0, 2.0 / 15.0));
}

#[test]
fn spherical_bessel_away_from_zero() {
    for x in [0.5f64, 2.0, -1.0, 10.0] {
        let (s, c) = x.sin_cos();
        assert_eq!(sph_j0(Real(x)), Real(s / x));
        assert_eq!(sph_j1(Real(x)), Real((s - x * c) / (x * x)));
        assert_eq!(sph_j2(Real(x)), Real(((s - x * c) * 3.0 - x * x * s) / (x * x * x)));
    }
    for x in [0.5f64, 2.0, 10.0] {
        assert!(close(sph_j0(Real(x)).0, DualNum::sph_j0(&x)));
        assert!(close(sph_j1(Real(x)).0, DualNum::sph_j1(&x)));
        assert!(close(sph_j2(Real(x)).0, DualNum::sph_j2(&x)));
        let d = dual(x, 1.0);
        let o = num_dual::Dual64::new_scalar(x, 1.0);
        assert_eq!(sph_j0(d).re.0, o.sph_j0().re);
        assert!(close(sph_j0(d).eps.0, o.sph_j0().eps[0]));
        assert!(close(sph_j1(d).re.0, o.sph_j1().re));
        assert!(close(sph_j1(d).eps.0, o.sph_j1().eps[0]));
        assert!(close(sph_j2(d).re.0, o.sph_j2().re));
        assert!(close(sph_j2(d).eps.0, o.sph_j2().eps[0]));
    }
    let d = sph_j0(dual(-1.0, 1.0));
    assert!(close(d.re.0, 1.0f64.sin()));
    assert!(close(d.eps.0, -(1.0f64.cos() - 1.0f64.sin())));
}

#[test]
fn non_finite_values_propagate() {
    let x = dual(0.0, 1.0);
    let r = x.recip();
    assert_eq!(r.re, Real(f64::INFINITY));
    assert_eq!(r.eps, Real(f64::NEG_INFINITY));
    let l = dual(-1.0, 1.0).ln();
    assert!(l.re.0.is_nan());
    assert_eq!(l.eps, Real(-1.0));
    let s = dual(-4.0, 1.0).sqrt();
    assert!(s.re.0.is_nan());
    assert!(s.eps.0.is_nan());
    let q = dual(1.0, 1.0).div(dual(0.0, 0.0));
    assert_eq!(q.re, Real(f64::INFINITY));
    assert!(q.eps.0.is_nan());
    let n = dual(f64::NAN, 1.0).mul(dual(2.0, 3.0));
    assert!(n.re.0.is_nan());
    assert!(n.eps.0.is_nan());
}

#[test]
fn accessors_and_constructors() {
    let d = Dual::new(Real(1.0), Real(2.0));
    assert_eq!((d.re(), d.eps()), (Real(1.0), Real(2.0)));
    assert_eq!(Dual::from_re(Real(5.0)).derive(), dual(5.0, 1.0));
    let h = HyperDual::new(Real(1.0), Real(2.0), Real(3.0), Real(4.0));
    assert_eq!(
        (h.re(), h.eps1(), h.eps2(), h.eps1eps2()),
        (Real(1.0), Real(2.0), Real(3.0), Real(4.0))
    );
    assert_eq!(HyperDual::from_re(Real(5.0)).derive1(), hyper(5.0, 1.0, 0.0, 0.0));
    assert_eq!(HyperDual::from_re(Real(5.0)).derive2(), hyper(5.0, 0.0, 1.0, 0.0));
    let t = ThirdOrderJet::new(Real(1.0), Real(2.0), Real(3.0), Real(4.0));
    assert_eq!((t.re(), t.v1(), t.v2(), t.v3()), (Real(1.0), Real(2.0), Real(3.0), Real(4.0)));
    assert_eq!(ThirdOrderJet::from_re(Real(5.0)).derive(), third(5.0, 1.0, 0.0, 0.0));
    assert_eq!(d.with_re(Real(9.0)), dual(9.0, 2.0));
    assert_eq!(d.scale(Real(3.0)), dual(3.0, 6.0));
    assert_eq!(d.negation(), dual(-1.0, -2.0));
    assert_eq!(d.sum(dual(1.0, 1.0)), dual(2.0, 3.0));
    assert_eq!(d.difference(dual(1.0, 1.0)), dual(0.0, 1.0));
    assert_eq!(d.product(dual(3.0, 4.0)), dual(3.0, 10.0));
}

#[test]
fn each_direction_of_a_vector_jet_is_a_dual_number() {
    let x = DualVec::new(Real(0.37), real_vec([1.5, -0.5, 0.25]));
    let y = DualVec::new(Real(1.9), real_vec([0.5, 2.0, -1.0]));
    let pick = |v: DualVec<Real, 3>, i: usize| Dual::new(v.re, v.eps.get(i));
    for i in 0..3 {
        for f in ALL_UNARY {
            let z = if f == Unary::Acosh { y } else { x };
            assert_eq!(pick(z.unary(f), i), pick(z, i).unary(f), "{:?}", f);
        }
        for op in [Binary::Add, Binary::Sub, Binary::Mul, Binary::Div, Binary::Pow, Binary::Log] {
            assert_eq!(pick(x.binary(op, y), i), pick(x, i).binary(op, pick(y, i)), "{:?}", op);
        }
        assert_eq!(pick(x.powi(5), i), pick(x, i).powi(5));
        assert_eq!(pick(x.mul_add(y, x), i), pick(x, i).mul_add(pick(y, i), pick(x, i)));
    }
}

#[test]
fn each_pair_of_directions_of_a_vector_jet_is_a_hyperdual_number() {
    let x = HyperDualVec::new(
        Real(0.37),
        real_vec([1.0, -0.5]),
        real_vec([0.25, 2.0, -1.0]),
        real_mat([[0.1, 0.2, 0.3], [0.4, 0.5, 0.6]]),
    );
    let y = HyperDualVec::new(
        Real(1.9),
        real_vec([0.0, 1.0]),
        real_vec([2.0, 0.5, 3.0]),
        real_mat([[1.0, 0.0, -1.0], [2.0, -2.0, 0.5]]),
    );
    let pick = |v: HyperDualVec<Real, 2, 3>, i: usize, j: usize| {
        HyperDual::new(v.re, v.eps1.get(i), v.eps2.get(j), v.eps1eps2.get(i, j))
    };
    for i in 0..2 {
        for j in 0..3 {
            for f in ALL_UNARY {
                let z = if f == Unary::Acosh { y } else { x };
                assert_eq!(pick(z.unary(f), i, j), pick(z, i, j).unary(f), "{:?}", f);
            }
            assert_eq!(pick(x.mul(y), i, j), pick(x, i, j).mul(pick(y, i, j)));
            assert_eq!(pick(x.div(y), i, j), pick(x, i, j).div(pick(y, i, j)));
            assert_eq!(pick(x.powi(4), i, j), pick(x, i, j).powi(4));
        }
    }
}

#[test]
fn lower_orders_are_truncations_of_higher_orders() {
    let x = third(0.37, 1.5, -0.5, 0.25);
    let y = third(1.9, 0.5, 2.0, -1.0);
    let second = |t: ThirdOrderJet<Real>| SecondOrderJet::new(t.v0, t.v1, t.v2);
    let first = |t: SecondOrderJet<Real>| Dual::new(t.v0, t.v1);
    for f in ALL_UNARY {
        let z = if f == Unary::Acosh { y } else { x };
        assert_eq!(second(z.unary(f)), second(z).unary(f), "{:?}", f);
        assert_eq!(first(second(z).unary(f)), first(second(z)).unary(f), "{:?}", f);
    }
    for op in [Binary::Add, Binary::Sub, Binary::Mul, Binary::Div, Binary::Pow, Binary::Log] {
        assert_eq!(second(x.binary(op, y)), second(x).binary(op, second(y)), "{:?}", op);
        assert_eq!(
            first(second(x).binary(op, second(y))),
            first(second(x)).binary(op, first(second(y))),
            "{:?}",
            op
        );
    }
    let h = hyper(0.37, 1.5, -0.5, 0.25);
    let k = hyper(1.9, 0.5, 2.0, -1.0);
    let one = |h: HyperDual<Real>| Dual::new(h.re, h.eps1);
    let two = |h: HyperDual<Real>| Dual::new(h.re, h.eps2);
    assert_eq!(one(h.mul(k).sin()), one(h).mul(one(k)).sin());
    assert_eq!(two(h.mul(k).sin()), two(h).mul(two(k)).sin());
}

#[test]
fn products_of_jets_with_exact_coefficients() {
    let a = third(2.0, 3.0, 5.0, 7.0);
    let b = third(-1.0, 4.0, 0.5, 2.0);
    let c = third(3.0, -2.0, 1.0, 8.0);
    let one = ThirdOrderJet::<Real>::one();
    assert_eq!(a.mul(b), b.mul(a));
    assert_eq!(a.mul(b).mul(c), a.mul(b.mul(c)));
    assert_eq!(a.mul(b.add(c)), a.mul(b).add(a.mul(c)));
    assert_eq!(a.mul(one), a);
    assert_eq!(one.mul(a), a);
    let h = hyper(2.0, 3.0, 5.0, 7.0);
    let k = hyper(-1.0, 4.0, 0.5, 2.0);
    let l = hyper(3.0, -2.0, 1.0, 8.0);
    assert_eq!(h.mul(k), k.mul(h));
    assert_eq!(h.mul(k).mul(l), h.mul(k.mul(l)));
}

#[test]
fn integer_powers_are_repeated_products() {
    let x = third(2.0, 3.0, 5.0, 7.0);
    let mut p = x.mul(x);
    assert_eq!(x.powi(2), p);
    for n in 3..12 {
        p = p.mul(x);
        assert_eq!(x.powi(n), p, "power {}", n);
    }
    let h = hyper(2.0, 3.0, 5.0, 7.0);
    assert_eq!(h.powi(3), h.mul(h).mul(h));
    assert_eq!(h.powi(4), h.mul(h).mul(h).mul(h));
}

#[test]
fn reciprocal_times_the_jet_is_one() {
    let x = third(2.0, 3.0, 5.0, 7.0);
    assert_eq!(x.recip(), third(0.5, -0.75, 1.0, -0.625));
    assert_eq!(x.recip().mul(x), third(1.0, 0.0, 0.0, 0.0));
    assert_eq!(x.div(x), third(1.0, 0.0, 0.0, 0.0));
    let h = hyper(4.0, 1.0, 2.0, 3.0);
    assert_eq!(h.recip().mul(h), hyper(1.0, 0.0, 0.0, 0.0));
}

#[test]
fn functions_of_the_seeded_variable_hold_their_derivatives() {
    let x = derive3::<Real, 0>(Input::Scalar(Real(0.25))).unwrap();
    for f in ALL_UNARY {
        if f == Unary::Neg || f == Unary::Acosh {
            continue;
        }
        let d = derivatives(f, Real(0.25));
        let y = x.unary(f);
        assert_eq!(y.v0.0.to_bits(), d.f0.0.to_bits(), "{:?}", f);
        assert_eq!(y.v1.0.to_bits(), d.f1.0.to_bits(), "{:?}", f);
        assert!(close(y.v2.0, d.f2.0), "{:?}", f);
        assert!(close(y.v3.0, d.f3.0), "{:?}", f);
    }
    let d = tuple(10.0, 20.0, 30.0, 40.0);
    assert_eq!(x.chain(d), third(10.0, 20.0, 30.0, 40.0));
}

#[test]
fn tuples_of_functions_that_are_each_others_derivatives() {
    let x = Real(0.3);
    let sin = derivatives(Unary::Sin, x);
    let cos = derivatives(Unary::Cos, x);
    assert_eq!((sin.f1, sin.f2, sin.f3), (cos.f0, cos.f1, cos.f2));
    assert_eq!((cos.f1, cos.f2, cos.f3), (sin.f0.neg(), sin.f1.neg(), sin.f2.neg()));
    let sinh = derivatives(Unary::Sinh, x);
    let cosh = derivatives(Unary::Cosh, x);
    assert_eq!((sinh.f1, sinh.f2, sinh.f3), (cosh.f0, cosh.f1, cosh.f2));
    assert_eq!((cosh.f1, cosh.f2, cosh.f3), (sinh.f0, sinh.f1, sinh.f2));
    let ln = derivatives(Unary::Ln, x);
    let recip = derivatives(Unary::Recip, x);
    assert_eq!((ln.f1, ln.f2, ln.f3), (recip.f0, recip.f1, recip.f2));
    let ln_1p = derivatives(Unary::Ln1p, x);
    let shifted = derivatives(Unary::Recip, Real(1.3));
    assert_eq!((ln_1p.f1, ln_1p.f2, ln_1p.f3), (shifted.f0, shifted.f1, shifted.f2));
    let tan = derivatives(Unary::Tan, Real(0.0));
    assert_eq!(tan, tuple(0.0, 1.0, 0.0, 2.0));
}
