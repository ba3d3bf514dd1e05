use num_hyperdual::dual_num::DualNum;
use num_hyperdual::hd3::HD3;
use num_hyperdual::rational::Rational;

fn q(num: i64, den: i64) -> Rational {
    Rational::new(num, den)
}

fn z(n: i64) -> Rational {
    Rational::from_int(n)
}

#[test]
fn power_rule_cube_at_five() {
    let x = HD3::from_re(z(5)).derive();
    let c = x.mul(&x).mul(&x);
    assert_eq!(c, HD3::new(z(125), z(75), z(30), z(6)));
}

#[test]
fn power_rule_through_chain_rule() {
    let x = HD3::from_re(z(5)).derive();
    let c = x.chain_rule(z(125), z(75), z(30), z(6));
    assert_eq!(c, HD3::new(z(125), z(75), z(30), z(6)));
}

#[test]
fn reciprocal_at_two() {
    let x = HD3::from_re(z(2)).derive();
    let one = HD3::from_re(z(1));
    let r = one.div(&x);
    assert_eq!(r.re, q(1, 2));
    assert_eq!(r.v1, q(-1, 4));
    assert_eq!(r.v2, q(1, 4));
    assert_eq!(r.v3, q(-3, 8));
}

#[test]
fn reciprocal_third_derivative_coefficient() {
    let x = HD3::from_re(z(-3)).derive();
    let r = HD3::from_re(z(1)).div(&x);
    assert_eq!(r.re, q(-1, 3));
    assert_eq!(r.v1, q(-1, 9));
    assert_eq!(r.v2, q(-2, 27));
    assert_eq!(r.v3, q(-6, 81));
}

#[test]
fn from_re_has_zero_derivatives() {
    let c = HD3::from_re(q(7, 3));
    assert_eq!(c.re, q(7, 3));
    assert_eq!(c.v1, z(0));
    assert_eq!(c.v2, z(0));
    assert_eq!(c.v3, z(0));
}

#[test]
fn derive_sets_first_derivative_only() {
    let v = HD3::new(z(4), z(9), z(2), z(3)).derive();
    assert_eq!(v, HD3::new(z(4), z(1), z(2), z(3)));
    let twice = v.derive();
    assert_eq!(twice, v);
}

#[test]
fn chain_rule_of_variable_returns_outer_derivatives() {
    // an exponential-like outer function: all four derivatives equal
    let e = q(2718, 1000);
    let x = HD3::from_re(z(1)).derive();
    let r = x.chain_rule(e, e, e, e);
    assert_eq!(r, HD3::new(e, e, e, e));
}

#[test]
fn chain_rule_exact_formula() {
    let a = HD3::new(z(1), z(2), z(3), z(4));
    let r = a.chain_rule(z(5), z(6), z(7), z(8));
    // v1 = 6*2, v2 = 7*4 + 6*3, v3 = 8*8 + 3*7*2*3 + 6*4
    assert_eq!(r, HD3::new(z(5), z(12), z(46), z(214)));
}

#[test]
fn product_of_polynomial_expansions() {
    // p(x) = x^2 + 1 and q(x) = 2x^3 at x = 1; (pq)(x) = 2x^5 + 2x^3
    let p = HD3::new(z(2), z(2), z(2), z(0));
    let r = HD3::new(z(2), z(6), z(12), z(12));
    let pq = p.mul(&r);
    assert_eq!(pq, HD3::new(z(4), z(16), z(52), z(132)));
}

#[test]
fn quotient_times_divisor_recovers_dividend() {
    let a = HD3::new(z(3), z(-1), z(4), z(2));
    let b = HD3::new(z(2), z(1), z(5), z(-3));
    let back = a.div(&b).mul(&b);
    assert_eq!(back, a);
}

#[test]
fn rational_operations() {
    let a = q(1, 2);
    let b = q(-2, 3);
    assert_eq!(a.add(&b), q(-1, 6));
    assert_eq!(a.mul(&b), q(-1, 3));
    assert_eq!(b.neg(), q(2, 3));
    assert_eq!(b.recip(), q(-3, 2));
    assert_eq!(b.recip().den(), 2);
    assert_eq!(b.recip().num(), -3);
    assert_eq!(Rational::zero(), z(0));
    assert_eq!(Rational::one(), q(3, 3));
    assert_ne!(q(1, 2), q(1, 3));
}
