//! Exact rational coefficients stored as an `i64` numerator and a positive
//! `i64` denominator.
use vstd::prelude::*;
use crate::dual_num::{coeff_max, coeff_min, DualNum, Frac};

verus! {

/// `num / den` with `den > 0`; never reduced.
#[derive(Clone, Copy, Debug)]
pub struct Rational {
    num: i64,
    den: i64,
}

proof fn lemma_product_bound(a: int, b: int)
    requires
        coeff_min() <= a <= coeff_max(),
        coeff_min() <= b <= coeff_max(),
    ensures
        -0x4000_0000_0000_0000_0000_0000_0000_0000 <= a * b <= 0x4000_0000_0000_0000_0000_0000_0000_0000,
{
    assert(-0x8000_0000_0000_0000 <= a <= 0x8000_0000_0000_0000);
    assert(-0x8000_0000_0000_0000 <= b <= 0x8000_0000_0000_0000);
    assert(-0x4000_0000_0000_0000_0000_0000_0000_0000 <= a * b <= 0x4000_0000_0000_0000_0000_0000_0000_0000)
        by (nonlinear_arith)
        requires
            -0x8000_0000_0000_0000 <= a <= 0x8000_0000_0000_0000,
            -0x8000_0000_0000_0000 <= b <= 0x8000_0000_0000_0000,
    ;
}

impl Rational {
    #[verifier::type_invariant]
    spec fn positive_den(self) -> bool {
        self.den > 0
    }

    pub closed spec fn view(self) -> Frac {
        Frac { num: self.num as int, den: self.den as int }
    }

    /// The rational `num / den`.
    pub fn new(num: i64, den: i64) -> (r: Rational)
        requires
            den > 0,
        ensures
            r.view() == Frac::of(num as int, den as int),
    {
        Rational { num, den }
    }

    /// The integer `n`.
    pub fn from_int(n: i64) -> (r: Rational)
        ensures
            r.view() == Frac::integer(n as int),
    {
        Rational { num: n, den: 1 }
    }

    pub fn num(&self) -> (r: i64)
        ensures
            r as int == self.view().num,
    {
        self.num
    }

    pub fn den(&self) -> (r: i64)
        ensures
            r as int == self.view().den,
            r > 0,
    {
        proof {
            use_type_invariant(self);
        }
        self.den
    }
}

impl DualNum for Rational {
    open spec fn model(&self) -> Frac {
        self.view()
    }

    fn zero() -> (r: Self) {
        Rational { num: 0, den: 1 }
    }

    fn one() -> (r: Self) {
        Rational { num: 1, den: 1 }
    }

    fn add(&self, o: &Self) -> (r: Self) {
        proof {
            use_type_invariant(self);
            use_type_invariant(o);
            lemma_product_bound(self.num as int, o.den as int);
            lemma_product_bound(o.num as int, self.den as int);
            lemma_product_bound(self.den as int, o.den as int);
        }
        let num = (self.num as i128) * (o.den as i128) + (o.num as i128) * (self.den as i128);
        let den = (self.den as i128) * (o.den as i128);
        proof {
            assert(den > 0) by (nonlinear_arith)
                requires
                    den == self.den as int * o.den as int,
                    self.den > 0,
                    o.den > 0,
            ;
        }
        Rational { num: num as i64, den: den as i64 }
    }

    fn mul(&self, o: &Self) -> (r: Self) {
        proof {
            use_type_invariant(self);
            use_type_invariant(o);
            lemma_product_bound(self.num as int, o.num as int);
            lemma_product_bound(self.den as int, o.den as int);
        }
        let num = (self.num as i128) * (o.num as i128);
        let den = (self.den as i128) * (o.den as i128);
        proof {
            assert(den > 0) by (nonlinear_arith)
                requires
                    den == self.den as int * o.den as int,
                    self.den > 0,
                    o.den > 0,
            ;
        }
        Rational { num: num as i64, den: den as i64 }
    }

    fn neg(&self) -> (r: Self) {
        proof {
            use_type_invariant(self);
        }
        Rational { num: -self.num, den: self.den }
    }

    fn recip(&self) -> (r: Self) {
        proof {
            use_type_invariant(self);
        }
        if self.num > 0 {
            Rational { num: self.den, den: self.num }
        } else {
            Rational { num: -self.den, den: -self.num }
        }
    }
}

impl PartialEq for Rational {
    /// Equality of the rational numbers denoted, whatever their scaling.
    fn eq(&self, o: &Rational) -> (r: bool) {
        proof {
            lemma_product_bound(self.num as int, o.den as int);
            lemma_product_bound(o.num as int, self.den as int);
        }
        (self.num as i128) * (o.den as i128) == (o.num as i128) * (self.den as i128)
    }
}

impl vstd::std_specs::cmp::PartialEqSpecImpl for Rational {
    open spec fn obeys_eq_spec() -> bool {
        true
    }

    open spec fn eq_spec(&self, o: &Rational) -> bool {
        self.view().eqv(o.view())
    }
}

} // verus!
