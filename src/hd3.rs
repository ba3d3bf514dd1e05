//! Hyper-dual numbers carrying a value and its first three derivatives
//! along one direction.
use vstd::prelude::*;
use crate::dual_num::{DualNum, Frac};

verus! {

/// The mathematical content of a hyper-dual number: value and first three
/// derivatives, each an exact fraction.
pub struct Jet {
    pub re: Frac,
    pub v1: Frac,
    pub v2: Frac,
    pub v3: Frac,
}

impl Jet {
    pub open spec fn of(re: Frac, v1: Frac, v2: Frac, v3: Frac) -> Jet {
        Jet { re, v1, v2, v3 }
    }

    /// The variable of differentiation at `x`: first derivative one, the
    /// others zero.
    pub open spec fn variable(x: Frac) -> Jet {
        Jet { re: x, v1: Frac::one(), v2: Frac::zero(), v3: Frac::zero() }
    }

    /// Every component is an integer (denominator one).
    pub open spec fn is_integral(self) -> bool {
        self.re.den == 1 && self.v1.den == 1 && self.v2.den == 1 && self.v3.den == 1
    }

    /// For an integral expansion, the `k`-th Taylor coefficient (the `k`-th
    /// derivative over `k!`) scaled by `3! = 6`.
    pub open spec fn taylor6(self, k: nat) -> int {
        if k == 0 {
            6 * self.re.num
        } else if k == 1 {
            6 * self.v1.num
        } else if k == 2 {
            3 * self.v2.num
        } else {
            self.v3.num
        }
    }

    /// Every component has a positive denominator.
    pub open spec fn wf(self) -> bool {
        self.re.wf() && self.v1.wf() && self.v2.wf() && self.v3.wf()
    }

    /// Component-wise equality of the rational numbers denoted.
    pub open spec fn eqv(self, o: Jet) -> bool {
        &&& self.re.eqv(o.re)
        &&& self.v1.eqv(o.v1)
        &&& self.v2.eqv(o.v2)
        &&& self.v3.eqv(o.v3)
    }

    /// The constant `x`: every derivative is zero.
    pub open spec fn constant(x: Frac) -> Jet {
        Jet { re: x, v1: Frac::zero(), v2: Frac::zero(), v3: Frac::zero() }
    }

    /// Composition of an outer function, whose value and first three
    /// derivatives at `self.re` are `f0..f3`, with the expansion `self`
    /// (Faa di Bruno's formula up to third order).
    pub open spec fn chain(self, f0: Frac, f1: Frac, f2: Frac, f3: Frac) -> Jet {
        let three = Frac::one().add(Frac::one()).add(Frac::one());
        Jet {
            re: f0,
            v1: f1.mul(self.v1),
            v2: f2.mul(self.v1).mul(self.v1).add(f1.mul(self.v2)),
            v3: f3.mul(self.v1).mul(self.v1).mul(self.v1).add(
                three.mul(f2).mul(self.v1).mul(self.v2),
            ).add(f1.mul(self.v3)),
        }
    }

    /// Every intermediate value of `chain`, in the order it is computed,
    /// fits the coefficient storage.
    pub open spec fn chain_fits(self, f0: Frac, f1: Frac, f2: Frac, f3: Frac) -> bool {
        let three = Frac::one().add(Frac::one()).add(Frac::one());
        let a = f3.mul(self.v1).mul(self.v1).mul(self.v1);
        let b = three.mul(f2).mul(self.v1).mul(self.v2);
        &&& f1.mul(self.v1).fits()
        &&& f2.mul(self.v1).fits()
        &&& f2.mul(self.v1).mul(self.v1).fits()
        &&& f1.mul(self.v2).fits()
        &&& f2.mul(self.v1).mul(self.v1).add(f1.mul(self.v2)).fits()
        &&& f3.mul(self.v1).fits()
        &&& f3.mul(self.v1).mul(self.v1).fits()
        &&& a.fits()
        &&& three.mul(f2).fits()
        &&& three.mul(f2).mul(self.v1).fits()
        &&& b.fits()
        &&& a.add(b).fits()
        &&& f1.mul(self.v3).fits()
        &&& a.add(b).add(f1.mul(self.v3)).fits()
    }

    /// Product of two expansions (Leibniz's rule up to third order).
    pub open spec fn mul(self, o: Jet) -> Jet {
        let two = Frac::one().add(Frac::one());
        let three = two.add(Frac::one());
        Jet {
            re: self.re.mul(o.re),
            v1: self.v1.mul(o.re).add(self.re.mul(o.v1)),
            v2: self.v2.mul(o.re).add(two.mul(self.v1).mul(o.v1)).add(self.re.mul(o.v2)),
            v3: self.v3.mul(o.re).add(three.mul(self.v2).mul(o.v1)).add(
                three.mul(self.v1).mul(o.v2),
            ).add(self.re.mul(o.v3)),
        }
    }

    /// Every intermediate value of `mul`, in the order it is computed, fits
    /// the coefficient storage.
    pub open spec fn mul_fits(self, o: Jet) -> bool {
        let two = Frac::one().add(Frac::one());
        let three = two.add(Frac::one());
        let p = self.v2.mul(o.re).add(two.mul(self.v1).mul(o.v1));
        let q = self.v3.mul(o.re).add(three.mul(self.v2).mul(o.v1));
        let s = q.add(three.mul(self.v1).mul(o.v2));
        &&& self.re.mul(o.re).fits()
        &&& self.v1.mul(o.re).fits()
        &&& self.re.mul(o.v1).fits()
        &&& self.v1.mul(o.re).add(self.re.mul(o.v1)).fits()
        &&& self.v2.mul(o.re).fits()
        &&& two.mul(self.v1).fits()
        &&& two.mul(self.v1).mul(o.v1).fits()
        &&& p.fits()
        &&& self.re.mul(o.v2).fits()
        &&& p.add(self.re.mul(o.v2)).fits()
        &&& self.v3.mul(o.re).fits()
        &&& three.mul(self.v2).fits()
        &&& three.mul(self.v2).mul(o.v1).fits()
        &&& q.fits()
        &&& three.mul(self.v1).fits()
        &&& three.mul(self.v1).mul(o.v2).fits()
        &&& s.fits()
        &&& self.re.mul(o.v3).fits()
        &&& s.add(self.re.mul(o.v3)).fits()
    }

    /// Value and first three derivatives of `1/x` at `x = self.re`:
    /// `f0 = 1/x` and `f_n = -n * f_(n-1) / x`.
    pub open spec fn recip_derivs(self) -> (Frac, Frac, Frac, Frac) {
        let rec = self.re.recip();
        let two = Frac::one().add(Frac::one());
        let three = two.add(Frac::one());
        let f0 = rec;
        let f1 = f0.neg().mul(rec);
        let f2 = f1.mul(rec).mul(two.neg());
        let f3 = f2.mul(rec).mul(three.neg());
        (f0, f1, f2, f3)
    }

    /// The expansion of `1 / self`.
    pub open spec fn reciprocal(self) -> Jet {
        let (f0, f1, f2, f3) = self.recip_derivs();
        self.chain(f0, f1, f2, f3)
    }

    /// Every intermediate value of `recip_derivs` fits the coefficient storage.
    pub open spec fn recip_derivs_fit(self) -> bool {
        let rec = self.re.recip();
        let two = Frac::one().add(Frac::one());
        let three = two.add(Frac::one());
        let (f0, f1, f2, f3) = self.recip_derivs();
        &&& rec.fits()
        &&& f0.neg().fits()
        &&& f1.fits()
        &&& f1.mul(rec).fits()
        &&& f2.fits()
        &&& f2.mul(rec).fits()
        &&& f3.fits()
    }

    /// Quotient `self / o`: `self` times the expansion of `1 / o`.
    pub open spec fn div(self, o: Jet) -> Jet {
        self.mul(o.reciprocal())
    }

    /// Every intermediate value of `div` fits the coefficient storage.
    pub open spec fn div_fits(self, o: Jet) -> bool {
        let (f0, f1, f2, f3) = o.recip_derivs();
        &&& o.recip_derivs_fit()
        &&& o.chain_fits(f0, f1, f2, f3)
        &&& self.mul_fits(o.reciprocal())
    }
}

/// A hyper-dual number: a truncated Taylor expansion along one direction,
/// holding the value `re` and the first, second and third derivative
/// coefficients `v1`, `v2`, `v3`.
#[derive(Clone, Copy, PartialEq, Debug)]
pub struct HD3<T> {
    /// Value.
    pub re: T,
    /// First derivative.
    pub v1: T,
    /// Second derivative.
    pub v2: T,
    /// Third derivative.
    pub v3: T,
}

impl<T: DualNum> View for HD3<T> {
    type V = Jet;

    open spec fn view(&self) -> Jet {
        Jet {
            re: self.re.model(),
            v1: self.v1.model(),
            v2: self.v2.model(),
            v3: self.v3.model(),
        }
    }
}

impl<T> HD3<T> {
    /// A hyper-dual number from its four components.
    pub fn new(re: T, v1: T, v2: T, v3: T) -> (r: Self)
        ensures
            r.re == re,
            r.v1 == v1,
            r.v2 == v2,
            r.v3 == v3,
    {
        HD3 { re, v1, v2, v3 }
    }
}

impl<T: DualNum> HD3<T> {
    /// The constant `re`: all derivatives zero.
    pub fn from_re(re: T) -> (r: Self)
        ensures
            r.re == re,
            r@ == Jet::constant(re.model()),
    {
        HD3::new(re, T::zero(), T::zero(), T::zero())
    }

    /// Marks `self` as the variable of differentiation: the first
    /// derivative becomes one, the other components stay.
    pub fn derive(self) -> (r: Self)
        ensures
            r.re == self.re,
            r.v1.model() == Frac::one(),
            r.v2 == self.v2,
            r.v3 == self.v3,
    {
        let mut r = self;
        r.v1 = T::one();
        r
    }

    /// Composes an outer function with `self`, given that function's value
    /// and first three derivatives `f0..f3` at `self.re`.
    pub fn chain_rule(&self, f0: T, f1: T, f2: T, f3: T) -> (r: Self)
        requires
            self@.chain_fits(f0.model(), f1.model(), f2.model(), f3.model()),
        ensures
            r.re == f0,
            r@ == self@.chain(f0.model(), f1.model(), f2.model(), f3.model()),
    {
        let one = T::one();
        let three = one.add(&one).add(&one);
        let v1 = f1.mul(&self.v1);
        let v2 = f2.mul(&self.v1).mul(&self.v1).add(&f1.mul(&self.v2));
        let a = f3.mul(&self.v1).mul(&self.v1).mul(&self.v1);
        let b = three.mul(&f2).mul(&self.v1).mul(&self.v2);
        let v3 = a.add(&b).add(&f1.mul(&self.v3));
        HD3::new(f0, v1, v2, v3)
    }

    /// The product `self * rhs`.
    pub fn mul(&self, rhs: &Self) -> (r: Self)
        requires
            self@.mul_fits(rhs@),
        ensures
            r@ == self@.mul(rhs@),
    {
        let one = T::one();
        let two = one.add(&one);
        let three = two.add(&one);
        let re = self.re.mul(&rhs.re);
        let v1 = self.v1.mul(&rhs.re).add(&self.re.mul(&rhs.v1));
        let v2 = self.v2.mul(&rhs.re).add(&two.mul(&self.v1).mul(&rhs.v1)).add(
            &self.re.mul(&rhs.v2),
        );
        let q = self.v3.mul(&rhs.re).add(&three.mul(&self.v2).mul(&rhs.v1));
        let v3 = q.add(&three.mul(&self.v1).mul(&rhs.v2)).add(&self.re.mul(&rhs.v3));
        HD3::new(re, v1, v2, v3)
    }

    /// The quotient `self / rhs`: `self` times the reciprocal of `rhs`,
    /// which is the chain rule applied to `rhs` with the derivatives of
    /// `1/x`.
    pub fn div(&self, rhs: &Self) -> (r: Self)
        requires
            rhs.re.model().num != 0,
            self@.div_fits(rhs@),
        ensures
            r@ == self@.div(rhs@),
    {
        let one = T::one();
        let two = one.add(&one);
        let three = two.add(&one);
        let rec = rhs.re.recip();
        let f0 = rec;
        let f1 = f0.neg().mul(&rec);
        let f2 = f1.mul(&rec).mul(&two.neg());
        let f3 = f2.mul(&rec).mul(&three.neg());
        let inv = rhs.chain_rule(f0, f1, f2, f3);
        self.mul(&inv)
    }
}

} // verus!
