//! The algebraic capabilities a coefficient of a hyper-dual number provides,
//! stated over an exact fraction model.
use vstd::prelude::*;

verus! {

/// Smallest value a stored numerator or denominator may take.
pub open spec fn coeff_min() -> int {
    i64::MIN as int
}

/// Largest value a stored numerator or denominator may take.
pub open spec fn coeff_max() -> int {
    i64::MAX as int
}

/// A fraction `num / den`, kept exactly as the operations build it
/// (never reduced), so that each operation has one exact result.
pub struct Frac {
    pub num: int,
    pub den: int,
}

impl Frac {
    pub open spec fn of(num: int, den: int) -> Frac {
        Frac { num, den }
    }

    pub open spec fn zero() -> Frac {
        Frac { num: 0, den: 1 }
    }

    pub open spec fn one() -> Frac {
        Frac { num: 1, den: 1 }
    }

    /// An integer seen as a fraction.
    pub open spec fn integer(n: int) -> Frac {
        Frac { num: n, den: 1 }
    }

    /// A usable fraction has a positive denominator.
    pub open spec fn wf(self) -> bool {
        self.den > 0
    }

    /// Numerator and denominator both fit the storage of a coefficient.
    pub open spec fn fits(self) -> bool {
        coeff_min() <= self.num <= coeff_max() && coeff_min() <= self.den <= coeff_max()
    }

    /// Both fractions denote the same rational number.
    pub open spec fn eqv(self, o: Frac) -> bool {
        self.num * o.den == o.num * self.den
    }

    pub open spec fn add(self, o: Frac) -> Frac {
        Frac { num: self.num * o.den + o.num * self.den, den: self.den * o.den }
    }

    pub open spec fn mul(self, o: Frac) -> Frac {
        Frac { num: self.num * o.num, den: self.den * o.den }
    }

    pub open spec fn neg(self) -> Frac {
        Frac { num: -self.num, den: self.den }
    }

    pub open spec fn sub(self, o: Frac) -> Frac {
        self.add(o.neg())
    }

    /// `1 / self`, with the sign moved to the numerator.
    pub open spec fn recip(self) -> Frac {
        if self.num > 0 {
            Frac { num: self.den, den: self.num }
        } else {
            Frac { num: -self.den, den: -self.num }
        }
    }
}

/// A coefficient of a hyper-dual number: an exact field element with a
/// fraction model. Every operation returns exactly the fraction that the
/// model's operation gives, provided that result fits the storage.
pub trait DualNum: Sized + Copy {
    spec fn model(&self) -> Frac;

    /// The additive identity.
    fn zero() -> (r: Self)
        ensures
            r.model() == Frac::zero(),
    ;

    /// The multiplicative identity.
    fn one() -> (r: Self)
        ensures
            r.model() == Frac::one(),
    ;

    fn add(&self, o: &Self) -> (r: Self)
        requires
            self.model().add(o.model()).fits(),
        ensures
            r.model() == self.model().add(o.model()),
    ;

    fn mul(&self, o: &Self) -> (r: Self)
        requires
            self.model().mul(o.model()).fits(),
        ensures
            r.model() == self.model().mul(o.model()),
    ;

    fn neg(&self) -> (r: Self)
        requires
            self.model().neg().fits(),
        ensures
            r.model() == self.model().neg(),
    ;

    fn recip(&self) -> (r: Self)
        requires
            self.model().num != 0,
            self.model().recip().fits(),
        ensures
            r.model() == self.model().recip(),
    ;
}

} // verus!
