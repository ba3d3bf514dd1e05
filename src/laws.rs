//! Algebraic laws of hyper-dual arithmetic.
use vstd::prelude::*;
use crate::dual_num::Frac;
use crate::hd3::Jet;

verus! {

/// `sum(i = 0..=i_max) a_i * b_(k - i)` over the scaled Taylor coefficients
/// of two integral expansions.
pub open spec fn cauchy6(a: Jet, b: Jet, k: nat, i_max: nat) -> int
    decreases i_max,
{
    if i_max == 0 {
        a.taylor6(0) * b.taylor6(k)
    } else {
        cauchy6(a, b, k, (i_max - 1) as nat) + a.taylor6(i_max) * b.taylor6((k - i_max) as nat)
    }
}

/// Product rule: for expansions with integer components (such as those of
/// integer polynomials at an integer point), the product is integral, and
/// its Taylor coefficients are those of the product of the two Taylor
/// polynomials, truncated after the third order.
pub proof fn lemma_product_is_truncated_series_product(a: Jet, b: Jet)
    requires
        a.is_integral(),
        b.is_integral(),
    ensures
        a.mul(b).is_integral(),
        forall|k: nat| k <= 3 ==> #[trigger] cauchy6(a, b, k, k) == 6 * a.mul(b).taylor6(k),
{
    reveal_with_fuel(cauchy6, 4);
    let c = a.mul(b);
    let (a0, a1, a2, a3) = (a.re.num, a.v1.num, a.v2.num, a.v3.num);
    let (b0, b1, b2, b3) = (b.re.num, b.v1.num, b.v2.num, b.v3.num);
    assert(c.is_integral());
    assert(c.re.num == a0 * b0);
    assert(c.v1.num == a1 * b0 + a0 * b1) by (nonlinear_arith)
        requires
            c == a.mul(b),
            a.is_integral(),
            b.is_integral(),
            a0 == a.re.num,
            a1 == a.v1.num,
            b0 == b.re.num,
            b1 == b.v1.num,
    ;
    assert(c.v2.num == a2 * b0 + 2 * a1 * b1 + a0 * b2) by (nonlinear_arith)
        requires
            c == a.mul(b),
            a.is_integral(),
            b.is_integral(),
            a0 == a.re.num,
            a1 == a.v1.num,
            a2 == a.v2.num,
            b0 == b.re.num,
            b1 == b.v1.num,
            b2 == b.v2.num,
    ;
    assert(c.v3.num == a3 * b0 + 3 * a2 * b1 + 3 * a1 * b2 + a0 * b3) by (nonlinear_arith)
        requires
            c == a.mul(b),
            a.is_integral(),
            b.is_integral(),
            a0 == a.re.num,
            a1 == a.v1.num,
            a2 == a.v2.num,
            a3 == a.v3.num,
            b0 == b.re.num,
            b1 == b.v1.num,
            b2 == b.v2.num,
            b3 == b.v3.num,
    ;
    assert forall|k: nat| k <= 3 implies #[trigger] cauchy6(a, b, k, k) == 6 * c.taylor6(k) by {
        if k == 0 {
            assert(cauchy6(a, b, 0, 0) == (6 * a0) * (6 * b0));
            assert((6 * a0) * (6 * b0) == 6 * (6 * (a0 * b0))) by (nonlinear_arith);
        } else if k == 1 {
            assert(cauchy6(a, b, 1, 1) == (6 * a0) * (6 * b1) + (6 * a1) * (6 * b0));
            assert((6 * a0) * (6 * b1) + (6 * a1) * (6 * b0) == 6 * (6 * (a1 * b0 + a0 * b1)))
                by (nonlinear_arith);
        } else if k == 2 {
            assert(cauchy6(a, b, 2, 2) == (6 * a0) * (3 * b2) + (6 * a1) * (6 * b1) + (3 * a2) * (
            6 * b0));
            assert((6 * a0) * (3 * b2) + (6 * a1) * (6 * b1) + (3 * a2) * (6 * b0) == 6 * (3 * (a2
                * b0 + 2 * a1 * b1 + a0 * b2))) by (nonlinear_arith);
        } else {
            assert(cauchy6(a, b, 3, 3) == (6 * a0) * b3 + (6 * a1) * (3 * b2) + (3 * a2) * (6 * b1)
                + a3 * (6 * b0));
            assert((6 * a0) * b3 + (6 * a1) * (3 * b2) + (3 * a2) * (6 * b1) + a3 * (6 * b0) == 6
                * (a3 * b0 + 3 * a2 * b1 + 3 * a1 * b2 + a0 * b3)) by (nonlinear_arith);
        }
    }
}

/// Chain rule on the variable itself: composing an outer function with the
/// variable of differentiation yields exactly that function's value and
/// first three derivatives.
pub proof fn lemma_chain_of_variable(x: Frac, f0: Frac, f1: Frac, f2: Frac, f3: Frac)
    requires
        f1.wf(),
        f2.wf(),
        f3.wf(),
    ensures
        Jet::variable(x).chain(f0, f1, f2, f3).eqv(Jet::of(f0, f1, f2, f3)),
{
    let r = Jet::variable(x).chain(f0, f1, f2, f3);
    assert(r.v1.eqv(f1));
    assert(r.v2.eqv(f2)) by (nonlinear_arith)
        requires
            r == Jet::variable(x).chain(f0, f1, f2, f3),
    ;
    assert(r.v3.eqv(f3)) by (nonlinear_arith)
        requires
            r == Jet::variable(x).chain(f0, f1, f2, f3),
    ;
}

/// Reciprocal derivative formula: for an expansion with integer components
/// and value `r = s * m` (`s` the sign, `m > 0` the magnitude), the
/// expansion of `1 / b` is `1/r`, `-b1/r^2`, `(2 b1^2 - r b2)/r^3` and
/// `(-6 b1^3 + 6 r b1 b2 - r^2 b3)/r^4`, written over powers of `m`.
pub proof fn lemma_reciprocal_closed_form(b: Jet, s: int, m: int)
    requires
        b.is_integral(),
        s == 1 || s == -1,
        m > 0,
        b.re.num == s * m,
    ensures
        ({
            let (b1, b2, b3) = (b.v1.num, b.v2.num, b.v3.num);
            let c = b.reciprocal();
            &&& c.re == Frac::of(s, m)
            &&& c.v1 == Frac::of(-b1, m * m)
            &&& c.v2 == Frac::of(2 * s * b1 * b1 * (m * m) - b2 * (m * m * m), m * m * m * (m * m))
            &&& c.v3 == Frac::of(
                (-6 * b1 * b1 * b1 * (m * m * m) + 6 * s * b1 * b2 * (m * m * m * m)) * (m * m) - b3
                    * (m * m * m * m * (m * m * m)),
                m * m * m * m * (m * m * m) * (m * m),
            )
        }),
{
    let (b1, b2, b3) = (b.v1.num, b.v2.num, b.v3.num);
    let c = b.reciprocal();
    let (f0, f1, f2, f3) = b.recip_derivs();
    assert(s * s == 1) by (nonlinear_arith)
        requires
            s == 1 || s == -1,
    ;
    assert(f0 == Frac::of(s, m)) by (nonlinear_arith)
        requires
            f0 == b.re.recip(),
            b.re == Frac::of(s * m, 1),
            s == 1 || s == -1,
            m > 0,
    ;
    assert(f1 == Frac::of(-1, m * m)) by (nonlinear_arith)
        requires
            f1 == f0.neg().mul(f0),
            f0 == Frac::of(s, m),
            s * s == 1,
    ;
    assert(f2 == Frac::of(2 * s, m * m * m)) by (nonlinear_arith)
        requires
            f2 == f1.mul(f0).mul(Frac::one().add(Frac::one()).neg()),
            f1 == Frac::of(-1, m * m),
            f0 == Frac::of(s, m),
    ;
    assert(f3 == Frac::of(-6, m * m * m * m)) by (nonlinear_arith)
        requires
            f3 == f2.mul(f0).mul(Frac::one().add(Frac::one()).add(Frac::one()).neg()),
            f2 == Frac::of(2 * s, m * m * m),
            f0 == Frac::of(s, m),
            s * s == 1,
    ;
    assert(c.v1 == Frac::of(-b1, m * m)) by (nonlinear_arith)
        requires
            c == b.chain(f0, f1, f2, f3),
            f1 == Frac::of(-1, m * m),
            b.v1 == Frac::of(b1, 1),
    ;
    assert(c.v2 == Frac::of(2 * s * b1 * b1 * (m * m) - b2 * (m * m * m), m * m * m * (m * m)))
        by (nonlinear_arith)
        requires
            c == b.chain(f0, f1, f2, f3),
            f1 == Frac::of(-1, m * m),
            f2 == Frac::of(2 * s, m * m * m),
            b.v1 == Frac::of(b1, 1),
            b.v2 == Frac::of(b2, 1),
    ;
    assert(c.v3 == Frac::of(
        (-6 * b1 * b1 * b1 * (m * m * m) + 6 * s * b1 * b2 * (m * m * m * m)) * (m * m) - b3 * (m
            * m * m * m * (m * m * m)),
        m * m * m * m * (m * m * m) * (m * m),
    )) by (nonlinear_arith)
        requires
            c == b.chain(f0, f1, f2, f3),
            f1 == Frac::of(-1, m * m),
            f2 == Frac::of(2 * s, m * m * m),
            f3 == Frac::of(-6, m * m * m * m),
            b.v1 == Frac::of(b1, 1),
            b.v2 == Frac::of(b2, 1),
            b.v3 == Frac::of(b3, 1),
    ;
}

} // verus!
