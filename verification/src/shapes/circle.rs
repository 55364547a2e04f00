use vstd::prelude::*;
use super::{Shape, PI_TRUNC};
use crate::utils::math::{div_trunc, Numeric, Ops};

verus! {

/// A circle over the numeric domain `T`. Both the radius and the diameter
/// are stored: whichever field the constructor was not given is derived
/// once, at construction time, and never recomputed.
pub struct Circle<T: Numeric> {
    radius: T,
    diameter: T,
}

/// The circle area formula in an integer domain: pi enters as its
/// truncation 3, so the area of radius `r` is exactly `3 * r * r`.
pub open spec fn circle_area(r: int) -> int {
    (PI_TRUNC as int) * (r * r)
}

impl<T: Numeric> Circle<T> {
    /// The stored radius, as the domain's integer.
    pub closed spec fn radius_int(self) -> int {
        self.radius.as_int()
    }

    /// The stored diameter, as the domain's integer.
    pub closed spec fn diameter_int(self) -> int {
        self.diameter.as_int()
    }

    /// The radius/diameter consistency every constructor establishes, to
    /// within the domain's own truncation rule: one field is the other's
    /// derivation. The fields never change afterwards, so it holds for the
    /// circle's whole life.
    pub open spec fn consistent(self) -> bool {
        self.diameter_int() == 2 * self.radius_int() || self.radius_int() == div_trunc(
            self.diameter_int(),
            2,
        )
    }

    /// Builds the circle from its radius; the diameter is derived as the
    /// doubled radius.
    pub fn new_with_radius(radius: T) -> (c: Self)
        requires
            T::min_int() <= 2 * radius.as_int() <= T::max_int(),
        ensures
            c.radius_int() == radius.as_int(),
            c.diameter_int() == 2 * radius.as_int(),
            c.consistent(),
    {
        Self { radius, diameter: radius.times(T::from_trunc(2)) }
    }

    /// Builds the circle from its diameter; the radius is derived as the
    /// halved diameter, rounded toward zero as the domain's division
    /// rounds. An odd diameter in an integer domain therefore loses its
    /// remainder, by design.
    pub fn new_with_diameter(diameter: T) -> (c: Self)
        ensures
            c.diameter_int() == diameter.as_int(),
            c.radius_int() == div_trunc(diameter.as_int(), 2),
            c.consistent(),
    {
        Self { diameter, radius: Ops::half(diameter) }
    }

    pub fn radius(&self) -> (r: T)
        ensures
            r.as_int() == self.radius_int(),
    {
        self.radius
    }

    pub fn diameter(&self) -> (d: T)
        ensures
            d.as_int() == self.diameter_int(),
    {
        self.diameter
    }
}

impl<T: Numeric> Shape<T> for Circle<T> {
    open spec fn area_value(&self) -> int {
        circle_area(self.radius_int())
    }

    open spec fn area_in_range(&self) -> bool {
        self.radius_int() * self.radius_int() <= T::max_int() && circle_area(self.radius_int())
            <= T::max_int()
    }

    open spec fn volume_value(&self) -> int {
        0
    }

    open spec fn volume_in_range(&self) -> bool {
        true
    }

    fn area(&self) -> (a: T) {
        proof {
            T::bounds();
            assert((PI_TRUNC as int) * (self.radius_int() * self.radius_int()) >= 0)
                by (nonlinear_arith);
        }
        let pi = T::from_trunc(PI_TRUNC);
        pi.times(Ops::square(self.radius))
    }

    /// A circle is a plane figure: its volume is the domain's zero, for
    /// every constructible circle, and yielding it can never fail.
    fn volume(&self) -> (v: T) {
        T::from_trunc(0)
    }
}

/// A circle's volume is total and exactly zero: whatever the domain and
/// whatever the circle, `volume` owes an answer and that answer is the
/// domain's zero.
pub proof fn lemma_circle_volume_zero<T: Numeric>(c: Circle<T>)
    ensures
        c.volume_in_range(),
        c.volume_value() == 0,
{
}

/// Round trip through the derived diameter: a circle built from a
/// non-negative radius has diameter `2 * r`, and halving that diameter the
/// way `new_with_diameter` does recovers the radius exactly — doubling
/// never makes the division lossy.
pub proof fn lemma_radius_round_trip(r: int)
    requires
        0 <= r,
    ensures
        div_trunc(2 * r, 2) == r,
{
    assert((2 * r) / 2 == r) by (nonlinear_arith);
}

/// The documented loss in the other direction: halving a diameter and
/// doubling the result gives the diameter back exactly when the diameter
/// was even; an odd diameter's remainder is discarded, by design of the
/// integer domains.
pub proof fn lemma_diameter_round_trip(d: int)
    ensures
        (2 * div_trunc(d, 2) == d) <==> (d % 2 == 0),
{
    if d >= 0 {
        assert(d == 2 * (d / 2) + d % 2) by (nonlinear_arith);
        assert(0 <= d % 2 < 2) by (nonlinear_arith);
    } else {
        assert(-d == 2 * ((-d) / 2) + (-d) % 2) by (nonlinear_arith);
        assert(0 <= (-d) % 2 < 2) by (nonlinear_arith);
        assert((-d) % 2 == d % 2) by (nonlinear_arith);
    }
}

} // verus!
