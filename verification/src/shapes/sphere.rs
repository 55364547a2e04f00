use vstd::prelude::*;
use super::{Shape, FOUR_THIRDS_TRUNC, PI_TRUNC};
use crate::utils::math::{div_trunc, Numeric, Ops};

verus! {

/// A sphere over the numeric domain `T`. As for the circle, both the radius
/// and the diameter are stored, the missing one derived once at
/// construction time.
pub struct Sphere<T: Numeric> {
    radius: T,
    diameter: T,
}

/// The sphere surface formula in an integer domain: `4 * pi * r * r` with
/// pi entering as its truncation 3, so exactly `12 * r * r`.
pub open spec fn sphere_area(r: int) -> int {
    4 * (PI_TRUNC as int) * (r * r)
}

/// The sphere volume formula in an integer domain: the 4/3 factor enters as
/// the single projected constant 1 and pi as 3, so exactly `3 * r * r * r`.
pub open spec fn sphere_volume(r: int) -> int {
    (FOUR_THIRDS_TRUNC as int) * (PI_TRUNC as int) * (r * r * r)
}

/// The circumference formula in an integer domain: `2 * pi * r` with pi
/// entering as 3, so exactly `6 * r`.
pub open spec fn sphere_circumference(r: int) -> int {
    2 * (PI_TRUNC as int) * r
}

impl<T: Numeric> Sphere<T> {
    /// The stored radius, as the domain's integer.
    pub closed spec fn radius_int(self) -> int {
        self.radius.as_int()
    }

    /// The stored diameter, as the domain's integer.
    pub closed spec fn diameter_int(self) -> int {
        self.diameter.as_int()
    }

    /// The radius/diameter consistency every constructor establishes, to
    /// within the domain's own truncation rule: one field is the other's
    /// derivation. The fields never change afterwards, so it holds for the
    /// sphere's whole life.
    pub open spec fn consistent(self) -> bool {
        self.diameter_int() == 2 * self.radius_int() || self.radius_int() == div_trunc(
            self.diameter_int(),
            2,
        )
    }

    /// Builds the sphere from its radius; the diameter is derived as the
    /// doubled radius.
    pub fn new_with_radius(radius: T) -> (s: Self)
        requires
            T::min_int() <= 2 * radius.as_int() <= T::max_int(),
        ensures
            s.radius_int() == radius.as_int(),
            s.diameter_int() == 2 * radius.as_int(),
            s.consistent(),
    {
        Self { radius, diameter: radius.times(T::from_trunc(2)) }
    }

    /// Builds the sphere from its diameter; the radius is derived as the
    /// halved diameter, rounded toward zero as the domain's division
    /// rounds, so an odd diameter loses its remainder by design.
    pub fn new_with_diameter(diameter: T) -> (s: Self)
        ensures
            s.diameter_int() == diameter.as_int(),
            s.radius_int() == div_trunc(diameter.as_int(), 2),
            s.consistent(),
    {
        Self { diameter, radius: Ops::half(diameter) }
    }

    pub fn diameter(&self) -> (d: T)
        ensures
            d.as_int() == self.diameter_int(),
    {
        self.diameter
    }

    pub fn radius(&self) -> (r: T)
        ensures
            r.as_int() == self.radius_int(),
    {
        self.radius
    }

    /// The great-circle circumference, `2 * pi * r` with pi projected into
    /// the domain.
    pub fn circumference(&self) -> (c: T)
        requires
            T::min_int() <= sphere_circumference(self.radius_int()) <= T::max_int(),
        ensures
            c.as_int() == sphere_circumference(self.radius_int()),
    {
        proof {
            T::bounds();
        }
        T::from_trunc(2).times(T::from_trunc(PI_TRUNC)).times(self.radius)
    }
}

impl<T: Numeric> Shape<T> for Sphere<T> {
    open spec fn area_value(&self) -> int {
        sphere_area(self.radius_int())
    }

    open spec fn area_in_range(&self) -> bool {
        self.radius_int() * self.radius_int() <= T::max_int() && sphere_area(self.radius_int())
            <= T::max_int()
    }

    open spec fn volume_value(&self) -> int {
        sphere_volume(self.radius_int())
    }

    open spec fn volume_in_range(&self) -> bool {
        self.radius_int() * self.radius_int() <= T::max_int() && T::min_int() <= self.radius_int()
            * self.radius_int() * self.radius_int() <= T::max_int() && T::min_int()
            <= sphere_volume(self.radius_int()) <= T::max_int()
    }

    fn area(&self) -> (a: T) {
        proof {
            T::bounds();
            assert(4 * (PI_TRUNC as int) * (self.radius_int() * self.radius_int()) >= 0)
                by (nonlinear_arith);
        }
        T::from_trunc(4).times(T::from_trunc(PI_TRUNC)).times(Ops::square(self.radius))
    }

    fn volume(&self) -> (v: T) {
        proof {
            T::bounds();
        }
        let factor = T::from_trunc(FOUR_THIRDS_TRUNC).times(T::from_trunc(PI_TRUNC));
        factor.times(Ops::cube(self.radius))
    }
}

} // verus!
