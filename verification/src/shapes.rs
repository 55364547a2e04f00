//! The closed set of solids and the uniform measurement contract they share.

use vstd::prelude::*;
use crate::utils::math::Numeric;

pub mod circle;
pub mod cube;
pub mod prism;
pub mod sphere;

pub use circle::Circle;
pub use cube::Cube;
pub use prism::Prism;
pub use sphere::Sphere;

verus! {

/// Pi, truncated toward zero: what projecting the 64-bit floating constant
/// 3.14159... into an integer domain produces.
pub const PI_TRUNC: u8 = 3;

/// 4/3, computed once as a 64-bit floating division (1.333...) and then
/// truncated toward zero by the projection into an integer domain. The
/// factor enters the sphere volume formula as this single projected
/// constant, never as two domain-level divisions.
pub const FOUR_THIRDS_TRUNC: u8 = 1;

/// The uniform measurement contract: every solid yields its area and its
/// volume in the numeric domain it was built over. The two spec functions
/// beside each measurement give the exact integer the formula produces and
/// the range condition under which the domain can hold every intermediate
/// step of that formula.
pub trait Shape<T: Numeric> {
    /// The exact integer the shape's area formula yields in this domain.
    spec fn area_value(&self) -> int;

    /// Whether every step of the area formula stays within the domain.
    spec fn area_in_range(&self) -> bool;

    /// The exact integer the shape's volume formula yields in this domain.
    spec fn volume_value(&self) -> int;

    /// Whether every step of the volume formula stays within the domain.
    spec fn volume_in_range(&self) -> bool;

    fn area(&self) -> (a: T)
        requires
            self.area_in_range(),
        ensures
            a.as_int() == self.area_value(),
    ;

    fn volume(&self) -> (v: T)
        requires
            self.volume_in_range(),
        ensures
            v.as_int() == self.volume_value(),
    ;
}

} // verus!
