//! Generic numeric utilities: the capability contract a numeric domain must
//! satisfy, and the arithmetic helpers the shape formulas are built from.

pub mod math;

pub use math::Numeric;
pub use math::Ops;
pub use math::div_trunc;
