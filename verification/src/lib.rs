//! A small generic geometry library: a closed set of solids (circle, sphere,
//! cube, rectangular prism) whose area and volume formulas are written once
//! and parameterized over the numeric domain through an explicit capability
//! trait, plus a few standalone leaf functions on basic values.
//!
//! Every formula constant (pi, 2, 4, 6, 4/3) enters a shape's numeric domain
//! by projection: the 64-bit floating constant is narrowed into the domain
//! exactly once, truncating toward zero, before any further arithmetic. An
//! integer-domain shape therefore computes with pi as 3 and 4/3 as 1 by
//! design; the contracts here state those truncated results exactly.

pub mod arrays;
pub mod declaring_vars;
pub mod integers;
pub mod shapes;
pub mod utils;
