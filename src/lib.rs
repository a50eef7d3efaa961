//! Range and bounds checking for ordered values.
//!
//! A value can be tested against any of the standard range forms
//! (`a..b`, `a..=b`, `a..`, `..b`, `..=b` and `..`), either as a plain
//! membership test or as a check that hands the value back on success and a
//! structured error, holding the value and the range's bounds, on failure.
pub mod bounds;
pub mod interval;
pub mod check;
pub mod result;
pub mod text;

pub use bounds::{copy_bound, Bounds};
pub use check::{Check, OutOfRangeError};
pub use interval::{Bounded, Contains, Within};
