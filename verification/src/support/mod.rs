//! Sizes of values of other crates.

pub mod big_int;
pub mod calendar;
pub mod clock;
pub mod decimal;
pub mod hashers;
pub mod shared_str;
