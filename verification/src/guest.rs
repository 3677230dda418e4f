//! The computations of the guest modules that work on integers.

pub mod append;
pub mod mean_int;
