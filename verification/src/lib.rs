//! Two small verified components: summation of an inclusive integer range,
//! and construction of a greeting string.

pub mod greeting;
pub mod summation;
