//! Smaller exercises.

pub mod generics_1;
pub mod iterators_1;
