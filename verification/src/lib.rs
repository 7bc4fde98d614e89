//! Small, self-contained building blocks, each stated with a contract and
//! proved against it.

pub mod builder;
pub mod challenge1;
pub mod cli;
pub mod conversion;
pub mod dispatch;
pub mod error;
pub mod iterators;
pub mod oop_pattern;
pub mod partial_eq;
pub mod sandbox;
pub mod smart_pointers;
pub mod traits;
