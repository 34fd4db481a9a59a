//! A small library of verified building blocks: checked integer helpers,
//! rectangle geometry, string manipulation, slice aggregation, a builder,
//! and article summaries. Each function that computes something carries a
//! contract that pins down its result.

pub mod arithmetic;
pub mod builder;
pub mod front_of_house;
pub mod geometry;
pub mod sequences;
pub mod summary;
pub mod text;

pub use crate::arithmetic::add_one;
pub use crate::arithmetic::add_two;
pub use crate::front_of_house::hosting;
