//! IEEE 754 binary64 numbers as bit patterns: what a pattern stands for, how a
//! real number is rounded to one, and the arithmetic built on both.
pub mod accuracy;
mod encode;
mod fields;
pub mod integer;
pub mod model;
pub mod order;
pub mod product;
pub mod rounding;
pub mod sum;
