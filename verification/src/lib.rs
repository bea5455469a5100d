//! A 24-bit signed integer type, with wrapping and checked arithmetic, bitwise
//! operations, and conversions to and from `i32`, bytes and strings.
#![allow(non_camel_case_types)]

pub mod spec;
pub mod int24;
pub mod ops;
pub mod ops_ref;
pub mod order;
pub mod order_laws;
pub mod numeral;
pub mod parse;
pub mod laws;

pub use int24::i24;
pub use parse::ParseI24Error;
