//! Exact arithmetic foundations: dyadic-fraction intervals with sound
//! directed rounding, and modular-integer rings over arbitrary moduli.
//!
//! The interval engine encloses real values in `[a / 2^n, b / 2^n]`
//! and rounds every operation outward, so an interval never loses a
//! value it stood for.  The modular layer defines what a modulus is,
//! what it means to reduce, add, negate, multiply and exponentiate
//! under it without overflow at any width, and builds a modular
//! integer with checked and unchecked division via modular inversion.

pub mod arith;
pub mod bigint;
pub mod euclid;
pub mod interval_arithmetic;
pub mod mod_int;
pub mod polynomial;
pub mod rational;
