//! Shortest round-trip decimal conversion (the Ryu algorithm) for IEEE-754
//! binary floating point.
//!
//! Given the raw bit pattern of a finite 64-bit or 32-bit float, the library
//! produces the decimal representation `(-1)^sign * mantissa * 10^exponent`
//! with the fewest significant digits that still parses back, under
//! round-to-nearest-even, to the exact original bit pattern.

pub mod common;
pub mod d2s;
pub mod f2s;
pub mod intrinsics;
pub mod tables;

pub use d2s::FloatingDecimal64;
pub use d2s::d2d;
pub use f2s::FloatingDecimal32;
pub use f2s::f2d;
