//! Cartesian and spherical coordinates of points in three dimensions.
//!
//! Every component is a double-precision number, held as its IEEE 754
//! binary64 bit pattern (what `f64::to_bits` gives), so that validation and
//! the case analysis of the conversion are decided on integers and proved.
//! Arithmetic on the numbers themselves (roots, arctangents, rounding) is
//! left to the caller, who hands its results in as bit patterns.

pub mod binary64;
pub mod cartesian;
pub mod conversion;
pub mod coordinate;
pub mod spherical;
pub mod value;
