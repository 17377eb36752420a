//! Fixed-width arbitrary-precision integers: an unsigned 256-bit type and a
//! signed type bounded by a 255-bit magnitude, both built on `num`'s big
//! integers, with strict overflow enforcement and base-10 text serialization.

pub mod numeral;
pub mod bigops;
pub mod unsigned;
pub mod signed;

pub use numeral::ParseError;
pub use unsigned::Uint256;
pub use signed::Int256;
