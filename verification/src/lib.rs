//! A byte codec for points of the BN254 G1 group, together with the contract
//! of the accelerated point operations that a host environment may supply.
//!
//! A point travels in a fixed 64-byte little-endian layout: the x coordinate's
//! 32 little-endian bytes first, then the y coordinate's. The field and group
//! arithmetic itself comes from the `substrate_bn` crate; this crate owns the
//! byte layout, the handling of the identity element, and the error reporting.

pub mod bridge;
pub mod codec;
pub mod field;
pub mod point;

pub use codec::generator_le;
pub use codec::le_to_point;
pub use codec::point_to_le;
pub use codec::Coordinate;
pub use codec::DecodingError;
pub use codec::EncodingError;
pub use field::read_fq;
pub use point::new_g1_point;
