//! Integers tagged with the byte order in which they are stored.
//!
//! [`BigEndian`] and [`LittleEndian`] hold an unsigned integer whose stored
//! bits are already arranged in the named order; [`Endian`] is the capability
//! an integer type needs to be wrapped by them.

pub mod big;
pub mod bytes;
pub mod endian;
pub mod laws;
pub mod little;
pub mod native;
pub mod reversal;

pub use big::BigEndian;
pub use endian::Endian;
pub use little::LittleEndian;
