//! A keyed, non-cryptographic streaming hash over arbitrary byte streams.
//!
//! The hasher keeps one 64-bit accumulator, seeded from two caller-supplied
//! keys, updates it through a pair of multiply-rotate-multiply transforms,
//! and reads a 64-bit digest off it at any time.  Every operation is
//! specified against the pure model in [`mixing`] and verified; [`laws`]
//! proves the properties the design is meant to have.

pub mod hasher;
pub mod laws;
pub mod mixing;

pub use hasher::AHasher;
pub use hasher::load_u16_le;
pub use hasher::load_u32_le;
pub use hasher::load_u64_le;
