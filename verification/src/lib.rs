//! Compiling SPIR-V to DXIL and DXBC containers: the checksum that signs a
//! compiled container, and the rules and data that surround the native
//! compiler.
//!
//! The checksum is a block hash with a padding of its own. [`transform`]
//! mixes one 64-byte block into four state words, [`Context`] takes in
//! bytes and transforms each block as it fills, and [`sign`] and
//! [`sign_in_place`] close the digest of a container's payload and write it
//! into the container's slot.

pub mod bytes;
pub mod callbacks;
pub mod config;
pub mod context;
pub mod dxbc;
pub mod dxil;
pub mod enums;
pub mod error;
pub mod logger;
pub mod object;
pub mod runtime;
pub mod signing;
pub mod text;
pub mod transform;

pub use context::Context;
pub use signing::{sign, sign_in_place};
pub use transform::transform;
