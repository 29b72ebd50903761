//! What the builders of runtime data share.

use vstd::prelude::*;

verus! {

/// A vector of three items.
#[derive(Debug, Default, Copy, Clone)]
pub struct Vec3<T> {
    pub x: T,
    pub y: T,
    pub z: T,
}

/// A builder of runtime data.
pub trait RuntimeDataBuilder<T> {
    /// Consumes the builder and gives the finished data.
    fn build(self) -> T;
}

} // verus!
