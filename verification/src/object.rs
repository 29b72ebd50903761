//! A compiled artifact.

use vstd::prelude::*;

verus! {

/// A compiled DXIL artifact: the container's bytes, and whether the shader
/// needs runtime data bound.
pub struct DxilObject {
    binary: Vec<u8>,
    requires_runtime_data: bool,
}

impl DxilObject {
    /// The bytes of the container.
    pub closed spec fn bytes(&self) -> Seq<u8> {
        self.binary@
    }

    /// Whether the shader needs runtime data bound.
    pub closed spec fn spec_requires_runtime_data(&self) -> bool {
        self.requires_runtime_data
    }

    /// An artifact of the given bytes and need.
    pub fn new(binary: Vec<u8>, requires_runtime_data: bool) -> (object: DxilObject)
        ensures
            object.bytes() == binary@,
            object.spec_requires_runtime_data() == requires_runtime_data,
    {
        DxilObject { binary, requires_runtime_data }
    }

    /// Whether the shader needs runtime data bound.
    pub fn requires_runtime_data(&self) -> (needed: bool)
        ensures
            needed == self.spec_requires_runtime_data(),
    {
        self.requires_runtime_data
    }

    /// The bytes of the container.
    pub fn as_slice(&self) -> (bytes: &[u8])
        ensures
            bytes@ == self.bytes(),
    {
        self.binary.as_slice()
    }
}

} // verus!
