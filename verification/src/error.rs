//! What can go wrong when SPIR-V is compiled.

use crate::enums::ShaderModel;
use vstd::prelude::*;

verus! {

/// An error of the compilation.
#[derive(Debug)]
pub enum SpirvToDxilError {
    /// The compiler failed; the text is what it logged.
    CompilerError(String),
    /// The register space asked for a push or runtime constant block is
    /// beyond the limit of 31.
    RegisterSpaceOverflow(u32),
    /// The shader model asked for is not one that this kind of output has.
    InvalidShaderModel(ShaderModel),
}

} // verus!
